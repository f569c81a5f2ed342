//! The words on the command line.

use vstd::prelude::*;

verus! {

/// What the command line asks for.
#[derive(Debug, Clone, Copy, PartialEq, Eq, Structural)]
pub enum Invocation {
    /// To print how the program is used, and stop.
    Help,
    /// To print an example of the settings file, and stop.
    SettingsExample,
    /// To run.
    Run,
}

/// Whether `arg` asks for help.
pub open spec fn is_help(arg: Seq<char>) -> bool {
    arg == "-h"@ || arg == "--help"@
}

/// Whether `arg` asks for the example of the settings file.
pub open spec fn is_settings_example(arg: Seq<char>) -> bool {
    arg == "show-settings-example"@
}

/// What the arguments ask for. A call for help anywhere among them goes
/// before all else, and the example of the settings before running.
pub open spec fn invocation_of(args: Seq<String>) -> Invocation {
    if exists|at: int| 0 <= at < args.len() && is_help(#[trigger] args[at]@) {
        Invocation::Help
    } else if exists|at: int| 0 <= at < args.len() && is_settings_example(#[trigger] args[at]@) {
        Invocation::SettingsExample
    } else {
        Invocation::Run
    }
}

/// Tells what the arguments of the program ask for.
pub fn check_args(args: &Vec<String>) -> (invocation: Invocation)
    ensures
        invocation == invocation_of(args@),
{
    let short = String::from_str("-h");
    let long = String::from_str("--help");
    let example = String::from_str("show-settings-example");
    let mut example_asked = false;
    let mut at: usize = 0;
    while at < args.len()
        invariant
            at <= args.len(),
            short@ == "-h"@,
            long@ == "--help"@,
            example@ == "show-settings-example"@,
            forall|seen: int| 0 <= seen < at ==> !is_help(#[trigger] args[seen]@),
            example_asked <==> exists|seen: int|
                0 <= seen < at && is_settings_example(#[trigger] args[seen]@),
        decreases args.len() - at,
    {
        if args[at] == short || args[at] == long {
            return Invocation::Help;
        }
        if args[at] == example {
            example_asked = true;
        }
        at += 1;
    }
    if example_asked {
        Invocation::SettingsExample
    } else {
        Invocation::Run
    }
}

} // verus!
