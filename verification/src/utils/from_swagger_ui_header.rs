//! Telling the requests that come from the API browser (Swagger UI) from
//! the others, so that a response too large for the browser to render can
//! be cut short for it. A request is taken to come from there if the page
//! that it names as its referrer is the browser's.

use vstd::prelude::*;

verus! {

/// `text` without the run of `pad` at its end.
pub open spec fn trim_end(text: Seq<char>, pad: char) -> Seq<char>
    decreases text.len(),
{
    if text.len() > 0 && text.last() == pad {
        trim_end(text.drop_last(), pad)
    } else {
        text
    }
}

/// `text` without the run of `pad` at its start.
pub open spec fn trim_start(text: Seq<char>, pad: char) -> Seq<char>
    decreases text.len(),
{
    if text.len() > 0 && text.first() == pad {
        trim_start(text.drop_first(), pad)
    } else {
        text
    }
}

/// `text` without the runs of `pad` at its start and at its end.
pub open spec fn trim(text: Seq<char>, pad: char) -> Seq<char> {
    trim_end(trim_start(text, pad), pad)
}

/// Whether `text` ends in `end`.
pub open spec fn ends_with(text: Seq<char>, end: Seq<char>) -> bool {
    end.len() <= text.len() && text.subrange(text.len() - end.len(), text.len() as int) == end
}

/// Whether a request that names `referer` as its referrer comes from the
/// API browser served under `swagger_ui_url`: whether the referrer, but for
/// slashes at its end, ends in that path, but for slashes around it.
pub open spec fn refers_to_swagger_ui(swagger_ui_url: Seq<char>, referer: Seq<char>) -> bool {
    ends_with(trim_end(referer, '/'), trim(swagger_ui_url, '/'))
}

/// The name of the header that marks a request from the API browser, in
/// the lower case that header names are held in.
pub const HEADER_NAME: &'static str = "from-swagger-ui";

/// The mark of a request that comes from the API browser. On a request it
/// travels as a header of the name [`HEADER_NAME`], whose value says
/// nothing.
#[derive(Debug, Clone, Copy, PartialEq, Eq, Structural)]
pub struct FromSwaggerUi;

impl FromSwaggerUi {
    /// The name of the header.
    pub fn name() -> (name: &'static str)
        ensures
            name@ == HEADER_NAME@,
    {
        HEADER_NAME
    }
}

/// The characters of a text.
fn chars_of(text: &str) -> (chars: Vec<char>)
    ensures
        chars@ == text@,
{
    let mut chars: Vec<char> = Vec::new();
    for one in iter: text.chars()
        invariant
            iter.seq() == text@,
            chars@ == text@.take(iter.index() as int),
    {
        chars.push(one);
        assert(text@.take(iter.index() + 1) == text@.take(iter.index() as int).push(one));
    }
    assert(text@.take(text@.len() as int) == text@);
    chars
}

/// The end of `chars` once the run of `pad` at the end is left off.
fn trimmed_end(chars: &Vec<char>, from: usize, pad: char) -> (end: usize)
    requires
        from <= chars.len(),
    ensures
        from <= end <= chars.len(),
        chars@.subrange(from as int, end as int) == trim_end(
            chars@.subrange(from as int, chars.len() as int),
            pad,
        ),
{
    let mut end: usize = chars.len();
    while end > from && chars[end - 1] == pad
        invariant
            from <= end <= chars.len(),
            trim_end(chars@.subrange(from as int, end as int), pad) == trim_end(
                chars@.subrange(from as int, chars.len() as int),
                pad,
            ),
        decreases end,
    {
        assert(chars@.subrange(from as int, end as int).drop_last() == chars@.subrange(
            from as int,
            end - 1,
        ));
        end -= 1;
    }
    end
}

/// The start of `chars` once the run of `pad` at the start is left off.
fn trimmed_start(chars: &Vec<char>, pad: char) -> (start: usize)
    ensures
        start <= chars.len(),
        chars@.subrange(start as int, chars.len() as int) == trim_start(chars@, pad),
{
    let mut start: usize = 0;
    assert(chars@.subrange(0, chars.len() as int) == chars@);
    while start < chars.len() && chars[start] == pad
        invariant
            start <= chars.len(),
            trim_start(chars@.subrange(start as int, chars.len() as int), pad) == trim_start(
                chars@,
                pad,
            ),
        decreases chars.len() - start,
    {
        assert(chars@.subrange(start as int, chars.len() as int).drop_first() == chars@.subrange(
            start + 1,
            chars.len() as int,
        ));
        start += 1;
    }
    start
}

/// Marks a request that comes from the API browser served under
/// `swagger_ui_url`, going by the referrer that the request names, if it
/// names one that is text.
pub fn set_swagger_ui_header(swagger_ui_url: &str, referer: Option<&str>) -> (mark: Option<
    FromSwaggerUi,
>)
    ensures
        mark is Some <==> referer is Some && refers_to_swagger_ui(
            swagger_ui_url@,
            referer->0@,
        ),
{
    let named: &str = match referer {
        Some(named) => named,
        None => {
            return None;
        },
    };
    let page = chars_of(named);
    let path = chars_of(swagger_ui_url);
    let page_end: usize = trimmed_end(&page, 0, '/');
    let path_start: usize = trimmed_start(&path, '/');
    let path_end: usize = trimmed_end(&path, path_start, '/');
    let ghost text = trim_end(named@, '/');
    let ghost end = trim(swagger_ui_url@, '/');
    assert(page@.subrange(0, page.len() as int) == page@);
    assert(text == page@.subrange(0, page_end as int));
    assert(end == path@.subrange(path_start as int, path_end as int));
    let length: usize = path_end - path_start;
    if length > page_end {
        return None;
    }
    let offset: usize = page_end - length;
    let mut at: usize = 0;
    while at < length
        invariant
            at <= length,
            length == path_end - path_start,
            offset + length == page_end,
            page_end <= page.len(),
            path_end <= path.len(),
            referer == Some(named),
            text == trim_end(named@, '/'),
            end == trim(swagger_ui_url@, '/'),
            text == page@.subrange(0, page_end as int),
            end == path@.subrange(path_start as int, path_end as int),
            forall|seen: int| 0 <= seen < at ==> text[offset + seen] == #[trigger] end[seen],
        decreases length - at,
    {
        if page[offset + at] != path[path_start + at] {
            assert(text.subrange(text.len() - end.len(), text.len() as int)[at as int]
                != end[at as int]);
            return None;
        }
        at += 1;
    }
    assert(text.subrange(text.len() - end.len(), text.len() as int) =~= end);
    Some(FromSwaggerUi)
}

} // verus!
