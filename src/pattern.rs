use vstd::prelude::*;

verus! {

/// What the regular expression `pattern` captures in group `group` on its
/// first match in `text`; `None` where the pattern is invalid, does not match,
/// or the group takes no part in the match.
pub uninterp spec fn named_capture_of(
    pattern: Seq<char>,
    text: Seq<char>,
    group: Seq<char>,
) -> Option<Seq<char>>;

/// Relies on `regex::Regex::new` and `regex::Regex::captures`: the text that
/// group `group` of `pattern` captures in its first match in `text`.
#[verifier::external_body]
pub(crate) fn named_capture(pattern: &str, text: &str, group: &str) -> (r: Option<String>)
    ensures
        r is Some <==> named_capture_of(pattern@, text@, group@) is Some,
        r is Some ==> r->0@ == named_capture_of(pattern@, text@, group@)->0,
{
    let re = regex::Regex::new(pattern).ok()?;
    re.captures(text).and_then(|c| c.name(group)).map(|m| m.as_str().to_owned())
}

} // verus!
