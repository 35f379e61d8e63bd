//! Regular expressions over page text, through the `regex` crate.
use vstd::prelude::*;

verus! {

#[verifier::external_type_specification]
#[verifier::external_body]
pub struct ExRegex(regex::Regex);

/// What group 1 of the leftmost match of `pattern` in `text` covers: `None`
/// where nothing matches, or the match leaves group 1 unset.
pub uninterp spec fn first_capture(pattern: Seq<char>, text: Seq<char>) -> Option<Seq<char>>;

/// For each successive non-overlapping match of `pattern` in `text`, from
/// left to right, what its group 1 covers (`None` where it is unset).
pub uninterp spec fn all_captures(pattern: Seq<char>, text: Seq<char>) -> Seq<Option<Seq<char>>>;

/// The characters of an optional string.
pub open spec fn opt_chars(o: Option<String>) -> Option<Seq<char>> {
    match o {
        Some(s) => Some(s@),
        None => None,
    }
}

/// Relies on `regex::Regex::new`: it compiles the pattern, or fails on a
/// pattern that is not valid syntax or is too large.
#[verifier::external_body]
fn compile(source: &str) -> (r: Option<regex::Regex>) {
    regex::Regex::new(source).ok()
}

/// A compiled regular expression together with its source text.
///
/// The fields are private and only [`Pattern::new`] fills them, so `re` is
/// always the compilation of `source`; the search functions below state their
/// results over `source`.
pub struct Pattern {
    source: String,
    re: regex::Regex,
}

impl Pattern {
    /// The source text the pattern was compiled from.
    pub closed spec fn source(&self) -> Seq<char> {
        self.source@
    }

    /// Compiles `source`; `None` where the regex engine rejects it.
    pub fn new(source: &str) -> (r: Option<Pattern>)
        ensures
            r matches Some(p) ==> p.source() == source@,
    {
        match compile(source) {
            Some(re) => Some(Pattern { source: String::from_str(source), re }),
            None => None,
        }
    }
}

/// Relies on `regex::Regex::captures` and `regex::Captures::get(1)`: the
/// leftmost match and what its group 1 covers.
#[verifier::external_body]
pub(crate) fn first_group(p: &Pattern, text: &str) -> (r: Option<String>)
    ensures
        opt_chars(r) == first_capture(p.source(), text@),
{
    match p.re.captures(text) {
        Some(c) => c.get(1).map(|m| m.as_str().to_string()),
        None => None,
    }
}

/// Relies on `regex::Regex::captures_iter` and `regex::Captures::get(1)`:
/// every non-overlapping match from left to right, and what its group 1 covers.
#[verifier::external_body]
pub(crate) fn all_groups(p: &Pattern, text: &str) -> (r: Vec<Option<String>>)
    ensures
        r@.len() == all_captures(p.source(), text@).len(),
        forall|i: int|
            0 <= i < r@.len() ==> opt_chars(#[trigger] r@[i]) == all_captures(p.source(), text@)[i],
{
    p.re.captures_iter(text).map(|c| c.get(1).map(|m| m.as_str().to_string())).collect()
}

} // verus!
