//! Regular expressions, compiled by the `regex` crate.

use vstd::prelude::*;

use crate::text::opt_text;

verus! {

#[verifier::external_type_specification]
#[verifier::external_body]
pub struct ExRegex(regex::Regex);

/// Whether `regex::Regex::new` accepts a pattern (it is well formed and its
/// compiled size stays under the default limit).
pub uninterp spec fn regex_compiles(pattern: Seq<char>) -> bool;

/// The text of the leftmost-first match of `pattern` in `text`
/// (`regex::Regex::find`), if there is one.
pub uninterp spec fn regex_find(pattern: Seq<char>, text: Seq<char>) -> Option<Seq<char>>;

/// The capture groups of the leftmost-first match of `pattern` in `text`
/// (`regex::Regex::captures`): group 0 is the whole match, a group that took
/// no part in the match is `None`.
pub uninterp spec fn regex_captures(pattern: Seq<char>, text: Seq<char>) -> Option<Seq<Option<Seq<char>>>>;

pub open spec fn opt_texts(v: Seq<Option<String>>) -> Seq<Option<Seq<char>>> {
    v.map_values(|o: Option<String>| opt_text(o))
}

pub open spec fn groups_view(r: Option<Vec<Option<String>>>) -> Option<Seq<Option<Seq<char>>>> {
    match r {
        Some(v) => Some(opt_texts(v@)),
        None => None,
    }
}

/// Calls `regex::Regex::new`; the error is rendered as text.
#[verifier::external_body]
fn regex_new(source: &str) -> (r: Result<regex::Regex, String>)
    ensures
        r is Ok <==> regex_compiles(source@),
{
    match regex::Regex::new(source) {
        Ok(re) => Ok(re),
        Err(e) => Err(e.to_string()),
    }
}

/// A compiled regular expression together with its source. The only way to
/// make one is [`Pattern::new`], so the compiled form is always that of the
/// source.
pub struct Pattern {
    source: String,
    regex: regex::Regex,
}

impl Pattern {
    pub closed spec fn source_text(self) -> Seq<char> {
        self.source@
    }

    /// Compiles a pattern; the error is the `regex` crate's message.
    pub fn new(source: &str) -> (r: Result<Pattern, String>)
        ensures
            r is Ok <==> regex_compiles(source@),
            r matches Ok(p) ==> p.source_text() == source@,
    {
        match regex_new(source) {
            Ok(regex) => Ok(Pattern { source: source.to_string(), regex }),
            Err(e) => Err(e),
        }
    }

    /// The pattern's source text.
    pub fn source(&self) -> (r: &str)
        ensures
            r@ == self.source_text(),
    {
        self.source.as_str()
    }

    /// Calls `regex::Regex::find` and returns the matched text.
    #[verifier::external_body]
    pub(crate) fn find(&self, text: &str) -> (r: Option<String>)
        ensures
            opt_text(r) == regex_find(self.source_text(), text@),
    {
        match self.regex.find(text) {
            Some(m) => Some(m.as_str().to_string()),
            None => None,
        }
    }

    /// Calls `regex::Regex::captures` and returns the text of every group.
    #[verifier::external_body]
    pub(crate) fn captures(&self, text: &str) -> (r: Option<Vec<Option<String>>>)
        ensures
            groups_view(r) == regex_captures(self.source_text(), text@),
    {
        match self.regex.captures(text) {
            Some(caps) => Some(caps.iter().map(|g| match g {
                Some(m) => Some(m.as_str().to_string()),
                None => None,
            }).collect()),
            None => None,
        }
    }
}

} // verus!
