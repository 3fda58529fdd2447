//! Searching a text for a regular expression.

use vstd::prelude::*;

verus! {

/// A text cut at the first match of a pattern.
#[derive(Debug)]
pub struct RegexCut {
    /// The text before the match.
    pub before: String,
    /// The text of the match.
    pub matched: String,
    /// The text of each capture group of the pattern, in their order,
    /// where the group took part in the match.
    pub groups: Vec<Option<String>>,
    /// The text behind the match.
    pub after: String,
}

/// The value of a [`RegexCut`].
pub struct RegexCutView {
    pub before: Seq<char>,
    pub matched: Seq<char>,
    pub groups: Seq<Option<Seq<char>>>,
    pub after: Seq<char>,
}

impl View for RegexCut {
    type V = RegexCutView;

    open spec fn view(&self) -> RegexCutView {
        RegexCutView {
            before: self.before@,
            matched: self.matched@,
            groups: Seq::new(
                self.groups@.len(),
                |i: int|
                    match self.groups@[i] {
                        Some(text) => Some(text@),
                        None => None,
                    },
            ),
            after: self.after@,
        }
    }
}

impl RegexCutView {
    /// The text of capture group `i`, counted from 1, where the group took
    /// part in the match.
    pub open spec fn group(self, i: int) -> Option<Seq<char>> {
        if 1 <= i <= self.groups.len() {
            self.groups[i - 1]
        } else {
            None
        }
    }
}

/// The value of an optional [`RegexCut`].
pub open spec fn cut_of(cut: Option<RegexCut>) -> Option<RegexCutView> {
    match cut {
        Some(cut) => Some(cut@),
        None => None,
    }
}

/// Where the `regex` crate finds the first match of a pattern in a text,
/// as the text before the match, the match with its capture groups and the
/// text behind it; nothing where the pattern does not match, or is no
/// regular expression.
pub uninterp spec fn regex_cut_of(pattern: Seq<char>, text: Seq<char>) -> Option<RegexCutView>;

/// Searches `text` for the leftmost match of `pattern` with
/// `regex::Regex::captures` and cuts the text at the match. The three parts
/// are consecutive pieces of the text: joined again they give the text.
#[verifier::external_body]
pub(crate) fn regex_cut(pattern: &str, text: &str) -> (r: Option<RegexCut>)
    ensures
        cut_of(r) == regex_cut_of(pattern@, text@),
        r matches Some(cut) ==> cut.before@ + cut.matched@ + cut.after@ == text@,
{
    let caps = regex::Regex::new(pattern).ok()?.captures(text)?;
    let whole = caps.get(0)?;
    Some(RegexCut {
        before: text[..whole.start()].to_string(),
        matched: whole.as_str().to_string(),
        groups: caps.iter().skip(1).map(|g| g.map(|m| m.as_str().to_string())).collect(),
        after: text[whole.end()..].to_string(),
    })
}

impl RegexCut {
    /// The text of capture group `i`, counted from 1.
    pub fn group(&self, i: usize) -> (r: Option<&String>)
        ensures
            r is Some <==> self@.group(i as int) is Some,
            r matches Some(text) ==> Some(text@) == self@.group(i as int),
    {
        if 1 <= i && i <= self.groups.len() {
            self.groups[i - 1].as_ref()
        } else {
            None
        }
    }
}

/// `text` up to the first match of `pattern`, and all of it where the
/// pattern does not match.
pub open spec fn before_match(pattern: Seq<char>, text: Seq<char>) -> Seq<char> {
    match regex_cut_of(pattern, text) {
        Some(cut) => cut.before,
        None => text,
    }
}

/// `text` without the first match of `pattern`.
pub open spec fn without_match(pattern: Seq<char>, text: Seq<char>) -> Seq<char> {
    match regex_cut_of(pattern, text) {
        Some(cut) => cut.before + cut.after,
        None => text,
    }
}

/// Cuts `text` off at the first match of `pattern`.
pub fn truncate_at_match(pattern: &str, text: String) -> (r: String)
    ensures
        r@ == before_match(pattern@, text@),
{
    match regex_cut(pattern, text.as_str()) {
        Some(cut) => cut.before,
        None => text,
    }
}

/// Takes the first match of `pattern` out of `text`.
pub fn remove_match(pattern: &str, text: String) -> (r: String)
    ensures
        r@ == without_match(pattern@, text@),
{
    match regex_cut(pattern, text.as_str()) {
        Some(cut) => {
            let RegexCut { before, matched: _, groups: _, after } = cut;
            vstd::string::StringExecFns::concat(before, after.as_str())
        },
        None => text,
    }
}

} // verus!
