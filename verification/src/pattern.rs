use vstd::prelude::*;

verus! {

/// Whether `regex::Regex::new` accepts the pattern: it is valid regex syntax
/// and compiles within the default size limit.
pub uninterp spec fn regex_compiles(pattern: Seq<char>) -> bool;

/// The text of capture group 1 in the leftmost-first match of `pattern` in
/// `text`; `None` when the pattern does not match or group 1 takes no part
/// in the match.
pub uninterp spec fn regex_first_group(pattern: Seq<char>, text: Seq<char>) -> Option<
    Seq<char>,
>;

#[verifier::external_type_specification]
#[verifier::external_body]
pub struct ExRegex(regex::Regex);

/// A compiled regular expression together with the pattern it was compiled
/// from.
pub struct FieldPattern {
    re: regex::Regex,
    source: String,
}

impl View for FieldPattern {
    type V = Seq<char>;

    closed spec fn view(&self) -> Seq<char> {
        self.source@
    }
}

impl FieldPattern {
    /// Compiles `pattern`.
    ///
    /// Trusted: `regex::Regex::new`. Its result is stated only as a name:
    /// whether it succeeds is `regex_compiles` of the pattern; the compiled
    /// value is kept beside a copy of the pattern.
    #[verifier::external_body]
    pub(crate) fn compile(pattern: &str) -> (res: Option<FieldPattern>)
        ensures
            res is Some <==> regex_compiles(pattern@),
            res matches Some(p) ==> p@ == pattern@,
    {
        match regex::Regex::new(pattern) {
            Ok(re) => Some(FieldPattern { re, source: pattern.to_string() }),
            Err(_) => None,
        }
    }

    /// The first capture group of the first match in `text`.
    ///
    /// Trusted: `regex::Regex::captures`, read through `Captures::get(1)` and
    /// `Match::as_str`. The result is stated only as the name
    /// `regex_first_group` applied to the pattern and the text.
    #[verifier::external_body]
    pub(crate) fn first_group(&self, text: &str) -> (res: Option<String>)
        ensures
            res.deep_view() == regex_first_group(self@, text@),
    {
        match self.re.captures(text) {
            Some(caps) => caps.get(1).map(|m| m.as_str().to_string()),
            None => None,
        }
    }
}

} // verus!
