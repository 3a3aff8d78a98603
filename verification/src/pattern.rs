//! Compiled path predicates and the trusted bridge to the regex engines.
//!
//! A rule's pattern — a glob, a free-form regular expression, or a literal
//! extension — is compiled once at load time into a [`CompiledPattern`] and
//! then asked, per file, whether it matches a relative path given as bytes.
//! The outside matching engines are reached only through the trusted items in
//! this module; everything they are trusted for is recorded in the
//! uninterpreted names below, so the rest of the library is verified against
//! those names.

use vstd::prelude::*;

verus! {

#[verifier::external_type_specification]
#[verifier::external_body]
pub struct ExRegex(regex::bytes::Regex);

/// Whether `regex::bytes::RegexBuilder` accepts `pattern` as a valid regular
/// expression, with case-insensitivity set to `ci`.
pub uninterp spec fn regex_compiles(pattern: Seq<char>, ci: bool) -> bool;

/// What `regex::bytes::Regex::is_match` returns on `input` for the regex
/// built from `pattern` with case-insensitivity `ci`.
pub uninterp spec fn regex_match(pattern: Seq<char>, ci: bool, input: Seq<u8>) -> bool;

/// Whether `globset::GlobBuilder` accepts `glob` as a valid glob.
pub uninterp spec fn glob_compiles(glob: Seq<char>) -> bool;

/// The regular-expression text that `globset` derives for `glob` when built
/// case-insensitively.
pub uninterp spec fn glob_regex_of(glob: Seq<char>) -> Seq<char>;

/// The literal that `regex::escape` produces for `s`, with every regex meta
/// character escaped.
pub uninterp spec fn regex_escaped(s: Seq<char>) -> Seq<char>;

/// Why a pattern was rejected when the rules were loaded.
#[derive(Debug)]
pub struct PatternError {
    pub message: String,
}

/// A compiled byte-oriented path predicate, paired with the pattern text and
/// the case-insensitivity flag it was built from.
///
/// The fields stay private to this module: every value is made by
/// [`CompiledPattern::compile`], which is what keeps the compiled engine and
/// the recorded pattern in step, so that the contract of
/// [`CompiledPattern::is_match`] can speak of the pattern text alone.
#[derive(Debug)]
pub struct CompiledPattern {
    re: regex::bytes::Regex,
    pat: String,
    ci: bool,
}

impl CompiledPattern {
    /// The pattern text this predicate was compiled from.
    pub closed spec fn pattern(&self) -> Seq<char> {
        self.pat@
    }

    /// Whether this predicate matches case-insensitively.
    pub closed spec fn case_insensitive(&self) -> bool {
        self.ci
    }

    /// Relies on `regex::bytes::RegexBuilder::new`, `case_insensitive` and
    /// `build`: compiling is a pure function of the pattern text and the
    /// flag, and succeeds exactly when the pattern is a valid regular
    /// expression.
    #[verifier::external_body]
    pub(crate) fn compile(pattern: &str, case_insensitive: bool) -> (r: Result<
        CompiledPattern,
        PatternError,
    >)
        ensures
            r is Ok <==> regex_compiles(pattern@, case_insensitive),
            r matches Ok(p) ==> p.pattern() == pattern@ && p.case_insensitive()
                == case_insensitive,
    {
        match regex::bytes::RegexBuilder::new(pattern).case_insensitive(case_insensitive).build() {
            Ok(re) => Ok(CompiledPattern { re, pat: pattern.to_owned(), ci: case_insensitive }),
            Err(e) => Err(PatternError { message: format!("{}", e) }),
        }
    }

    /// Relies on `regex::bytes::Regex::is_match`: whether the regex matches
    /// anywhere in `input`, a pure function of the pattern, its flags and the
    /// input bytes.
    #[verifier::external_body]
    pub(crate) fn is_match(&self, input: &[u8]) -> (r: bool)
        ensures
            r == regex_match(self.pattern(), self.case_insensitive(), input@),
    {
        self.re.is_match(input)
    }
}

/// Relies on `globset::GlobBuilder::new`, `case_insensitive`, `build` and
/// `globset::Glob::regex`: the derived regex text is a pure function of the
/// glob, and building succeeds exactly when the glob is valid.
#[verifier::external_body]
pub(crate) fn glob_to_regex(glob: &str) -> (r: Result<String, PatternError>)
    ensures
        r is Ok <==> glob_compiles(glob@),
        r matches Ok(s) ==> s@ == glob_regex_of(glob@),
{
    match globset::GlobBuilder::new(glob).case_insensitive(true).build() {
        Ok(g) => Ok(g.regex().to_owned()),
        Err(e) => Err(PatternError { message: format!("{}", e) }),
    }
}

/// Relies on `regex::escape`: escapes every regular-expression meta character
/// in `s`, a pure function of `s`.
#[verifier::external_body]
pub(crate) fn escape_literal(s: &str) -> (r: String)
    ensures
        r@ == regex_escaped(s@),
{
    regex::escape(s)
}

} // verus!
