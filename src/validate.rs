//! Validation of the user-supplied identifiers and runtime version.
use vstd::prelude::*;

verus! {

/// Message of the error returned for a malformed identifier.
pub const IDENTIFIER_MESSAGE: &'static str = "must be a valid Julia ASCII identifier.";

/// Message of the error returned for a malformed version.
pub const VERSION_MESSAGE: &'static str = "must be a Julia version number, e.g. 1.7.3";

pub open spec fn is_ascii_letter(c: char) -> bool {
    (65 <= c as u32 && c as u32 <= 90) || (97 <= c as u32 && c as u32 <= 122)
}

pub open spec fn is_ascii_digit(c: char) -> bool {
    48 <= c as u32 && c as u32 <= 57
}

pub open spec fn is_identifier_tail(c: char) -> bool {
    is_ascii_letter(c) || is_ascii_digit(c) || c == '_'
}

/// An ASCII letter followed by ASCII letters, digits and underscores.
pub open spec fn is_ascii_identifier(s: Seq<char>) -> bool {
    &&& s.len() > 0
    &&& is_ascii_letter(s[0])
    &&& forall|i: int| 1 <= i < s.len() ==> #[trigger] is_identifier_tail(s[i])
}

/// Relies on regex::Regex::new and regex::Regex::is_match: with the pattern
/// `^[A-Za-z][A-Za-z0-9_]*$`, which compiles, a haystack matches exactly when
/// it is one letter followed by letters, digits and underscores (`^` and `$`
/// anchor at the ends of the haystack).
#[verifier::external_body]
fn regex_is_match(pattern: &str, haystack: &str) -> (r: bool)
    requires
        pattern@ == "^[A-Za-z][A-Za-z0-9_]*$"@,
    ensures
        r == is_ascii_identifier(haystack@),
{
    regex::Regex::new(pattern).expect("the pattern compiles").is_match(haystack)
}

/// Accepts `s` exactly when it is an ASCII identifier and returns it unchanged.
pub fn validate_identifier(s: &str) -> (r: Result<String, &'static str>)
    ensures
        r is Ok <==> is_ascii_identifier(s@),
        r matches Ok(v) ==> v@ == s@,
        r matches Err(m) ==> m@ == IDENTIFIER_MESSAGE@,
{
    if regex_is_match("^[A-Za-z][A-Za-z0-9_]*$", s) {
        Ok(s.to_owned())
    } else {
        Err(IDENTIFIER_MESSAGE)
    }
}

/// Value of a run of decimal digits.
pub open spec fn decimal_value(d: Seq<char>) -> nat
    decreases d.len(),
{
    if d.len() == 0 {
        0
    } else {
        decimal_value(d.drop_last()) * 10 + ((d.last() as u32) - 48) as nat
    }
}

/// One component of a core version: decimal digits, no leading zero, and a
/// value that fits in 64 bits.
pub open spec fn is_numeric_component(d: Seq<char>) -> bool {
    &&& d.len() > 0
    &&& forall|i: int| 0 <= i < d.len() ==> #[trigger] is_ascii_digit(d[i])
    &&& (d.len() > 1 ==> d[0] != '0')
    &&& decimal_value(d) <= u64::MAX
}

/// `MAJOR.MINOR.PATCH` with neither pre-release nor build metadata.
pub open spec fn is_core_version(s: Seq<char>) -> bool {
    exists|a: Seq<char>, b: Seq<char>, c: Seq<char>|
        s == a + seq!['.'] + b + seq!['.'] + c && #[trigger] is_numeric_component(a)
            && #[trigger] is_numeric_component(b) && #[trigger] is_numeric_component(c)
}

/// Whether semver's parser accepts the text as a version.
pub uninterp spec fn semver_accepts(s: Seq<char>) -> bool;

#[verifier::external_type_specification]
#[verifier::external_body]
pub struct ExSemverVersion(semver::Version);

#[verifier::external_type_specification]
#[verifier::external_body]
pub struct ExSemverError(semver::Error);

/// Relies on semver::Version::parse: it succeeds on every core version (three
/// numeric components, see `numeric_identifier`), and only on text that starts
/// with a decimal digit (the major component is read first).
pub assume_specification[ semver::Version::parse ](text: &str) -> (r: Result<
    semver::Version,
    semver::Error,
>)
    ensures
        r is Ok <==> semver_accepts(text@),
        is_core_version(text@) ==> r is Ok,
        r is Ok ==> text@.len() > 0 && is_ascii_digit(text@[0]),
;

/// Accepts `s` exactly when semver parses it as a version, and returns it
/// unchanged. Every core version `MAJOR.MINOR.PATCH` is accepted; text that
/// does not start with a digit is not.
pub fn validate_version(s: &str) -> (r: Result<String, &'static str>)
    ensures
        r is Ok <==> semver_accepts(s@),
        is_core_version(s@) ==> r is Ok,
        r is Ok ==> s@.len() > 0 && is_ascii_digit(s@[0]),
        r matches Ok(v) ==> v@ == s@,
        r matches Err(m) ==> m@ == VERSION_MESSAGE@,
{
    match semver::Version::parse(s) {
        Ok(_) => Ok(s.to_owned()),
        Err(_) => Err(VERSION_MESSAGE),
    }
}

} // verus!
