//! The library's calls into outside crates and into parts of std that vstd
//! does not specify. Each function here is trusted: Verus believes its
//! contract and does not read its body. Each doc comment names the outside
//! function and says what the contract claims of it.

use vstd::prelude::*;
use crate::domain::models::Timestamp;
use std::borrow::Cow;
use validator::ValidateLength;
use validator::ValidateUrl;
use validator::ValidationError;
use validator::ValidationErrors;

verus! {

/// The character of a hexadecimal digit `d < 16`, in lower case.
pub open spec fn hex_char(d: nat) -> char {
    if d < 10 {
        (48 + d) as char
    } else {
        (87 + d) as char
    }
}

/// The last `n` hexadecimal digits of `v`, most significant first, padded
/// with zeros.
pub open spec fn hex_digits(v: nat, n: nat) -> Seq<char>
    decreases n,
{
    if n == 0 {
        Seq::empty()
    } else {
        hex_digits(v / 16, (n - 1) as nat).push(hex_char(v % 16))
    }
}

/// The hyphenated lower-case form of a UUID, `xxxxxxxx-xxxx-xxxx-xxxx-xxxxxxxxxxxx`,
/// of the UUID whose 128-bit big-endian value is `id`.
pub open spec fn uuid_hyphenated(id: u128) -> Seq<char> {
    let h = hex_digits(id as nat, 32);
    h.subrange(0, 8) + seq!['-'] + h.subrange(8, 12) + seq!['-'] + h.subrange(12, 16) + seq!['-']
        + h.subrange(16, 20) + seq!['-'] + h.subrange(20, 32)
}

/// The decimal digits of `n`, without sign or leading zeros.
pub open spec fn decimal(n: nat) -> Seq<char>
    decreases n,
{
    if n < 10 {
        seq![hex_char(n)]
    } else {
        decimal(n / 10).push(hex_char(n % 10))
    }
}

/// What `uuid::Uuid::parse_str` gives for a text: the 128-bit value of the
/// UUID it reads, or `None` where it returns an error.
pub uninterp spec fn spec_parse_uuid(text: Seq<char>) -> Option<u128>;

/// What `url::Url::parse` gives for a text: `None` where it parses, else the
/// text of its error's `Display`. Both `reqwest::Url` (a re-export of
/// `url::Url`) and the validator's URL check call this parser.
pub uninterp spec fn url_parse_error(text: Seq<char>) -> Option<Seq<char>>;

/// What `regex::Regex::new(pattern)` followed by `captures(text)` gives as
/// the text of capture group 1: `None` where the pattern does not compile,
/// nothing matches, or group 1 did not take part in the match.
pub uninterp spec fn regex_first_group(pattern: Seq<char>, text: Seq<char>) -> Option<Seq<char>>;

/// The version nibble of a UUID's 128-bit value is 4: a random UUID.
pub open spec fn uuid_is_v4(id: u128) -> bool {
    (id >> 76u128) & 0xfu128 == 4u128
}

/// Calls `uuid::Uuid::new_v4` and returns the UUID's 128-bit value.
/// Claimed: only the version nibble, which `new_v4` always sets to 4
/// (random UUID). The other bits are random and nothing is said of them.
#[verifier::external_body]
pub(crate) fn new_uuid() -> (r: u128)
    ensures
        uuid_is_v4(r),
{
    uuid::Uuid::new_v4().as_u128()
}

/// Calls `uuid::Uuid::parse_str`. Claimed: the result is the named value
/// `spec_parse_uuid` of the text; on success it carries the UUID's
/// 128-bit value (`as_u128`), on error `None`.
#[verifier::external_body]
pub(crate) fn parse_uuid(text: &str) -> (r: Option<u128>)
    ensures
        r == spec_parse_uuid(text@),
{
    match uuid::Uuid::parse_str(text) {
        Ok(u) => Some(u.as_u128()),
        Err(_) => None,
    }
}

/// Formats a UUID with `uuid::Uuid`'s `Display`. Claimed: the text is the
/// hyphenated lower-case form, as `Display` delegates to `LowerHex` of
/// the hyphenated form; and `Uuid::parse_str`, which accepts that form,
/// reads it back as the same UUID.
#[verifier::external_body]
pub(crate) fn uuid_text(id: u128) -> (r: String)
    ensures
        r@ == uuid_hyphenated(id),
        spec_parse_uuid(r@) == Some(id),
{
    uuid::Uuid::from_u128(id).to_string()
}

/// Calls `chrono::Utc::now` and returns its seconds since the epoch
/// (`timestamp`) and nanoseconds within the second
/// (`timestamp_subsec_nanos`). The result depends on the clock: nothing
/// is claimed of it.
#[verifier::external_body]
pub(crate) fn now() -> (r: Timestamp) {
    let t = chrono::Utc::now();
    Timestamp { secs: t.timestamp(), nanos: t.timestamp_subsec_nanos() }
}

/// Compiles `pattern` with `regex::Regex::new`, runs `captures` on `text`
/// and returns the text of capture group 1. Claimed: the result is the named
/// value `regex_first_group` of the pattern and the text.
#[verifier::external_body]
pub(crate) fn regex_first_capture(pattern: &str, text: &str) -> (r: Option<String>)
    ensures
        r matches Some(s) ==> regex_first_group(pattern@, text@) == Some(s@),
        r is None ==> regex_first_group(pattern@, text@) is None,
{
    let re = match regex::Regex::new(pattern) {
        Ok(re) => re,
        Err(_) => return None,
    };
    match re.captures(text) {
        Some(caps) => match caps.get(1) {
            Some(m) => Some(m.as_str().to_string()),
            None => None,
        },
        None => None,
    }
}

/// Parses a text as `reqwest::Url` (the `url` crate's `Url::parse`).
/// Claimed: it succeeds exactly where `url_parse_error` is `None`, and on
/// error gives the error's `Display` text.
#[verifier::external_body]
pub(crate) fn parse_url(text: &str) -> (r: Result<(), String>)
    ensures
        r is Ok <==> url_parse_error(text@) is None,
        r matches Err(m) ==> url_parse_error(text@) == Some(m@),
{
    match text.parse::<reqwest::Url>() {
        Ok(_) => Ok(()),
        Err(e) => Err(e.to_string()),
    }
}

/// Calls `validator::ValidateUrl::validate_url` on a text. Claimed: it is
/// true exactly where `url::Url::parse` succeeds, which is what the
/// validator's source computes for a string (`Url::parse(s).is_ok()`).
#[verifier::external_body]
pub(crate) fn validator_url_ok(text: &str) -> (r: bool)
    ensures
        r == (url_parse_error(text@) is None),
{
    text.validate_url()
}

/// Calls `validator::ValidateLength::validate_length` on a text with a
/// minimum and a maximum and no exact length. Claimed: it is true exactly
/// where the number of characters lies between them, bounds included, as
/// the validator's source counts `chars()` for strings.
#[verifier::external_body]
pub(crate) fn validator_length_ok(text: &str, min: u64, max: u64) -> (r: bool)
    ensures
        r == (min <= text@.len() && text@.len() <= max),
{
    text.validate_length(Some(min), Some(max), None)
}

/// Formats a `usize` with std's `Display` (`to_string`). Claimed: the text
/// is its decimal digits, as std documents for integers.
#[verifier::external_body]
pub(crate) fn usize_text(n: usize) -> (r: String)
    ensures
        r@ == decimal(n as nat),
{
    n.to_string()
}

/// `validator::ValidationError`: one failed check of one field.
#[verifier::external_type_specification]
#[verifier::external_body]
pub struct ExValidationError(validator::ValidationError);

/// `validator::ValidationErrors`: the failed checks of a value, by field.
#[verifier::external_type_specification]
#[verifier::external_body]
pub struct ExValidationErrors(validator::ValidationErrors);

/// Calls `validator::ValidationError::new` with the check's code and sets
/// the error's message. Nothing is claimed: the value is opaque here.
#[verifier::external_body]
pub(crate) fn new_field_error(code: &'static str, message: &'static str) -> (r: ValidationError) {
    let mut err = ValidationError::new(code);
    err.message = Some(Cow::from(message));
    err
}

/// Calls `validator::ValidationError::add_param` with a text value (a JSON
/// string once serialised; serialising a string cannot fail). Nothing is
/// claimed: the value is opaque here.
#[verifier::external_body]
pub(crate) fn add_text_param(err: &mut ValidationError, name: &'static str, value: &String) {
    err.add_param(Cow::from(name), value)
}

/// Calls `validator::ValidationError::add_param` with a number (a JSON
/// number once serialised; serialising it cannot fail). Nothing is claimed:
/// the value is opaque here.
#[verifier::external_body]
pub(crate) fn add_number_param(err: &mut ValidationError, name: &'static str, value: u64) {
    err.add_param(Cow::from(name), &value)
}

/// Whether every entry of an error set holds plain field errors
/// (`ValidationErrorsKind::Field`), none nested.
pub uninterp spec fn holds_only_field_errors(errs: ValidationErrors) -> bool;

/// Calls `validator::ValidationErrors::new`. Claimed: the new set is empty,
/// so it holds only plain field errors.
#[verifier::external_body]
pub(crate) fn new_validation_errors() -> (r: ValidationErrors)
    ensures
        holds_only_field_errors(r),
{
    ValidationErrors::new()
}

/// Calls `validator::ValidationErrors::add`, which files the error under the
/// field: in a new `Field` entry, or pushed onto the field's `Field` entry.
/// It panics only where the field's entry holds nested errors, which the
/// `requires` leaves out. Claimed: the set still holds only plain field
/// errors.
#[verifier::external_body]
pub(crate) fn add_field_error(errs: &mut ValidationErrors, field: &'static str, err: ValidationError)
    requires
        holds_only_field_errors(*old(errs)),
    ensures
        holds_only_field_errors(*final(errs)),
{
    errs.add(field, err)
}

/// Formats the error set with its derived `Debug`. Its fields and parameters
/// are held in hash maps that each process seeds, so where there is more than
/// one, their order varies between runs: nothing is claimed of the text.
#[verifier::external_body]
pub(crate) fn validation_errors_debug(errs: &ValidationErrors) -> (r: String) {
    format!("{:?}", errs)
}

} // verus!
