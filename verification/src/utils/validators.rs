use vstd::prelude::*;
use crate::bindings::{
    add_field_error, add_number_param, add_text_param, decimal, new_field_error, new_validation_errors,
    parse_url, url_parse_error, usize_text, validation_errors_debug, validator_length_ok,
    validator_url_ok,
};
use crate::domain::errors::AppError;
use crate::domain::models::{AuditRequest, CreateProjectRequest};
use validator::ValidationErrors;

verus! {

/// Joins two texts into a new string.
pub fn concat2(a: &str, b: &str) -> (r: String)
    ensures
        r@ == a@ + b@,
{
    let mut r = a.to_owned();
    r.append(b);
    r
}

/// Joins three texts into a new string.
pub fn concat3(a: &str, b: &str, c: &str) -> (r: String)
    ensures
        r@ == a@ + b@ + c@,
{
    let mut r = a.to_owned();
    r.append(b);
    r.append(c);
    r
}

/// Custom validation utilities: a URL is valid exactly where `reqwest::Url`
/// parses it; otherwise the error is `Invalid URL: ` and the parser's error
/// text.
pub fn validate_url(url: &str) -> (r: Result<(), String>)
    ensures
        r is Ok <==> url_parse_error(url@) is None,
        r matches Err(m) ==> m@ == "Invalid URL: "@ + url_parse_error(url@)->0,
{
    match parse_url(url) {
        Ok(()) => Ok(()),
        Err(e) => Err(concat2("Invalid URL: ", e.as_str())),
    }
}

/// The error of `validate_string_length` for a text of `len` characters, or
/// `None` where the text is not empty and its length lies within the bounds.
/// The bounds are checked first; the empty text is refused on its own only
/// where the minimum admits it.
pub open spec fn string_length_error(len: nat, min: usize, max: usize) -> Option<Seq<char>> {
    if len < min {
        Some("String must be at least "@ + decimal(min as nat) + " characters"@)
    } else if len > max {
        Some("String must be at most "@ + decimal(max as nat) + " characters"@)
    } else if len == 0 {
        Some("String must not be empty"@)
    } else {
        None
    }
}

/// Validate that a string is not empty and within length bounds: it must
/// have at least one character, and its number of characters must lie
/// between `min` and `max`, both included.
pub fn validate_string_length(s: &str, min: usize, max: usize) -> (r: Result<(), String>)
    ensures
        r is Ok <==> 0 < s@.len() && min <= s@.len() <= max,
        r is Ok <==> string_length_error(s@.len(), min, max) is None,
        r matches Err(m) ==> Some(m@) == string_length_error(s@.len(), min, max),
{
    let len = s.unicode_len();
    if len < min {
        let n = usize_text(min);
        Err(concat3("String must be at least ", n.as_str(), " characters"))
    } else if len > max {
        let n = usize_text(max);
        Err(concat3("String must be at most ", n.as_str(), " characters"))
    } else if len == 0 {
        Err("String must not be empty".to_owned())
    } else {
        Ok(())
    }
}

/// The text of a validation error: `Validation failed: ` followed by some
/// description of the failed checks.
pub open spec fn is_validation_failure(e: AppError) -> bool {
    e matches AppError::ValidationError(m) && "Validation failed: "@.is_prefix_of(m@)
}

/// The validation error for a set of failed checks: `Validation failed: `
/// followed by the set's `Debug` text.
fn validation_failure(errs: &ValidationErrors) -> (r: AppError)
    ensures
        is_validation_failure(r),
{
    let d = validation_errors_debug(errs);
    let m = concat2("Validation failed: ", d.as_str());
    assert("Validation failed: "@.is_prefix_of(m@)) by {
        assert(m@.subrange(0, "Validation failed: "@.len() as int) =~= "Validation failed: "@);
    }
    AppError::ValidationError(m)
}

impl AuditRequest {
    /// The request is valid when its URL parses.
    pub open spec fn is_valid(&self) -> bool {
        url_parse_error(self.url@) is None
    }

    /// Validate the request: its URL must be a valid URL. Otherwise a
    /// validation error carries the validator's error set for the field
    /// `url` (code `url`, message `Invalid URL format`, the URL as `value`).
    pub fn validate(&self) -> (r: Result<(), AppError>)
        ensures
            r is Ok <==> self.is_valid(),
            r matches Err(e) ==> is_validation_failure(e),
    {
        if validator_url_ok(self.url.as_str()) {
            Ok(())
        } else {
            let mut errs = new_validation_errors();
            let mut err = new_field_error("url", "Invalid URL format");
            add_text_param(&mut err, "value", &self.url);
            add_field_error(&mut errs, "url", err);
            Err(validation_failure(&errs))
        }
    }
}

impl CreateProjectRequest {
    /// The name has between 1 and 200 characters.
    pub open spec fn name_is_valid(&self) -> bool {
        1 <= self.name@.len() <= 200
    }

    /// The target URL parses.
    pub open spec fn target_url_is_valid(&self) -> bool {
        url_parse_error(self.target_url@) is None
    }

    /// Validate the request: the name must have between 1 and 200
    /// characters and the target URL must be a valid URL. Otherwise a
    /// validation error carries the validator's error set with an entry for
    /// each failing field: `name` (code `length`, message `Name must be
    /// between 1 and 200 characters`, parameters `min`, `max` and `value`)
    /// and `target_url` (code `url`, message `Invalid URL format`, parameter
    /// `value`).
    pub fn validate(&self) -> (r: Result<(), AppError>)
        ensures
            r is Ok <==> self.name_is_valid() && self.target_url_is_valid(),
            r matches Err(e) ==> is_validation_failure(e),
    {
        let name_ok = validator_length_ok(self.name.as_str(), 1, 200);
        let url_ok = validator_url_ok(self.target_url.as_str());
        if name_ok && url_ok {
            return Ok(());
        }
        let mut errs = new_validation_errors();
        if !name_ok {
            let mut err = new_field_error("length", "Name must be between 1 and 200 characters");
            add_number_param(&mut err, "min", 1);
            add_number_param(&mut err, "max", 200);
            add_text_param(&mut err, "value", &self.name);
            add_field_error(&mut errs, "name", err);
        }
        if !url_ok {
            let mut err = new_field_error("url", "Invalid URL format");
            add_text_param(&mut err, "value", &self.target_url);
            add_field_error(&mut errs, "target_url", err);
        }
        Err(validation_failure(&errs))
    }
}

} // verus!
