//! Sanitizing HTML before it goes into a chapter.

use vstd::prelude::*;
use crate::error::PipelineError;

verus! {

/// What the sanitizer makes of an HTML text under its default rules: the
/// sanitized text, or `None` where it reports an error.
pub uninterp spec fn sanitized_html(input: Seq<char>) -> Option<Seq<char>>;

/// The error of the sanitizer, `sanitize_html::errors::SanitizeError`, taken
/// as an opaque value.
#[verifier::external_type_specification]
#[verifier::external_body]
pub struct ExSanitizeError(sanitize_html::errors::SanitizeError);

/// Calls `sanitize_html::sanitize_str` with the crate's predefined `DEFAULT`
/// rules. The outcome depends on the input text alone, so it is given the
/// name `sanitized_html`; nothing more is claimed of it.
#[verifier::external_body]
fn sanitize_with_default_rules(input: &str) -> (outcome: Result<
    String,
    sanitize_html::errors::SanitizeError,
>)
    ensures
        outcome matches Ok(output) ==> sanitized_html(input@) == Some(output@),
        outcome is Err ==> sanitized_html(input@) is None,
{
    sanitize_html::sanitize_str(&sanitize_html::rules::predefined::DEFAULT, input)
}

/// Sanitizes an HTML text: markup outside the sanitizer's default allow-list
/// is removed. Fails with `Sanitization` exactly where the sanitizer
/// reports an error.
pub fn sanitize_html_content(content: &str) -> (outcome: Result<String, PipelineError>)
    ensures
        outcome matches Ok(output) ==> sanitized_html(content@) == Some(output@),
        outcome matches Err(error) ==> error == PipelineError::Sanitization && sanitized_html(
            content@,
        ) is None,
{
    match sanitize_with_default_rules(content) {
        Ok(output) => Ok(output),
        Err(_) => Err(PipelineError::Sanitization),
    }
}

} // verus!
