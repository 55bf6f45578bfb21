use crate::api::github::ErrorResponse as GHErrorResponse;
use crate::api::huggingface::ErrorResponse as HFErrorResponse;
use crate::templates::ErrorTemplate;
use crate::utils::utils::{spec_contains, str_contains, str_eq};
use vstd::prelude::*;
use vstd::string::*;

verus! {

/// The closed set of user-facing failure classes. Every upstream
/// failure shape collapses onto one of these; each renders as one
/// fixed error card.
#[derive(Debug, Clone, Copy, PartialEq, Eq, Structural)]
pub enum PreparedTemplate {
    FailedFindUser,
    FailedFindRepo,
    FailedFindLanguages,
    BadCredentials,
    APIRateLimit,
    Unknown,
}

/// The two text lines of the error card of each failure class.
pub open spec fn spec_error_lines(t: PreparedTemplate) -> (Seq<char>, Seq<char>) {
    match t {
        PreparedTemplate::FailedFindUser => (
            "Failed to find a user."@,
            "Check if it’s spelled correctly"@,
        ),
        PreparedTemplate::FailedFindRepo => (
            "Failed to find a repo."@,
            "Check if it’s spelled correctly"@,
        ),
        PreparedTemplate::FailedFindLanguages => (
            "Failed to find a user languages."@,
            "Maybe he’s inactive"@,
        ),
        PreparedTemplate::BadCredentials => (
            "Bad credentials."@,
            "Problems with service API token"@,
        ),
        PreparedTemplate::APIRateLimit => ("Failed to fetch."@, "Maybe our API ratelimited :("@),
        PreparedTemplate::Unknown => ("Unknown API error."@, "Let us know about it"@),
    }
}

impl PreparedTemplate {
    /// The error card of this failure class.
    pub fn render(&self) -> (r: ErrorTemplate)
        ensures
            r.first_line@ == spec_error_lines(*self).0,
            r.second_line@ == spec_error_lines(*self).1,
    {
        match self {
            PreparedTemplate::FailedFindUser => ErrorTemplate {
                first_line: String::from_str("Failed to find a user."),
                second_line: String::from_str("Check if it’s spelled correctly"),
            },
            PreparedTemplate::FailedFindRepo => ErrorTemplate {
                first_line: String::from_str("Failed to find a repo."),
                second_line: String::from_str("Check if it’s spelled correctly"),
            },
            PreparedTemplate::FailedFindLanguages => ErrorTemplate {
                first_line: String::from_str("Failed to find a user languages."),
                second_line: String::from_str("Maybe he’s inactive"),
            },
            PreparedTemplate::BadCredentials => ErrorTemplate {
                first_line: String::from_str("Bad credentials."),
                second_line: String::from_str("Problems with service API token"),
            },
            PreparedTemplate::APIRateLimit => ErrorTemplate {
                first_line: String::from_str("Failed to fetch."),
                second_line: String::from_str("Maybe our API ratelimited :("),
            },
            PreparedTemplate::Unknown => ErrorTemplate {
                first_line: String::from_str("Unknown API error."),
                second_line: String::from_str("Let us know about it"),
            },
        }
    }
}

/// A transport failure (network or decode) carries no payload to
/// classify: it collapses to the unknown class.
pub fn transport_failure_class() -> (r: PreparedTemplate)
    ensures
        r == PreparedTemplate::Unknown,
{
    PreparedTemplate::Unknown
}

/// The decision table for error payloads of the source-control API:
/// a rate-limit phrase, then a credentials phrase, else unknown.
pub open spec fn spec_gh_error_class(message: Seq<char>) -> PreparedTemplate {
    if spec_contains(message, "rate limit exceeded"@) {
        PreparedTemplate::APIRateLimit
    } else if spec_contains(message, "Bad credentials"@) {
        PreparedTemplate::BadCredentials
    } else {
        PreparedTemplate::Unknown
    }
}

/// Classify an error payload of the source-control API.
pub fn gh_handle_error_template(err: GHErrorResponse) -> (r: PreparedTemplate)
    ensures
        r == spec_gh_error_class(err.message@),
{
    if str_contains(err.message.as_str(), "rate limit exceeded") {
        PreparedTemplate::APIRateLimit
    } else if str_contains(err.message.as_str(), "Bad credentials") {
        PreparedTemplate::BadCredentials
    } else {
        PreparedTemplate::Unknown
    }
}

/// The decision table for error payloads of the model-hub API: two
/// credentials phrases, one missing-repository phrase, else unknown.
pub open spec fn spec_hf_error_class(error: Seq<char>) -> PreparedTemplate {
    if error == "Invalid credentials in Authorization header"@ {
        PreparedTemplate::BadCredentials
    } else if error == "Invalid username or password."@ {
        PreparedTemplate::BadCredentials
    } else if error == "Repository not found"@ {
        PreparedTemplate::FailedFindRepo
    } else {
        PreparedTemplate::Unknown
    }
}

/// Classify an error payload of the model-hub API.
pub fn hf_handle_error_template(err: HFErrorResponse) -> (r: PreparedTemplate)
    ensures
        r == spec_hf_error_class(err.error@),
{
    if str_eq(err.error.as_str(), "Invalid credentials in Authorization header") {
        PreparedTemplate::BadCredentials
    } else if str_eq(err.error.as_str(), "Invalid username or password.") {
        PreparedTemplate::BadCredentials
    } else if str_eq(err.error.as_str(), "Repository not found") {
        PreparedTemplate::FailedFindRepo
    } else {
        PreparedTemplate::Unknown
    }
}

} // verus!
