use vstd::prelude::*;
use crate::gateway::{append_decimal, decimal};

verus! {

/// Why an API call failed.
#[derive(Clone, Debug)]
pub enum ApiError {
    /// The request did not reach the provider, or no answer came back.
    Transport(String),
    /// The answer was not the JSON it should be.
    Decode(String),
    /// The provider answered with an error status.
    Remote { status: u16, body: String },
}

/// Why a command could not be carried out as given.
#[derive(Clone, Copy, Debug, PartialEq, Eq, Structural)]
pub enum UsageError {
    /// A value that the command needs was not given.
    MissingArgument,
    /// A choice was made outside the list that was offered.
    InvalidSelection,
    /// An argument does not have the form the command needs.
    InvalidArgument,
}

/// Statuses of 400 and above are failures reported by the provider.
pub open spec fn is_error_status(status: u16) -> bool {
    status >= 400
}

/// Turns a received answer into its body, or into the provider's error.
pub fn check_status(status: u16, body: String) -> (r: Result<String, ApiError>)
    ensures
        !is_error_status(status) ==> (r matches Ok(b) && b@ == body@),
        is_error_status(status) ==> (r matches Err(ApiError::Remote { status: s, body: b }) && s
            == status && b@ == body@),
{
    if status >= 400 {
        Err(ApiError::Remote { status, body })
    } else {
        Ok(body)
    }
}

pub open spec fn api_error_message(e: ApiError) -> Seq<char> {
    match e {
        ApiError::Transport(m) => "could not reach the API: "@ + m@,
        ApiError::Decode(m) => "could not read the API's answer: "@ + m@,
        ApiError::Remote { status, body } => "the API answered with status "@ + decimal(
            status as nat,
        ) + ": "@ + body@,
    }
}

pub open spec fn usage_error_message(e: UsageError) -> Seq<char> {
    match e {
        UsageError::MissingArgument => "a required argument is missing"@,
        UsageError::InvalidSelection => "the selection is not one of the items offered"@,
        UsageError::InvalidArgument => "an argument does not have the expected form"@,
    }
}

impl ApiError {
    /// A line for the user that says what failed; a provider error names its status.
    pub fn message(&self) -> (r: String)
        ensures
            r@ == api_error_message(*self),
    {
        match self {
            ApiError::Transport(m) => String::from_str("could not reach the API: ").concat(
                m.as_str(),
            ),
            ApiError::Decode(m) => String::from_str("could not read the API's answer: ").concat(
                m.as_str(),
            ),
            ApiError::Remote { status, body } => {
                let mut out = String::from_str("the API answered with status ");
                append_decimal(&mut out, *status as u64);
                out.append(": ");
                out.append(body.as_str());
                out
            },
        }
    }
}

impl UsageError {
    pub fn message(&self) -> (r: String)
        ensures
            r@ == usage_error_message(*self),
    {
        match self {
            UsageError::MissingArgument => String::from_str("a required argument is missing"),
            UsageError::InvalidSelection => String::from_str(
                "the selection is not one of the items offered",
            ),
            UsageError::InvalidArgument => String::from_str(
                "an argument does not have the expected form",
            ),
        }
    }
}

} // verus!
