//! The three disjoint error families: mailer setup, email building, and
//! sending. None of them overlaps another in responsibility.

use vstd::prelude::*;

verus! {

/// Error occurring when building a Mailer instance.
#[derive(Clone, Debug, PartialEq, Eq)]
pub enum SetupError {
    /// A required configuration value is absent from the environment.
    EnvVarMissing(&'static str),
    /// A configuration value is present but malformed; carries the
    /// variable's name and a diagnostic message.
    InvalidVar(&'static str, String),
    /// The HTTP transport could not be constructed.
    Build(String),
}

/// Errors occurring when building an Email from EmailBuilder::build:
/// missing fields etc.
#[derive(Clone, Debug, PartialEq, Eq)]
pub enum BuildError {
    /// A required field missing.
    MissingField(&'static str),
}

/// Errors occurring when sending an Email: network failures and
/// unexpected replies from the provider.
#[derive(Clone, Debug, PartialEq, Eq)]
pub enum SendError {
    /// Http protocol error (DNS, connection, TLS, timeout).
    Http(String),
    /// Non-200 reply from the provider; carries the numeric status code
    /// and the full response body text.
    Non200Reply(u16, String),
    /// The provider claimed success but the reply body did not match the
    /// expected schema; carries the body text.
    InvalidReply(String),
}

/// What `SetupError::message` returns.
pub open spec fn spec_setup_message(e: SetupError) -> Seq<char> {
    match e {
        SetupError::EnvVarMissing(var) => "Missing env variable `"@ + var@ + "`"@,
        SetupError::InvalidVar(var, msg) => "Invalid value for `"@ + var@ + "`: "@ + msg@,
        SetupError::Build(msg) => "Creating Http Client: "@ + msg@,
    }
}

/// What `BuildError::message` returns.
pub open spec fn spec_build_message(e: BuildError) -> Seq<char> {
    match e {
        BuildError::MissingField(field) => "Missing field `"@ + field@ + "`"@,
    }
}

/// What `SendError::message` returns.
pub open spec fn spec_send_message(e: SendError) -> Seq<char> {
    match e {
        SendError::Http(msg) => "SendingError http `"@ + msg@ + "`"@,
        SendError::Non200Reply(_, body) => "Got non 200 reply from mailgun: `"@ + body@ + "`"@,
        SendError::InvalidReply(body) => "Unexpected reply from mailgun: `"@ + body@ + "`"@,
    }
}

impl SetupError {
    /// A human-readable description of the error.
    pub fn message(&self) -> (r: String)
        ensures
            r@ == spec_setup_message(*self),
    {
        match self {
            SetupError::EnvVarMissing(var) => String::from_str("Missing env variable `")
                .concat(var)
                .concat("`"),
            SetupError::InvalidVar(var, msg) => String::from_str("Invalid value for `")
                .concat(var)
                .concat("`: ")
                .concat(msg.as_str()),
            SetupError::Build(msg) => String::from_str("Creating Http Client: ").concat(
                msg.as_str(),
            ),
        }
    }
}

impl BuildError {
    /// A human-readable description of the error.
    pub fn message(&self) -> (r: String)
        ensures
            r@ == spec_build_message(*self),
    {
        match self {
            BuildError::MissingField(field) => String::from_str("Missing field `").concat(
                field,
            ).concat("`"),
        }
    }
}

impl SendError {
    /// A human-readable description of the error.
    pub fn message(&self) -> (r: String)
        ensures
            r@ == spec_send_message(*self),
    {
        match self {
            SendError::Http(msg) => String::from_str("SendingError http `").concat(
                msg.as_str(),
            ).concat("`"),
            SendError::Non200Reply(_, body) => String::from_str(
                "Got non 200 reply from mailgun: `",
            ).concat(body.as_str()).concat("`"),
            SendError::InvalidReply(body) => String::from_str(
                "Unexpected reply from mailgun: `",
            ).concat(body.as_str()).concat("`"),
        }
    }
}

} // verus!
