//! Client library for sending transactional email through an HTTP
//! provider API: a builder for composing an email, a mailer holding the
//! resolved configuration, and a small typed error taxonomy.
//!
//! The network exchange itself (an HTTP POST) is left to the caller; this
//! crate builds the request data (endpoint URL, authorization header,
//! form fields) and interprets the response (status code and body) into
//! either a provider-assigned message identifier or a typed error.

pub mod codec;
pub mod email;
pub mod error;
pub mod mailer;

pub use codec::{form_pairs, to_json};
pub use email::{Email, EmailBody, EmailBuilder};
pub use error::{BuildError, SendError, SetupError};
pub use mailer::{interpret_response, Mailer, MessageId, MG_BASE_URL};
