//! The authenticated client configuration: resolved default sender,
//! messages endpoint and authorization header, plus the interpretation
//! of the provider's reply. The HTTP exchange itself is the caller's:
//! it takes the endpoint, header and form fields from here, performs
//! the POST, and hands the status code and body text back to
//! `interpret_response`.

use vstd::prelude::*;

verus! {

use crate::codec::{form_pairs, spec_form_fields};
use crate::email::Email;
use crate::error::{SendError, SetupError};

/// The default base endpoint of the provider's API.
pub const MG_BASE_URL: &'static str = "https://api.eu.mailgun.net";

/// What `url::Url::parse` makes of a string: nothing where the string
/// is not a well-formed URL, its normalized serialization where it is.
pub uninterp spec fn url_normalized(s: Seq<char>) -> Option<Seq<char>>;

/// The base64 encoding of a string's UTF-8 bytes.
pub uninterp spec fn base64_of(s: Seq<char>) -> Seq<char>;

/// The `id` member of a reply body: nothing where the body is not a
/// JSON object holding a string under `id`, the member's text where it
/// is.
pub uninterp spec fn reply_id(s: Seq<char>) -> Option<Seq<char>>;

/// Relies on url::Url::parse and Url::as_str: whether the string is a
/// well-formed URL, and its normalized serialization where it is; both
/// depend on the input alone.
#[verifier::external_body]
fn normalize_url(s: &str) -> (r: Result<String, String>)
    ensures
        r is Ok <==> url_normalized(s@) is Some,
        r matches Ok(u) ==> url_normalized(s@) matches Some(v) && u@ == v,
{
    match url::Url::parse(s) {
        Ok(u) => Ok(u.as_str().to_string()),
        Err(e) => Err(e.to_string()),
    }
}

/// Relies on base64::encode: the standard alphabet with padding, over
/// the UTF-8 bytes of the input; the result depends on the input alone.
#[verifier::external_body]
fn base64_encode(s: &str) -> (r: String)
    ensures
        r@ == base64_of(s@),
{
    base64::encode(s)
}

/// Relies on serde_json::from_str::<Value> and Value::get / Value::as_str:
/// the string under `id` in the reply object, where the body parses and
/// holds one; the result depends on the input alone.
#[verifier::external_body]
fn parse_reply_id(body: &str) -> (r: Option<String>)
    ensures
        r is Some <==> reply_id(body@) is Some,
        r matches Some(id) ==> reply_id(body@) matches Some(v) && id@ == v,
{
    match serde_json::from_str::<serde_json::Value>(body) {
        Ok(v) => v.get("id").and_then(|id| id.as_str()).map(|id| id.to_string()),
        Err(_) => None,
    }
}

/// Opaque provider-assigned identifier of an accepted message; returned
/// only on success.
#[derive(Clone, Debug, PartialEq, Eq)]
pub struct MessageId(pub String);

/// The messages endpoint before URL normalization: the base endpoint,
/// the fixed path template, and the sending domain in its middle.
pub open spec fn spec_endpoint(base: Seq<char>, domain: Seq<char>) -> Seq<char> {
    base + "/v3/"@ + domain + "/messages"@
}

/// The default sender of a domain.
pub open spec fn spec_default_sender(domain: Seq<char>) -> Seq<char> {
    "noreply@"@ + domain
}

/// The HTTP Basic authorization header value of a provider token.
pub open spec fn spec_auth_header(token: Seq<char>) -> Seq<char> {
    "Basic "@ + base64_of("api:"@ + token)
}

/// The resolved, immutable configuration of the client: default sender,
/// normalized messages endpoint and authorization header value. Created
/// once and reused across many send calls.
#[derive(Clone, Debug)]
pub struct Mailer {
    from: String,
    messages_url: String,
    auth_header: String,
}

impl Mailer {
    /// The default sender address, `noreply@` followed by the domain.
    pub closed spec fn spec_from(&self) -> Seq<char> {
        self.from@
    }

    /// The normalized messages endpoint URL.
    pub closed spec fn spec_url(&self) -> Seq<char> {
        self.messages_url@
    }

    /// The precomputed authorization header value.
    pub closed spec fn spec_auth(&self) -> Seq<char> {
        self.auth_header@
    }

    /// Creates a new client operating against the given domain, with
    /// the default base endpoint. Notice that the token must be the raw
    /// provider token; it is base64-encoded here.
    pub fn new(domain: &str, token: &str) -> (r: Result<Self, SetupError>)
        ensures
            r is Ok <==> url_normalized(spec_endpoint(MG_BASE_URL@, domain@)) is Some,
            r matches Ok(m) ==> {
                &&& m.spec_from() == spec_default_sender(domain@)
                &&& url_normalized(spec_endpoint(MG_BASE_URL@, domain@)) matches Some(u)
                    && m.spec_url() == u
                &&& m.spec_auth() == spec_auth_header(token@)
            },
            r matches Err(e) ==> e matches SetupError::InvalidVar(v, _) && v@ == "domain"@,
    {
        Self::new_with_mg_url(MG_BASE_URL, domain, token)
    }

    /// Creates a new client against the given base endpoint and domain.
    /// Fails if and only if the joined messages endpoint is not a
    /// well-formed URL.
    pub fn new_with_mg_url(mg_url: &str, domain: &str, token: &str) -> (r: Result<
        Self,
        SetupError,
    >)
        ensures
            r is Ok <==> url_normalized(spec_endpoint(mg_url@, domain@)) is Some,
            r matches Ok(m) ==> {
                &&& m.spec_from() == spec_default_sender(domain@)
                &&& url_normalized(spec_endpoint(mg_url@, domain@)) matches Some(u)
                    && m.spec_url() == u
                &&& m.spec_auth() == spec_auth_header(token@)
            },
            r matches Err(e) ==> e matches SetupError::InvalidVar(v, _) && v@ == "domain"@,
    {
        let from = String::from_str("noreply@").concat(domain);
        let endpoint = String::from_str(mg_url).concat("/v3/").concat(domain).concat("/messages");
        proof {
            assert(endpoint@ =~= spec_endpoint(mg_url@, domain@));
        }
        match normalize_url(endpoint.as_str()) {
            Ok(messages_url) => {
                let token_b64 = base64_encode(String::from_str("api:").concat(token).as_str());
                let auth_header = String::from_str("Basic ").concat(token_b64.as_str());
                Ok(Mailer { from, messages_url, auth_header })
            },
            Err(msg) => Err(SetupError::InvalidVar("domain", msg)),
        }
    }

    /// The default sender address.
    pub fn default_from(&self) -> (r: &str)
        ensures
            r@ == self.spec_from(),
    {
        self.from.as_str()
    }

    /// The normalized messages endpoint URL.
    pub fn messages_url(&self) -> (r: &str)
        ensures
            r@ == self.spec_url(),
    {
        self.messages_url.as_str()
    }

    /// The precomputed authorization header value.
    pub fn auth_header(&self) -> (r: &str)
        ensures
            r@ == self.spec_auth(),
    {
        self.auth_header.as_str()
    }

    /// The form fields of a request sending the given email through
    /// this client: the email's own fields, with the sender filled from
    /// the client's default where the email sets none.
    pub fn request_form(&self, email: Email) -> (r: Vec<(String, String)>)
        ensures
            email.from is Some ==> r.deep_view() == spec_form_fields(email),
            email.from is None ==> r.deep_view() == seq![("from"@, self.spec_from())]
                + spec_form_fields(email),
    {
        let filled = email.with_default_from(self.from.as_str());
        let r = form_pairs(&filled);
        proof {
            if email.from is None {
                assert(r.deep_view() =~= seq![("from"@, self.spec_from())] + spec_form_fields(
                    email,
                ));
            } else {
                assert(r.deep_view() =~= spec_form_fields(email));
            }
        }
        r
    }
}

/// Maps the outcome of the HTTP exchange to the send result: a non-200
/// status fails with the status and the body text; a 200 whose body
/// holds a message identifier succeeds with exactly that identifier; a
/// 200 whose body does not match the expected schema fails as an
/// invalid reply.
pub fn interpret_response(status: u16, body: String) -> (r: Result<MessageId, SendError>)
    ensures
        status != 200 ==> r == Err::<MessageId, SendError>(SendError::Non200Reply(status, body)),
        status == 200 ==> match reply_id(body@) {
            Some(v) => r matches Ok(m) && m.0@ == v,
            None => r == Err::<MessageId, SendError>(SendError::InvalidReply(body)),
        },
{
    if status != 200 {
        return Err(SendError::Non200Reply(status, body));
    }
    match parse_reply_id(body.as_str()) {
        Some(id) => Ok(MessageId(id)),
        None => Err(SendError::InvalidReply(body)),
    }
}

} // verus!
