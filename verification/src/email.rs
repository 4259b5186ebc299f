//! Composing an email: a mutable builder accumulating optional sender
//! override, recipients, subject and body, and the finalized `Email`
//! value it validates into.

use vstd::prelude::*;

verus! {

use crate::error::BuildError;

/// The body of an email: exactly one of an HTML text or a plain text.
/// The wire format forbids both fields at once, so the data model makes
/// that combination impossible.
#[derive(Clone, Debug, PartialEq, Eq)]
pub enum EmailBody {
    Html(String),
    Text(String),
}

/// A finalized email, produced by `EmailBuilder::build`. Its `to` field
/// is never the empty string: the builder refuses to produce an `Email`
/// without at least one recipient.
#[derive(Clone, Debug, PartialEq, Eq)]
pub struct Email {
    /// Optional, only used if set. If None the from is taken from Mailer.
    pub from: Option<String>,
    /// All recipients, joined by commas in append order.
    pub to: String,
    pub subject: String,
    pub body: Option<EmailBody>,
}

/// Accumulates the fields of an email; consumed by `build`.
#[derive(Clone, Debug)]
pub struct EmailBuilder {
    from: Option<String>,
    recipients: Vec<String>,
    subject: Option<String>,
    body: Option<EmailBody>,
}

/// The recipients of a builder joined by single commas, in order.
pub open spec fn join_comma(rs: Seq<Seq<char>>) -> Seq<char>
    decreases rs.len(),
{
    if rs.len() == 0 {
        Seq::<char>::empty()
    } else if rs.len() == 1 {
        rs[0]
    } else {
        rs[0] + ","@ + join_comma(rs.drop_first())
    }
}

/// Joining one more recipient appends a comma and the new entry, except
/// onto an empty list, where it is the whole result.
proof fn lemma_join_comma_push(rs: Seq<Seq<char>>, x: Seq<char>)
    ensures
        join_comma(rs.push(x)) == if rs.len() == 0 {
            x
        } else {
            (join_comma(rs) + ","@ + x)
        },
    decreases rs.len(),
{
    if rs.len() == 0 {
        assert(rs.push(x).len() == 1);
        assert(rs.push(x)[0] == x);
    } else if rs.len() == 1 {
        assert(rs.push(x)[0] == rs[0]);
        assert(rs.push(x).drop_first() =~= seq![x]);
        assert(join_comma(seq![x]) == x);
    } else {
        assert(rs.push(x).drop_first() =~= rs.drop_first().push(x));
        lemma_join_comma_push(rs.drop_first(), x);
        assert(rs.push(x)[0] == rs[0]);
        assert(join_comma(rs.push(x)) == rs[0] + ","@ + join_comma(rs.drop_first().push(x)));
        assert(rs[0] + ","@ + (join_comma(rs.drop_first()) + ","@ + x) =~= (rs[0] + ","@
            + join_comma(rs.drop_first())) + ","@ + x);
    }
}

/// Joins the given strings by single commas, in order.
fn join_all(items: &Vec<String>) -> (r: String)
    ensures
        r@ == join_comma(items.deep_view()),
{
    let mut out = String::new();
    let mut i: usize = 0;
    while i < items.len()
        invariant
            i <= items.len(),
            out@ == join_comma(items.deep_view().take(i as int)),
        decreases items.len() - i,
    {
        proof {
            assert(items.deep_view().take(i + 1) =~= items.deep_view().take(i as int).push(
                items@[i as int]@,
            ));
            lemma_join_comma_push(items.deep_view().take(i as int), items@[i as int]@);
        }
        if i > 0 {
            out.append(",");
        }
        out.append(items[i].as_str());
        i += 1;
    }
    proof {
        assert(items.deep_view().take(items.len() as int) =~= items.deep_view());
    }
    out
}

impl Default for EmailBuilder {
    /// An empty builder: no sender override, no recipients, no subject,
    /// no body.
    fn default() -> (r: Self)
        ensures
            r.spec_from() is None,
            r.spec_recipients().len() == 0,
            r.spec_subject() is None,
            r.spec_body() is None,
    {
        EmailBuilder { from: None, recipients: Vec::new(), subject: None, body: None }
    }
}

impl EmailBuilder {
    /// The sender override the builder holds, if any.
    pub closed spec fn spec_from(&self) -> Option<String> {
        self.from
    }

    /// The recipients appended so far, in call order.
    pub closed spec fn spec_recipients(&self) -> Seq<Seq<char>> {
        self.recipients.deep_view()
    }

    /// The subject the builder holds, if any.
    pub closed spec fn spec_subject(&self) -> Option<String> {
        self.subject
    }

    /// The body the builder holds, if any.
    pub closed spec fn spec_body(&self) -> Option<EmailBody> {
        self.body
    }

    /// Sets the sender override, replacing any previous value.
    pub fn from(self, from: &str) -> (r: Self)
        ensures
            r.spec_from() matches Some(f) && f@ == from@,
            r.spec_recipients() == self.spec_recipients(),
            r.spec_subject() == self.spec_subject(),
            r.spec_body() == self.spec_body(),
    {
        EmailBuilder { from: Some(String::from_str(from)), ..self }
    }

    /// Appends one recipient address. Addresses accumulate in call
    /// order; no syntax validation is performed here.
    pub fn to(self, recipient: &str) -> (r: Self)
        ensures
            r.spec_from() == self.spec_from(),
            r.spec_recipients() == self.spec_recipients().push(recipient@),
            r.spec_subject() == self.spec_subject(),
            r.spec_body() == self.spec_body(),
    {
        let mut recipients = self.recipients;
        recipients.push(String::from_str(recipient));
        proof {
            assert(recipients.deep_view() =~= self.spec_recipients().push(recipient@));
        }
        EmailBuilder { recipients, ..self }
    }

    /// Sets the subject, replacing any previous value.
    pub fn subject(self, subject: &str) -> (r: Self)
        ensures
            r.spec_from() == self.spec_from(),
            r.spec_recipients() == self.spec_recipients(),
            r.spec_subject() matches Some(s) && s@ == subject@,
            r.spec_body() == self.spec_body(),
    {
        EmailBuilder { subject: Some(String::from_str(subject)), ..self }
    }

    /// Sets the body, fully replacing any previous body.
    pub fn body(self, body: EmailBody) -> (r: Self)
        ensures
            r.spec_from() == self.spec_from(),
            r.spec_recipients() == self.spec_recipients(),
            r.spec_subject() == self.spec_subject(),
            r.spec_body() == Some(body),
    {
        EmailBuilder { body: Some(body), ..self }
    }

    /// Sets a plain-text body, fully replacing any previous body — in
    /// particular an HTML one.
    pub fn text_body(self, text: &str) -> (r: Self)
        ensures
            r.spec_from() == self.spec_from(),
            r.spec_recipients() == self.spec_recipients(),
            r.spec_subject() == self.spec_subject(),
            r.spec_body() matches Some(b) && b matches EmailBody::Text(t) && t@ == text@,
    {
        EmailBuilder { body: Some(EmailBody::Text(String::from_str(text))), ..self }
    }

    /// Sets an HTML body, fully replacing any previous body — in
    /// particular a plain-text one.
    pub fn html_body(self, html: &str) -> (r: Self)
        ensures
            r.spec_from() == self.spec_from(),
            r.spec_recipients() == self.spec_recipients(),
            r.spec_subject() == self.spec_subject(),
            r.spec_body() matches Some(b) && b matches EmailBody::Html(h) && h@ == html@,
    {
        EmailBuilder { body: Some(EmailBody::Html(String::from_str(html))), ..self }
    }

    /// Finalizes the builder. Fails if and only if no recipient was ever
    /// appended; otherwise the email's `to` is all recipients joined by
    /// commas in append order, its subject defaults to "no subject", and
    /// body and sender override carry through as they stand.
    pub fn build(self) -> (r: Result<Email, BuildError>)
        ensures
            r is Err <==> self.spec_recipients().len() == 0,
            r matches Err(e) ==> e matches BuildError::MissingField(f) && f@ == "to"@,
            r matches Ok(email) ==> {
                &&& email.from == self.spec_from()
                &&& email.to@ == join_comma(self.spec_recipients())
                &&& email.subject@ == match self.spec_subject() {
                    Some(s) => s@,
                    None => "no subject"@,
                }
                &&& email.body == self.spec_body()
            },
    {
        if self.recipients.len() == 0 {
            return Err(BuildError::MissingField("to"));
        }
        let to = join_all(&self.recipients);
        let subject = match self.subject {
            Some(s) => s,
            None => String::from_str("no subject"),
        };
        Ok(Email { from: self.from, to, subject, body: self.body })
    }
}

impl Email {
    /// Fills the sender with the given default where none was set;
    /// every other field is unchanged. A set sender always wins.
    pub fn with_default_from(self, default: &str) -> (r: Email)
        ensures
            r.from matches Some(f) && f@ == match self.from {
                Some(f0) => f0@,
                None => default@,
            },
            r.to == self.to,
            r.subject == self.subject,
            r.body == self.body,
    {
        match self.from {
            Some(f) => Email { from: Some(f), ..self },
            None => Email { from: Some(String::from_str(default)), ..self },
        }
    }
}

} // verus!
