//! Serializing a finalized `Email`: the form fields that go on the wire
//! in a POST body, and a JSON rendering of the same schema. The fields
//! are `from`, `to`, `subject`, and — mutually exclusively — `html` or
//! `text`; an absent body omits both.

use vstd::prelude::*;

verus! {

use crate::email::{Email, EmailBody};

/// The lower-case hexadecimal digit of a value below 16.
pub open spec fn spec_hex_digit(d: int) -> char {
    if d == 0 {
        '0'
    } else if d == 1 {
        '1'
    } else if d == 2 {
        '2'
    } else if d == 3 {
        '3'
    } else if d == 4 {
        '4'
    } else if d == 5 {
        '5'
    } else if d == 6 {
        '6'
    } else if d == 7 {
        '7'
    } else if d == 8 {
        '8'
    } else if d == 9 {
        '9'
    } else if d == 10 {
        'a'
    } else if d == 11 {
        'b'
    } else if d == 12 {
        'c'
    } else if d == 13 {
        'd'
    } else if d == 14 {
        'e'
    } else {
        'f'
    }
}

/// How one character is written inside a JSON string literal: quotes and
/// backslashes get a backslash escape, control characters a `\u00XX`
/// escape, every other character stands as itself.
pub open spec fn spec_escape_char(c: char) -> Seq<char> {
    if c == '"' {
        seq!['\\', '"']
    } else if c == '\\' {
        seq!['\\', '\\']
    } else if (c as u32) < 0x20 {
        seq!['\\', 'u', '0', '0', spec_hex_digit(c as u32 as int / 16), spec_hex_digit(
            c as u32 as int % 16,
        )]
    } else {
        seq![c]
    }
}

/// A whole string escaped for a JSON string literal, character by
/// character.
pub open spec fn spec_escape(s: Seq<char>) -> Seq<char>
    decreases s.len(),
{
    if s.len() == 0 {
        Seq::<char>::empty()
    } else {
        spec_escape_char(s[0]) + spec_escape(s.drop_first())
    }
}

/// A JSON string literal: the escaped characters between double quotes.
pub open spec fn spec_json_string(s: Seq<char>) -> Seq<char> {
    seq!['"'] + spec_escape(s) + seq!['"']
}

/// The JSON rendering of a finalized email: the fields `from` (or
/// `null` where none is set), `to` and `subject`, then `html` or `text`
/// for the body where one is set — never both, and neither when the
/// email has no body.
pub open spec fn spec_email_json(e: Email) -> Seq<char> {
    "{\"from\":"@ + (match e.from {
        Some(f) => spec_json_string(f@),
        None => "null"@,
    }) + ",\"to\":"@ + spec_json_string(e.to@) + ",\"subject\":"@ + spec_json_string(e.subject@)
        + (match e.body {
        Some(EmailBody::Html(h)) => ",\"html\":"@ + spec_json_string(h@),
        Some(EmailBody::Text(t)) => ",\"text\":"@ + spec_json_string(t@),
        None => Seq::<char>::empty(),
    }) + "}"@
}

/// The form fields of a finalized email, in wire order: `from` where a
/// sender is set, then `to`, `subject`, and the body under `html` or
/// `text` where one is set — never both.
pub open spec fn spec_form_fields(e: Email) -> Seq<(Seq<char>, Seq<char>)> {
    (match e.from {
        Some(f) => seq![("from"@, f@)],
        None => Seq::<(Seq<char>, Seq<char>)>::empty(),
    }) + seq![("to"@, e.to@), ("subject"@, e.subject@)] + (match e.body {
        Some(EmailBody::Html(h)) => seq![("html"@, h@)],
        Some(EmailBody::Text(t)) => seq![("text"@, t@)],
        None => Seq::<(Seq<char>, Seq<char>)>::empty(),
    })
}

/// Whether some field of the given name stands among the fields.
pub open spec fn has_field(fields: Seq<(Seq<char>, Seq<char>)>, name: Seq<char>) -> bool {
    exists|i: int| 0 <= i < fields.len() && fields[i].0 == name
}

/// The serialized form of an email never holds both an `html` and a
/// `text` field: the body is one variant or absent, and each variant
/// contributes only its own field.
pub proof fn lemma_body_fields_exclusive(e: Email)
    ensures
        !(has_field(spec_form_fields(e), "html"@) && has_field(spec_form_fields(e), "text"@)),
{
    reveal_strlit("from");
    reveal_strlit("to");
    reveal_strlit("subject");
    reveal_strlit("html");
    reveal_strlit("text");
    let fields = spec_form_fields(e);
    assert("from"@[0] == 'f' && "to"@[0] == 't' && "subject"@[0] == 's' && "html"@[0] == 'h'
        && "text"@[0] == 't');
    assert("to"@.len() == 2 && "text"@.len() == 4 && "html"@.len() == 4);
    match e.body {
        Some(EmailBody::Html(h)) => {
            match e.from {
                Some(f) => {
                    assert(fields =~= seq![
                        ("from"@, f@),
                        ("to"@, e.to@),
                        ("subject"@, e.subject@),
                        ("html"@, h@),
                    ]);
                },
                None => {
                    assert(fields =~= seq![
                        ("to"@, e.to@),
                        ("subject"@, e.subject@),
                        ("html"@, h@),
                    ]);
                },
            }
            assert(forall|i: int| 0 <= i < fields.len() ==> fields[i].0 != "text"@);
        },
        Some(EmailBody::Text(t)) => {
            match e.from {
                Some(f) => {
                    assert(fields =~= seq![
                        ("from"@, f@),
                        ("to"@, e.to@),
                        ("subject"@, e.subject@),
                        ("text"@, t@),
                    ]);
                },
                None => {
                    assert(fields =~= seq![
                        ("to"@, e.to@),
                        ("subject"@, e.subject@),
                        ("text"@, t@),
                    ]);
                },
            }
            assert(forall|i: int| 0 <= i < fields.len() ==> fields[i].0 != "html"@);
        },
        None => {
            match e.from {
                Some(f) => {
                    assert(fields =~= seq![("from"@, f@), ("to"@, e.to@), ("subject"@, e.subject@)]);
                },
                None => {
                    assert(fields =~= seq![("to"@, e.to@), ("subject"@, e.subject@)]);
                },
            }
            assert(forall|i: int| 0 <= i < fields.len() ==> fields[i].0 != "html"@);
        },
    }
}

/// Escaping distributes over appending one character at the end.
proof fn lemma_escape_push(s: Seq<char>, c: char)
    ensures
        spec_escape(s.push(c)) == spec_escape(s) + spec_escape_char(c),
    decreases s.len(),
{
    if s.len() == 0 {
        assert(s.push(c)[0] == c);
        assert(s.push(c).drop_first() =~= Seq::<char>::empty());
        assert(spec_escape(s.push(c)) == spec_escape_char(c) + spec_escape(
            s.push(c).drop_first(),
        ));
        assert(spec_escape(s.push(c).drop_first()) == Seq::<char>::empty());
        assert(spec_escape(s.push(c)) =~= spec_escape(s) + spec_escape_char(c));
    } else {
        assert(s.push(c).drop_first() =~= s.drop_first().push(c));
        lemma_escape_push(s.drop_first(), c);
        assert(s.push(c)[0] == s[0]);
        assert(spec_escape_char(s[0]) + (spec_escape(s.drop_first()) + spec_escape_char(c)) =~= (
        spec_escape_char(s[0]) + spec_escape(s.drop_first())) + spec_escape_char(c));
    }
}

/// Relies on String::push: appends exactly the one character.
#[verifier::external_body]
fn push_char(s: &mut String, c: char)
    ensures
        final(s)@ == old(s)@.push(c),
{
    s.push(c);
}

/// The lower-case hexadecimal digit of a value below 16.
fn hex_digit(d: u32) -> (r: char)
    requires
        d < 16,
    ensures
        r == spec_hex_digit(d as int),
{
    if d == 0 {
        '0'
    } else if d == 1 {
        '1'
    } else if d == 2 {
        '2'
    } else if d == 3 {
        '3'
    } else if d == 4 {
        '4'
    } else if d == 5 {
        '5'
    } else if d == 6 {
        '6'
    } else if d == 7 {
        '7'
    } else if d == 8 {
        '8'
    } else if d == 9 {
        '9'
    } else if d == 10 {
        'a'
    } else if d == 11 {
        'b'
    } else if d == 12 {
        'c'
    } else if d == 13 {
        'd'
    } else if d == 14 {
        'e'
    } else {
        'f'
    }
}

/// Appends the JSON escape of `s` onto `out`.
fn escape_into(out: &mut String, s: &str)
    ensures
        final(out)@ == old(out)@ + spec_escape(s@),
{
    let n = s.unicode_len();
    let mut i: usize = 0;
    while i < n
        invariant
            i <= n,
            n == s@.len(),
            out@ == old(out)@ + spec_escape(s@.take(i as int)),
        decreases n - i,
    {
        let c = s.get_char(i);
        proof {
            assert(s@.take(i + 1) =~= s@.take(i as int).push(s@[i as int]));
            lemma_escape_push(s@.take(i as int), s@[i as int]);
        }
        if c == '"' {
            proof {
                reveal_strlit("\\\"");
                assert("\\\""@ =~= spec_escape_char('"'));
            }
            out.append("\\\"");
        } else if c == '\\' {
            proof {
                reveal_strlit("\\\\");
                assert("\\\\"@ =~= spec_escape_char('\\'));
            }
            out.append("\\\\");
        } else if (c as u32) < 0x20 {
            proof {
                reveal_strlit("\\u00");
            }
            out.append("\\u00");
            push_char(out, hex_digit((c as u32) / 16));
            push_char(out, hex_digit((c as u32) % 16));
            proof {
                assert(out@ =~= old(out)@ + spec_escape(s@.take(i as int)) + spec_escape_char(c));
                assert(out@ =~= old(out)@ + (spec_escape(s@.take(i as int)) + spec_escape_char(
                    c,
                )));
            }
        } else {
            push_char(out, c);
            proof {
                assert(spec_escape_char(c) =~= seq![c]);
                assert(out@ =~= old(out)@ + (spec_escape(s@.take(i as int)) + spec_escape_char(
                    c,
                )));
            }
        }
        proof {
            assert(out@ =~= old(out)@ + spec_escape(s@.take(i + 1)));
        }
        i += 1;
    }
    proof {
        assert(s@.take(n as int) =~= s@);
    }
}

/// Appends the JSON string literal holding `s` onto `out`.
fn json_string_into(out: &mut String, s: &str)
    ensures
        final(out)@ == old(out)@ + spec_json_string(s@),
{
    push_char(out, '"');
    escape_into(out, s);
    push_char(out, '"');
    proof {
        assert(out@ =~= old(out)@ + spec_json_string(s@));
    }
}

/// Renders a finalized email as the JSON object of its wire schema.
pub fn to_json(email: &Email) -> (r: String)
    ensures
        r@ == spec_email_json(*email),
{
    let mut out = String::from_str("{\"from\":");
    match &email.from {
        Some(f) => json_string_into(&mut out, f.as_str()),
        None => out.append("null"),
    }
    out.append(",\"to\":");
    json_string_into(&mut out, email.to.as_str());
    out.append(",\"subject\":");
    json_string_into(&mut out, email.subject.as_str());
    match &email.body {
        Some(EmailBody::Html(h)) => {
            out.append(",\"html\":");
            json_string_into(&mut out, h.as_str());
        },
        Some(EmailBody::Text(t)) => {
            out.append(",\"text\":");
            json_string_into(&mut out, t.as_str());
        },
        None => {},
    }
    out.append("}");
    proof {
        assert(out@ =~= spec_email_json(*email));
    }
    out
}

/// The form fields of a finalized email, each as a name and a value, in
/// wire order.
pub fn form_pairs(email: &Email) -> (r: Vec<(String, String)>)
    ensures
        r.deep_view() == spec_form_fields(*email),
{
    let mut out: Vec<(String, String)> = Vec::new();
    match &email.from {
        Some(f) => out.push((String::from_str("from"), f.clone())),
        None => {},
    }
    out.push((String::from_str("to"), email.to.clone()));
    out.push((String::from_str("subject"), email.subject.clone()));
    match &email.body {
        Some(EmailBody::Html(h)) => out.push((String::from_str("html"), h.clone())),
        Some(EmailBody::Text(t)) => out.push((String::from_str("text"), t.clone())),
        None => {},
    }
    proof {
        assert(out.deep_view() =~= spec_form_fields(*email));
    }
    out
}

} // verus!
