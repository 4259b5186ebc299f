use mailgun46::{BuildError, Email, EmailBody, EmailBuilder};

#[test]
fn serialize_email() {
    let email = Email {
        from: Some(String::from("niclas")),
        to: String::from("someoneelse"),
        subject: String::from("Subject"),
        body: Some(EmailBody::Html(String::from("HELLO"))),
    };

    let json = mailgun46::to_json(&email);

    assert_eq!(
        json,
        r#"{"from":"niclas","to":"someoneelse","subject":"Subject","html":"HELLO"}"#
    );
}

#[test]
fn serialize_email_text_body() {
    let email = Email {
        from: Some(String::from("a")),
        to: String::from("b"),
        subject: String::from("c"),
        body: Some(EmailBody::Text(String::from("plain"))),
    };
    assert_eq!(
        mailgun46::to_json(&email),
        r#"{"from":"a","to":"b","subject":"c","text":"plain"}"#
    );
}

#[test]
fn serialize_email_no_body_no_from() {
    let email = Email {
        from: None,
        to: String::from("b"),
        subject: String::from("c"),
        body: None,
    };
    assert_eq!(mailgun46::to_json(&email), r#"{"from":null,"to":"b","subject":"c"}"#);
}

#[test]
fn serialize_email_escapes_specials() {
    let email = Email {
        from: None,
        to: String::from("a\"b"),
        subject: String::from("back\\slash and\nnewline"),
        body: None,
    };
    assert_eq!(
        mailgun46::to_json(&email),
        "{\"from\":null,\"to\":\"a\\\"b\",\"subject\":\"back\\\\slash and\\u000anewline\"}"
    );
}

#[test]
fn build_joins_recipients_in_order() {
    let email = EmailBuilder::default()
        .to("first@example.com")
        .to("second@example.com")
        .to("third@example.com")
        .subject("hello")
        .build()
        .expect("at least one recipient was appended");
    assert_eq!(email.to, "first@example.com,second@example.com,third@example.com");
    assert_eq!(email.subject, "hello");
    assert!(email.from.is_none());
    assert!(email.body.is_none());
}

#[test]
fn build_single_recipient() {
    let email = EmailBuilder::default().to("only@example.com").build().unwrap();
    assert_eq!(email.to, "only@example.com");
}

#[test]
fn build_without_recipient_fails() {
    let res = EmailBuilder::default().subject("no one to read this").build();
    assert_eq!(res, Err(BuildError::MissingField("to")));
}

#[test]
fn build_defaults_subject() {
    let email = EmailBuilder::default().to("a@b").build().unwrap();
    assert_eq!(email.subject, "no subject");
}

#[test]
fn builder_keeps_from_and_body() {
    let email = EmailBuilder::default()
        .from("sender@example.com")
        .to("a@b")
        .body(EmailBody::Text(String::from("hi")))
        .build()
        .unwrap();
    assert_eq!(email.from, Some(String::from("sender@example.com")));
    assert_eq!(email.body, Some(EmailBody::Text(String::from("hi"))));
}

#[test]
fn text_body_replaces_html_body() {
    let email = EmailBuilder::default()
        .to("a@b")
        .html_body("<b>rich</b>")
        .text_body("plain")
        .build()
        .unwrap();
    assert_eq!(email.body, Some(EmailBody::Text(String::from("plain"))));

    let pairs = mailgun46::form_pairs(&email);
    assert!(pairs.iter().any(|(k, v)| k == "text" && v == "plain"));
    assert!(!pairs.iter().any(|(k, _)| k == "html"));
}

#[test]
fn html_body_replaces_text_body() {
    let email = EmailBuilder::default()
        .to("a@b")
        .text_body("plain")
        .html_body("<b>rich</b>")
        .build()
        .unwrap();
    assert_eq!(email.body, Some(EmailBody::Html(String::from("<b>rich</b>"))));

    let pairs = mailgun46::form_pairs(&email);
    assert!(pairs.iter().any(|(k, v)| k == "html" && v == "<b>rich</b>"));
    assert!(!pairs.iter().any(|(k, _)| k == "text"));
}

#[test]
fn form_pairs_in_wire_order() {
    let email = Email {
        from: Some(String::from("niclas")),
        to: String::from("someoneelse"),
        subject: String::from("Subject"),
        body: Some(EmailBody::Html(String::from("HELLO"))),
    };
    let pairs = mailgun46::form_pairs(&email);
    let expected = vec![
        (String::from("from"), String::from("niclas")),
        (String::from("to"), String::from("someoneelse")),
        (String::from("subject"), String::from("Subject")),
        (String::from("html"), String::from("HELLO")),
    ];
    assert_eq!(pairs, expected);
}

#[test]
fn form_pairs_omits_unset_fields() {
    let email = Email {
        from: None,
        to: String::from("a@b"),
        subject: String::from("s"),
        body: None,
    };
    let pairs = mailgun46::form_pairs(&email);
    let expected = vec![
        (String::from("to"), String::from("a@b")),
        (String::from("subject"), String::from("s")),
    ];
    assert_eq!(pairs, expected);
}

#[test]
fn with_default_from_fills_only_when_unset() {
    let unset = Email {
        from: None,
        to: String::from("a@b"),
        subject: String::from("s"),
        body: None,
    };
    let filled = unset.with_default_from("noreply@d");
    assert_eq!(filled.from, Some(String::from("noreply@d")));

    let set = Email {
        from: Some(String::from("me@d")),
        to: String::from("a@b"),
        subject: String::from("s"),
        body: None,
    };
    let kept = set.with_default_from("noreply@d");
    assert_eq!(kept.from, Some(String::from("me@d")));
}

#[test]
fn build_error_message() {
    let res = EmailBuilder::default().build();
    match res {
        Err(e) => assert_eq!(e.message(), "Missing field `to`"),
        Ok(_) => panic!("build of an empty builder must fail"),
    }
}
