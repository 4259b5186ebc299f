use mailgun46::{Email, EmailBody, Mailer, MessageId, SendError, SetupError};

#[test]
fn new_with_mg_url_resolves_configuration() {
    let mailer = Mailer::new_with_mg_url("https://example.com", "fakedomain", "tomatotoken")
        .expect("well-formed endpoint");
    assert_eq!(mailer.default_from(), "noreply@fakedomain");
    assert_eq!(mailer.messages_url(), "https://example.com/v3/fakedomain/messages");
    assert_eq!(mailer.auth_header(), "Basic YXBpOnRvbWF0b3Rva2Vu");
}

#[test]
fn new_uses_default_base_url() {
    let mailer = Mailer::new("fakedomain", "tomatotoken").expect("well-formed endpoint");
    assert_eq!(
        mailer.messages_url(),
        "https://api.eu.mailgun.net/v3/fakedomain/messages"
    );
    assert_eq!(mailgun46::MG_BASE_URL, "https://api.eu.mailgun.net");
}

#[test]
fn endpoint_is_normalized() {
    let mailer =
        Mailer::new_with_mg_url("HTTPS://EXAMPLE.com", "d", "t").expect("well-formed endpoint");
    assert_eq!(mailer.messages_url(), "https://example.com/v3/d/messages");
}

#[test]
fn malformed_base_url_is_rejected() {
    let res = Mailer::new_with_mg_url("not a url at all", "d", "t");
    match res {
        Err(SetupError::InvalidVar(var, _)) => assert_eq!(var, "domain"),
        other => panic!("expected InvalidVar, got {:?}", other),
    }
}

#[test]
fn request_form_fills_default_sender() {
    let mailer = Mailer::new_with_mg_url("https://example.com", "fakedomain", "t").unwrap();
    let email = Email {
        from: None,
        to: String::from("a@b"),
        subject: String::from("s"),
        body: None,
    };
    let pairs = mailer.request_form(email);
    assert_eq!(
        pairs[0],
        (String::from("from"), String::from("noreply@fakedomain"))
    );
}

#[test]
fn request_form_keeps_custom_sender() {
    let mailer = Mailer::new_with_mg_url("https://example.com", "fakedomain", "t").unwrap();
    let email = Email {
        from: Some(String::from("me@fakedomain")),
        to: String::from("a@b"),
        subject: String::from("s"),
        body: Some(EmailBody::Text(String::from("hi"))),
    };
    let pairs = mailer.request_form(email);
    let expected = vec![
        (String::from("from"), String::from("me@fakedomain")),
        (String::from("to"), String::from("a@b")),
        (String::from("subject"), String::from("s")),
        (String::from("text"), String::from("hi")),
    ];
    assert_eq!(pairs, expected);
}

#[test]
fn interpret_response_success_returns_message_id() {
    let body = String::from(
        r#"
{
  "id": "<20210224131116.1.E5C867B3818DC87B@fakedomain>",
  "message": "Queued. Thank you."
}
"#,
    );
    let res = mailgun46::interpret_response(200, body);
    assert_eq!(
        res,
        Ok(MessageId(String::from(
            "<20210224131116.1.E5C867B3818DC87B@fakedomain>"
        )))
    );
}

#[test]
fn interpret_response_non_200_carries_status_and_body() {
    let body = String::from("internal provider error");
    let res = mailgun46::interpret_response(500, body);
    assert_eq!(
        res,
        Err(SendError::Non200Reply(
            500,
            String::from("internal provider error")
        ))
    );
}

#[test]
fn interpret_response_unparseable_success_body() {
    let res = mailgun46::interpret_response(200, String::from("not json"));
    assert_eq!(res, Err(SendError::InvalidReply(String::from("not json"))));
}

#[test]
fn interpret_response_missing_id_member() {
    let res = mailgun46::interpret_response(200, String::from(r#"{"message":"Queued."}"#));
    assert_eq!(
        res,
        Err(SendError::InvalidReply(String::from(r#"{"message":"Queued."}"#)))
    );
}

#[test]
fn setup_error_messages() {
    assert_eq!(
        SetupError::EnvVarMissing("MAILER46_DOMAIN").message(),
        "Missing env variable `MAILER46_DOMAIN`"
    );
    assert_eq!(
        SetupError::InvalidVar("domain", String::from("oops")).message(),
        "Invalid value for `domain`: oops"
    );
    assert_eq!(
        SetupError::Build(String::from("oops")).message(),
        "Creating Http Client: oops"
    );
}

#[test]
fn send_error_messages() {
    assert_eq!(
        SendError::Http(String::from("timed out")).message(),
        "SendingError http `timed out`"
    );
    assert_eq!(
        SendError::Non200Reply(500, String::from("body")).message(),
        "Got non 200 reply from mailgun: `body`"
    );
    assert_eq!(
        SendError::InvalidReply(String::from("body")).message(),
        "Unexpected reply from mailgun: `body`"
    );
}
