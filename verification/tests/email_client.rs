use std::time::Duration;

use zero2production::email_client::{
    build_message, send_outcome, status_is_error, ApiToken, Email, Content, Delivery, EmailClient,
    SendError, JSON_CONTENT_TYPE, SEND_METHOD, SEND_PATH, TEXT_HTML, TEXT_PLAIN,
};

fn email_client(base_url: &str) -> EmailClient {
    EmailClient::new(
        base_url.to_string(),
        "sender@example.com".to_string(),
        ApiToken::new("token-abc-123".to_string()),
        Duration::from_millis(200),
    )
    .expect("the HTTP client builds")
}

#[test]
fn message_is_addressed_to_the_single_recipient() {
    let m = build_message(
        "sender@example.com",
        "reader@example.com",
        "Issue 1",
        "<p>Hello</p>",
        "Hello",
    );
    assert_eq!(m.from.email, "sender@example.com");
    assert_eq!(m.subject, "Issue 1");
    assert_eq!(m.personalizations.len(), 1);
    let p = &m.personalizations[0];
    assert_eq!(p.to.len(), 1);
    assert_eq!(p.to[0].email, "reader@example.com");
    assert!(p.cc.is_none());
    assert!(p.bcc.is_none());
    assert!(p.subject.is_none());
    let content = m.content.expect("the message has content");
    assert_eq!(content.len(), 2);
    assert_eq!(content[0].content_type, "text/plain");
    assert_eq!(content[0].value, "Hello");
    assert_eq!(content[1].content_type, "text/html");
    assert_eq!(content[1].value, "<p>Hello</p>");
}

#[test]
fn content_type_names_are_the_mime_types() {
    assert_eq!(TEXT_PLAIN, "text/plain");
    assert_eq!(TEXT_HTML, "text/html");
    assert_eq!(JSON_CONTENT_TYPE, "application/json");
    assert_eq!(SEND_PATH, "/send");
    assert_eq!(SEND_METHOD, "POST");
}

#[test]
fn default_content_is_empty() {
    let c = Content::default();
    assert_eq!(c.content_type, "");
    assert_eq!(c.value, "");
}

#[test]
fn send_url_appends_send_to_the_base_url() {
    let client = email_client("http://127.0.0.1:4321");
    assert_eq!(client.send_url(), "http://127.0.0.1:4321/send");
}

#[test]
fn send_request_fires_at_base_url_with_json_and_bearer_token() {
    let client = email_client("http://127.0.0.1:4321");
    let request = client.send_request("reader@example.com", "Subject", "<b>html</b>", "text");
    assert_eq!(request.method, "POST");
    assert_eq!(request.url, "http://127.0.0.1:4321/send");
    assert_eq!(request.content_type, "application/json");
    assert_eq!(request.bearer_token, "token-abc-123");
    assert_eq!(request.body.from.email, "sender@example.com");
    assert_eq!(request.body.subject, "Subject");
    assert_eq!(request.body.personalizations[0].to[0].email, "reader@example.com");
    let content = request.body.content.as_ref().expect("the body has content");
    assert_eq!(content[0].value, "text");
    assert_eq!(content[1].value, "<b>html</b>");
}

#[test]
fn a_cloned_client_sends_with_the_same_token() {
    let client = email_client("https://api.example.com/v3/mail");
    let copy = client.clone();
    let request = copy.send_request("a@b.c", "s", "h", "t");
    assert_eq!(request.bearer_token, "token-abc-123");
    assert_eq!(request.url, "https://api.example.com/v3/mail/send");
}

#[test]
fn outcome_succeeds_if_the_server_returns_200() {
    assert_eq!(send_outcome(Delivery::Answered(200)), Ok(()));
}

#[test]
fn outcome_fails_if_the_server_returns_500() {
    assert_eq!(send_outcome(Delivery::Answered(500)), Err(SendError::Status(500)));
}

#[test]
fn outcome_fails_if_no_answer_comes_in_time() {
    assert_eq!(send_outcome(Delivery::NoAnswer), Err(SendError::Transport));
}

#[test]
fn outcome_fails_on_client_errors_and_accepts_redirects() {
    assert_eq!(send_outcome(Delivery::Answered(400)), Err(SendError::Status(400)));
    assert_eq!(send_outcome(Delivery::Answered(499)), Err(SendError::Status(499)));
    assert_eq!(send_outcome(Delivery::Answered(599)), Err(SendError::Status(599)));
    assert_eq!(send_outcome(Delivery::Answered(600)), Ok(()));
    assert_eq!(send_outcome(Delivery::Answered(399)), Ok(()));
    assert_eq!(send_outcome(Delivery::Answered(202)), Ok(()));
}

#[test]
fn error_statuses_are_the_4xx_and_5xx_codes() {
    assert!(!status_is_error(100));
    assert!(!status_is_error(302));
    assert!(status_is_error(400));
    assert!(status_is_error(503));
    assert!(!status_is_error(600));
}

#[test]
fn a_built_http_client_makes_a_client_with_the_given_settings() {
    let made = EmailClient::with_http_client(
        Ok(reqwest::Client::new()),
        "http://localhost:9".to_string(),
        "from@example.com".to_string(),
        ApiToken::new("secret-token".to_string()),
    );
    let client = made.expect("a built HTTP client gives a client");
    assert_eq!(client.send_url(), "http://localhost:9/send");
    let request = client.send_request("to@example.com", "s", "h", "t");
    assert_eq!(request.bearer_token, "secret-token");
    assert_eq!(request.body.from.email, "from@example.com");
}

#[test]
fn a_build_error_is_handed_back() {
    let error = reqwest::Proxy::http("not a proxy url").expect_err("the proxy URL is invalid");
    let message = error.to_string();
    let made = EmailClient::with_http_client(
        Err(error),
        "http://localhost:9".to_string(),
        "from@example.com".to_string(),
        ApiToken::new("secret-token".to_string()),
    );
    match made {
        Err(e) => assert_eq!(e.to_string(), message),
        Ok(_) => panic!("a build error must not give a client"),
    }
}

#[test]
fn email_and_content_clones_are_equal() {
    let e = Email { email: "a@b.c" };
    assert_eq!(e.clone().email, "a@b.c");
    let c = Content { content_type: "text/plain", value: "v" };
    let d = c.clone();
    assert_eq!(d.content_type, "text/plain");
    assert_eq!(d.value, "v");
}

#[test]
fn the_token_travels_only_as_the_bearer_token() {
    let make = |token: &str| {
        EmailClient::new(
            "http://127.0.0.1:4321".to_string(),
            "sender@example.com".to_string(),
            ApiToken::new(token.to_string()),
            Duration::from_millis(200),
        )
        .expect("the HTTP client builds")
    };
    let first = make("first-token");
    let second = make("second-token");
    let a = first.send_request("r@example.com", "s", "<p>h</p>", "t");
    let b = second.send_request("r@example.com", "s", "<p>h</p>", "t");
    assert_eq!(a.method, b.method);
    assert_eq!(a.url, b.url);
    assert_eq!(a.content_type, b.content_type);
    assert_eq!(format!("{:?}", a.body), format!("{:?}", b.body));
    assert_eq!(a.bearer_token, "first-token");
    assert_eq!(b.bearer_token, "second-token");
    assert!(!a.url.contains("first-token"));
    assert!(!format!("{:?}", a.body).contains("first-token"));
}
