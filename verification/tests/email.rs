use flaremail_rs::{
    choose_account, read_envelope, trim_end_slashes, Account, Action, Address, ApiError,
    Attachment, AttachmentDisposition, CloudflareResponse, CloudflareSendResult, Delivery, Email,
    EmailError, Environment, ErrorCode, HeaderName, HttpRequest, Method, Recipients, Reply,
    SendEmail, SendEmailResponse, SendOptions, DEFAULT_BASE_URL,
};

const BASE: &str = "http://127.0.0.1:8080";

fn no_env() -> Environment {
    Environment {
        cloudflare_api_token: None,
        cf_api_token: None,
        cloudflare_account_id: None,
        cf_account_id: None,
    }
}

fn header<'a>(req: &'a HttpRequest, name: HeaderName) -> Option<&'a str> {
    req.headers.iter().find(|h| h.name == name).map(|h| h.value.as_str())
}

fn answer<T>(status: u16, success: bool, errors: Vec<ApiError>, result: Option<T>) -> CloudflareResponse<T> {
    CloudflareResponse { status, success, errors, result }
}

fn send_result(id: Option<&str>, delivered: &[&str], queued: &[&str]) -> CloudflareSendResult {
    CloudflareSendResult {
        id: id.map(|s| s.to_string()),
        delivered: delivered.iter().map(|s| s.to_string()).collect(),
        queued: queued.iter().map(|s| s.to_string()).collect(),
        permanent_bounces: Vec::new(),
    }
}

fn transport_error() -> reqwest::Error {
    reqwest::Client::new().get("not a url").build().unwrap_err()
}

fn expect_send(action: Action) -> HttpRequest {
    match action {
        Action::Send(req) => req,
        Action::ListAccounts(_) => panic!("unexpected account lookup"),
        Action::Finish(r) => panic!("unexpected finish: {r:?}"),
    }
}

fn expect_finish(action: Action) -> Result<SendEmailResponse, EmailError> {
    match action {
        Action::Finish(r) => r,
        _ => panic!("expected the delivery to finish"),
    }
}

fn simple_message() -> SendEmail {
    SendEmail::new("noreply@example.com".into(), "user@example.com".into(), "Hello").html("<p>Hello</p>")
}

#[test]
fn sends_email_to_cloudflare_rest_endpoint() {
    let email = Email::new("cf-token", &no_env())
        .with_account_id("account-123")
        .with_base_url(BASE);
    let message = SendEmail::new(
        Address::named("Acme", "noreply@example.com"),
        ["user@example.com"].into(),
        "Hello world",
    )
    .html("<strong>It works!</strong>")
    .text("It works!")
    .cc("cc@example.com".into())
    .bcc(["bcc@example.com"].into())
    .reply_to("reply@example.com")
    .header("X-Test", "true")
    .attachment(Attachment::new("SGVsbG8=", "hello.txt", "text/plain").inline("hello-file"));

    let delivery = Delivery::new(email, message, SendOptions::new().idempotency_key("welcome/user-123"));
    let (delivery, action) = delivery.step(None);
    let req = expect_send(action);
    assert_eq!(req.method, Method::Post);
    assert_eq!(req.url, format!("{BASE}/accounts/account-123/email/sending/send"));
    assert_eq!(header(&req, HeaderName::Authorization), Some("Bearer cf-token"));
    assert_eq!(header(&req, HeaderName::IdempotencyKey), Some("welcome/user-123"));
    assert_eq!(header(&req, HeaderName::ContentType), Some("application/json"));

    let body = req.body.as_ref().unwrap();
    match &body.from {
        Address::Named { address, name } => {
            assert_eq!(address, "noreply@example.com");
            assert_eq!(name, "Acme");
        }
        other => panic!("unexpected sender: {other:?}"),
    }
    assert!(matches!(&body.to, Recipients::Many(v) if v == &vec!["user@example.com".to_string()]));
    assert_eq!(body.subject, "Hello world");
    assert_eq!(body.html.as_deref(), Some("<strong>It works!</strong>"));
    assert_eq!(body.text.as_deref(), Some("It works!"));
    assert!(matches!(&body.cc, Some(Recipients::One(s)) if s == "cc@example.com"));
    assert!(matches!(&body.bcc, Some(Recipients::Many(v)) if v == &vec!["bcc@example.com".to_string()]));
    assert_eq!(body.reply_to.as_deref(), Some("reply@example.com"));
    assert_eq!(body.headers, Some(vec![("X-Test".to_string(), "true".to_string())]));
    assert_eq!(body.attachments.as_ref().unwrap()[0].content_id.as_deref(), Some("hello-file"));

    let reply = Reply::Sent(Ok(answer(
        200,
        true,
        Vec::new(),
        Some(send_result(Some("msg_123"), &["user@example.com"], &[])),
    )));
    let (_, action) = delivery.step(Some(reply));
    let result = expect_finish(action).unwrap();
    assert_eq!(result.id, "msg_123");
    assert_eq!(result.delivered, vec!["user@example.com"]);
}

#[test]
fn returns_api_errors() {
    let email = Email::new("cf-token", &no_env())
        .with_account_id("account-123")
        .with_base_url(BASE);
    let (delivery, action) = Delivery::new(email, simple_message(), SendOptions::new()).step(None);
    expect_send(action);
    let errors = vec![ApiError {
        code: ErrorCode::Json("1234".to_string()),
        message: "Invalid from address".to_string(),
    }];
    let reply = Reply::Sent(Ok(answer::<CloudflareSendResult>(200, false, errors, None)));
    let (_, action) = delivery.step(Some(reply));
    match expect_finish(action).unwrap_err() {
        EmailError::Api { status, code, message, .. } => {
            assert_eq!(status, 200);
            assert_eq!(code.as_deref(), Some("1234"));
            assert_eq!(message, "Invalid from address");
        }
        error => panic!("unexpected error: {error:?}"),
    }
}

#[test]
fn discovers_single_account() {
    let email = Email::new("cf-token", &no_env()).with_base_url(BASE);
    let message = SendEmail::new("noreply@example.com".into(), "user@example.com".into(), "Hello").text("Hello");
    let (delivery, action) = Delivery::new(email, message, SendOptions::new()).step(None);
    let lookup = match action {
        Action::ListAccounts(req) => req,
        _ => panic!("expected an account lookup"),
    };
    assert_eq!(lookup.method, Method::Get);
    assert_eq!(lookup.url, format!("{BASE}/accounts"));
    assert!(lookup.body.is_none());

    let accounts = vec![Account { id: "account-123".to_string() }];
    let (delivery, action) = delivery.step(Some(Reply::Accounts(Ok(answer(200, true, Vec::new(), Some(accounts))))));
    let req = expect_send(action);
    assert_eq!(req.url, format!("{BASE}/accounts/account-123/email/sending/send"));

    let reply = Reply::Sent(Ok(answer(200, true, Vec::new(), Some(send_result(Some("msg_123"), &[], &["user@example.com"])))));
    let (_, action) = delivery.step(Some(reply));
    let result = expect_finish(action).unwrap();
    assert_eq!(result.id, "msg_123");
    assert_eq!(result.queued, vec!["user@example.com"]);
}

#[test]
fn validates_content_before_request() {
    let email = Email::new("cf-token", &no_env())
        .with_account_id("account-123")
        .with_base_url(BASE);
    let message = SendEmail::new("noreply@example.com".into(), "user@example.com".into(), "Hello");
    let (_, action) = Delivery::new(email, message, SendOptions::new()).step(None);
    let error = expect_finish(action).unwrap_err();
    assert!(matches!(error, EmailError::Validation(_)));
}

#[test]
fn validation_reports_missing_subject_first() {
    let m = SendEmail::new("a@example.com".into(), "b@example.com".into(), "");
    assert!(matches!(m.validate(), Err(EmailError::Validation(s)) if s == "subject is required"));
    let m = SendEmail::new("a@example.com".into(), "b@example.com".into(), "Hi");
    assert!(matches!(m.validate(), Err(EmailError::Validation(s)) if s == "Either html or text is required"));
    assert!(m.text("body").validate().is_ok());
}

#[test]
fn header_replaces_earlier_value_and_keeps_others() {
    let m = simple_message().header("X-A", "1").header("X-B", "2").header("X-A", "3");
    assert_eq!(
        m.headers,
        Some(vec![
            ("X-B".to_string(), "2".to_string()),
            ("X-A".to_string(), "3".to_string()),
        ])
    );
}

#[test]
fn attachments_keep_their_order() {
    let m = simple_message()
        .attachment(Attachment::new("AA==", "a.txt", "text/plain"))
        .attachment(Attachment::new("Ag==", "b.txt", "text/plain"));
    let names: Vec<&str> = m.attachments.as_ref().unwrap().iter().map(|a| a.filename.as_str()).collect();
    assert_eq!(names, vec!["a.txt", "b.txt"]);
    let a = &m.attachments.as_ref().unwrap()[0];
    assert_eq!(a.disposition, AttachmentDisposition::Attachment);
    assert!(a.content_id.is_none());
}

#[test]
fn inline_attachment_gets_content_id() {
    let a = Attachment::new("SGVsbG8=", "hello.txt", "text/plain").inline("cid-1");
    assert_eq!(a.disposition, AttachmentDisposition::Inline);
    assert_eq!(a.content_id.as_deref(), Some("cid-1"));
    assert_eq!(a.filename, "hello.txt");
    assert_eq!(a.mime_type, "text/plain");
    assert_eq!(a.content, "SGVsbG8=");
}

#[test]
fn recipients_and_addresses_convert() {
    assert!(matches!(Address::email("a@example.com"), Address::Email(s) if s == "a@example.com"));
    assert!(matches!(Address::from("a@example.com".to_string()), Address::Email(s) if s == "a@example.com"));
    let r: Recipients = ["x@example.com", "y@example.com"].into();
    assert!(matches!(r, Recipients::Many(v) if v == vec!["x@example.com".to_string(), "y@example.com".to_string()]));
    let r: Recipients = vec!["z@example.com".to_string()].into();
    assert!(matches!(r, Recipients::Many(v) if v.len() == 1));
    let r: Recipients = "w@example.com".to_string().into();
    assert!(matches!(r, Recipients::One(s) if s == "w@example.com"));
}

#[test]
fn base_url_loses_trailing_slashes() {
    assert_eq!(trim_end_slashes("http://x//"), "http://x");
    assert_eq!(trim_end_slashes("http://x"), "http://x");
    assert_eq!(trim_end_slashes("///"), "");
    let email = Email::new("k", &no_env()).with_base_url("http://x/v4/");
    assert_eq!(email.base_url(), "http://x/v4");
    assert_eq!(email.endpoint("/accounts"), "http://x/v4/accounts");
    assert_eq!(Email::new("k", &no_env()).base_url(), DEFAULT_BASE_URL);
}

#[test]
fn environment_configures_the_client() {
    let mut env = no_env();
    assert!(matches!(Email::from_env(&env), Err(EmailError::MissingApiToken)));
    env.cf_api_token = Some("fallback".to_string());
    env.cf_account_id = Some("acct-b".to_string());
    let email = Email::from_env(&env).unwrap();
    assert_eq!(email.api_key(), "fallback");
    assert_eq!(email.account_id(), Some("acct-b"));
    env.cloudflare_api_token = Some("primary".to_string());
    env.cloudflare_account_id = Some("acct-a".to_string());
    let email = Email::from_env(&env).unwrap();
    assert_eq!(email.api_key(), "primary");
    assert_eq!(email.account_id(), Some("acct-a"));
    assert_eq!(email.authorization(), "Bearer primary");
}

#[test]
fn account_choice_needs_exactly_one() {
    assert!(matches!(choose_account(Vec::new()), Err(EmailError::NoAccounts)));
    let two = vec![Account { id: "a".to_string() }, Account { id: "b".to_string() }];
    assert!(matches!(choose_account(two), Err(EmailError::MultipleAccounts)));
    assert_eq!(choose_account(vec![Account { id: "a".to_string() }]).unwrap(), "a");
}

#[test]
fn lookup_failures_end_the_delivery() {
    let email = Email::new("cf-token", &no_env()).with_base_url(BASE);
    let (delivery, _) = Delivery::new(email.clone(), simple_message(), SendOptions::new()).step(None);
    let two = vec![Account { id: "a".to_string() }, Account { id: "b".to_string() }];
    let (_, action) = delivery.step(Some(Reply::Accounts(Ok(answer(200, true, Vec::new(), Some(two))))));
    assert!(matches!(expect_finish(action), Err(EmailError::MultipleAccounts)));

    let (delivery, _) = Delivery::new(email.clone(), simple_message(), SendOptions::new()).step(None);
    let (_, action) = delivery.step(Some(Reply::Accounts(Ok(answer(200, true, Vec::new(), Some(Vec::new()))))));
    assert!(matches!(expect_finish(action), Err(EmailError::NoAccounts)));

    let (delivery, _) = Delivery::new(email, simple_message(), SendOptions::new()).step(None);
    let (_, action) = delivery.step(Some(Reply::Accounts(Err(transport_error()))));
    assert!(matches!(expect_finish(action), Err(EmailError::Http(_))));
}

#[test]
fn empty_token_refuses_account_lookup() {
    let email = Email::new("", &no_env());
    let (_, action) = Delivery::new(email.clone(), simple_message(), SendOptions::new()).step(None);
    assert!(matches!(expect_finish(action), Err(EmailError::MissingApiToken)));
    assert!(matches!(email.accounts_request(), Err(EmailError::MissingApiToken)));
}

#[test]
fn request_with_body_is_typed_as_json() {
    let email = Email::new("k", &no_env()).with_base_url(BASE);
    let req = email.request(Method::Post, "/x", Some(simple_message())).unwrap();
    assert_eq!(req.url, format!("{BASE}/x"));
    assert_eq!(header(&req, HeaderName::Authorization), Some("Bearer k"));
    assert_eq!(header(&req, HeaderName::ContentType), Some("application/json"));
    let req = email.request(Method::Get, "/x", None).unwrap();
    assert_eq!(req.headers.len(), 1);
}

#[test]
fn failed_status_without_errors_uses_status_text() {
    let outcome = read_envelope::<CloudflareSendResult>(answer(404, true, Vec::new(), None));
    match outcome.unwrap_err() {
        EmailError::Api { status, code, message, details } => {
            assert_eq!(status, 404);
            assert_eq!(code, None);
            assert_eq!(message, "404 Not Found");
            assert!(details.is_empty());
        }
        error => panic!("unexpected error: {error:?}"),
    }
    let outcome = read_envelope::<CloudflareSendResult>(answer(299, false, Vec::new(), None));
    assert!(matches!(outcome, Err(EmailError::Api { message, .. }) if message == "299 <unknown status code>"));
}

#[test]
fn successful_answer_without_result_is_missing_result() {
    assert!(matches!(
        read_envelope::<CloudflareSendResult>(answer(200, true, Vec::new(), None)),
        Err(EmailError::MissingResult)
    ));
    assert_eq!(read_envelope(answer(201, true, Vec::new(), Some(7u8))).unwrap(), 7);
}

#[test]
fn string_error_codes_are_kept_as_text() {
    let e = ApiError { code: ErrorCode::Text("bad_from".to_string()), message: "m".to_string() };
    assert_eq!(e.code(), "bad_from");
    let e = ApiError { code: ErrorCode::Json("null".to_string()), message: "m".to_string() };
    assert_eq!(e.code(), "null");
}

#[test]
fn message_id_falls_back_to_joined_addresses() {
    assert_eq!(send_result(Some("id-1"), &["a"], &["b"]).id(), "id-1");
    assert_eq!(send_result(None, &["a", "b"], &["c"]).id(), "a,b,c");
    assert_eq!(send_result(None, &[], &["c"]).id(), "c");
    assert_eq!(send_result(None, &[], &[]).id(), "");
    let response = send_result(None, &["a"], &[]).into_response();
    assert_eq!(response, SendEmailResponse {
        id: "a".to_string(),
        delivered: vec!["a".to_string()],
        queued: Vec::new(),
        permanent_bounces: Vec::new(),
    });
}

#[test]
fn transport_failure_of_send_is_http_error() {
    let email = Email::new("k", &no_env()).with_account_id("acct").with_base_url(BASE);
    let (delivery, _) = Delivery::new(email, simple_message(), SendOptions::new()).step(None);
    assert!(delivery.accepts(&Some(Reply::Sent(Err(transport_error())))));
    assert!(!delivery.accepts(&None));
    let (delivery, action) = delivery.step(Some(Reply::Sent(Err(transport_error()))));
    assert!(matches!(expect_finish(action), Err(EmailError::Http(_))));
    assert!(!delivery.accepts(&None));
}

#[test]
fn configured_account_with_empty_token_still_sends() {
    let email = Email::new("", &no_env()).with_account_id("acct");
    let (_, action) = Delivery::new(email, simple_message(), SendOptions::new()).step(None);
    let req = expect_send(action);
    assert_eq!(req.url, format!("{DEFAULT_BASE_URL}/accounts/acct/email/sending/send"));
    assert_eq!(header(&req, HeaderName::Authorization), Some("Bearer "));
    assert_eq!(header(&req, HeaderName::IdempotencyKey), None);
}

#[test]
fn send_options_default_has_no_key() {
    assert!(SendOptions::new().idempotency_key.is_none());
    assert!(SendOptions::default().idempotency_key.is_none());
}
