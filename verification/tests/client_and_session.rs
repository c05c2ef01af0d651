use invite_runner::client::{
    build_client, built_or_error, client_for, describe_failure, failure_line, proxy_address_of,
    try_build_client, try_client_for, REQUEST_TIMEOUT_SECS,
};
use invite_runner::records::parse_proxy_record;
use invite_runner::errors::TaskError;
use invite_runner::headers::{generate_headers, headers_for};
use invite_runner::replies::PollStatus;
use invite_runner::session::{
    Robinhood, CREATE_TASK_URL, IP_CHECK_URL, SUBMIT_URL, TASK_RESULT_URL, TASK_TYPE, WEBSITE_KEY,
    WEBSITE_URL,
};
use invite_runner::solver::PollKind;

#[test]
fn proxy_address_joins_host_and_port() {
    assert_eq!(proxy_address_of("10.1.2.3", "8080"), "http://10.1.2.3:8080");
    assert_eq!(proxy_address_of("", ""), "http://:");
    assert_eq!(proxy_address_of("proxy.example", "1"), "http://proxy.example:1");
}

#[test]
fn request_timeout_is_thirty_seconds() {
    assert_eq!(REQUEST_TIMEOUT_SECS, 30);
}

#[test]
fn client_is_built_for_a_well_formed_endpoint() {
    assert!(build_client("127.0.0.1", "8080", "user", "pass").is_ok());
    assert!(build_client("proxy.example.com", "3128", "", "").is_ok());
}

#[test]
fn malformed_endpoint_is_a_client_build_error() {
    assert_eq!(
        build_client("127.0.0.1", "notaport", "user", "pass").unwrap_err(),
        TaskError::ClientBuild
    );
    assert_eq!(
        build_client("", "", "user", "pass").unwrap_err(),
        TaskError::ClientBuild
    );
    assert_eq!(
        build_client("bad host", "80", "user", "pass").unwrap_err(),
        TaskError::ClientBuild
    );
    assert_eq!(
        build_client("127.0.0.1", "99999", "user", "pass").unwrap_err(),
        TaskError::ClientBuild
    );
}

#[test]
fn client_is_built_for_a_parsed_endpoint() {
    let endpoint = parse_proxy_record("192.168.1.9:3128:login:secret").unwrap();
    assert!(client_for(&endpoint).is_ok());
    let endpoint = parse_proxy_record("192.168.1.9:x:login:secret").unwrap();
    assert_eq!(client_for(&endpoint).unwrap_err(), TaskError::ClientBuild);
}

#[test]
fn client_goes_through_its_proxy_with_the_timeout() {
    let client = build_client("127.0.0.1", "8080", "user", "pass").unwrap();
    let shown = format!("{:?}", client);
    assert!(shown.contains("127.0.0.1:8080"), "{}", shown);
    assert!(shown.contains("timeout: 30s"), "{}", shown);
    assert!(!shown.contains("System"), "{}", shown);
    assert!(
        shown.contains("proxies: [Proxy(Https(http://127.0.0.1:8080), None)]"),
        "{}",
        shown
    );
    let other = build_client("10.9.8.7", "3128", "user", "pass").unwrap();
    let shown = format!("{:?}", other);
    assert!(shown.contains("10.9.8.7:3128"), "{}", shown);
    assert!(!shown.contains("127.0.0.1:8080"), "{}", shown);
}

#[test]
fn failure_line_opens_with_the_same_words() {
    assert_eq!(failure_line("builder error"), "Reqwest error: builder error");
    assert_eq!(failure_line(""), "Reqwest error: ");
}

#[test]
fn failure_to_build_says_why() {
    assert!(try_build_client("127.0.0.1", "8080", "user", "pass").is_ok());
    let error = try_build_client("127.0.0.1", "notaport", "user", "pass").unwrap_err();
    let text = describe_failure(&error);
    assert_eq!(text, format!("Reqwest error: {}", error));
    assert!(text.starts_with("Reqwest error: builder error"));
    let endpoint = parse_proxy_record("bad host:80:login:secret").unwrap();
    let error = try_client_for(&endpoint).unwrap_err();
    assert!(error.is_builder());
    assert_eq!(
        describe_failure(&error),
        format!("Reqwest error: {}", error)
    );
    let endpoint = parse_proxy_record("10.0.0.7:80:login:secret").unwrap();
    assert!(try_client_for(&endpoint).is_ok());
}

#[test]
fn outside_errors_become_client_build_errors() {
    let made: Result<u8, reqwest::Error> = Ok(3);
    assert_eq!(built_or_error(made).unwrap(), 3);
    let failed = reqwest::Proxy::https("http://[broken").map(|_| 1u8);
    assert!(failed.is_err());
    assert_eq!(built_or_error(failed).unwrap_err(), TaskError::ClientBuild);
}

#[test]
fn header_set_holds_the_thirteen_headers() {
    let headers = headers_for("agent/1.0");
    assert_eq!(headers.len(), 13);
    assert_eq!(headers.keys_len(), 13);
    assert_eq!(headers.get("authority").unwrap(), "bonfire.robinhood.com");
    assert_eq!(headers.get("accept").unwrap(), "*/*");
    assert_eq!(
        headers.get("accept-language").unwrap(),
        "ru-RU,ru;q=0.9,en-US;q=0.8,en;q=0.7"
    );
    assert_eq!(
        headers.get("content-type").unwrap(),
        "text/plain;charset=UTF-8"
    );
    assert_eq!(headers.get("origin").unwrap(), "https://robinhood.com");
    assert_eq!(headers.get("referer").unwrap(), "https://robinhood.com/");
    assert_eq!(headers.get("sec-ch-ua").unwrap(), "");
    assert_eq!(headers.get("sec-ch-ua-mobile").unwrap(), "?0");
    assert_eq!(headers.get("sec-ch-ua-platform").unwrap(), "\"Windows\"");
    assert_eq!(headers.get("sec-fetch-dest").unwrap(), "empty");
    assert_eq!(headers.get("sec-fetch-mode").unwrap(), "cors");
    assert_eq!(headers.get("sec-fetch-site").unwrap(), "same-site");
    assert_eq!(headers.get("user-agent").unwrap(), "agent/1.0");
}

#[test]
fn header_with_an_invalid_value_is_left_out() {
    let headers = headers_for("agent\n1.0");
    assert_eq!(headers.len(), 12);
    assert!(headers.get("user-agent").is_none());
    assert_eq!(headers.get("accept").unwrap(), "*/*");
    let headers = headers_for("agent\u{7f}");
    assert_eq!(headers.len(), 12);
    let headers = headers_for("tab\tand \u{e9}");
    assert_eq!(headers.len(), 13);
    assert_eq!(
        headers.get("user-agent").unwrap().as_bytes(),
        "tab\tand \u{e9}".as_bytes()
    );
}

#[test]
fn generated_headers_carry_a_generated_user_agent() {
    let headers = generate_headers();
    assert_eq!(headers.len(), 13);
    let agent = headers.get("user-agent").unwrap().to_str().unwrap();
    assert!(agent.starts_with("Mozilla/5.0 ("));
    assert!(agent.contains(") AppleWebKit/537.36 (KHTML, like Gecko) Chrome/"));
}

fn session() -> Robinhood {
    let client = build_client("127.0.0.1", "8080", "user", "pass").unwrap();
    Robinhood::new(
        client,
        &"me@example.com".to_string(),
        &"INVITE".to_string(),
        &"cap-key".to_string(),
    )
    .unwrap()
}

#[test]
fn new_session_has_headers_and_no_token() {
    let robinhood = session();
    assert_eq!(robinhood.email, "me@example.com");
    assert_eq!(robinhood.invite_code, "INVITE");
    assert_eq!(robinhood.cap_key, "cap-key");
    assert_eq!(robinhood.captcha, "");
    assert_eq!(robinhood.headers.len(), 13);
}

#[test]
fn requests_carry_what_the_session_holds() {
    let mut robinhood = session();
    let create = robinhood.create_request();
    assert_eq!(create.client_key, "cap-key");
    assert_eq!(create.task_type, "RecaptchaV2EnterpriseTaskProxyless");
    assert_eq!(create.task_type, TASK_TYPE);
    assert_eq!(create.website_url, WEBSITE_URL);
    assert_eq!(create.website_key, WEBSITE_KEY);
    let poll = robinhood.poll_request(991);
    assert_eq!(poll.client_key, "cap-key");
    assert_eq!(poll.task_id, 991);
    let before = robinhood.submit_request();
    assert_eq!(before.token, "");
    assert_eq!(
        robinhood.accept_answer(PollStatus::Processing),
        PollKind::Processing
    );
    assert_eq!(robinhood.captcha, "");
    assert_eq!(
        robinhood.accept_answer(PollStatus::Ready("solved".to_string())),
        PollKind::Ready
    );
    assert_eq!(robinhood.captcha, "solved");
    assert_eq!(
        robinhood.accept_answer(PollStatus::Aborted),
        PollKind::Aborted
    );
    assert_eq!(
        robinhood.accept_answer(PollStatus::MissingToken),
        PollKind::MissingToken
    );
    assert_eq!(robinhood.captcha, "solved");
    let submit = robinhood.submit_request();
    assert_eq!(submit.email, "me@example.com");
    assert_eq!(submit.token, "solved");
    assert_eq!(submit.referred_by, "INVITE");
}

#[test]
fn endpoints_are_fixed() {
    assert_eq!(IP_CHECK_URL, "https://ip.beget.ru/");
    assert_eq!(CREATE_TASK_URL, "https://api.capmonster.cloud/createTask");
    assert_eq!(TASK_RESULT_URL, "https://api.capmonster.cloud/getTaskResult/");
    assert_eq!(
        SUBMIT_URL,
        "https://bonfire.robinhood.com/waitlist/web3_wallet/email/spot"
    );
    assert_eq!(WEBSITE_URL, "https://robinhood.com/web3-wallet/");
}
