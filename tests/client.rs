use use_github_api::client::{check_base_url, default_header_map, user_agent};
use use_github_api::users::{hovercard_path, list_path, user_path};
use use_github_api::{ClientConfig, ClientError, CreationErrorKind, GithubClient};

const FAKE_TOKEN: &str = "fake_token_value";

fn creation_kind(r: Result<GithubClient<'_>, ClientError>) -> CreationErrorKind {
    match r {
        Err(ClientError::Creation(e)) => e.kind,
        Err(e) => panic!("unexpected error {:?}", e),
        Ok(_) => panic!("expected an error"),
    }
}

#[test]
fn new_creates_client_correctly() {
    let client = GithubClient::new("https://something.com/api/v3", FAKE_TOKEN).expect("Should build client");
    assert_eq!(client.auth_token(), Some(FAKE_TOKEN));
    assert_eq!(client.base_url(), "https://something.com/api/v3");
    assert_eq!(
        client.default_headers().get("Authorization"),
        Some(format!("token {}", FAKE_TOKEN).as_str())
    );
    assert_eq!(client.user_agent(), format!("{}/{}", "use_github_api", "0.1.0"));
}

#[test]
fn setting_auth_token_sets_header() {
    let client = GithubClient::new("https://abc.abc/api/v3", "abc").expect("Should build client");
    assert_eq!(client.default_headers().get("Authorization"), Some("token abc"));
}

#[test]
#[should_panic(expected = "CreationError { kind: BaseUrlWithoutProtocol }")]
fn new_errors_on_no_protocol() {
    GithubClient::new("something", FAKE_TOKEN).expect("Should not work");
}

#[test]
#[should_panic(expected = "CreationError { kind: BaseUrlWithoutApiPath }")]
fn new_errors_on_no_api_path() {
    GithubClient::new("https://something.com", FAKE_TOKEN).unwrap();
}

#[test]
fn new_for_valid_enterprise_works() {
    GithubClient::new("https://something.com/api/v3", FAKE_TOKEN).unwrap();
}

#[test]
fn valid_enterprise_urls_are_accepted() {
    for url in ["http://x/api/v3", "https://gh.enterprise.org/api/v3", "http://10.0.0.1:8080/api/v3"] {
        assert!(check_base_url(url).is_ok());
        assert!(GithubClient::new(url, "tok").is_ok());
    }
}

#[test]
fn protocol_is_checked_before_api_path() {
    assert_eq!(creation_kind(GithubClient::new("ftp://host", "t")), CreationErrorKind::BaseUrlWithoutProtocol);
    assert_eq!(creation_kind(GithubClient::new("", "t")), CreationErrorKind::BaseUrlWithoutProtocol);
    assert_eq!(creation_kind(GithubClient::new("host/api/v3", "t")), CreationErrorKind::BaseUrlWithoutProtocol);
    assert_eq!(creation_kind(GithubClient::new("https:/host/api/v3", "t")), CreationErrorKind::BaseUrlWithoutProtocol);
    assert_eq!(creation_kind(GithubClient::new("http://host/api/v2", "t")), CreationErrorKind::BaseUrlWithoutApiPath);
    assert_eq!(creation_kind(GithubClient::new("http://host/api/v3/", "t")), CreationErrorKind::BaseUrlWithoutApiPath);
    assert_eq!(
        check_base_url("https://host").unwrap_err().kind,
        CreationErrorKind::BaseUrlWithoutApiPath
    );
}

#[test]
fn accept_header_is_pinned() {
    let client = GithubClient::new("https://h/api/v3", "t").unwrap();
    assert_eq!(client.default_headers().get("Accept"), Some("application/vnd.github.v3+json"));
    assert_eq!(client.default_headers().get("X-Other"), None);
}

#[test]
fn empty_token_means_no_authentication() {
    let client = GithubClient::new("https://h/api/v3", "").unwrap();
    assert_eq!(client.auth_token(), None);
    assert_eq!(client.default_headers().get("Authorization"), None);
}

#[test]
fn token_with_control_character_is_refused() {
    match GithubClient::new("https://h/api/v3", "bad\ntoken") {
        Err(ClientError::InvalidHeader(_)) => {}
        _ => panic!("expected an invalid header"),
    }
    let client = GithubClient::new("https://h/api/v3", "tab\tand é").unwrap();
    assert_eq!(client.default_headers().get("Authorization"), Some("token tab\tand é"));
}

#[test]
fn url_joins_base_and_path() {
    let client = GithubClient::new("https://h/api/v3", "t").unwrap();
    assert_eq!(client.url(list_path()), "https://h/api/v3/users");
    assert_eq!(client.url(&user_path("mojombo")), "https://h/api/v3/users/mojombo");
    assert_eq!(hovercard_path("mojombo"), "/users/mojombo/hovercard");
    let users = client.users();
    assert_eq!(users.client.base_url(), "https://h/api/v3");
}

#[test]
fn config_without_base_url_uses_public_api() {
    let client = GithubClient::with_config(ClientConfig { base_url: None, auth_token: None }).unwrap();
    assert_eq!(client.base_url(), "https://api.github.com");
    assert_eq!(client.auth_token(), None);
    assert_eq!(client.url("/users"), "https://api.github.com/users");
    let client = GithubClient::with_config(ClientConfig { base_url: None, auth_token: Some("abc") }).unwrap();
    assert_eq!(client.default_headers().get("Authorization"), Some("token abc"));
    match GithubClient::with_config(ClientConfig { base_url: Some("nope"), auth_token: None }) {
        Err(ClientError::Creation(e)) => assert_eq!(e.kind, CreationErrorKind::BaseUrlWithoutProtocol),
        _ => panic!("expected a creation error"),
    }
}

#[test]
fn transport_headers_hold_media_type_and_token() {
    let m = default_header_map(Some("abc")).unwrap();
    assert_eq!(m.len(), 2);
    assert_eq!(m.get("accept").unwrap(), "application/vnd.github.v3+json");
    assert_eq!(m.get("authorization").unwrap(), "token abc");
    let m = default_header_map(None).unwrap();
    assert_eq!(m.len(), 1);
    assert_eq!(m.get("accept").unwrap(), "application/vnd.github.v3+json");
    assert!(m.get("authorization").is_none());
    assert!(default_header_map(Some("a\u{7f}b")).is_err());
}

#[test]
fn user_agent_names_the_package() {
    assert_eq!(user_agent(), "use_github_api/0.1.0");
}
