use use_github_api::{Capabilities, ClientError, CreationErrorKind, GithubClient, GithubClientBuilder};

const FAKE_TOKEN: &str = "fake_token_value";

#[test]
fn creates_new() {
    let builder = GithubClientBuilder::new();
    assert_eq!(builder.auth_token, None);
    assert_eq!(builder.base_url, None);
}

#[test]
fn sets_auth() {
    let builder = GithubClientBuilder::new();
    let token = "Some token";
    assert_eq!(builder.auth(token).auth_token, Some(token));
}

#[test]
fn sets_base_url() {
    let builder = GithubClientBuilder::new();
    let base_url = "something.com";
    assert_eq!(builder.base_url(base_url).base_url, Some(base_url));
}

#[test]
#[should_panic(expected = "CreationError { kind: AuthTokenNotProvided }")]
fn err_on_no_token() {
    let builder = GithubClientBuilder::new();
    builder.build().unwrap();
}

#[test]
#[should_panic(expected = "CreationError { kind: BaseUrlNotProvided }")]
fn err_on_no_base_url() {
    let builder = GithubClientBuilder::new();
    builder.auth(FAKE_TOKEN).build().unwrap();
}

#[test]
fn builds_client() {
    let builder = GithubClientBuilder::new();
    let client = builder
        .auth(FAKE_TOKEN)
        .base_url("https://something.something.com/api/v3")
        .build()
        .expect("Should build client");
    assert_eq!(client.auth_token(), Some(FAKE_TOKEN));
    assert_eq!(client.base_url(), "https://something.something.com/api/v3");
}

#[test]
fn builder_token_missing_reported_before_base_url() {
    match GithubClientBuilder::new().build() {
        Err(ClientError::Creation(e)) => assert_eq!(e.kind, CreationErrorKind::AuthTokenNotProvided),
        _ => panic!("expected a creation error"),
    }
    match GithubClientBuilder::new().base_url("https://a.b/api/v3").build() {
        Err(ClientError::Creation(e)) => assert_eq!(e.kind, CreationErrorKind::AuthTokenNotProvided),
        _ => panic!("expected a creation error"),
    }
    match GithubClientBuilder::new().auth("t").build() {
        Err(ClientError::Creation(e)) => assert_eq!(e.kind, CreationErrorKind::BaseUrlNotProvided),
        _ => panic!("expected a creation error"),
    }
}

#[test]
fn builder_validates_base_url_on_build() {
    match GithubClientBuilder::new().auth("t").base_url("something.com").build() {
        Err(ClientError::Creation(e)) => assert_eq!(e.kind, CreationErrorKind::BaseUrlWithoutProtocol),
        _ => panic!("expected a creation error"),
    }
}

#[test]
fn builder_from_client_and_default_start_empty() {
    let b = GithubClient::builder();
    assert_eq!(b.auth_token, None);
    assert_eq!(b.base_url, None);
    let d = GithubClientBuilder::default();
    assert_eq!(d.auth_token, None);
    assert_eq!(d.base_url, None);
}

#[test]
fn builder_with_auth_only_targets_public_api() {
    let caps = Capabilities { auth: true, enterprise: false };
    match GithubClientBuilder::with_capabilities(caps).build() {
        Err(ClientError::Creation(e)) => assert_eq!(e.kind, CreationErrorKind::AuthTokenNotProvided),
        _ => panic!("expected a creation error"),
    }
    let client = GithubClientBuilder::with_capabilities(caps)
        .auth("tok")
        .base_url("ignored")
        .build()
        .unwrap();
    assert_eq!(client.base_url(), "https://api.github.com");
    assert_eq!(client.auth_token(), Some("tok"));
}

#[test]
fn builder_without_capabilities_needs_nothing() {
    let caps = Capabilities { auth: false, enterprise: false };
    let client = GithubClientBuilder::with_capabilities(caps).auth("tok").build().unwrap();
    assert_eq!(client.base_url(), "https://api.github.com");
    assert_eq!(client.auth_token(), None);
    assert_eq!(client.default_headers().get("Authorization"), None);
    let caps = Capabilities { auth: false, enterprise: true };
    match GithubClientBuilder::with_capabilities(caps).build() {
        Err(ClientError::Creation(e)) => assert_eq!(e.kind, CreationErrorKind::BaseUrlNotProvided),
        _ => panic!("expected a creation error"),
    }
}
