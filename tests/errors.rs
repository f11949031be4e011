use use_github_api::schema::list::Params;
use use_github_api::schema::contextual_info;
use use_github_api::{CreationError, CreationErrorKind, RuntimeError, RuntimeErrorKind, UsersError, UsersErrorKind};

fn assert_sync<T: Sync>() {}
fn assert_send<T: Send>() {}

#[test]
fn error_test_send_and_sync() {
    assert_sync::<CreationError>();
    assert_send::<CreationError>();
    assert_sync::<RuntimeError>();
    assert_send::<RuntimeError>();
    assert_sync::<UsersError>();
    assert_send::<UsersError>();
}

#[test]
fn creation_error_messages() {
    assert_eq!(CreationError::base_url_without_protocol().message(), "Base URL is without the protocol.");
    assert_eq!(
        CreationError::base_url_without_api_path().message(),
        "Base URL is without the `/api/v3` path at the end."
    );
    assert_eq!(CreationError::auth_token_not_provided().message(), "Auth token not provided");
    assert_eq!(CreationError::base_url_not_provided().message(), "Base URL is not provided.");
    assert_eq!(CreationError::new(CreationErrorKind::BaseUrlNotProvided).kind, CreationErrorKind::BaseUrlNotProvided);
}

#[test]
fn runtime_error_messages() {
    assert_eq!(RuntimeError::bad_credentials().message(), "Bad credentials");
    assert_eq!(
        RuntimeError::not_found().message(),
        "Either the resource does not exist, or it is protected"
    );
    assert_eq!(RuntimeError::new(RuntimeErrorKind::NotFound).kind, RuntimeErrorKind::NotFound);
}

#[test]
fn per_page_is_capped_at_one_hundred() {
    let e = Params::new(None, Some(101)).unwrap_err();
    assert_eq!(e.kind, UsersErrorKind::PerPageBiggerThan100);
    assert_eq!(
        e.message(),
        "per_page is bigger than 100. It has to be less than or equivalent to 100."
    );
    let p = Params::new(Some(5), Some(100)).unwrap();
    assert_eq!(p.since, Some(5));
    assert_eq!(p.per_page, Some(100));
    let p = Params::new(Some(7), None).unwrap();
    assert_eq!(p.per_page, None);
    assert!(Params::new(None, Some(usize::MAX)).is_err());
}

#[test]
fn contextual_params_keep_their_values() {
    let p = contextual_info::Params::new("repository".to_string(), 42);
    assert_eq!(p.subject_type, "repository");
    assert_eq!(p.subject_id, 42);
}
