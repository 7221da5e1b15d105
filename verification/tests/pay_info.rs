use thor::error::ServiceError;
use thor::http_server::{get_lnurlp_info, AppState};
use thor::metadata::generate_metadata;
use thor::pay_info::{resolve_pay_info, MAX_SENDABLE, MIN_SENDABLE, PAY_REQUEST_TAG};

fn state() -> AppState<u8> {
    let mut state: AppState<u8> = AppState::empty("example.com".to_string());
    state.insert("alice".to_string(), vec![0]);
    state.insert("bob".to_string(), vec![0, 1]);
    state
}

#[test]
fn pay_info_for_alice() {
    let info = get_lnurlp_info(&state(), "alice").unwrap();
    assert_eq!(info.callback(), "https://example.com/lnurlp/alice");
    assert_eq!(info.max_sendable(), 100000000000);
    assert_eq!(info.min_sendable(), 1000);
    assert_eq!(info.tag(), "payRequest");
    assert_eq!(
        info.metadata(),
        "[[\"text/identifier\",\"alice@example.com\"],[\"text/plain\",\"sats for alice@example.com\"],[\"text/plain\",\"powered by https://github.com/yfaming/thor\"]]"
    );
}

#[test]
fn pay_info_bounds_are_one_satoshi_and_one_bitcoin() {
    assert_eq!(MIN_SENDABLE, 1_000);
    assert_eq!(MAX_SENDABLE, 100_000_000 * 1_000);
}

#[test]
fn pay_info_metadata_is_the_generated_text() {
    let info = get_lnurlp_info(&state(), "bob").unwrap();
    assert_eq!(info.metadata(), generate_metadata("example.com", "bob").unwrap());
    assert_eq!(info.callback(), "https://example.com/lnurlp/bob");
}

#[test]
fn pay_info_for_unknown_user_is_a_bad_request() {
    let e = get_lnurlp_info(&state(), "mallory").unwrap_err();
    assert_eq!(e.status_code(), 400);
    assert_eq!(e.body().status(), "ERROR");
    assert_eq!(e.body().reason(), "user mallory not found");
    assert!(e.body().reason().contains("mallory"));
    assert!(e.body().reason().contains("not found"));
}

#[test]
fn pay_info_user_names_are_case_sensitive() {
    let e = get_lnurlp_info(&state(), "Alice").unwrap_err();
    assert_eq!(e.status_code(), 400);
    assert_eq!(e.body().reason(), "user Alice not found");
}

#[test]
fn pay_info_for_empty_name_without_account() {
    let e = get_lnurlp_info(&state(), "").unwrap_err();
    assert_eq!(e.status_code(), 400);
    assert_eq!(e.body().reason(), "user  not found");
}

#[test]
fn resolver_gives_the_document_of_a_known_user() {
    let info = resolve_pay_info(&state(), "alice").unwrap();
    assert_eq!(info.callback(), "https://example.com/lnurlp/alice");
    assert_eq!(info.max_sendable(), MAX_SENDABLE);
    assert_eq!(info.min_sendable(), MIN_SENDABLE);
    assert_eq!(info.tag(), PAY_REQUEST_TAG);
    assert_eq!(info.metadata(), generate_metadata("example.com", "alice").unwrap());
}

#[test]
fn resolver_reports_an_unknown_user_by_name() {
    let e = resolve_pay_info(&state(), "mallory").unwrap_err();
    assert!(matches!(&e, ServiceError::UserNotFound { username } if username == "mallory"));
}
