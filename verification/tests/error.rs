use thor::error::{HttpError, Lud06Error, BAD_REQUEST, INTERNAL_SERVER_ERROR};

#[test]
fn error_body_has_status_error() {
    let e = Lud06Error::new("user bob not found".to_string());
    assert_eq!(e.status(), "ERROR");
    assert_eq!(e.reason(), "user bob not found");
}

#[test]
fn error_body_prints_status_and_reason() {
    let e = Lud06Error::new("amount must > 0".to_string());
    assert_eq!(e.to_string(), "ERROR: amount must > 0");
}

#[test]
fn error_body_with_empty_reason() {
    let e = Lud06Error::new(String::new());
    assert_eq!(e.reason(), "");
    assert_eq!(e.to_string(), "ERROR: ");
}

#[test]
fn http_error_keeps_code_and_body() {
    let e = HttpError::new(418, Lud06Error::new("teapot".to_string()));
    assert_eq!(e.status_code(), 418);
    assert_eq!(e.body().status(), "ERROR");
    assert_eq!(e.body().reason(), "teapot");
}

#[test]
fn bad_request_is_400() {
    let e = HttpError::bad_request("amount must > 0".to_string());
    assert_eq!(BAD_REQUEST, 400);
    assert_eq!(e.status_code(), 400);
    assert_eq!(e.body().reason(), "amount must > 0");
}

#[test]
fn internal_error_is_500_and_wraps_the_text() {
    let e = HttpError::internal_error("wallet unreachable".to_string());
    assert_eq!(INTERNAL_SERVER_ERROR, 500);
    assert_eq!(e.status_code(), 500);
    assert_eq!(e.body().status(), "ERROR");
    assert_eq!(e.body().reason(), "wallet unreachable");
}
