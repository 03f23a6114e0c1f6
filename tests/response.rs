use iseven_api::iseven::{ErrorResponse, IsEven};
use iseven_api::{IsEvenApiErrorResponse, IsEvenApiResponse};

#[test]
fn response_shows_its_parity() {
    assert_eq!(IsEvenApiResponse::new("ad".to_string(), true).to_string(), "even");
    assert_eq!(IsEvenApiResponse::new("ad".to_string(), false).to_string(), "odd");
}

#[test]
fn response_getters() {
    let r = IsEvenApiResponse::new("Buy now".to_string(), true);
    assert_eq!(r.ad(), "Buy now");
    assert!(r.iseven());
    assert!(!r.isodd());
}

#[test]
fn error_response_keeps_the_message() {
    let e = IsEvenApiErrorResponse::new("Invalid number.".to_string());
    assert_eq!(e.error(), "Invalid number.");
    assert_eq!(e.to_string(), "Invalid number.");
}

#[test]
fn short_named_types() {
    let r = IsEven::new("ad".to_string(), false);
    assert!(!r.iseven());
    assert_eq!(r.ad(), "ad");
    assert_eq!(r.to_string(), "odd");
    assert_eq!(IsEven::new(String::new(), true).to_string(), "even");
    let e = ErrorResponse::new("Number out of range.".to_string());
    assert_eq!(e.error(), "Number out of range.");
    assert_eq!(e.to_string(), "Number out of range.");
}
