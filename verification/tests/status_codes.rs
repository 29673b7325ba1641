use health_relay::failure::FailureKind;
use health_relay::status::{check_status, decimal, describe_status, is_success};

#[test]
fn decimal_writes_plain_digits() {
    assert_eq!(decimal(0), "0");
    assert_eq!(decimal(7), "7");
    assert_eq!(decimal(10), "10");
    assert_eq!(decimal(42), "42");
    assert_eq!(decimal(503), "503");
    assert_eq!(decimal(1000), "1000");
    assert_eq!(decimal(65535), "65535");
}

#[test]
fn decimal_agrees_with_std_on_every_number() {
    let mut number: u16 = 0;
    loop {
        assert_eq!(decimal(number), number.to_string());
        if number == u16::MAX {
            break;
        }
        number += 1;
    }
}

#[test]
fn success_is_200_to_299() {
    assert!(!is_success(0));
    assert!(!is_success(100));
    assert!(!is_success(199));
    assert!(is_success(200));
    assert!(is_success(204));
    assert!(is_success(299));
    assert!(!is_success(300));
    assert!(!is_success(404));
    assert!(!is_success(503));
    assert!(!is_success(65535));
}

#[test]
fn status_text_carries_number_and_reason() {
    assert_eq!(describe_status(503), "503 Service Unavailable");
    assert_eq!(describe_status(404), "404 Not Found");
    assert_eq!(describe_status(200), "200 OK");
    assert_eq!(describe_status(100), "100 Continue");
}

#[test]
fn status_text_of_a_code_without_reason() {
    assert_eq!(describe_status(999), "999 <unknown status code>");
    assert_eq!(describe_status(299), "299 <unknown status code>");
}

#[test]
fn status_text_of_a_number_that_is_no_status_code() {
    assert_eq!(describe_status(0), "0");
    assert_eq!(describe_status(42), "42");
    assert_eq!(describe_status(99), "99");
    assert_eq!(describe_status(1000), "1000");
    assert_eq!(describe_status(65535), "65535");
}

#[test]
fn status_text_begins_with_the_number() {
    let mut code: u16 = 0;
    while code < 1200 {
        assert!(describe_status(code).starts_with(&code.to_string()));
        code += 1;
    }
}

#[test]
fn successful_status_passes() {
    assert_eq!(check_status(200), Ok(()));
    assert_eq!(check_status(201), Ok(()));
    assert_eq!(check_status(299), Ok(()));
}

#[test]
fn other_status_is_rejected_with_its_text() {
    let error = check_status(503).unwrap_err();
    assert_eq!(error.kind(), FailureKind::RemoteStatus);
    assert_eq!(error.detail(), "503 Service Unavailable");
    let error = check_status(301).unwrap_err();
    assert_eq!(error.kind(), FailureKind::RemoteStatus);
    assert_eq!(error.detail(), "301 Moved Permanently");
    let error = check_status(199).unwrap_err();
    assert_eq!(error.kind(), FailureKind::RemoteStatus);
    let error = check_status(300).unwrap_err();
    assert_eq!(error.detail(), "300 Multiple Choices");
    let error = check_status(42).unwrap_err();
    assert_eq!(error.kind(), FailureKind::RemoteStatus);
    assert_eq!(error.detail(), "42");
}
