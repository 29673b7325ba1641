use health_relay::document::Document;
use health_relay::exchange::{resolve, Exchange};
use health_relay::failure::FailureKind;
use health_relay::transport::TransportFault;

fn status_ok() -> Document {
    let mut fields = serde_json::Map::new();
    fields.insert("status".to_string(), Document::String("ok".to_string()));
    Document::Object(fields)
}

fn responded(status: u16, body: &[u8]) -> Exchange {
    Exchange::Response { status, body: Ok(body.to_vec()) }
}

#[test]
fn ok_response_with_json_succeeds() {
    let outcome = resolve(responded(200, b"{\"status\":\"ok\"}"));
    assert_eq!(outcome, Ok(status_ok()));
}

#[test]
fn status_503_is_a_remote_status_failure() {
    let error = resolve(responded(503, b"{\"status\":\"ok\"}")).unwrap_err();
    assert_eq!(error.kind(), FailureKind::RemoteStatus);
    assert!(error.detail().contains("503"));
    assert!(error.message().contains("503"));
    assert_eq!(
        error.message(),
        "Relay-Pulse API 返回非成功状态: 503 Service Unavailable"
    );
}

#[test]
fn rejected_status_does_not_look_at_the_body() {
    let with_json = resolve(responded(503, b"{\"status\":\"ok\"}"));
    let with_garbage = resolve(responded(503, b"not-json"));
    let with_broken_body = resolve(Exchange::Response {
        status: 503,
        body: Err(TransportFault::new(true, "timed out".to_string())),
    });
    assert_eq!(with_json, with_garbage);
    assert_eq!(with_json, with_broken_body);
    assert_eq!(with_json.unwrap_err().kind(), FailureKind::RemoteStatus);
}

#[test]
fn ok_response_that_is_not_json_is_a_decode_failure() {
    let error = resolve(responded(200, b"not-json")).unwrap_err();
    assert_eq!(error.kind(), FailureKind::Decode);
    assert_eq!(
        error.message(),
        "解析 Relay-Pulse 响应失败: expected ident at line 1 column 2"
    );
}

#[test]
fn endpoint_that_never_responds_is_a_timeout() {
    let fault = TransportFault::new(true, "operation timed out".to_string());
    let error = resolve(Exchange::NoResponse(fault)).unwrap_err();
    assert_eq!(error.kind(), FailureKind::Timeout);
    assert_eq!(error.message(), "请求 Relay-Pulse API 超时: operation timed out");
}

#[test]
fn refused_connection_is_a_transport_failure() {
    let fault = TransportFault::new(false, "connection refused".to_string());
    let error = resolve(Exchange::NoResponse(fault)).unwrap_err();
    assert_eq!(error.kind(), FailureKind::Transport);
    assert_ne!(error.kind(), FailureKind::Timeout);
    assert_eq!(error.message(), "请求 Relay-Pulse API 失败: connection refused");
}

#[test]
fn client_that_cannot_be_built_is_a_configuration_failure() {
    let error = resolve(Exchange::NoClient("builder error".to_string())).unwrap_err();
    assert_eq!(error.kind(), FailureKind::Configuration);
    assert_eq!(error.message(), "创建 HTTP 客户端失败: builder error");
}

#[test]
fn timeout_while_reading_the_body_is_a_timeout() {
    let exchange = Exchange::Response {
        status: 200,
        body: Err(TransportFault::new(true, "body timed out".to_string())),
    };
    let error = resolve(exchange).unwrap_err();
    assert_eq!(error.kind(), FailureKind::Timeout);
    assert_eq!(error.detail(), "body timed out");
}

#[test]
fn connection_lost_while_reading_the_body_is_a_transport_failure() {
    let exchange = Exchange::Response {
        status: 204,
        body: Err(TransportFault::new(false, "connection reset".to_string())),
    };
    let error = resolve(exchange).unwrap_err();
    assert_eq!(error.kind(), FailureKind::Transport);
    assert_eq!(error.detail(), "connection reset");
}

#[test]
fn every_successful_status_reads_the_body() {
    for status in [200u16, 201, 204, 250, 299] {
        assert_eq!(resolve(responded(status, b"{\"status\":\"ok\"}")), Ok(status_ok()));
    }
}

#[test]
fn every_other_status_is_rejected() {
    for status in [0u16, 99, 100, 199, 300, 301, 400, 404, 500, 503, 599, 999, 1000] {
        let error = resolve(responded(status, b"{\"status\":\"ok\"}")).unwrap_err();
        assert_eq!(error.kind(), FailureKind::RemoteStatus);
        assert!(error.detail().starts_with(&status.to_string()));
    }
}
