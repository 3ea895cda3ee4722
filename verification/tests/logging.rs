use native_locator::logging::{
    map_level, serialize_log_message, HostLogLevel, LogFilter, LogInterceptor, LogLevel,
    LogMessage,
};

#[test]
fn log_message_exact_text() {
    let body = serialize_log_message(&LogMessage::new(String::from("hi"), LogLevel::Info));
    assert_eq!(
        body,
        "{\"jsonrpc\":\"2.0\",\"method\":\"log\",\"params\":{\"message\":\"hi\",\"level\":\"info\"}}"
    );
}

#[test]
fn severity_mapping() {
    assert_eq!(map_level(HostLogLevel::Error), LogLevel::Error);
    assert_eq!(map_level(HostLogLevel::Warn), LogLevel::Warning);
    assert_eq!(map_level(HostLogLevel::Info), LogLevel::Info);
    assert_eq!(map_level(HostLogLevel::Debug), LogLevel::Debug);
    assert_eq!(map_level(HostLogLevel::Trace), LogLevel::Debug);
}

#[test]
fn interceptor_respects_threshold() {
    let quiet = LogInterceptor::new(LogFilter::Error);
    assert!(quiet.intercept(HostLogLevel::Info, "ignored").is_none());
    assert!(quiet.intercept(HostLogLevel::Error, "kept").is_some());

    let off = LogInterceptor::new(LogFilter::Off);
    assert!(off.intercept(HostLogLevel::Error, "never").is_none());

    let verbose = LogInterceptor::new(LogFilter::Trace);
    assert!(verbose.intercept(HostLogLevel::Trace, "kept").is_some());
}

#[test]
fn intercepted_record_becomes_one_frame() {
    let interceptor = LogInterceptor::new(LogFilter::Info);
    let frame = interceptor.intercept(HostLogLevel::Warn, "disk probe failed").unwrap();
    let body =
        "{\"jsonrpc\":\"2.0\",\"method\":\"log\",\"params\":\
         {\"message\":\"disk probe failed\",\"level\":\"warning\"}}";
    assert_eq!(
        frame,
        format!(
            "Content-Length: {}\r\nContent-Type: application/vscode-jsonrpc; charset=utf-8\r\n\r\n{}",
            body.len(),
            body
        )
    );
}

#[test]
fn log_message_escapes_its_text() {
    let body = serialize_log_message(&LogMessage::new(
        String::from("line1\nline2 \"quoted\""),
        LogLevel::Debug,
    ));
    let v: serde_json::Value = serde_json::from_str(&body).unwrap();
    assert_eq!(v["params"]["message"].as_str().unwrap(), "line1\nline2 \"quoted\"");
    assert_eq!(v["params"]["level"].as_str().unwrap(), "debug");
}
