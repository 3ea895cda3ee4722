use native_locator::wire::frame_message;

#[test]
fn frame_has_exact_header_and_body() {
    assert_eq!(
        frame_message("abc"),
        "Content-Length: 3\r\nContent-Type: application/vscode-jsonrpc; charset=utf-8\r\n\r\nabc"
    );
}

#[test]
fn frame_length_is_in_bytes() {
    assert_eq!(
        frame_message("é"),
        "Content-Length: 2\r\nContent-Type: application/vscode-jsonrpc; charset=utf-8\r\n\r\né"
    );
    assert_eq!(
        frame_message("日本"),
        "Content-Length: 6\r\nContent-Type: application/vscode-jsonrpc; charset=utf-8\r\n\r\n日本"
    );
}

#[test]
fn empty_body_frame() {
    assert_eq!(
        frame_message(""),
        "Content-Length: 0\r\nContent-Type: application/vscode-jsonrpc; charset=utf-8\r\n\r\n"
    );
}

#[test]
fn multi_digit_length() {
    let body = "x".repeat(1234);
    let frame = frame_message(&body);
    assert!(frame.starts_with("Content-Length: 1234\r\n"));
    assert!(frame.ends_with(&body));
}
