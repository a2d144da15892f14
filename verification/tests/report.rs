use speech_shell::protocol::Output;
use speech_shell::report::{
    describe_failure, interpret, NOT_LAUNCHED, NO_WORKING_DIR, UNEXPECTED_REPLY, WRITE_FAILED,
};

fn output(success: bool, stdout: &[u8], stderr: &[u8]) -> Output {
    Output { success, stdout: stdout.to_vec(), stderr: stderr.to_vec() }
}

#[test]
fn success_yields_trimmed_stdout() {
    let result = interpret(&output(true, b"hello world\n", b""));
    assert_eq!(result, Ok("hello world".to_string()));
}

#[test]
fn failure_yields_stderr() {
    let result = interpret(&output(false, b"", b"model not found"));
    assert_eq!(result, Err("model not found".to_string()));
    assert!(result.unwrap_err().contains("model not found"));
}

#[test]
fn failure_keeps_stderr_as_it_stands() {
    let result = interpret(&output(false, b"partial", b"  Traceback:\n boom \n"));
    assert_eq!(result, Err("  Traceback:\n boom \n".to_string()));
}

#[test]
fn success_does_not_look_at_stderr() {
    let result = interpret(&output(true, b"  text  ", b"warning: slow"));
    assert_eq!(result, Ok("text".to_string()));
}

#[test]
fn success_with_nothing_written_yields_the_empty_text() {
    assert_eq!(interpret(&output(true, b"", b"")), Ok(String::new()));
    assert_eq!(interpret(&output(true, b"\n\n", b"")), Ok(String::new()));
}

#[test]
fn failure_with_nothing_written_yields_the_empty_error() {
    assert_eq!(interpret(&output(false, b"ignored", b"")), Err(String::new()));
}

#[test]
fn text_beyond_ascii_is_decoded() {
    let result = interpret(&output(true, "你好，世界\n".as_bytes(), b""));
    assert_eq!(result, Ok("你好，世界".to_string()));
}

#[test]
fn invalid_bytes_are_replaced() {
    let result = interpret(&output(true, b"ab\xFFcd\n", b""));
    assert_eq!(result, Ok("ab\u{FFFD}cd".to_string()));
    let result = interpret(&output(false, b"", b"\xC3("));
    assert_eq!(result, Err("\u{FFFD}(".to_string()));
}

#[test]
fn failure_messages_name_the_kind_and_the_reason() {
    assert_eq!(
        describe_failure(WRITE_FAILED, "permission denied"),
        "Failed to write audio file: permission denied"
    );
    assert_eq!(
        describe_failure(NO_WORKING_DIR, "gone"),
        "Failed to get current dir: gone"
    );
    assert_eq!(
        describe_failure(NOT_LAUNCHED, "No such file or directory (os error 2)"),
        "Failed to run python: No such file or directory (os error 2)"
    );
    assert_eq!(describe_failure("", ""), ": ");
    assert_eq!(UNEXPECTED_REPLY, "unexpected reply");
}
