use gitp::engine::{failure_lines, output_lines};

#[test]
fn output_lines_stdout_then_marked_stderr() {
    assert_eq!(
        output_lines("hello\nworld\n", "careful\n"),
        vec!["hello".to_string(), "world".to_string(), "⚠ careful".to_string()]
    );
}

#[test]
fn output_lines_silent_command_is_done() {
    assert_eq!(output_lines("", ""), vec!["✓ done".to_string()]);
    assert_eq!(output_lines("\n", ""), vec!["".to_string()]);
}

#[test]
fn failure_line() {
    assert_eq!(failure_lines("No such file or directory (os error 2)"), vec!["✗ No such file or directory (os error 2)".to_string()]);
}

#[test]
fn output_lines_keep_stdout_text() {
    let lines = output_lines("hello_gitp\n", "");
    assert_eq!(lines.len(), 1);
    assert!(lines.iter().any(|l| l.contains("hello_gitp")));
}

#[test]
fn failure_lines_mark_the_error() {
    let lines = failure_lines("No such file or directory (os error 2)");
    assert!(lines.iter().any(|l| l.starts_with('✗')));
}
