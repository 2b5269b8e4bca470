use executejs::output::{op_alert, op_console_log, op_custom_print, ExecutionOutput};

#[test]
fn empty_buffer_renders_nothing_and_reports_placeholder() {
    let out = ExecutionOutput::new();
    assert_eq!(out.get_output(), "");
    assert_eq!(out.final_report(), "코드가 실행되었습니다.");
}

#[test]
fn stdout_before_stderr_with_marker() {
    let mut out = ExecutionOutput::new();
    out.add_stderr("bad".to_string());
    out.add_stdout("one".to_string());
    out.add_stdout("two".to_string());
    out.add_stderr("worse".to_string());
    assert_eq!(out.get_output(), "one\ntwo\n[ERROR] bad\n[ERROR] worse");
    assert_eq!(out.final_report(), "one\ntwo\n[ERROR] bad\n[ERROR] worse");
}

#[test]
fn only_stderr_lines() {
    let mut out = ExecutionOutput::new();
    out.add_stderr("e".to_string());
    assert_eq!(out.get_output(), "[ERROR] e");
}

#[test]
fn console_log_hi_is_reported() {
    let mut out = ExecutionOutput::new();
    op_console_log(&mut out, "hi".to_string());
    assert!(out.final_report().contains("hi"));
    assert_eq!(out.stdout, vec!["hi".to_string()]);
}

#[test]
fn alert_is_marked() {
    let mut out = ExecutionOutput::new();
    op_alert(&mut out, "x".to_string());
    assert!(out.final_report().contains("[ALERT] x"));
    op_alert(&mut out, "Hello Alert".to_string());
    assert!(out.get_output().contains("[ALERT] Hello Alert"));
}

#[test]
fn custom_print_chooses_stream() {
    let mut out = ExecutionOutput::new();
    op_custom_print(&mut out, "to err".to_string(), true);
    op_custom_print(&mut out, "to out".to_string(), false);
    assert_eq!(out.stdout, vec!["to out".to_string()]);
    assert_eq!(out.stderr, vec!["to err".to_string()]);
    assert_eq!(out.get_output(), "to out\n[ERROR] to err");
}
