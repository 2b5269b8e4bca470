use executejs::execution::{command_response, DenoExecutor, HostPhase, JsExecutionResult};
use executejs::history::History;
use executejs::output::{op_alert, op_console_log, ExecutionOutput};
use executejs::source::DispatchPath;

fn run(code: &str, bootstrap: Result<(), String>, dispatch: Result<(), String>, output: &ExecutionOutput, t: i64) -> JsExecutionResult {
    let mut e = DenoExecutor::begin(code);
    e.engine_ready();
    e.bootstrap_done(bootstrap);
    e.dispatch_done(dispatch);
    e.drain_done(Ok(()));
    e.finish(output);
    e.into_result(code.to_string(), t)
}

#[test]
fn blank_code_fails_without_engine() {
    for code in ["", "   ", "\n\t"] {
        let e = DenoExecutor::begin(code);
        assert_eq!(e.phase(), HostPhase::Failed);
        let r = e.into_result(code.to_string(), 7);
        assert!(!r.success);
        assert_eq!(r.result, "");
        assert_eq!(r.error.as_deref(), Some("코드가 비어있습니다"));
    }
}

#[test]
fn console_log_scenario_succeeds() {
    let mut out = ExecutionOutput::new();
    op_console_log(&mut out, "hi".to_string());
    let r = run("console.log('hi')", Ok(()), Ok(()), &out, 1);
    assert!(r.success);
    assert!(r.result.contains("hi"));
    assert_eq!(r.error, None);
}

#[test]
fn alert_scenario_is_marked() {
    let mut out = ExecutionOutput::new();
    op_alert(&mut out, "x".to_string());
    let r = run("alert('x')", Ok(()), Ok(()), &out, 1);
    assert!(r.success);
    assert!(r.result.contains("[ALERT] x"));
}

#[test]
fn syntax_error_scenario_fails() {
    let out = ExecutionOutput::new();
    let r = run("alert('adf'(;", Ok(()), Err("SyntaxError: Unexpected token ';'".to_string()), &out, 1);
    assert!(!r.success);
    assert_eq!(r.result, "");
    assert!(!r.error.unwrap().is_empty());
}

#[test]
fn bootstrap_failure_is_prefixed() {
    let out = ExecutionOutput::new();
    let r = run("1", Err("boom".to_string()), Ok(()), &out, 1);
    assert!(!r.success);
    assert_eq!(r.error.as_deref(), Some("Bootstrap 실행 실패: boom"));
}

#[test]
fn no_output_reports_placeholder() {
    let out = ExecutionOutput::new();
    let r = run("let a = 1;", Ok(()), Ok(()), &out, 1);
    assert!(r.success);
    assert_eq!(r.result, "코드가 실행되었습니다.");
}

#[test]
fn same_code_same_outcome_differs_only_in_time() {
    let mut out = ExecutionOutput::new();
    op_console_log(&mut out, "3".to_string());
    let a = run("let a = 1; let b = 2; console.log(a + b);", Ok(()), Ok(()), &out, 100);
    let b = run("let a = 1; let b = 2; console.log(a + b);", Ok(()), Ok(()), &out, 200);
    assert_eq!(a.result, b.result);
    assert_eq!(a.success, b.success);
    assert_ne!(a.timestamp, b.timestamp);
}

#[test]
fn dispatch_path_follows_code() {
    assert_eq!(DenoExecutor::begin("import x from 'npm:x';").dispatch(), DispatchPath::Module);
    assert_eq!(DenoExecutor::begin("console.log(1)").dispatch(), DispatchPath::Script);
}

#[test]
fn steps_out_of_order_change_nothing() {
    let mut e = DenoExecutor::begin("1");
    e.drain_done(Err("late".to_string()));
    assert_eq!(e.phase(), HostPhase::Idle);
    e.engine_ready();
    assert_eq!(e.phase(), HostPhase::EngineInitialized);
}

#[test]
fn command_response_maps_failure() {
    let ok = JsExecutionResult { code: "c".to_string(), result: "r".to_string(), timestamp: 1, success: true, error: None };
    let r = command_response("c", ok, 9).unwrap();
    assert_eq!(r.result, "r");
    assert_eq!(r.timestamp, 1);
    let bad = JsExecutionResult { code: "c".to_string(), result: String::new(), timestamp: 1, success: false, error: Some("e".to_string()) };
    let r = command_response("c", bad, 9).unwrap_err();
    assert_eq!(r.result, "e");
    assert_eq!(r.error.as_deref(), Some("e"));
    assert_eq!(r.timestamp, 9);
    let none = JsExecutionResult { code: "c".to_string(), result: String::new(), timestamp: 1, success: false, error: None };
    let r = command_response("c", none, 9).unwrap_err();
    assert_eq!(r.error.as_deref(), Some("알 수 없는 오류"));
}

fn record(i: i64) -> JsExecutionResult {
    JsExecutionResult { code: format!("c{}", i), result: String::new(), timestamp: i, success: true, error: None }
}

#[test]
fn history_evicts_oldest_past_capacity() {
    let mut h = History::new(3);
    for i in 0..4 {
        h.record(record(i));
    }
    let l = h.list();
    assert_eq!(l.len(), 3);
    assert_eq!(l[0].timestamp, 1);
    assert_eq!(l[2].timestamp, 3);
    h.clear();
    assert!(h.list().is_empty());
}

#[test]
fn default_history_holds_one_hundred() {
    let mut h = History::default();
    assert_eq!(h.capacity(), 100);
    for i in 0..101 {
        h.record(record(i));
    }
    let l = h.list();
    assert_eq!(l.len(), 100);
    assert_eq!(l[0].timestamp, 1);
    assert_eq!(l[99].timestamp, 100);
}

#[test]
fn zero_capacity_history_keeps_nothing() {
    let mut h = History::new(0);
    h.record(record(1));
    assert!(h.list().is_empty());
}

#[test]
fn output_before_failure_is_kept() {
    let mut out = ExecutionOutput::new();
    op_console_log(&mut out, "a".to_string());
    let r = run("console.log('a'); throw new Error('b')", Ok(()), Err("Uncaught Error: b".to_string()), &out, 1);
    assert!(!r.success);
    assert!(r.error.unwrap().contains("b"));
    assert!(r.result.contains("a"));
    assert_eq!(r.result, "a");
}

#[test]
fn failure_in_event_loop_keeps_output() {
    let mut out = ExecutionOutput::new();
    op_console_log(&mut out, "before".to_string());
    let mut e = DenoExecutor::begin("Promise.reject(1)");
    e.engine_ready();
    e.bootstrap_done(Ok(()));
    e.dispatch_done(Ok(()));
    e.drain_done(Err("Uncaught (in promise) 1".to_string()));
    e.finish(&out);
    let r = e.into_result("Promise.reject(1)".to_string(), 1);
    assert!(!r.success);
    assert_eq!(r.result, "before");
    assert_eq!(r.error.as_deref(), Some("Uncaught (in promise) 1"));
}

#[test]
fn empty_engine_message_is_reported_as_unknown() {
    let out = ExecutionOutput::new();
    let r = run("x", Ok(()), Err(String::new()), &out, 1);
    assert!(!r.success);
    assert_eq!(r.error.as_deref(), Some("알 수 없는 오류"));
}
