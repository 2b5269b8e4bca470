use executejs::commands::{get_app_info, menu_command, MenuCommand};
use executejs::lint::{lint_output_text, lint_result, lint_results, rule_id, OxlintDiagnostic, OxlintLabel, OxlintSpan};

#[test]
fn app_info_values() {
    let i = get_app_info();
    assert_eq!(i.name, "ExecuteJS");
    assert_eq!(i.version, "0.1.0");
    assert_eq!(i.author, "ExecuteJS Team");
}

#[test]
fn menu_ids() {
    assert_eq!(menu_command("about"), MenuCommand::About);
    assert_eq!(menu_command("settings"), MenuCommand::Settings);
    assert_eq!(menu_command("quit"), MenuCommand::Quit);
    assert_eq!(menu_command("toggle_devtools"), MenuCommand::ToggleDevtools);
    assert_eq!(menu_command("other"), MenuCommand::Unknown);
}

#[test]
fn rule_ids() {
    assert_eq!(rule_id("eslint(no-unused-vars)"), "no-unused-vars");
    assert_eq!(rule_id("eslint(no-x"), "unknown");
    assert_eq!(rule_id("eslint()"), "");
    assert_eq!(rule_id("oxc(bad)"), "oxc(bad)");
}

fn diag(labels: Vec<OxlintLabel>) -> OxlintDiagnostic {
    OxlintDiagnostic {
        message: "m".to_string(),
        code: "eslint(no-debugger)".to_string(),
        severity: "warning".to_string(),
        labels,
    }
}

#[test]
fn lint_columns() {
    let d = diag(vec![OxlintLabel { span: OxlintSpan { line: 3, column: 0, length: 0 } }]);
    let r = lint_result(&d).unwrap();
    assert_eq!((r.line, r.column, r.end_line, r.end_column), (3, 1, 3, 11));
    assert_eq!(r.rule_id, "no-debugger");
    let d = diag(vec![OxlintLabel { span: OxlintSpan { line: 2, column: 5, length: 4 } }]);
    let r = lint_result(&d).unwrap();
    assert_eq!((r.column, r.end_column), (5, 9));
    assert!(lint_result(&diag(vec![])).is_none());
}

#[test]
fn lint_results_skip_unlabelled() {
    let ds = vec![
        diag(vec![]),
        diag(vec![OxlintLabel { span: OxlintSpan { line: 1, column: 2, length: 3 } }]),
    ];
    let r = lint_results(&ds);
    assert_eq!(r.len(), 1);
    assert_eq!(r[0].line, 1);
}

#[test]
fn lint_text_prefers_stdout() {
    assert_eq!(lint_output_text("{}", "err"), "{}");
    assert_eq!(lint_output_text("  \n", "err"), "err");
}
