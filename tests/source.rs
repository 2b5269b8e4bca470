use executejs::source::{classify, has_module_syntax, is_blank, starts_with, DispatchPath};

#[test]
fn blank_inputs() {
    assert!(is_blank(""));
    assert!(is_blank("   "));
    assert!(is_blank(" \t\r\n"));
    assert!(is_blank("\u{3000}\u{a0}"));
    assert!(!is_blank(" a "));
    assert!(!is_blank("x"));
}

#[test]
fn plain_script_takes_script_path() {
    assert_eq!(classify("console.log('hi')"), DispatchPath::Script);
    assert_eq!(classify("let important = 1;"), DispatchPath::Script);
    assert_eq!(classify("importx"), DispatchPath::Script);
}

#[test]
fn module_tokens_take_module_path() {
    assert_eq!(classify("import _ from 'npm:lodash';"), DispatchPath::Module);
    assert_eq!(classify("export const a = 1;"), DispatchPath::Module);
}

#[test]
fn token_inside_string_literal_still_selects_module() {
    assert!(has_module_syntax("console.log('import this')"));
    assert_eq!(classify("const s = \"export \";"), DispatchPath::Module);
}

#[test]
fn prefix_test() {
    assert!(starts_with("npm:lodash", "npm:"));
    assert!(!starts_with("np", "npm:"));
    assert!(starts_with("abc", ""));
}
