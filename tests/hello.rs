use executejs::hello::{add, execute_javascript, say_hello};

#[test]
fn test_say_hello() {
    let result = say_hello("ExecuteJS");
    assert_eq!(result, "Hello, ExecuteJS! Welcome to ExecuteJS!");
}

#[test]
fn test_add() {
    let result = add(2, 2);
    assert_eq!(result, 4);
}

#[test]
fn test_execute_javascript() {
    let result = execute_javascript("console.log('hello')");
    assert!(result.is_ok());
    assert_eq!(result.unwrap(), "실행된 코드: console.log('hello')");
}

#[test]
fn test_execute_empty_javascript() {
    let result = execute_javascript("");
    assert!(result.is_err());
    assert_eq!(result.unwrap_err(), "코드가 비어있습니다");
}

#[test]
fn add_largest_sum() {
    assert_eq!(add(u64::MAX - 1, 1), u64::MAX);
}
