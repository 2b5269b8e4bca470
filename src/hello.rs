//! Small greeting and arithmetic helpers, and a stand-in executor that
//! echoes the code it is given.

use vstd::prelude::*;

verus! {

/// A greeting for `name`.
pub fn say_hello(name: &str) -> (r: String)
    ensures
        r@ == "Hello, "@ + name@ + "! Welcome to ExecuteJS!"@,
{
    let mut r = String::from_str("Hello, ");
    r.append(name);
    r.append("! Welcome to ExecuteJS!");
    r
}

/// The sum of two numbers.
pub fn add(left: u64, right: u64) -> (r: u64)
    requires
        left + right <= u64::MAX,
    ensures
        r == left + right,
{
    left + right
}

/// Echoes the code after a fixed prefix; empty code is an error.
pub fn execute_javascript(code: &str) -> (r: Result<String, String>)
    ensures
        code@.len() == 0 ==> (r matches Err(e) && e@ == "코드가 비어있습니다"@),
        code@.len() != 0 ==> (r matches Ok(s) && s@ == "실행된 코드: "@ + code@),
{
    if code.is_empty() {
        return Err(String::from_str("코드가 비어있습니다"));
    }
    let mut r = String::from_str("실행된 코드: ");
    r.append(code);
    Ok(r)
}

} // verus!
