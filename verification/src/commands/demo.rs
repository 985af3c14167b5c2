//! A greeting.

use vstd::prelude::*;
use vstd::string::StringExecFns;

verus! {

/// The greeting for a name.
pub open spec fn greeting(name: Seq<char>) -> Seq<char> {
    "Hello, "@ + name + "! You've been greeted from Rust!"@
}

/// Greets by name.
pub fn greet(name: &str) -> (answer: Result<String, String>)
    ensures
        answer matches Ok(text) && text@ == greeting(name@),
{
    let mut text = String::from_str("Hello, ");
    text.append(name);
    text.append("! You've been greeted from Rust!");
    Ok(text)
}

} // verus!
