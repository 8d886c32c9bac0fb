//! Fixed diagnostic messages. The library computes the text of each record;
//! emitting them to a sink is the caller's business.
use vstd::prelude::*;

verus! {

/// The single record the plain event demo emits.
pub fn event() -> (r: &'static str)
    ensures
        r@ == "general informational messages relevant to users"@,
{
    "general informational messages relevant to users"
}

/// The records the span demo emits, in emission order.
pub fn span() -> (r: Vec<&'static str>)
    ensures
        r@.len() == 6,
        r@[0]@ == "SOMETHING IS SERIOUSLY WRONG!!!"@,
        r@[1]@ == "important informational messages; might indicate an error"@,
        r@[2]@ == "something happened inside my_span"@,
        r@[3]@ == "something has happened 2!"@,
        r@[4]@ == "something has happened 3!"@,
        r@[5]@ == "general informational messages relevant to users"@,
{
    let mut r: Vec<&'static str> = Vec::new();
    r.push("SOMETHING IS SERIOUSLY WRONG!!!");
    r.push("important informational messages; might indicate an error");
    r.push("something happened inside my_span");
    r.push("something has happened 2!");
    r.push("something has happened 3!");
    r.push("general informational messages relevant to users");
    r
}

/// The single record the instrumented demo emits.
pub fn test_event() -> (r: &'static str)
    ensures
        r@ == "hello world event"@,
{
    "hello world event"
}

} // verus!
