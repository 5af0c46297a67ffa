//! The one command the shell exposes to its hosted user interface.

use vstd::prelude::*;

verus! {

/// Greet a caller by name, exactly as the command promises.
pub fn greet(name: &str) -> (r: String)
    ensures
        r@ == "Hello, "@ + name@ + "! You've been greeted from Rust!"@,
{
    let mut s = "Hello, ".to_owned();
    s.append(name);
    s.append("! You've been greeted from Rust!");
    s
}

} // verus!
