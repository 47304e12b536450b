//! The greeting echo: pure string formatting with no failure modes.

use vstd::prelude::*;

verus! {

/// The greeting returned for a given name: a fixed template with the
/// name substituted in the middle.
pub open spec fn greeting(name: Seq<char>) -> Seq<char> {
    "Hello, "@ + name + "! You've been greeted from Rust!"@
}

/// Returns the fixed greeting template with `name` substituted.
pub fn greet(name: &str) -> (r: String)
    ensures
        r@ == greeting(name@),
{
    let s = String::from_str("Hello, ");
    let s = s.concat(name);
    let s = s.concat("! You've been greeted from Rust!");
    proof {
        assert(s@ =~= greeting(name@));
    }
    s
}

} // verus!
