use vstd::prelude::*;

verus! {

/// The reply to a connectivity check: the name framed by a fixed greeting.
pub open spec fn greeting_text(name: Seq<char>) -> Seq<char> {
    "Hello, "@ + name + "! Welcome to Kiosk."@
}

/// Echoes `name` inside the fixed greeting, so that the shell can tell that
/// the call boundary is alive.
pub fn greet(name: &str) -> (r: String)
    ensures
        r@ == greeting_text(name@),
{
    let mut r = String::from_str("Hello, ");
    r.append(name);
    r.append("! Welcome to Kiosk.");
    r
}

} // verus!
