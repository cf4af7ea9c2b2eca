use vstd::prelude::*;

verus! {

/// The welcome line shown for `name`.
pub fn greet(name: &str) -> (r: String)
    ensures
        r@ == "Hello, "@ + name@ + "! Welcome to Vinco Wealth."@,
{
    let s = String::from_str("Hello, ");
    let s = s.concat(name);
    s.concat("! Welcome to Vinco Wealth.")
}

} // verus!
