//! Small verified text utilities shared by the tables and the formatters.

use vstd::prelude::*;

verus! {

/// String equality by character content. `String`'s own `==` is specified by
/// vstd over views, so comparing two owned copies decides view equality.
pub fn str_eq(a: &str, b: &str) -> (r: bool)
    ensures
        r == (a@ == b@),
{
    let owned_a: String = a.to_owned();
    let owned_b: String = b.to_owned();
    owned_a == owned_b
}

} // verus!
