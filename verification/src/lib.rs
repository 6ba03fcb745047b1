use vstd::prelude::*;

pub mod bproperty;
pub mod bstruct;
pub mod btype;
pub mod compileable;
pub mod ident;
pub mod ip_details;
pub mod server;
pub mod text;

verus! {

/// Adds two numbers.
pub fn add(left: u64, right: u64) -> (r: u64)
    requires
        left + right <= u64::MAX,
    ensures
        r == left + right,
{
    left + right
}

} // verus!
