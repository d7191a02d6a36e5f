//! Small shared helpers: the animation state machine and a serial id source.

use vstd::prelude::*;

pub mod animation;
pub mod serial_namer;

verus! {

/// Whether two strings hold the same characters.
pub fn str_eq(a: &str, b: &str) -> (r: bool)
    ensures
        r == (a@ == b@),
{
    let sa: String = a.to_owned();
    let sb: String = b.to_owned();
    sa.eq(&sb)
}

} // verus!
