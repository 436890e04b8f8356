pub mod color;
pub mod enums;
pub mod model;
pub mod text;
pub mod value;

use vstd::prelude::*;

verus! {

/// Replaces `modify` with the payload of `with` when one is present;
/// an absent payload leaves `modify` untouched.
pub fn update_if_some<T>(modify: &mut T, with: Option<T>)
    ensures
        match with {
            Some(w) => *final(modify) == w,
            None => *final(modify) == *old(modify),
        },
{
    if let Some(w) = with {
        *modify = w;
    }
}

} // verus!
