//! The wait for an explicit go-ahead: nothing but the Enter key ends it.

use vstd::prelude::*;
use crate::key::KeyEvent;

verus! {

/// Looks through `keys` for the Enter key and discards every event before
/// it. Returns how many events were taken, the Enter among them, or `None`
/// when the Enter key is not among `keys`.
pub fn await_enter(keys: &[KeyEvent]) -> (taken: Option<usize>)
    ensures
        match taken {
            Some(n) => {
                &&& 0 < n <= keys@.len()
                &&& keys@[n - 1].is_enter()
                &&& forall|i: int| 0 <= i < n - 1 ==> !(#[trigger] keys@[i]).is_enter()
            },
            None => forall|i: int| 0 <= i < keys@.len() ==> !(#[trigger] keys@[i]).is_enter(),
        },
{
    let mut i: usize = 0;
    while i < keys.len()
        invariant
            i <= keys@.len(),
            forall|j: int| 0 <= j < i ==> !(#[trigger] keys@[j]).is_enter(),
        decreases keys@.len() - i,
    {
        if keys[i].pressed_enter() {
            return Some(i + 1);
        }
        i += 1;
    }
    None
}

} // verus!
