use vstd::prelude::*;

verus! {

/// The value a counter holds after it has handed out `id`:
/// one more, wrapping to zero past `u64::MAX`.
pub open spec fn successor(id: u64) -> u64 {
    if id == u64::MAX { 0 } else { (id + 1) as u64 }
}

/// The id the `k`-th call of `next_id` hands out (counting from 0) when the
/// counter starts at `start`.
pub open spec fn nth_id(start: u64, k: nat) -> u64
    decreases k,
{
    if k == 0 {
        start
    } else {
        successor(nth_id(start, (k - 1) as nat))
    }
}

/// Hands out the current value of `counter` as a fresh request id and
/// advances the counter by one (wrapping, as an atomic `fetch_add` does).
pub fn next_id(counter: &mut u64) -> (id: u64)
    ensures
        id == *old(counter),
        *final(counter) == successor(*old(counter)),
{
    let id = *counter;
    *counter = counter.wrapping_add(1);
    id
}

} // verus!
