//! The capacity-growth policy: double the capacity until a write fits.
use vstd::prelude::*;

verus! {

/// The capacity reached by repeatedly doubling `cap` until it is at least
/// `need`. If `need <= cap` no doubling happens and the capacity stays `cap`.
pub open spec fn growth_target(cap: nat, need: nat) -> nat
    decreases (if cap < need { need - cap } else { 0int }) when 1 <= cap
{
    if need <= cap {
        cap
    } else {
        growth_target(cap * 2, need)
    }
}

/// Growth correctness: repeated doubling from a positive starting capacity
/// always reaches a capacity that is at least the required size, never
/// shrinks, and overshoots the requirement by less than a factor of two.
pub proof fn lemma_growth_target_sufficient(cap: nat, need: nat)
    requires
        1 <= cap,
    ensures
        growth_target(cap, need) >= need,
        growth_target(cap, need) >= cap,
        need <= cap ==> growth_target(cap, need) == cap,
        cap < need ==> growth_target(cap, need) < 2 * need,
    decreases (if cap < need { need - cap } else { 0int }),
{
    if need <= cap {
    } else {
        lemma_growth_target_sufficient(cap * 2, need);
    }
}

/// Smallest capacity reachable from `cap` by repeated doubling that is at
/// least `need`.
pub fn required_capacity(cap: usize, need: usize) -> (r: usize)
    requires
        1 <= cap,
        need <= usize::MAX / 2,
    ensures
        r == growth_target(cap as nat, need as nat),
        r >= need,
        r >= cap,
{
    let mut c: usize = cap;
    while c < need
        invariant
            1 <= c,
            cap <= c,
            need <= usize::MAX / 2,
            growth_target(c as nat, need as nat) == growth_target(cap as nat, need as nat),
        decreases (if c < need { need - c } else { 0int }),
    {
        c = c * 2;
    }
    c
}

/// The decision for one sequential write: where the chunk will end, and the
/// capacity the view must grow to first, if it must grow at all.
pub struct WritePlan {
    /// Capacity to resize the view to before copying; `None` when the chunk
    /// already fits.
    pub grow_to: Option<usize>,
    /// Cursor position after the chunk is copied.
    pub end: usize,
}

/// Plans one write of `len` bytes at cursor `pos` into a view of `capacity`
/// bytes: grow by repeated doubling exactly when the chunk would overflow
/// the view, and advance the cursor by the whole chunk.
pub fn plan_write(pos: usize, capacity: usize, len: usize) -> (p: WritePlan)
    requires
        pos <= capacity,
        1 <= capacity,
        pos + len <= usize::MAX / 2,
    ensures
        p.end == pos + len,
        pos + len <= capacity ==> p.grow_to is None,
        pos + len > capacity ==> p.grow_to == Some(
            growth_target(capacity as nat, (pos + len) as nat) as usize,
        ),
        (p.grow_to matches Some(t) ==> pos + len <= t),
{
    let need = pos + len;
    if need <= capacity {
        WritePlan { grow_to: None, end: need }
    } else {
        WritePlan { grow_to: Some(required_capacity(capacity, need)), end: need }
    }
}

} // verus!
