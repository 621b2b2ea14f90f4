use vstd::prelude::*;

verus! {

/// The source of unique ids: the next id to hand out. Ids wrap around after
/// `u16::MAX`.
pub struct IdCounter {
    next: u16,
}

impl IdCounter {
    /// The id that the next call of `UniqueId::new` returns.
    pub closed spec fn peek(&self) -> u16 {
        self.next
    }

    /// A counter that starts at 0.
    pub fn new() -> (c: Self)
        ensures
            c.peek() == 0,
    {
        IdCounter { next: 0 }
    }
}

/// An id handed out by an `IdCounter`.
#[derive(Debug, PartialEq, Eq, Structural, Clone, Copy)]
pub struct UniqueId(pub u16);

impl UniqueId {
    /// Hands out the counter's next id and advances the counter by one,
    /// wrapping around after `u16::MAX`.
    pub fn new(counter: &mut IdCounter) -> (id: Self)
        ensures
            id.0 == old(counter).peek(),
            final(counter).peek() == old(counter).peek().wrapping_add(1),
    {
        let id = counter.next;
        counter.next = id.wrapping_add(1);
        UniqueId(id)
    }
}

/// The id that the `k`-th call (from 0) hands out on a counter at `start`.
pub open spec fn nth_id(start: u16, k: nat) -> u16 {
    ((start + k) % 0x1_0000) as u16
}

/// Ids handed out by successive calls differ as long as fewer than 65536
/// calls are made: the `i`-th and the `j`-th id of a counter are different.
pub proof fn lemma_ids_distinct(start: u16, i: nat, j: nat)
    requires
        i < j < 0x1_0000,
    ensures
        nth_id(start, i) != nth_id(start, j),
{
}

/// Successive calls follow `nth_id`: after `k` calls the counter is at
/// `nth_id(start, k)`, and a call at that point hands out `nth_id(start, k)`
/// and moves the counter to `nth_id(start, k + 1)`.
pub proof fn lemma_next_id(start: u16, k: nat)
    ensures
        nth_id(start, k).wrapping_add(1) == nth_id(start, k + 1),
{
}

} // verus!
