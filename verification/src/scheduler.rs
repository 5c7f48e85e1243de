//! The round-robin channel scheduler over the fixed 16-channel scan set.

use vstd::prelude::*;

use vstd::arithmetic::div_mod::lemma_add_mod_noop;
use vstd::arithmetic::div_mod::lemma_mod_multiples_vanish;
use vstd::arithmetic::div_mod::lemma_small_mod;

verus! {

/// Number of channels in the fixed scan set.
pub const CHANNEL_COUNT: usize = 16;

/// The lowest channel of the scan set.
pub const FIRST_CHANNEL: u8 = 11;

/// The channel at position `i` of the ordered scan set 11..=26.
pub open spec fn channel_at(i: int) -> u8
    recommends
        0 <= i < 16,
{
    (11 + i) as u8
}

/// Round-robin successor of position `i`.
pub open spec fn next_index(i: int) -> int {
    (i + 1) % 16
}

/// Position reached from `i` after `n` advances.
pub open spec fn index_after(i: int, n: nat) -> int
    decreases n,
{
    if n == 0 {
        i
    } else {
        next_index(index_after(i, (n - 1) as nat))
    }
}

/// Holds the ordered, fixed channel set 11..=26 and the current position.
/// Traversal is round-robin and wraps.
#[derive(Clone, Copy, Debug, PartialEq, Eq)]
pub struct ChannelScheduler {
    /// The current position in the scan set.
    pub index: usize,
}

impl ChannelScheduler {
    /// Exactly one position of the 16-entry set is current.
    pub open spec fn wf(self) -> bool {
        self.index < 16
    }

    /// A scheduler standing at the first channel of the set.
    pub fn new() -> (s: ChannelScheduler)
        ensures
            s.wf(),
            s.index == 0,
    {
        ChannelScheduler { index: 0 }
    }

    /// The channel at the current position.
    pub fn current(&self) -> (channel: u8)
        requires
            self.wf(),
        ensures
            channel == channel_at(self.index as int),
    {
        FIRST_CHANNEL + (self.index as u8)
    }

    /// Move to the next position, wrapping to the front past the last channel.
    pub fn advance(&mut self)
        requires
            old(self).wf(),
        ensures
            final(self).wf(),
            final(self).index as int == next_index(old(self).index as int),
    {
        self.index = if self.index + 1 == CHANNEL_COUNT {
            0
        } else {
            self.index + 1
        };
    }
}

/// Every channel of the scan set lies in 11..=26.
pub proof fn lemma_channel_range(i: int)
    requires
        0 <= i < 16,
    ensures
        11 <= channel_at(i) <= 26,
{
}

/// `n` advances from position `i` stand `n` places further round the set.
proof fn lemma_index_after_mod(i: int, n: nat)
    requires
        0 <= i < 16,
    ensures
        index_after(i, n) == (i + n) % 16,
    decreases n,
{
    if n == 0 {
        lemma_small_mod(i as nat, 16);
    } else {
        lemma_index_after_mod(i, (n - 1) as nat);
        lemma_add_mod_noop(i + n - 1, 1, 16);
    }
}

/// Sixteen advances from any position return the scheduler to that position:
/// the scan set is traversed round-robin with period exactly its size.
pub proof fn lemma_round_robin(i: int)
    requires
        0 <= i < 16,
    ensures
        index_after(i, 16) == i,
{
    lemma_index_after_mod(i, 16);
    lemma_mod_multiples_vanish(1, i, 16);
}

} // verus!
