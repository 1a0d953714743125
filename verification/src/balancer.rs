//! The dispatcher's scheduling core: a content-blind cyclic rotation over a
//! fixed number of worker inboxes, starting at index 0. The harness owns
//! the channels; it asks this type which inbox receives the next admission
//! request.

use vstd::prelude::*;

use vstd::arithmetic::div_mod::{
    lemma_fundamental_div_mod, lemma_fundamental_div_mod_converse, lemma_mod_bound,
};

verus! {

/// The index after `start` in a cyclic rotation over `n` inboxes.
pub open spec fn next_index(n: nat, start: nat) -> nat {
    if start + 1 < n {
        start + 1
    } else {
        0
    }
}

/// How many of `k` consecutive dispatches go to inbox `j`, when the
/// rotation stands at `start` as the window opens.
pub open spec fn dispatches_to(n: nat, start: nat, k: nat, j: nat) -> nat
    decreases k,
{
    if k == 0 {
        0
    } else {
        (if start == j {
            1nat
        } else {
            0nat
        }) + dispatches_to(n, next_index(n, start), (k - 1) as nat, j)
    }
}

/// How far the rotation must travel from `start` before it reaches `j`.
pub open spec fn offset_of(n: nat, start: nat, j: nat) -> nat {
    if j >= start {
        (j - start) as nat
    } else {
        (j + n - start) as nat
    }
}

/// The exact share an inbox receives from a window of `k` dispatches: the
/// whole rounds `k / n`, plus one if the leftover partial round reaches it.
proof fn lemma_dispatches_closed_form(n: nat, start: nat, k: nat, j: nat)
    requires
        1 <= n,
        start < n,
        j < n,
    ensures
        dispatches_to(n, start, k, j) == k / n + if offset_of(n, start, j) < k % n {
            1nat
        } else {
            0nat
        },
    decreases k,
{
    if k == 0 {
        lemma_fundamental_div_mod_converse(0, n as int, 0, 0);
    } else {
        let start2 = next_index(n, start);
        lemma_dispatches_closed_form(n, start2, (k - 1) as nat, j);
        lemma_fundamental_div_mod((k - 1) as int, n as int);
        lemma_mod_bound((k - 1) as int, n as int);
        let q = (k - 1) as int / n as int;
        let r = (k - 1) as int % n as int;
        if r + 1 < n {
            lemma_fundamental_div_mod_converse(k as int, n as int, q, r + 1);
        } else {
            assert((q + 1) * (n as int) == q * (n as int) + n) by (nonlinear_arith);
            lemma_fundamental_div_mod_converse(k as int, n as int, q + 1, 0);
        }
    }
}

/// Round-robin fairness: over any window of `k` dispatches, each of the
/// `n` inboxes receives either the rounded-down or the rounded-up share of
/// them, and exactly `k / n` when `n` divides `k`.
pub proof fn lemma_round_robin_fair(n: nat, start: nat, k: nat, j: nat)
    requires
        1 <= n,
        start < n,
        j < n,
    ensures
        k / n <= dispatches_to(n, start, k, j) <= k / n + 1,
        k % n == 0 ==> dispatches_to(n, start, k, j) == k / n,
        k % n > 0 ==> dispatches_to(n, start, k, j) <= k / n + 1,
{
    lemma_dispatches_closed_form(n, start, k, j);
}

/// The dispatcher's rotation state: which of the `n` worker inboxes the
/// next request goes to. Content-blind by design — ordering authority
/// rests with the per-address nonces and the single shared ready queue.
pub struct RoundRobin {
    channels: usize,
    next: usize,
}

impl RoundRobin {
    /// The number of worker inboxes in rotation.
    pub closed spec fn channels_spec(&self) -> usize {
        self.channels
    }

    /// The inbox the next request will be sent to.
    pub closed spec fn next_spec(&self) -> usize {
        self.next
    }

    /// At least one inbox, and the cursor inside the rotation.
    pub open spec fn wf(&self) -> bool {
        1 <= self.channels_spec() && self.next_spec() < self.channels_spec()
    }

    /// A rotation over `channels` inboxes, starting at index 0.
    pub fn new(channels: usize) -> (r: Self)
        requires
            channels >= 1,
        ensures
            r.channels_spec() == channels,
            r.next_spec() == 0,
            r.wf(),
    {
        RoundRobin { channels, next: 0 }
    }

    /// Picks the inbox for the next request and advances the rotation by
    /// one step.
    pub fn pick(&mut self) -> (r: usize)
        requires
            old(self).wf(),
        ensures
            r == old(self).next_spec(),
            r < old(self).channels_spec(),
            final(self).channels_spec() == old(self).channels_spec(),
            final(self).next_spec() == next_index(
                old(self).channels_spec() as nat,
                old(self).next_spec() as nat,
            ),
            final(self).wf(),
    {
        let r = self.next;
        self.next = if self.next + 1 < self.channels {
            self.next + 1
        } else {
            0
        };
        r
    }
}

} // verus!
