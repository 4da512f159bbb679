//! Timer-token allocation.

use vstd::prelude::*;

verus! {

/// Issues timer tokens: opaque 64-bit identifiers that correlate a scheduled
/// timeout with its eventual fire-event. Tokens increase monotonically from
/// an initial value; a token is never reused and never recycled, even if its
/// timer is cancelled or fires.
///
/// The node owns one allocator for its whole run and lends it to every
/// handler invocation, so all tokens it ever issues are pairwise distinct.
pub struct TimerTokenAllocator {
    next_token: u64,
    issued_log: Ghost<Seq<u64>>,
}

impl TimerTokenAllocator {
    /// All tokens issued so far, in issue order.
    pub closed spec fn issued(&self) -> Seq<u64> {
        self.issued_log@
    }

    /// The token the next call to `next` will return.
    pub closed spec fn upcoming(&self) -> u64 {
        self.next_token
    }

    /// Issued tokens are strictly increasing, and all precede the upcoming one.
    pub open spec fn wf(&self) -> bool {
        &&& forall|i: int, j: int|
            0 <= i < j < self.issued().len() ==> self.issued()[i] < self.issued()[j]
        &&& forall|i: int| 0 <= i < self.issued().len() ==> self.issued()[i] < self.upcoming()
    }

    /// A fresh allocator whose first token will be 0.
    pub fn new() -> (r: Self)
        ensures
            r.wf(),
            r.issued() == Seq::<u64>::empty(),
            r.upcoming() == 0,
    {
        Self { next_token: 0, issued_log: Ghost(Seq::empty()) }
    }

    /// Seed hook for test harnesses: a fresh allocator whose first token
    /// will be `first`, so tests can assert on relative token values.
    pub fn starting_at(first: u64) -> (r: Self)
        ensures
            r.wf(),
            r.issued() == Seq::<u64>::empty(),
            r.upcoming() == first,
    {
        Self { next_token: first, issued_log: Ghost(Seq::empty()) }
    }

    /// Issue the next token: returns the current counter value and advances
    /// the counter by one, so a second sequential call returns a token
    /// exactly one greater.
    pub fn next(&mut self) -> (token: u64)
        requires
            old(self).wf(),
            old(self).upcoming() < u64::MAX,
        ensures
            final(self).wf(),
            token == old(self).upcoming(),
            final(self).upcoming() == token + 1,
            final(self).issued() == old(self).issued().push(token),
    {
        let token = self.next_token;
        self.next_token = self.next_token + 1;
        proof {
            let prior = self.issued_log@;
            assert(prior == old(self).issued());
            assert(forall|i: int| 0 <= i < prior.len() ==> prior[i] < token);
            let grown = prior.push(token);
            assert forall|i: int, j: int| 0 <= i < j < grown.len() implies grown[i] < grown[j] by {
                assert(grown[i] == prior[i]);
                if j < prior.len() as int {
                    assert(grown[j] == prior[j]);
                } else {
                    assert(grown[j] == token);
                    assert(prior[i] < token);
                }
            }
            self.issued_log@ = grown;
        }
        token
    }
}

/// Token uniqueness: however many tokens an allocator has issued, they are
/// pairwise distinct.
pub proof fn lemma_token_uniqueness(a: TimerTokenAllocator)
    requires
        a.wf(),
    ensures
        forall|i: int, j: int|
            0 <= i < a.issued().len() && 0 <= j < a.issued().len() && i != j
                ==> a.issued()[i] != a.issued()[j],
{
}

} // verus!
