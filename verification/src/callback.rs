//! The single-shot callback protocol.
//!
//! An asynchronous native operation takes a user closure. The closure is
//! boxed by the unverified driver and handed to the native runtime as an
//! opaque context pointer together with a fixed trampoline; this registry is
//! the verified model of those pending contexts. Each context is named by a
//! fresh token. The protocol proved here:
//!
//! - a token accepted by the native runtime stays pending until it is
//!   delivered exactly once, during a pump, and can never be delivered
//!   again ([`law_single_delivery`]);
//! - a context reclaimed after a synchronous accept failure is never
//!   delivered at all ([`law_early_failure`]).
//!
//! The driver keeps the real boxed closures keyed by token; on delivery it
//! drops the box after the one invocation, and on early failure it drops
//! the box before the registering call returns, so no context leaks.

use vstd::prelude::*;

use crate::error::{spec_result, to_result, Error};

verus! {

/// The registry of pending single-shot callback contexts, one token per
/// context the native runtime currently owns.
pub struct CallbackRegistry {
    next_token: u64,
    pending: Vec<u64>,
}

/// The outcome of attempting a delivery against a set of pending tokens:
/// the tokens left pending afterwards, and whether the closure of the
/// delivered token is invoked.
pub open spec fn deliver_outcome(pending: Set<u64>, token: u64) -> (Set<u64>, bool) {
    (pending.remove(token), pending.contains(token))
}

impl CallbackRegistry {
    /// Every pending token was issued before the next one, and no token is
    /// pending twice.
    pub closed spec fn wf(self) -> bool {
        &&& forall|i: int| 0 <= i < self.pending@.len() ==> self.pending@[i] < self.next_token
        &&& forall|i: int, j: int|
            0 <= i < j < self.pending@.len() ==> self.pending@[i] != self.pending@[j]
    }

    /// The tokens of the contexts the native runtime currently owns.
    pub closed spec fn pending_tokens(self) -> Set<u64> {
        self.pending@.to_set()
    }

    /// How many tokens have ever been issued; tokens are never reused.
    pub closed spec fn tokens_issued(self) -> int {
        self.next_token as int
    }

    /// Whether a fresh token can still be issued. The supply is finite,
    /// though exhausting it would take 2^64 - 1 registrations.
    pub open spec fn can_register(self) -> bool {
        self.tokens_issued() < u64::MAX
    }

    /// Returns whether a fresh token can still be issued.
    pub fn may_register(&self) -> (r: bool)
        ensures
            r == self.can_register(),
    {
        self.next_token < u64::MAX
    }

    /// A registry with no pending context.
    pub fn new() -> (r: CallbackRegistry)
        ensures
            r.wf(),
            r.tokens_issued() == 0,
            r.pending_tokens() == Set::<u64>::empty(),
    {
        let r = CallbackRegistry { next_token: 0, pending: Vec::new() };
        proof {
            assert(r.pending@.to_set() =~= Set::<u64>::empty());
        }
        r
    }

    /// Issues a fresh token for a context about to be handed to the native
    /// runtime. The token is pending from here on: if the native call
    /// accepts the context, it stays pending until [`Self::deliver`]; if
    /// the call fails synchronously, the caller must [`Self::reclaim`] it
    /// before returning.
    pub fn register(&mut self) -> (token: u64)
        requires
            old(self).wf(),
            old(self).can_register(),
        ensures
            final(self).wf(),
            !old(self).pending_tokens().contains(token),
            final(self).pending_tokens() == old(self).pending_tokens().insert(token),
            final(self).tokens_issued() == old(self).tokens_issued() + 1,
    {
        let token = self.next_token;
        self.next_token = self.next_token + 1;
        self.pending.push(token);
        proof {
            let s0 = old(self).pending@;
            let s1 = self.pending@;
            assert forall|x: u64| s1.contains(x) implies s0.to_set().insert(token).contains(
                x,
            ) by {
                let k = choose|k: int| 0 <= k < s1.len() && s1[k] == x;
                if k < s0.len() {
                    assert(s0[k] == x);
                }
            };
            assert forall|x: u64| s0.to_set().insert(token).contains(x) implies s1.contains(
                x,
            ) by {
                if x == token {
                    assert(s1[s1.len() - 1] == x);
                } else {
                    let k = choose|k: int| 0 <= k < s0.len() && s0[k] == x;
                    assert(s1[k] == x);
                }
            };
            assert(s1.to_set() =~= s0.to_set().insert(token));
        }
        token
    }

    /// Takes a token back after the native runtime refused the context
    /// synchronously. The caller drops the boxed closure itself — no
    /// trampoline invocation will ever occur for this token.
    pub fn reclaim(&mut self, token: u64)
        requires
            old(self).wf(),
        ensures
            final(self).wf(),
            final(self).pending_tokens() == old(self).pending_tokens().remove(token),
            final(self).tokens_issued() == old(self).tokens_issued(),
    {
        let mut i: usize = 0;
        while i < self.pending.len()
            invariant
                self.wf(),
                i <= self.pending@.len(),
                self.next_token == old(self).next_token,
                forall|k: int| 0 <= k < i ==> self.pending@[k] != token,
                self.pending@ == old(self).pending@,
            decreases self.pending@.len() - i,
        {
            if self.pending[i] == token {
                self.pending.remove(i);
                proof {
                    let removed = old(self).pending@.remove(i as int);
                    assert(self.pending@ == removed);
                    assert forall|x: u64| removed.to_set().contains(x)
                        implies old(self).pending@.to_set().remove(token).contains(x) by {
                        let k = choose|k: int| 0 <= k < removed.len() && removed[k] == x;
                        if k < i {
                            assert(old(self).pending@[k] == x);
                        } else {
                            assert(old(self).pending@[k + 1] == x);
                        }
                    };
                    assert forall|x: u64| old(self).pending@.to_set().remove(token).contains(x)
                        implies removed.to_set().contains(x) by {
                        let k = choose|k: int|
                            0 <= k < old(self).pending@.len() && old(self).pending@[k] == x;
                        assert(k != i);
                        if k < i {
                            assert(removed[k] == x);
                        } else {
                            assert(removed[k - 1] == x);
                        }
                    };
                    assert(self.pending@.to_set() =~= old(self).pending@.to_set().remove(token));
                }
                return;
            }
            i = i + 1;
        }
        proof {
            assert(!old(self).pending@.to_set().contains(token));
            assert(self.pending@.to_set() =~= old(self).pending@.to_set().remove(token));
        }
    }

    /// Delivers a native completion for a token, translating the result
    /// code. Returns the translated result to hand to the closure if the
    /// token was pending — which it then no longer is, so a second delivery
    /// for the same token finds nothing — and nothing for a token that is
    /// not pending, in which case no closure is invoked and the registry is
    /// unchanged.
    pub fn deliver(&mut self, token: u64, code: i32) -> (r: Option<Result<(), Error>>)
        requires
            old(self).wf(),
        ensures
            final(self).wf(),
            final(self).pending_tokens() == deliver_outcome(old(self).pending_tokens(), token).0,
            r is Some == deliver_outcome(old(self).pending_tokens(), token).1,
            r matches Some(v) ==> v == spec_result(code),
            final(self).tokens_issued() == old(self).tokens_issued(),
    {
        let was_pending = self.is_pending(token);
        self.reclaim(token);
        if was_pending {
            Some(to_result(code))
        } else {
            proof {
                assert(self.pending@.to_set() =~= old(self).pending@.to_set());
            }
            None
        }
    }

    /// Whether the native runtime currently owns the context named by this
    /// token.
    pub fn is_pending(&self, token: u64) -> (r: bool)
        ensures
            r == self.pending_tokens().contains(token),
    {
        let mut i: usize = 0;
        while i < self.pending.len()
            invariant
                i <= self.pending@.len(),
                forall|k: int| 0 <= k < i ==> self.pending@[k] != token,
            decreases self.pending@.len() - i,
        {
            if self.pending[i] == token {
                return true;
            }
            i = i + 1;
        }
        proof {
            if self.pending@.to_set().contains(token) {
                let k = choose|k: int|
                    0 <= k < self.pending@.len() && self.pending@[k] == token;
            }
        }
        false
    }

    /// How many contexts the native runtime currently owns.
    pub fn pending_count(&self) -> (n: usize)
        requires
            self.wf(),
        ensures
            n == self.pending_tokens().len(),
    {
        proof {
            assert(self.pending@.no_duplicates());
            self.pending@.unique_seq_to_set();
        }
        self.pending.len()
    }
}

/// Single delivery: a pending callback fires on its first delivery, and a
/// second delivery attempt for the same token finds nothing pending and
/// invokes nothing.
pub proof fn law_single_delivery(pending: Set<u64>, token: u64)
    requires
        pending.contains(token),
    ensures
        deliver_outcome(pending, token).1,
        !deliver_outcome(deliver_outcome(pending, token).0, token).1,
{
}

/// Early failure, zero delivery: a context reclaimed after a synchronous
/// accept failure is not pending, so no later delivery for its token ever
/// invokes its closure.
pub proof fn law_early_failure(pending: Set<u64>, token: u64)
    ensures
        !deliver_outcome(pending.remove(token), token).1,
{
}

/// Quiescent teardown: against an empty registry — the state of a handle
/// that was constructed and never pumped — no delivery invokes anything,
/// whatever its token.
pub proof fn law_quiescent_teardown(token: u64)
    ensures
        !deliver_outcome(Set::<u64>::empty(), token).1,
{
}

} // verus!
