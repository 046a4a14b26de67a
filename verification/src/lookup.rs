//! The fallback lookup: try an operation against each candidate address in
//! resolver order, skipping candidates the outbound-blocking policy forbids,
//! and stop at the first success; if no candidate succeeds, the failure of
//! the last candidate is the outcome.  One routine parameterized by the
//! blocking verdicts and the operation replaces the near-duplicate plain and
//! policy-aware retry loops such a client otherwise grows.

use vstd::prelude::*;

use crate::address::SocketAddress;
use crate::resolver::ResolverInvariantViolation;

verus! {

/// Why a whole fallback lookup failed: the failure recorded for the last
/// candidate that was evaluated.
pub enum LookupFailure<E> {
    /// That candidate was forbidden by the outbound-blocking policy; the
    /// operation was never invoked on it.
    Blocked(SocketAddress),
    /// The operation was invoked on that candidate and failed.
    Operation(E),
}

/// Tries `op` on each candidate in order and returns the position and value
/// of the first success.  A candidate whose blocking verdict is true is
/// skipped and recorded as blocked, without invoking `op`.  After a success
/// no further candidate is evaluated; when every candidate has been
/// evaluated without success, the failure of the last one is returned.
///
/// The ghost half of the result records on which candidates the operation
/// was invoked: exactly the non-blocked ones up to and including the
/// stopping point — never a blocked one, never one past the first success.
pub fn fallback_lookup<T, E, F: Fn(&SocketAddress) -> Result<T, E>>(
    candidates: &Vec<SocketAddress>,
    blocked: &Vec<bool>,
    op: F,
) -> (r: (Result<(usize, T), LookupFailure<E>>, Ghost<Seq<bool>>))
    requires
        candidates@.len() > 0,
        blocked@.len() == candidates@.len(),
        forall|i: int| #![trigger candidates@[i]]
            0 <= i < candidates@.len() ==> call_requires(op, (&candidates@[i],)),
    ensures
        r.1@.len() == candidates@.len(),
        match r.0 {
            Ok(p) => {
                &&& 0 <= (p.0 as int) < candidates@.len()
                &&& !blocked@[p.0 as int]
                &&& call_ensures(op, (&candidates@[p.0 as int],), Ok(p.1))
                &&& forall|j: int| #![trigger blocked@[j]]
                    0 <= j < p.0 && !blocked@[j] ==> exists|e: E|
                        call_ensures(op, (&candidates@[j],), Err(e))
                &&& forall|j: int| #![trigger r.1@[j]]
                    0 <= j < candidates@.len() ==> (r.1@[j] <==> j <= p.0 && !blocked@[j])
            },
            Err(f) => {
                &&& forall|j: int| #![trigger blocked@[j]]
                    0 <= j < candidates@.len() && !blocked@[j] ==> exists|e: E|
                        call_ensures(op, (&candidates@[j],), Err(e))
                &&& forall|j: int| #![trigger r.1@[j]]
                    0 <= j < candidates@.len() ==> (r.1@[j] <==> !blocked@[j])
                &&& if blocked@[candidates@.len() - 1] {
                    f matches LookupFailure::Blocked(c) && c@ == candidates@[candidates@.len()
                        - 1]@
                } else {
                    f matches LookupFailure::Operation(e) && call_ensures(
                        op,
                        (&candidates@[candidates@.len() - 1],),
                        Err(e),
                    )
                }
            },
        },
{
    let n: usize = candidates.len();
    let ghost mut invoked: Seq<bool> = Seq::new(n as nat, |j: int| false);
    let mut i: usize = 0;
    let mut last: Option<LookupFailure<E>> = None;
    while i < n
        invariant
            n == candidates@.len(),
            blocked@.len() == n,
            0 < n,
            i <= n,
            invoked.len() == n,
            forall|k: int| #![trigger candidates@[k]]
                0 <= k < n ==> call_requires(op, (&candidates@[k],)),
            forall|j: int| #![trigger blocked@[j]]
                0 <= j < i && !blocked@[j] ==> exists|e: E|
                    call_ensures(op, (&candidates@[j],), Err(e)),
            forall|j: int| #![trigger invoked[j]]
                0 <= j < n ==> (invoked[j] <==> j < i && !blocked@[j]),
            i > 0 ==> (last matches Some(f) && if blocked@[i - 1] {
                f matches LookupFailure::Blocked(c) && c@ == candidates@[i - 1]@
            } else {
                f matches LookupFailure::Operation(e) && call_ensures(
                    op,
                    (&candidates@[i - 1],),
                    Err(e),
                )
            }),
        decreases n - i,
    {
        if blocked[i] {
            last = Some(LookupFailure::Blocked(candidates[i].duplicate()));
        } else {
            proof {
                invoked = invoked.update(i as int, true);
            }
            match op(&candidates[i]) {
                Ok(v) => {
                    return (Ok((i, v)), Ghost(invoked));
                },
                Err(e) => {
                    last = Some(LookupFailure::Operation(e));
                },
            }
        }
        i += 1;
    }
    match last {
        Some(f) => (Err(f), Ghost(invoked)),
        None => vstd::pervasive::unreached(),
    }
}

/// Stepwise form of the fallback lookup, for a caller whose per-candidate
/// operation cannot be handed in as a plain call (it awaits, sleeps or does
/// transport work).  The caller asks for the next candidate, consults its
/// policy and performs the operation itself, and reports what happened; the
/// ordering decisions stay here.  After a reported success no candidate is
/// handed out again.
pub struct FallbackLookup<E> {
    candidates: Vec<SocketAddress>,
    next_idx: usize,
    done: bool,
    last_failure: Option<LookupFailure<E>>,
}

impl<E> FallbackLookup<E> {
    /// The candidates, in resolver order.
    pub closed spec fn candidates_of(self) -> Seq<crate::address::SocketAddressView> {
        self.candidates@.map_values(|sa: SocketAddress| sa@)
    }

    /// How many candidates have been evaluated so far.
    pub closed spec fn examined(self) -> int {
        self.next_idx as int
    }

    /// The position of the reported success, while none: `None`.
    pub closed spec fn succeeded(self) -> Option<int> {
        if self.done {
            Some(self.next_idx as int)
        } else {
            None
        }
    }

    /// The failure recorded for the candidate evaluated last.
    pub closed spec fn last_failure_of(self) -> Option<LookupFailure<E>> {
        self.last_failure
    }

    /// The lookup has candidates left or a recorded outcome.
    pub closed spec fn wf(self) -> bool {
        &&& self.candidates@.len() > 0
        &&& self.next_idx <= self.candidates@.len()
        &&& (self.done ==> self.next_idx < self.candidates@.len())
        &&& (!self.done && self.next_idx > 0 ==> self.last_failure is Some)
    }

    /// Starts a lookup over the resolved candidates; an empty sequence is
    /// the resolver's contract breach and is refused.
    pub fn new(candidates: Vec<SocketAddress>) -> (r: Result<
        FallbackLookup<E>,
        ResolverInvariantViolation,
    >)
        ensures
            r is Ok <==> candidates@.len() > 0,
            r matches Ok(m) ==> {
                &&& m.wf()
                &&& m.candidates_of() == candidates@.map_values(|sa: SocketAddress| sa@)
                &&& m.examined() == 0
                &&& m.succeeded() is None
                &&& m.last_failure_of() is None
            },
    {
        if candidates.len() > 0 {
            Ok(FallbackLookup { candidates, next_idx: 0, done: false, last_failure: None })
        } else {
            Err(ResolverInvariantViolation)
        }
    }

    /// The candidate to evaluate next: `None` exactly when a success was
    /// reported — no candidate after it is ever handed out — or when every
    /// candidate has been evaluated.
    pub fn next_candidate(&self) -> (r: Option<SocketAddress>)
        requires
            self.wf(),
        ensures
            r is Some <==> (self.succeeded() is None && self.examined()
                < self.candidates_of().len()),
            r matches Some(c) ==> c@ == self.candidates_of()[self.examined()],
    {
        if self.done {
            None
        } else if self.next_idx < self.candidates.len() {
            Some(self.candidates[self.next_idx].duplicate())
        } else {
            None
        }
    }

    /// Records that the policy forbids the pending candidate; the operation
    /// must not be invoked on it, and the lookup advances past it.
    pub fn report_blocked(&mut self)
        requires
            old(self).wf(),
            old(self).succeeded() is None,
            old(self).examined() < old(self).candidates_of().len(),
        ensures
            final(self).wf(),
            final(self).candidates_of() == old(self).candidates_of(),
            final(self).examined() == old(self).examined() + 1,
            final(self).succeeded() is None,
            final(self).last_failure_of() matches Some(f) && f matches LookupFailure::Blocked(c)
                && c@ == old(self).candidates_of()[old(self).examined()],
    {
        let n: usize = self.candidates.len();
        let c = self.candidates[self.next_idx].duplicate();
        self.last_failure = Some(LookupFailure::Blocked(c));
        assert(self.next_idx < n);
        self.next_idx += 1;
    }

    /// Records that the operation was invoked on the pending candidate and
    /// failed; the lookup advances past it.
    pub fn report_failure(&mut self, err: E)
        requires
            old(self).wf(),
            old(self).succeeded() is None,
            old(self).examined() < old(self).candidates_of().len(),
        ensures
            final(self).wf(),
            final(self).candidates_of() == old(self).candidates_of(),
            final(self).examined() == old(self).examined() + 1,
            final(self).succeeded() is None,
            final(self).last_failure_of() matches Some(f) && f matches LookupFailure::Operation(e)
                && e == err,
    {
        let n: usize = self.candidates.len();
        self.last_failure = Some(LookupFailure::Operation(err));
        assert(self.next_idx < n);
        self.next_idx += 1;
    }

    /// Records that the operation succeeded on the pending candidate; the
    /// lookup is over and no further candidate will be handed out.
    pub fn report_success(&mut self)
        requires
            old(self).wf(),
            old(self).succeeded() is None,
            old(self).examined() < old(self).candidates_of().len(),
        ensures
            final(self).wf(),
            final(self).candidates_of() == old(self).candidates_of(),
            final(self).examined() == old(self).examined(),
            final(self).succeeded() == Some(old(self).examined()),
    {
        self.done = true;
    }

    /// The failure of the whole lookup, once every candidate was evaluated
    /// without success: the failure recorded for the last candidate.
    pub fn into_failure(self) -> (r: LookupFailure<E>)
        requires
            self.wf(),
            self.succeeded() is None,
            self.examined() == self.candidates_of().len(),
        ensures
            Some(r) == self.last_failure_of(),
    {
        match self.last_failure {
            Some(f) => f,
            None => vstd::pervasive::unreached(),
        }
    }
}

} // verus!
