//! The failover dispatcher: per inbound request, upstream credentials are
//! tried one at a time, in store order, until one attempt succeeds or all
//! are exhausted. The dispatcher holds the request-scoped scan state and
//! decides every transition; the surrounding application performs the
//! network attempt it asks for and hands back the outcome.

use vstd::prelude::*;

verus! {

/// The fully resolved outcome of one upstream attempt. A non-success status
/// and a transport failure are distinguished for observability only: both
/// move the scan to the next credential.
#[derive(Clone, Copy, Debug, PartialEq, Eq, Structural)]
pub enum AttemptOutcome {
    /// The upstream call returned a success status.
    Success,
    /// The upstream answered with a non-success status.
    RejectedStatus { status: u16 },
    /// The call itself failed: connection error, timeout, or decode error.
    TransportError,
}

/// Whether an attempt outcome lets the scan stop.
pub open spec fn spec_outcome_success(o: AttemptOutcome) -> bool {
    o is Success
}

/// The request-scoped state of one failover scan.
#[derive(Clone, Copy, Debug, PartialEq, Eq, Structural)]
pub enum DispatchState {
    /// No attempt has been considered yet.
    Pending,
    /// The attempt with credential `idx` is in flight.
    Attempting { idx: usize },
    /// The attempt with credential `idx` succeeded (terminal).
    Succeeded { idx: usize },
    /// Every credential was tried and failed, or there was none (terminal).
    Exhausted,
}

/// The success flags of a sequence of resolved outcomes.
pub open spec fn spec_success_flags(outcomes: Seq<AttemptOutcome>) -> Seq<bool> {
    outcomes.map_values(|o: AttemptOutcome| spec_outcome_success(o))
}

/// The index of the first successful attempt, if any.
pub open spec fn spec_first_success(flags: Seq<bool>) -> Option<int>
    decreases flags.len(),
{
    if flags.len() == 0 {
        None
    } else if flags[0] {
        Some(0)
    } else {
        match spec_first_success(flags.drop_first()) {
            Some(i) => Some(i + 1),
            None => None,
        }
    }
}

/// How many attempts a whole scan makes: up to and including the first
/// success, or every one when none succeeds.
pub open spec fn spec_attempt_count(flags: Seq<bool>) -> int {
    match spec_first_success(flags) {
        Some(i) => i + 1,
        None => flags.len() as int,
    }
}

/// `spec_first_success` finds exactly the least successful index.
pub proof fn lemma_first_success_characterization(flags: Seq<bool>)
    ensures
        spec_first_success(flags) matches Some(i) ==> 0 <= i < flags.len() && flags[i]
            && (forall|j: int| 0 <= j < i ==> !flags[j]),
        spec_first_success(flags) is None ==> forall|j: int| 0 <= j < flags.len() ==> !flags[j],
    decreases flags.len(),
{
    if flags.len() > 0 && !flags[0] {
        let rest = flags.drop_first();
        lemma_first_success_characterization(rest);
        match spec_first_success(rest) {
            Some(i) => {
                assert(flags[i + 1] == rest[i]);
                assert forall|j: int| 0 <= j < i + 1 implies !flags[j] by {
                    if j > 0 {
                        assert(rest[j - 1] == flags[j]);
                    }
                }
            },
            None => {
                assert forall|j: int| 0 <= j < flags.len() implies !flags[j] by {
                    if j > 0 {
                        assert(rest[j - 1] == flags[j]);
                    }
                }
            },
        }
    }
}

/// A successful index with no success before it is the first success.
pub proof fn lemma_first_success_is(flags: Seq<bool>, i: int)
    requires
        0 <= i < flags.len(),
        flags[i],
        forall|j: int| 0 <= j < i ==> !flags[j],
    ensures
        spec_first_success(flags) == Some(i),
    decreases flags.len(),
{
    if i > 0 {
        let rest = flags.drop_first();
        assert(rest[i - 1] == flags[i]);
        assert forall|j: int| 0 <= j < i - 1 implies !rest[j] by {
            assert(rest[j] == flags[j + 1]);
        }
        lemma_first_success_is(rest, i - 1);
    }
}

/// A scan with no successful attempt has no first success.
pub proof fn lemma_first_success_none(flags: Seq<bool>)
    requires
        forall|j: int| 0 <= j < flags.len() ==> !flags[j],
    ensures
        spec_first_success(flags) is None,
    decreases flags.len(),
{
    if flags.len() > 0 {
        let rest = flags.drop_first();
        assert forall|j: int| 0 <= j < rest.len() implies !rest[j] by {
            assert(rest[j] == flags[j + 1]);
        }
        lemma_first_success_none(rest);
    }
}

/// One inbound request's failover scan over a credential-store snapshot of
/// `credential_count` entries. `history` records, per resolved attempt and
/// in store order, whether it succeeded; the scan never skips, reorders or
/// retries a credential, and stops at the first success.
pub struct Dispatcher {
    pub credential_count: usize,
    pub state: DispatchState,
    pub attempts: usize,
    pub history: Ghost<Seq<bool>>,
}

impl Dispatcher {
    /// The scan's invariant: the state always reflects the recorded history.
    pub open spec fn wf(self) -> bool {
        &&& self.attempts == self.history@.len()
        &&& self.attempts <= self.credential_count
        &&& match self.state {
            DispatchState::Pending => self.attempts == 0,
            DispatchState::Attempting { idx } => {
                &&& idx == self.attempts
                &&& idx < self.credential_count
                &&& forall|j: int| 0 <= j < self.history@.len() ==> !self.history@[j]
            },
            DispatchState::Succeeded { idx } => {
                &&& self.attempts == idx + 1
                &&& idx < self.credential_count
                &&& self.history@[idx as int]
                &&& forall|j: int| 0 <= j < idx ==> !self.history@[j]
            },
            DispatchState::Exhausted => {
                &&& self.attempts == self.credential_count
                &&& forall|j: int| 0 <= j < self.history@.len() ==> !self.history@[j]
            },
        }
    }

    /// A fresh scan over a snapshot of `credential_count` credentials.
    pub fn new(credential_count: usize) -> (d: Dispatcher)
        ensures
            d.wf(),
            d.state == DispatchState::Pending,
            d.credential_count == credential_count,
            d.attempts == 0,
            d.history@ == Seq::<bool>::empty(),
    {
        Dispatcher {
            credential_count,
            state: DispatchState::Pending,
            attempts: 0,
            history: Ghost(Seq::empty()),
        }
    }

    /// Leaves `Pending`: toward the first credential, or — with an empty
    /// snapshot — directly to `Exhausted` without any attempt.
    pub fn start(&mut self)
        requires
            old(self).wf(),
            old(self).state == DispatchState::Pending,
        ensures
            final(self).wf(),
            final(self).credential_count == old(self).credential_count,
            final(self).attempts == 0,
            final(self).history@ == old(self).history@,
            old(self).credential_count == 0 ==> final(self).state == DispatchState::Exhausted,
            old(self).credential_count > 0 ==> final(self).state == (DispatchState::Attempting {
                idx: 0,
            }),
    {
        if self.credential_count == 0 {
            self.state = DispatchState::Exhausted;
        } else {
            self.state = DispatchState::Attempting { idx: 0 };
        }
    }

    /// Which credential the scan asks to be tried now, if any.
    pub fn next_credential(&self) -> (r: Option<usize>)
        ensures
            r matches Some(i) ==> self.state == (DispatchState::Attempting { idx: i }),
            r is None ==> !(self.state is Attempting),
    {
        match self.state {
            DispatchState::Attempting { idx } => Some(idx),
            _ => None,
        }
    }

    /// Whether the scan has reached a terminal state.
    pub fn is_terminal(&self) -> (r: bool)
        ensures
            r == (self.state is Succeeded || self.state is Exhausted),
    {
        match self.state {
            DispatchState::Succeeded { .. } => true,
            DispatchState::Exhausted => true,
            _ => false,
        }
    }

    /// Resolves the in-flight attempt: success ends the scan with the
    /// current credential; a failure moves to the next credential, or to
    /// `Exhausted` when none is left.
    pub fn record_outcome(&mut self, outcome: AttemptOutcome)
        requires
            old(self).wf(),
            old(self).state is Attempting,
        ensures
            final(self).wf(),
            final(self).credential_count == old(self).credential_count,
            final(self).attempts == old(self).attempts + 1,
            final(self).history@ == old(self).history@.push(spec_outcome_success(outcome)),
            spec_outcome_success(outcome) ==> final(self).state == (DispatchState::Succeeded {
                idx: old(self).state->Attempting_idx,
            }),
            !spec_outcome_success(outcome) && old(self).attempts + 1 < old(
                self,
            ).credential_count ==> final(self).state == (DispatchState::Attempting {
                idx: (old(self).attempts + 1) as usize,
            }),
            !spec_outcome_success(outcome) && old(self).attempts + 1 == old(
                self,
            ).credential_count ==> final(self).state == DispatchState::Exhausted,
    {
        let idx = match self.state {
            DispatchState::Attempting { idx } => idx,
            _ => {
                assert(false);
                0
            },
        };
        let success = matches!(outcome, AttemptOutcome::Success);
        self.history = Ghost(self.history@.push(success));
        self.attempts = self.attempts + 1;
        if success {
            self.state = DispatchState::Succeeded { idx };
        } else if self.attempts < self.credential_count {
            self.state = DispatchState::Attempting { idx: self.attempts };
        } else {
            self.state = DispatchState::Exhausted;
        }
    }
}

/// Runs one whole failover scan, given the outcome each credential's attempt
/// would resolve to. Returns how many attempts were made and the index of
/// the winning credential, if any: the scan stops at the first success and
/// otherwise tries every credential once, in store order.
pub fn scan(outcomes: &Vec<AttemptOutcome>) -> (r: (usize, Option<usize>))
    ensures
        r.0 == spec_attempt_count(spec_success_flags(outcomes@)),
        r.1 matches Some(w) ==> spec_first_success(spec_success_flags(outcomes@)) == Some(w as int),
        r.1 is None ==> spec_first_success(spec_success_flags(outcomes@)) is None,
{
    let ghost flags = spec_success_flags(outcomes@);
    let mut d = Dispatcher::new(outcomes.len());
    d.start();
    loop
        invariant
            d.wf(),
            d.credential_count == outcomes@.len(),
            flags == spec_success_flags(outcomes@),
            flags.len() == outcomes@.len(),
            !(d.state is Pending),
            d.history@ =~= flags.subrange(0, d.attempts as int),
        ensures
            d.wf(),
            d.credential_count == outcomes@.len(),
            !(d.state is Pending),
            !(d.state is Attempting),
            d.history@ =~= flags.subrange(0, d.attempts as int),
        decreases outcomes@.len() - d.attempts,
    {
        match d.next_credential() {
            None => {
                break;
            },
            Some(i) => {
                let outcome = outcomes[i];
                d.record_outcome(outcome);
                proof {
                    assert(flags[i as int] == spec_outcome_success(outcome));
                    assert(d.history@ =~= flags.subrange(0, d.attempts as int));
                }
            },
        }
    }
    match d.state {
        DispatchState::Succeeded { idx } => {
            proof {
                let pre = flags.subrange(0, d.attempts as int);
                assert(flags[idx as int] == pre[idx as int]);
                assert forall|j: int| 0 <= j < idx implies !flags[j] by {
                    assert(flags[j] == pre[j]);
                    assert(!d.history@[j]);
                }
                lemma_first_success_is(flags, idx as int);
            }
            (d.attempts, Some(idx))
        },
        _ => {
            proof {
                let pre = flags.subrange(0, d.attempts as int);
                assert(d.state is Exhausted);
                assert(flags =~= pre);
                assert forall|j: int| 0 <= j < flags.len() implies !flags[j] by {
                    assert(flags[j] == pre[j]);
                    assert(!d.history@[j]);
                }
                lemma_first_success_none(flags);
            }
            (d.attempts, None)
        },
    }
}

/// With `n` credentials of which exactly the last succeeds, the scan makes
/// exactly `n` attempts, in store order, and the last credential wins.
pub proof fn lemma_last_credential_wins(flags: Seq<bool>)
    requires
        flags.len() > 0,
        forall|j: int| 0 <= j < flags.len() - 1 ==> !flags[j],
        flags[flags.len() - 1],
    ensures
        spec_first_success(flags) == Some(flags.len() - 1),
        spec_attempt_count(flags) == flags.len(),
{
    lemma_first_success_is(flags, flags.len() - 1);
}

/// With an empty credential store, the scan makes zero attempts and no
/// credential wins.
pub proof fn lemma_empty_store_zero_attempts(flags: Seq<bool>)
    requires
        flags.len() == 0,
    ensures
        spec_first_success(flags) is None,
        spec_attempt_count(flags) == 0,
{
}

/// When every attempt fails, the scan tries every credential exactly once
/// and ends with no winner.
pub proof fn lemma_all_attempts_fail(flags: Seq<bool>)
    requires
        forall|j: int| 0 <= j < flags.len() ==> !flags[j],
    ensures
        spec_first_success(flags) is None,
        spec_attempt_count(flags) == flags.len(),
{
    lemma_first_success_none(flags);
}

} // verus!
