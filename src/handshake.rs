//! The connector side of the per-cycle handshake: connecting to a peer that
//! may not be listening yet, with a bounded number of attempts.
use vstd::prelude::*;

verus! {

/// The number of connection attempts after which the connector gives up.
pub const MAX_CONNECT_ATTEMPTS: u32 = 60;

/// The first attempt whose failure is also reported to the operator.
pub const LOG_FROM_ATTEMPT: u32 = 10;

/// What the connector does after an attempt.
#[derive(Clone, Copy, Debug, PartialEq, Eq, Structural)]
pub enum ConnectStep {
    /// The attempt with this number succeeded.
    Connected(u32),
    /// The attempt failed: sleep the fixed interval and try again, reporting
    /// the failure when `log` holds.
    Retry { log: bool },
    /// The budget is spent after this many attempts; the handshake is fatal.
    /// The failure of the last attempt is reported when `log` holds.
    GiveUp { attempts: u32, log: bool },
}

/// Whether the failure of the attempt with this number is reported to the
/// operator: failures from `LOG_FROM_ATTEMPT` on are, a success never is.
pub open spec fn logs_failure(attempt: nat, connected: bool) -> bool {
    !connected && attempt >= LOG_FROM_ATTEMPT
}

/// The decision after an attempt, given how many attempts came before it.
pub open spec fn connect_step(before: nat, connected: bool) -> ConnectStep {
    if before >= MAX_CONNECT_ATTEMPTS {
        ConnectStep::GiveUp { attempts: before as u32, log: logs_failure(before + 1, connected) }
    } else if connected {
        ConnectStep::Connected((before + 1) as u32)
    } else if before + 1 >= MAX_CONNECT_ATTEMPTS {
        ConnectStep::GiveUp { attempts: (before + 1) as u32, log: logs_failure(before + 1, connected) }
    } else {
        ConnectStep::Retry { log: logs_failure(before + 1, connected) }
    }
}

/// The attempts counted after an attempt, given how many came before it.
pub open spec fn attempts_after(before: nat) -> nat {
    if before >= MAX_CONNECT_ATTEMPTS {
        before
    } else {
        before + 1
    }
}

/// The first decision that ends the handshake when the attempts, after
/// `before` earlier ones, have the outcomes `outcomes` in order; `None` when
/// every one of them leads to another retry.
pub open spec fn handshake_result(before: nat, outcomes: Seq<bool>) -> Option<ConnectStep>
    decreases outcomes.len(),
{
    if outcomes.len() == 0 {
        None
    } else {
        match connect_step(before, outcomes[0]) {
            ConnectStep::Retry { .. } => handshake_result(attempts_after(before), outcomes.drop_first()),
            step => Some(step),
        }
    }
}

/// The outcomes of `n` attempts against a peer that accepts from attempt
/// `reachable_from` on (never, when it is `None`).
pub open spec fn peer_outcomes(reachable_from: Option<nat>, n: nat) -> Seq<bool> {
    Seq::new(n, |i: int| reachable_from matches Some(k) && i + 1 >= k)
}

/// Counts the attempts of one handshake and decides after each.
pub struct ConnectorRetry {
    attempts: u32,
}

impl ConnectorRetry {
    pub closed spec fn attempts_spec(&self) -> nat {
        self.attempts as nat
    }

    pub closed spec fn wf(&self) -> bool {
        self.attempts <= MAX_CONNECT_ATTEMPTS
    }

    /// A handshake before its first attempt.
    pub fn new() -> (r: ConnectorRetry)
        ensures
            r.wf(),
            r.attempts_spec() == 0,
    {
        ConnectorRetry { attempts: 0 }
    }

    /// The attempts made so far.
    pub fn attempts(&self) -> (r: u32)
        ensures
            r as nat == self.attempts_spec(),
    {
        self.attempts
    }

    /// Records the outcome of one more attempt and says what comes next.
    pub fn on_attempt(&mut self, connected: bool) -> (r: ConnectStep)
        requires
            old(self).wf(),
        ensures
            final(self).wf(),
            r == connect_step(old(self).attempts_spec(), connected),
            final(self).attempts_spec() == attempts_after(old(self).attempts_spec()),
    {
        if self.attempts >= MAX_CONNECT_ATTEMPTS {
            return ConnectStep::GiveUp { attempts: self.attempts, log: !connected };
        }
        self.attempts = self.attempts + 1;
        if connected {
            ConnectStep::Connected(self.attempts)
        } else if self.attempts >= MAX_CONNECT_ATTEMPTS {
            ConnectStep::GiveUp { attempts: self.attempts, log: self.attempts >= LOG_FROM_ATTEMPT }
        } else {
            ConnectStep::Retry { log: self.attempts >= LOG_FROM_ATTEMPT }
        }
    }
}

proof fn lemma_retries_until(before: nat, k: nat, outcomes: Seq<bool>)
    requires
        before < k <= MAX_CONNECT_ATTEMPTS,
        outcomes.len() >= k - before,
        forall|i: int| 0 <= i < k - before - 1 ==> !outcomes[i],
    ensures
        handshake_result(before, outcomes) == (if outcomes[k - before - 1] {
            Some(ConnectStep::Connected(k as u32))
        } else if k == MAX_CONNECT_ATTEMPTS {
            Some(ConnectStep::GiveUp { attempts: k as u32, log: true })
        } else {
            handshake_result(k, outcomes.subrange(k - before, outcomes.len() as int))
        }),
    decreases k - before,
{
    if before + 1 < k {
        assert(!outcomes[0]);
        let rest = outcomes.drop_first();
        assert forall|i: int| 0 <= i < k - (before + 1) - 1 implies !rest[i] by {
            assert(rest[i] == outcomes[i + 1]);
        }
        lemma_retries_until(before + 1, k, rest);
        assert(rest[k - (before + 1) - 1] == outcomes[k - before - 1]);
        assert(rest.subrange(k - (before + 1), rest.len() as int) =~= outcomes.subrange(
            k - before,
            outcomes.len() as int,
        ));
    } else {
        assert(outcomes.drop_first() =~= outcomes.subrange(k - before, outcomes.len() as int));
    }
}

/// A peer that first accepts at attempt `k`, within the budget, is connected
/// to at exactly attempt `k`, however many further outcomes there would be.
pub proof fn lemma_connects_on_first_reachable_attempt(k: nat, n: nat)
    requires
        1 <= k <= MAX_CONNECT_ATTEMPTS,
        k <= n,
    ensures
        handshake_result(0, peer_outcomes(Some(k), n)) == Some(ConnectStep::Connected(k as u32)),
{
    lemma_retries_until(0, k, peer_outcomes(Some(k), n));
}

/// A peer that never accepts makes the handshake give up after exactly
/// `MAX_CONNECT_ATTEMPTS` attempts, and not before.
pub proof fn lemma_gives_up_after_budget(n: nat)
    requires
        n >= MAX_CONNECT_ATTEMPTS,
    ensures
        handshake_result(0, peer_outcomes(None, n)) == Some(
            ConnectStep::GiveUp { attempts: MAX_CONNECT_ATTEMPTS, log: true },
        ),
        forall|m: nat| m < MAX_CONNECT_ATTEMPTS ==> handshake_result(0, #[trigger] peer_outcomes(None, m)) is None,
{
    lemma_retries_until(0, MAX_CONNECT_ATTEMPTS as nat, peer_outcomes(None, n));
    assert forall|m: nat| m < MAX_CONNECT_ATTEMPTS implies handshake_result(0, #[trigger] peer_outcomes(None, m)) is None by {
        lemma_no_result_within_budget(0, peer_outcomes(None, m));
    }
}

proof fn lemma_no_result_within_budget(before: nat, outcomes: Seq<bool>)
    requires
        before + outcomes.len() < MAX_CONNECT_ATTEMPTS,
        forall|i: int| 0 <= i < outcomes.len() ==> !outcomes[i],
    ensures
        handshake_result(before, outcomes) is None,
    decreases outcomes.len(),
{
    if outcomes.len() > 0 {
        assert(!outcomes[0]);
        let rest = outcomes.drop_first();
        assert forall|i: int| 0 <= i < rest.len() implies !rest[i] by {
            assert(rest[i] == outcomes[i + 1]);
        }
        lemma_no_result_within_budget(before + 1, rest);
    }
}

} // verus!
