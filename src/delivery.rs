use crate::config::Config;
use vstd::prelude::*;

verus! {

/// How the delivery of one event ended.
pub enum DeliveryOutcome {
    /// A channel accepted the event.
    Delivered,
    /// Every attempt failed; the reason is that of the last failure.
    Failed(String),
    /// No channel is live: the event is only reported, which counts as success.
    Unsent,
}

/// What the caller is to do next for the event being delivered.
pub enum DeliveryStep {
    /// Publish the event once on the broker channel.
    TryBroker,
    /// Wait `delay_ms`, then POST the event once on the HTTP channel.
    TryHttp { delay_ms: u64 },
    /// Delivery of this event is over.
    Done(DeliveryOutcome),
}

/// Which channels are live, and how HTTP attempts are repeated.
#[derive(Clone, Copy, PartialEq, Eq, Structural)]
pub struct DeliveryPolicy {
    pub broker_live: bool,
    pub http_live: bool,
    pub max_retries: u32,
    pub retry_delay_ms: u64,
}

impl DeliveryPolicy {
    /// The policy that `config` sets, given which channels could be opened.
    pub fn from_config(config: &Config, broker_live: bool, http_live: bool) -> (r: Self)
        ensures
            r == (DeliveryPolicy {
                broker_live,
                http_live,
                max_retries: config.max_retries,
                retry_delay_ms: config.retry_delay_ms,
            }),
    {
        DeliveryPolicy {
            broker_live,
            http_live,
            max_retries: config.max_retries,
            retry_delay_ms: config.retry_delay_ms,
        }
    }

    /// HTTP can be attempted at least once.
    pub open spec fn http_usable(self) -> bool {
        self.http_live && self.max_retries > 0
    }
}

#[derive(Clone, Copy, PartialEq, Eq, Structural)]
pub enum Phase {
    /// The one broker attempt is under way.
    Broker,
    /// An HTTP attempt is under way.
    Http,
    /// A channel accepted the event.
    Delivered,
    /// Every attempt that could be made failed.
    Failed,
    /// No channel is live.
    Unsent,
}

/// The reason given when no attempt could be made although a channel is live.
pub open spec fn no_attempt_reason() -> Seq<char> {
    "All output methods failed"@
}

/// The delivery of one event: the broker first, once, then HTTP up to
/// `max_retries` times, a fixed delay apart.
#[derive(Clone, Copy, PartialEq, Eq, Structural)]
pub struct Delivery {
    pub policy: DeliveryPolicy,
    pub phase: Phase,
    /// Broker attempts asked for so far (at most one).
    pub broker_attempts: u32,
    /// HTTP attempts asked for so far (at most `max_retries`).
    pub http_attempts: u32,
}

/// The state in which the delivery of an event begins.
pub open spec fn start_state(policy: DeliveryPolicy) -> Delivery {
    if policy.broker_live {
        Delivery { policy, phase: Phase::Broker, broker_attempts: 1, http_attempts: 0 }
    } else if policy.http_usable() {
        Delivery { policy, phase: Phase::Http, broker_attempts: 0, http_attempts: 1 }
    } else if policy.http_live {
        Delivery { policy, phase: Phase::Failed, broker_attempts: 0, http_attempts: 0 }
    } else {
        Delivery { policy, phase: Phase::Unsent, broker_attempts: 0, http_attempts: 0 }
    }
}

/// The state after the attempt under way in `d` succeeded (`ok`) or failed.
pub open spec fn after_result(d: Delivery, ok: bool) -> Delivery {
    if ok {
        Delivery { phase: Phase::Delivered, ..d }
    } else if d.phase == Phase::Broker && d.policy.http_usable() {
        Delivery { phase: Phase::Http, http_attempts: 1, ..d }
    } else if d.phase == Phase::Http && d.http_attempts < d.policy.max_retries {
        Delivery { http_attempts: (d.http_attempts + 1) as u32, ..d }
    } else {
        Delivery { phase: Phase::Failed, ..d }
    }
}

/// The step that a state asks for; `reason` is the last failure, if any.
pub open spec fn step_of(d: Delivery, reason: Option<String>) -> DeliveryStep {
    match d.phase {
        Phase::Broker => DeliveryStep::TryBroker,
        Phase::Http => DeliveryStep::TryHttp {
            delay_ms: if d.http_attempts <= 1 { 0 } else { d.policy.retry_delay_ms },
        },
        Phase::Delivered => DeliveryStep::Done(DeliveryOutcome::Delivered),
        Phase::Failed => match reason {
            Some(e) => DeliveryStep::Done(DeliveryOutcome::Failed(e)),
            None => DeliveryStep::Done(DeliveryOutcome::Failed(arbitrary())),
        },
        Phase::Unsent => DeliveryStep::Done(DeliveryOutcome::Unsent),
    }
}

impl Delivery {
    pub open spec fn is_over(&self) -> bool {
        self.phase == Phase::Delivered || self.phase == Phase::Failed || self.phase == Phase::Unsent
    }

    pub open spec fn wf(&self) -> bool {
        &&& self.broker_attempts <= 1
        &&& self.http_attempts <= self.policy.max_retries
        &&& self.broker_attempts == 1 ==> self.policy.broker_live
        &&& self.phase == Phase::Broker ==> self.broker_attempts == 1 && self.http_attempts == 0
        &&& self.phase == Phase::Http ==> self.policy.http_live && self.http_attempts >= 1
    }

    /// Begins the delivery of an event: the state that awaits the first
    /// result, and the first step.
    pub fn start(policy: DeliveryPolicy) -> (r: (Delivery, DeliveryStep))
        ensures
            r.0.wf(),
            r.0 == start_state(policy),
            r.0.phase != Phase::Failed ==> r.1 == step_of(r.0, None),
            r.0.phase == Phase::Failed ==> (r.1 matches DeliveryStep::Done(
                DeliveryOutcome::Failed(e),
            ) && e@ == no_attempt_reason()),
    {
        if policy.broker_live {
            (Delivery { policy, phase: Phase::Broker, broker_attempts: 1, http_attempts: 0 }, DeliveryStep::TryBroker)
        } else if policy.http_live && policy.max_retries > 0 {
            (
                Delivery { policy, phase: Phase::Http, broker_attempts: 0, http_attempts: 1 },
                DeliveryStep::TryHttp { delay_ms: 0 },
            )
        } else if policy.http_live {
            (
                Delivery { policy, phase: Phase::Failed, broker_attempts: 0, http_attempts: 0 },
                DeliveryStep::Done(DeliveryOutcome::Failed("All output methods failed".to_string())),
            )
        } else {
            (
                Delivery { policy, phase: Phase::Unsent, broker_attempts: 0, http_attempts: 0 },
                DeliveryStep::Done(DeliveryOutcome::Unsent),
            )
        }
    }

    /// Takes the result of the attempt that the last step asked for, and gives
    /// the next step. A failure that ends the delivery is reported with its reason.
    pub fn record(&mut self, result: Result<(), String>) -> (step: DeliveryStep)
        requires
            old(self).wf(),
            !old(self).is_over(),
        ensures
            final(self).wf(),
            *final(self) == after_result(*old(self), result is Ok),
            step == step_of(
                *final(self),
                match result {
                    Ok(()) => None,
                    Err(e) => Some(e),
                },
            ),
    {
        match result {
            Ok(()) => {
                self.phase = Phase::Delivered;
                DeliveryStep::Done(DeliveryOutcome::Delivered)
            },
            Err(e) => {
                let p = self.policy;
                if self.phase == Phase::Broker && p.http_live && p.max_retries > 0 {
                    self.phase = Phase::Http;
                    self.http_attempts = 1;
                    DeliveryStep::TryHttp { delay_ms: 0 }
                } else if self.phase == Phase::Http && self.http_attempts < p.max_retries {
                    self.http_attempts = self.http_attempts + 1;
                    DeliveryStep::TryHttp { delay_ms: p.retry_delay_ms }
                } else {
                    self.phase = Phase::Failed;
                    DeliveryStep::Done(DeliveryOutcome::Failed(e))
                }
            },
        }
    }
}

/// The state reached when the attempts, in order, succeed or fail as `results`
/// says; results beyond the end of the delivery are not used.
pub open spec fn run(d: Delivery, results: Seq<bool>) -> Delivery
    decreases results.len(),
{
    if results.len() == 0 || d.is_over() {
        d
    } else {
        run(after_result(d, results[0]), results.drop_first())
    }
}

/// From an HTTP attempt under way, failures all along end the delivery as
/// failed once `max_retries` HTTP attempts were made, and never later.
pub proof fn lemma_http_failures_exhaust(d: Delivery, results: Seq<bool>)
    requires
        d.wf(),
        d.phase == Phase::Http,
        results.len() > d.policy.max_retries - d.http_attempts,
        forall|i: int| 0 <= i < results.len() ==> !#[trigger] results[i],
    ensures
        run(d, results) == (Delivery {
            phase: Phase::Failed,
            http_attempts: d.policy.max_retries,
            ..d
        }),
    decreases results.len(),
{
    let d1 = after_result(d, results[0]);
    if d.http_attempts < d.policy.max_retries {
        lemma_http_failures_exhaust(d1, results.drop_first());
    } else {
        assert(run(d1, results.drop_first()) == d1);
    }
}

/// From an HTTP attempt under way, `k` failed attempts and then a successful
/// one deliver the event, when `max_retries` leaves room for them.
pub proof fn lemma_http_success_after(d: Delivery, k: nat, results: Seq<bool>)
    requires
        d.wf(),
        d.phase == Phase::Http,
        d.http_attempts + k <= d.policy.max_retries,
        results.len() > k,
        forall|i: int| 0 <= i < k ==> !#[trigger] results[i],
        results[k as int],
    ensures
        run(d, results) == (Delivery {
            phase: Phase::Delivered,
            http_attempts: (d.http_attempts + k) as u32,
            ..d
        }),
    decreases k,
{
    let d1 = after_result(d, results[0]);
    if k > 0 {
        assert forall|i: int| 0 <= i < k - 1 implies !#[trigger] results.drop_first()[i] by {
            assert(results.drop_first()[i] == results[i + 1]);
        }
        lemma_http_success_after(d1, (k - 1) as nat, results.drop_first());
    } else {
        assert(run(d1, results.drop_first()) == d1);
    }
}

/// Fallback: with both channels live, when the broker attempt fails and the
/// HTTP attempts fail `k - 1` times and then succeed, for `1 <= k <= max_retries`,
/// the event is delivered after one broker attempt and exactly `k` HTTP attempts.
pub proof fn lemma_fallback_delivers(policy: DeliveryPolicy, k: nat, results: Seq<bool>)
    requires
        policy.broker_live,
        policy.http_live,
        1 <= k <= policy.max_retries,
        results.len() > k,
        forall|i: int| 0 <= i < k ==> !#[trigger] results[i],
        results[k as int],
    ensures
        run(start_state(policy), results).phase == Phase::Delivered,
        run(start_state(policy), results).broker_attempts == 1,
        run(start_state(policy), results).http_attempts == k,
{
    let d0 = start_state(policy);
    let d1 = after_result(d0, results[0]);
    assert forall|i: int| 0 <= i < k - 1 implies !#[trigger] results.drop_first()[i] by {
        assert(results.drop_first()[i] == results[i + 1]);
    }
    lemma_http_success_after(d1, (k - 1) as nat, results.drop_first());
}

/// Exhaustion: with both channels live and every attempt failing, the event
/// fails after one broker attempt and exactly `max_retries` HTTP attempts, and
/// no further attempt is asked for.
pub proof fn lemma_failures_exhaust(policy: DeliveryPolicy, results: Seq<bool>)
    requires
        policy.broker_live,
        policy.http_live,
        policy.max_retries >= 1,
        results.len() > policy.max_retries,
        forall|i: int| 0 <= i < results.len() ==> !#[trigger] results[i],
    ensures
        run(start_state(policy), results).phase == Phase::Failed,
        run(start_state(policy), results).broker_attempts == 1,
        run(start_state(policy), results).http_attempts == policy.max_retries,
{
    let d0 = start_state(policy);
    let d1 = after_result(d0, results[0]);
    assert forall|i: int| 0 <= i < results.drop_first().len() implies !#[trigger] results.drop_first()[i] by {
        assert(results.drop_first()[i] == results[i + 1]);
    }
    lemma_http_failures_exhaust(d1, results.drop_first());
}

/// With no channel live, delivery ends at once as unsent, which is success,
/// with no attempt made, whatever the attempts would have returned.
pub proof fn lemma_no_channel_unsent(policy: DeliveryPolicy, results: Seq<bool>)
    requires
        !policy.broker_live,
        !policy.http_live,
    ensures
        run(start_state(policy), results).phase == Phase::Unsent,
        run(start_state(policy), results).broker_attempts == 0,
        run(start_state(policy), results).http_attempts == 0,
        step_of(start_state(policy), None) == DeliveryStep::Done(DeliveryOutcome::Unsent),
{
}

} // verus!
