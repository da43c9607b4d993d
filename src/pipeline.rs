//! The notification pipeline: it decodes each heart-rate notification, decides
//! whether to forward it, and replaces the session when the stream stalls or
//! ends. The caller performs the actions and reports events.
use vstd::prelude::*;
use crate::payload::{decoded, decode};

verus! {

/// When a decoded sample is forwarded.
#[derive(Clone, Copy, Debug, PartialEq, Eq, Structural)]
pub enum ForwardPolicy {
    /// Every sample.
    Continuous,
    /// A sample only when at least `min_interval` time units have passed since
    /// the last forwarded one.
    RateLimited { min_interval: u64 },
}

/// Why a notification was not forwarded.
#[derive(Clone, Copy, Debug, PartialEq, Eq, Structural)]
pub enum DiscardReason {
    /// The payload is shorter than two bytes.
    Malformed,
    /// It came from a session that is being or has been replaced.
    Stale,
    /// It came too soon after the last forwarded sample.
    RateLimited,
}

/// What the pipeline is told.
pub enum PipelineEvent {
    /// A notification of the session numbered `session` arrived at time `at`.
    Notification { session: u64, payload: Vec<u8>, at: u64 },
    /// No notification arrived within the timeout.
    TimedOut,
    /// The notification stream ended.
    StreamEnded,
    /// A new session to the same peripheral is subscribed.
    Reconnected,
}

/// What the pipeline asks for.
#[derive(Clone, Copy, Debug, PartialEq, Eq, Structural)]
pub enum PipelineAction {
    /// Send (and log) this reading, taken at time `at`.
    Forward { beats_per_minute: u8, at: u64 },
    /// Drop the notification.
    Discard(DiscardReason),
    /// Drop the session and connect again to `address`.
    Reconnect { address: u64 },
    /// Nothing to do; wait for the next event.
    Wait,
    /// End the loop.
    Stop,
}

/// The pipeline's state: it is bound to one session at a time.
#[derive(Clone, Copy, Debug, PartialEq, Eq, Structural)]
pub struct Pipeline {
    pub policy: ForwardPolicy,
    /// Whether a stall or the end of the stream leads to a reconnect (else
    /// the end of the stream ends the loop).
    pub reconnect_on_timeout: bool,
    /// The address of the peripheral, kept across reconnects.
    pub address: u64,
    /// The number of the current session.
    pub session: u64,
    /// Whether the current session is being replaced.
    pub reconnecting: bool,
    /// When the last sample was forwarded.
    pub last_forward: Option<u64>,
}

/// The number of the session that replaces session `n`.
pub open spec fn next_session(n: u64) -> u64 {
    if n == u64::MAX {
        0
    } else {
        (n + 1) as u64
    }
}

/// Whether a sample taken at `at` may be forwarded under `policy`, after one
/// forwarded at `last`.
pub open spec fn may_forward(policy: ForwardPolicy, last: Option<u64>, at: u64) -> bool {
    match policy {
        ForwardPolicy::Continuous => true,
        ForwardPolicy::RateLimited { min_interval } => match last {
            None => true,
            Some(l) => at >= l + min_interval,
        },
    }
}

/// The pipeline's transition: the next state and the action asked for.
pub open spec fn next(s: Pipeline, e: PipelineEvent) -> (Pipeline, PipelineAction) {
    match e {
        PipelineEvent::Notification { session, payload, at } => {
            if s.reconnecting || session != s.session {
                (s, PipelineAction::Discard(DiscardReason::Stale))
            } else {
                match decoded(payload@) {
                    None => (s, PipelineAction::Discard(DiscardReason::Malformed)),
                    Some(b) => if may_forward(s.policy, s.last_forward, at) {
                        (
                            Pipeline { last_forward: Some(at), ..s },
                            PipelineAction::Forward { beats_per_minute: b, at },
                        )
                    } else {
                        (s, PipelineAction::Discard(DiscardReason::RateLimited))
                    },
                }
            }
        },
        PipelineEvent::TimedOut => {
            if s.reconnect_on_timeout && !s.reconnecting {
                (Pipeline { reconnecting: true, ..s }, PipelineAction::Reconnect { address: s.address })
            } else {
                (s, PipelineAction::Wait)
            }
        },
        PipelineEvent::StreamEnded => {
            if s.reconnecting {
                (s, PipelineAction::Wait)
            } else if s.reconnect_on_timeout {
                (Pipeline { reconnecting: true, ..s }, PipelineAction::Reconnect { address: s.address })
            } else {
                (s, PipelineAction::Stop)
            }
        },
        PipelineEvent::Reconnected => {
            if s.reconnecting {
                (
                    Pipeline { session: next_session(s.session), reconnecting: false, ..s },
                    PipelineAction::Wait,
                )
            } else {
                (s, PipelineAction::Wait)
            }
        },
    }
}

/// The state after a sequence of events, and the actions asked for on the way.
pub open spec fn run(s: Pipeline, events: Seq<PipelineEvent>) -> (Pipeline, Seq<PipelineAction>)
    decreases events.len(),
{
    if events.len() == 0 {
        (s, Seq::empty())
    } else {
        let (p, acts) = run(s, events.drop_last());
        let (q, a) = next(p, events.last());
        (q, acts.push(a))
    }
}

/// The time of a forwarded sample.
pub open spec fn forwarded_at(a: PipelineAction) -> int {
    a->Forward_at as int
}

proof fn lemma_rate_limit_inv(s: Pipeline, events: Seq<PipelineEvent>, min_interval: u64)
    requires
        s.policy == (ForwardPolicy::RateLimited { min_interval }),
    ensures
        ({
            let (f, acts) = run(s, events);
            &&& f.policy == s.policy
            &&& forall|i: int| 0 <= i < acts.len() && acts[i] is Forward ==> {
                &&& f.last_forward is Some
                &&& forwarded_at(acts[i]) <= f.last_forward->Some_0
            }
            &&& forall|i: int, j: int|
                0 <= i < j < acts.len() && acts[i] is Forward && acts[j] is Forward
                    ==> forwarded_at(acts[j]) >= forwarded_at(acts[i]) + min_interval
        }),
    decreases events.len(),
{
    if events.len() > 0 {
        lemma_rate_limit_inv(s, events.drop_last(), min_interval);
    }
}

/// In rate-limited mode, any two forwarded samples are at least the minimum
/// interval apart, in the order in which they were forwarded.
pub proof fn lemma_forwarded_samples_are_spaced(
    s: Pipeline,
    events: Seq<PipelineEvent>,
    min_interval: u64,
    i: int,
    j: int,
)
    requires
        s.policy == (ForwardPolicy::RateLimited { min_interval }),
        0 <= i < j < run(s, events).1.len(),
        run(s, events).1[i] is Forward,
        run(s, events).1[j] is Forward,
    ensures
        forwarded_at(run(s, events).1[j]) >= forwarded_at(run(s, events).1[i]) + min_interval,
{
    lemma_rate_limit_inv(s, events, min_interval);
}

/// In rate-limited mode, a well-formed notification of the current session
/// that comes at least the minimum interval after the last forwarded sample
/// (or before any) is forwarded.
pub proof fn lemma_sample_after_gap_is_forwarded(
    s: Pipeline,
    payload: Vec<u8>,
    at: u64,
    min_interval: u64,
)
    requires
        s.policy == (ForwardPolicy::RateLimited { min_interval }),
        !s.reconnecting,
        payload@.len() >= 2,
        s.last_forward matches Some(l) ==> at >= l + min_interval,
    ensures
        next(s, PipelineEvent::Notification { session: s.session, payload, at }).1
            == (PipelineAction::Forward { beats_per_minute: payload@[1], at }),
{
}

proof fn lemma_timeout_inv(s: Pipeline, rest: Seq<PipelineEvent>)
    requires
        s.reconnect_on_timeout,
        !s.reconnecting,
        forall|k: int| 0 <= k < rest.len() ==> !(#[trigger] rest[k] is Reconnected),
    ensures
        ({
            let (f, acts) = run(s, seq![PipelineEvent::TimedOut] + rest);
            &&& f.reconnecting
            &&& f.address == s.address
            &&& acts.len() == rest.len() + 1
            &&& acts[0] == (PipelineAction::Reconnect { address: s.address })
            &&& forall|k: int|
                1 <= k < acts.len() ==> !(#[trigger] acts[k] is Reconnect) && !(acts[k] is Forward)
        }),
    decreases rest.len(),
{
    let events = seq![PipelineEvent::TimedOut] + rest;
    if rest.len() == 0 {
        assert(events.drop_last() =~= Seq::<PipelineEvent>::empty());
        assert(events.last() == PipelineEvent::TimedOut);
        assert(run(s, events.drop_last()) == (s, Seq::<PipelineAction>::empty()));
        assert(run(s, events) == (
            Pipeline { reconnecting: true, ..s },
            seq![PipelineAction::Reconnect { address: s.address }],
        ));
    } else {
        assert(events.drop_last() =~= seq![PipelineEvent::TimedOut] + rest.drop_last());
        assert(events.last() == rest[rest.len() - 1]);
        assert forall|k: int| 0 <= k < rest.drop_last().len() implies !(
        #[trigger] rest.drop_last()[k] is Reconnected) by {
            assert(rest.drop_last()[k] == rest[k]);
        }
        lemma_timeout_inv(s, rest.drop_last());
        let (p, acts) = run(s, events.drop_last());
        let (q, a) = next(p, events.last());
        assert(!(a is Reconnect) && !(a is Forward));
        assert(q.reconnecting && q.address == s.address);
        assert(run(s, events) == (q, acts.push(a)));
        assert(acts.push(a)[0] == acts[0]);
        assert forall|k: int| 1 <= k < acts.push(a).len() implies !(
        #[trigger] acts.push(a)[k] is Reconnect) && !(acts.push(a)[k] is Forward) by {
            if k < acts.len() {
                assert(acts.push(a)[k] == acts[k]);
            }
        }
    }
}

/// After a timeout, exactly one reconnect is asked for, with the session's
/// address, and nothing is forwarded until the new session is reported.
pub proof fn lemma_timeout_reconnects_once(s: Pipeline, rest: Seq<PipelineEvent>)
    requires
        s.reconnect_on_timeout,
        !s.reconnecting,
        forall|k: int| 0 <= k < rest.len() ==> !(#[trigger] rest[k] is Reconnected),
    ensures
        ({
            let acts = run(s, seq![PipelineEvent::TimedOut] + rest).1;
            &&& acts[0] == (PipelineAction::Reconnect { address: s.address })
            &&& forall|k: int| 1 <= k < acts.len() ==> !(#[trigger] acts[k] is Reconnect)
            &&& forall|k: int| 0 <= k < acts.len() ==> !(#[trigger] acts[k] is Forward)
        }),
{
    lemma_timeout_inv(s, rest);
}

/// A notification of a session other than the current one, or one that
/// arrives while the session is being replaced, is never forwarded.
pub proof fn lemma_stale_notification_discarded(s: Pipeline, session: u64, payload: Vec<u8>, at: u64)
    requires
        s.reconnecting || session != s.session,
    ensures
        next(s, PipelineEvent::Notification { session, payload, at })
            == (s, PipelineAction::Discard(DiscardReason::Stale)),
{
}

proof fn lemma_address_inv(s: Pipeline, events: Seq<PipelineEvent>)
    ensures
        ({
            let (f, acts) = run(s, events);
            &&& f.address == s.address
            &&& forall|k: int| 0 <= k < acts.len() && #[trigger] acts[k] is Reconnect
                ==> acts[k]->Reconnect_address == s.address
        }),
    decreases events.len(),
{
    if events.len() > 0 {
        lemma_address_inv(s, events.drop_last());
    }
}

/// Every reconnect asks for the address of the first session, and the
/// pipeline keeps that address whatever events it takes.
pub proof fn lemma_reconnect_keeps_address(s: Pipeline, events: Seq<PipelineEvent>)
    ensures
        run(s, events).0.address == s.address,
        forall|k: int|
            0 <= k < run(s, events).1.len() && #[trigger] run(s, events).1[k] is Reconnect
                ==> run(s, events).1[k]->Reconnect_address == s.address,
{
    lemma_address_inv(s, events);
}

proof fn lemma_forward_comes_from_event(s: Pipeline, events: Seq<PipelineEvent>)
    ensures
        run(s, events).1.len() == events.len(),
        forall|k: int|
            0 <= k < events.len() && #[trigger] run(s, events).1[k] is Forward ==> {
                &&& events[k] is Notification
                &&& run(s, events).1[k]->Forward_at == events[k]->Notification_at
            },
    decreases events.len(),
{
    if events.len() > 0 {
        lemma_forward_comes_from_event(s, events.drop_last());
        let (p, acts) = run(s, events.drop_last());
        let (q, a) = next(p, events.last());
        assert forall|k: int|
            0 <= k < events.len() && #[trigger] run(s, events).1[k] is Forward implies {
                &&& events[k] is Notification
                &&& run(s, events).1[k]->Forward_at == events[k]->Notification_at
            } by {
            if k < acts.len() {
                assert(acts.push(a)[k] == acts[k]);
                assert(events.drop_last()[k] == events[k]);
            }
        }
    }
}

/// Forwarded samples, and so the rows of the log, keep the order of the
/// clock across reconnects: when notifications arrive with non-decreasing
/// times, the forwarded times do not decrease.
pub proof fn lemma_forwarded_times_follow_clock(s: Pipeline, events: Seq<PipelineEvent>, i: int, j: int)
    requires
        forall|a: int, b: int|
            0 <= a < b < events.len() && #[trigger] events[a] is Notification
                && #[trigger] events[b] is Notification ==> events[a]->Notification_at
                <= events[b]->Notification_at,
        0 <= i < j < run(s, events).1.len(),
        run(s, events).1[i] is Forward,
        run(s, events).1[j] is Forward,
    ensures
        run(s, events).1[i]->Forward_at <= run(s, events).1[j]->Forward_at,
{
    lemma_forward_comes_from_event(s, events);
}

impl Pipeline {
    /// A pipeline bound to the first session with the peripheral at `address`.
    pub fn new(policy: ForwardPolicy, reconnect_on_timeout: bool, address: u64) -> (r: Pipeline)
        ensures
            r == (Pipeline {
                policy,
                reconnect_on_timeout,
                address,
                session: 0,
                reconnecting: false,
                last_forward: None,
            }),
    {
        Pipeline {
            policy,
            reconnect_on_timeout,
            address,
            session: 0,
            reconnecting: false,
            last_forward: None,
        }
    }

    /// Takes one event and returns the action it calls for.
    pub fn step(&mut self, e: PipelineEvent) -> (r: PipelineAction)
        ensures
            (*final(self), r) == next(*old(self), e),
    {
        match e {
            PipelineEvent::Notification { session, payload, at } => {
                if self.reconnecting || session != self.session {
                    return PipelineAction::Discard(DiscardReason::Stale);
                }
                match decode(&payload) {
                    None => PipelineAction::Discard(DiscardReason::Malformed),
                    Some(b) => {
                        let allowed = match self.policy {
                            ForwardPolicy::Continuous => true,
                            ForwardPolicy::RateLimited { min_interval } => match self.last_forward {
                                None => true,
                                Some(l) => at >= l && at - l >= min_interval,
                            },
                        };
                        if allowed {
                            self.last_forward = Some(at);
                            PipelineAction::Forward { beats_per_minute: b, at }
                        } else {
                            PipelineAction::Discard(DiscardReason::RateLimited)
                        }
                    },
                }
            },
            PipelineEvent::TimedOut => {
                if self.reconnect_on_timeout && !self.reconnecting {
                    self.reconnecting = true;
                    PipelineAction::Reconnect { address: self.address }
                } else {
                    PipelineAction::Wait
                }
            },
            PipelineEvent::StreamEnded => {
                if self.reconnecting {
                    PipelineAction::Wait
                } else if self.reconnect_on_timeout {
                    self.reconnecting = true;
                    PipelineAction::Reconnect { address: self.address }
                } else {
                    PipelineAction::Stop
                }
            },
            PipelineEvent::Reconnected => {
                if self.reconnecting {
                    self.session = if self.session == u64::MAX {
                        0
                    } else {
                        self.session + 1
                    };
                    self.reconnecting = false;
                }
                PipelineAction::Wait
            },
        }
    }
}

} // verus!
