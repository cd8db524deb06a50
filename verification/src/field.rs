//! Session state machine and per-tag fan-out rules of the field acquisition
//! source.
//!
//! The session walks `Disconnected → Connecting → Connected → Subscribed`;
//! any failure at any stage drops it straight back to `Disconnected`, with
//! the whole prior session — every monitored tag and its worker — discarded.
//! There is no partial-session repair: reconnection rebuilds everything
//! after a fixed delay. A single tag whose registration fails is skipped and
//! never prevents another tag's registration. The driving loop performs the
//! connects, subscribes and polls and reports each outcome back here.

use vstd::prelude::*;

verus! {

/// Fixed delay before a failed session is attempted again; the back-off is
/// constant, not exponential.
pub const RECONNECT_DELAY_SECS: u64 = 10;

/// Fixed period of the liveness poll that watches a subscribed session.
pub const POLL_INTERVAL_SECS: u64 = 5;

/// The connection lifecycle of a field session.
#[derive(Clone, Copy, Debug, PartialEq, Eq, Structural)]
pub enum SessionState {
    Disconnected,
    Connecting,
    Connected,
    Subscribed,
}

/// The mathematical state of a session: its lifecycle state and the tags
/// with a live worker.
pub struct SessionModel {
    pub state: SessionState,
    pub monitored: Seq<Seq<char>>,
}

/// The tags that registered successfully, in registration order: exactly the
/// entries reported `true`, each independent of every other outcome.
pub open spec fn successful_tags(outcomes: Seq<(Seq<char>, bool)>) -> Seq<Seq<char>>
    decreases outcomes.len(),
{
    if outcomes.len() == 0 {
        Seq::empty()
    } else {
        let rest = successful_tags(outcomes.drop_last());
        if outcomes.last().1 {
            rest.push(outcomes.last().0)
        } else {
            rest
        }
    }
}

/// A connection attempt begins: no workers exist yet.
pub open spec fn begin_connect_step(m: SessionModel) -> SessionModel {
    SessionModel { state: SessionState::Connecting, monitored: Seq::empty() }
}

/// Outcome of the connection attempt.
pub open spec fn connect_step(m: SessionModel, ok: bool) -> SessionModel {
    SessionModel {
        state: if ok {
            SessionState::Connected
        } else {
            SessionState::Disconnected
        },
        monitored: Seq::empty(),
    }
}

/// Outcome of creating the subscription context on a connected session.
pub open spec fn subscribe_step(m: SessionModel, ok: bool) -> SessionModel {
    SessionModel {
        state: if ok {
            SessionState::Connected
        } else {
            SessionState::Disconnected
        },
        monitored: Seq::empty(),
    }
}

/// Registration of every mapped tag completes: the session is subscribed and
/// exactly the successfully registered tags have workers.
pub open spec fn register_step(m: SessionModel, outcomes: Seq<(Seq<char>, bool)>) -> SessionModel {
    SessionModel { state: SessionState::Subscribed, monitored: successful_tags(outcomes) }
}

/// One liveness poll: a healthy session is untouched; an unhealthy one is
/// torn down whole, stopping every worker.
pub open spec fn poll_step(m: SessionModel, healthy: bool) -> SessionModel {
    if healthy {
        m
    } else {
        SessionModel { state: SessionState::Disconnected, monitored: Seq::empty() }
    }
}

/// A live field session as the driving loop holds it.
pub struct FieldSession {
    state: SessionState,
    monitored: Vec<String>,
}

impl View for FieldSession {
    type V = SessionModel;

    closed spec fn view(&self) -> SessionModel {
        SessionModel {
            state: self.state,
            monitored: self.monitored@.map_values(|t: String| t@),
        }
    }
}

/// The view of reported registration outcomes: each tag with whether its
/// registration succeeded.
pub open spec fn outcomes_view(s: Seq<(String, bool)>) -> Seq<(Seq<char>, bool)> {
    s.map_values(|p: (String, bool)| (p.0@, p.1))
}

impl FieldSession {
    /// A fresh session: disconnected, nothing monitored.
    pub fn new() -> (r: FieldSession)
        ensures
            r@.state == SessionState::Disconnected,
            r@.monitored.len() == 0,
    {
        FieldSession { state: SessionState::Disconnected, monitored: Vec::new() }
    }

    pub fn state(&self) -> (r: SessionState)
        ensures
            r == self@.state,
    {
        self.state
    }

    /// The tags that currently have a live worker.
    pub fn monitored_tags(&self) -> (r: &Vec<String>)
        ensures
            r@.map_values(|t: String| t@) == self@.monitored,
    {
        &self.monitored
    }

    /// Start a connection attempt.
    pub fn begin_connect(&mut self)
        requires
            old(self)@.state == SessionState::Disconnected,
        ensures
            final(self)@ == begin_connect_step(old(self)@),
    {
        self.state = SessionState::Connecting;
        self.monitored = Vec::new();
        proof {
            assert(self@.monitored =~= Seq::<Seq<char>>::empty());
        }
    }

    /// Record the outcome of the connection attempt; a failure falls all the
    /// way back to disconnected, to be retried after the fixed delay.
    pub fn connect_result(&mut self, ok: bool)
        requires
            old(self)@.state == SessionState::Connecting,
        ensures
            final(self)@ == connect_step(old(self)@, ok),
    {
        self.state = if ok {
            SessionState::Connected
        } else {
            SessionState::Disconnected
        };
        self.monitored = Vec::new();
        proof {
            assert(self@.monitored =~= Seq::<Seq<char>>::empty());
        }
    }

    /// Record the outcome of creating the subscription context.
    pub fn subscription_result(&mut self, ok: bool)
        requires
            old(self)@.state == SessionState::Connected,
        ensures
            final(self)@ == subscribe_step(old(self)@, ok),
    {
        self.state = if ok {
            SessionState::Connected
        } else {
            SessionState::Disconnected
        };
        self.monitored = Vec::new();
        proof {
            assert(self@.monitored =~= Seq::<Seq<char>>::empty());
        }
    }

    /// Record the per-tag registration outcomes: the session becomes
    /// subscribed and exactly the tags that registered successfully get a
    /// worker — one tag's failure never blocks another's registration.
    pub fn register_tags(&mut self, outcomes: &Vec<(String, bool)>)
        requires
            old(self)@.state == SessionState::Connected,
        ensures
            final(self)@ == register_step(old(self)@, outcomes_view(outcomes@)),
            final(self)@.state == SessionState::Subscribed,
            final(self)@.monitored == successful_tags(outcomes_view(outcomes@)),
    {
        let mut workers: Vec<String> = Vec::new();
        let n = outcomes.len();
        let mut i: usize = 0;
        while i < n
            invariant
                0 <= i <= n,
                n == outcomes@.len(),
                workers@.map_values(|t: String| t@) == successful_tags(
                    outcomes_view(outcomes@.subrange(0, i as int)),
                ),
            decreases n - i,
        {
            let ghost prefix = outcomes_view(outcomes@.subrange(0, i as int));
            let ghost next = outcomes_view(outcomes@.subrange(0, i + 1));
            proof {
                assert(next.drop_last() =~= prefix);
                assert(next.last() == (outcomes@[i as int].0@, outcomes@[i as int].1));
            }
            let pair = &outcomes[i];
            if pair.1 {
                workers.push(pair.0.clone());
                proof {
                    assert(workers@.map_values(|t: String| t@) =~= successful_tags(next));
                }
            } else {
                proof {
                    assert(workers@.map_values(|t: String| t@) =~= successful_tags(next));
                }
            }
            i = i + 1;
        }
        proof {
            assert(outcomes@.subrange(0, n as int) =~= outcomes@);
        }
        self.state = SessionState::Subscribed;
        self.monitored = workers;
    }

    /// Record one liveness poll. An unhealthy session is discarded whole:
    /// the state machine returns to disconnected and every worker stops.
    pub fn poll_result(&mut self, healthy: bool)
        requires
            old(self)@.state == SessionState::Subscribed,
        ensures
            final(self)@ == poll_step(old(self)@, healthy),
            !healthy ==> final(self)@.state == SessionState::Disconnected
                && final(self)@.monitored.len() == 0,
    {
        if !healthy {
            self.state = SessionState::Disconnected;
            self.monitored = Vec::new();
            proof {
                assert(self@.monitored =~= Seq::<Seq<char>>::empty());
            }
        }
    }
}

/// The reported type of a field value update, as far as the coercion policy
/// distinguishes it: the three accepted numeric types, and everything else.
#[derive(Clone, Copy, Debug, PartialEq, Eq, Structural)]
pub enum PointKind {
    Float,
    Double,
    Int64,
    Other,
}

/// Whether the coercion policy accepts a reported value type: single or
/// double precision floating point and 64-bit integers are forwarded; any
/// other type is logged and dropped — a documented policy, not an omission.
pub fn accepts_point_kind(kind: PointKind) -> (r: bool)
    ensures
        r == (kind == PointKind::Float || kind == PointKind::Double || kind == PointKind::Int64),
{
    matches!(kind, PointKind::Float | PointKind::Double | PointKind::Int64)
}

/// One worker update decision: an update for `tag` of reported type `kind`
/// is forwarded under the mapped external equipment id exactly when the
/// type is accepted and the mapping knows the tag; otherwise it is dropped.
pub fn update_key(map: &crate::tagmap::TagMap, tag: &String, kind: PointKind) -> (r: Option<
    String,
>)
    ensures
        match r {
            Some(ext) => (kind == PointKind::Float || kind == PointKind::Double || kind
                == PointKind::Int64) && crate::tagmap::spec_lookup(map@, tag@) == Some(ext@),
            None => !(kind == PointKind::Float || kind == PointKind::Double || kind
                == PointKind::Int64) || crate::tagmap::spec_lookup(map@, tag@) is None,
        },
{
    if accepts_point_kind(kind) {
        map.lookup(tag)
    } else {
        None
    }
}

/// Partial-failure isolation: whenever a tag's registration is reported
/// successful, that tag has a worker in the resulting session, however many
/// of the other registrations failed.
pub proof fn lemma_registration_isolated(outcomes: Seq<(Seq<char>, bool)>, k: int)
    requires
        0 <= k < outcomes.len(),
        outcomes[k].1,
    ensures
        successful_tags(outcomes).contains(outcomes[k].0),
    decreases outcomes.len(),
{
    if k == outcomes.len() - 1 {
        let s = successful_tags(outcomes);
        assert(s.last() == outcomes[k].0);
        assert(s.contains(outcomes[k].0));
    } else {
        lemma_registration_isolated(outcomes.drop_last(), k);
        let rest = successful_tags(outcomes.drop_last());
        assert(outcomes.drop_last()[k] == outcomes[k]);
        if outcomes.last().1 {
            let found = choose|j: int| 0 <= j < rest.len() && rest[j] == outcomes[k].0;
            assert(successful_tags(outcomes)[found] == outcomes[k].0);
        }
    }
}

/// A failed tag never appears among the workers when tags are distinct: only
/// the successful outcomes are monitored.
pub proof fn lemma_failed_tag_not_monitored(outcomes: Seq<(Seq<char>, bool)>, k: int)
    requires
        0 <= k < outcomes.len(),
        !outcomes[k].1,
        forall|i: int, j: int|
            0 <= i < j < outcomes.len() ==> (#[trigger] outcomes[i].0) != (#[trigger] outcomes[j].0),
    ensures
        !successful_tags(outcomes).contains(outcomes[k].0),
    decreases outcomes.len(),
{
    let rest = outcomes.drop_last();
    if k == outcomes.len() - 1 {
        assert forall|j: int| 0 <= j < rest.len() implies (#[trigger] rest[j].0) != outcomes[k].0 by {
            assert(outcomes[j].0 != outcomes[k].0);
        }
        lemma_successful_tags_only_from(outcomes.drop_last(), outcomes[k].0);
    } else {
        lemma_failed_tag_not_monitored(rest, k);
        assert(rest[k] == outcomes[k]);
        if outcomes.last().1 {
            assert(outcomes.last().0 != outcomes[k].0);
            let s = successful_tags(outcomes);
            if s.contains(outcomes[k].0) {
                let found = choose|j: int| 0 <= j < s.len() && s[j] == outcomes[k].0;
                if found < s.len() - 1 {
                    assert(successful_tags(rest).contains(outcomes[k].0));
                }
            }
        }
    }
}

/// Every monitored tag comes from some outcome: a tag unlike every reported
/// tag is never monitored.
proof fn lemma_successful_tags_only_from(outcomes: Seq<(Seq<char>, bool)>, tag: Seq<char>)
    requires
        forall|j: int| 0 <= j < outcomes.len() ==> (#[trigger] outcomes[j].0) != tag,
    ensures
        !successful_tags(outcomes).contains(tag),
    decreases outcomes.len(),
{
    if outcomes.len() > 0 {
        let rest = outcomes.drop_last();
        assert forall|j: int| 0 <= j < rest.len() implies (#[trigger] rest[j].0) != tag by {
            assert(outcomes[j].0 != tag);
        }
        lemma_successful_tags_only_from(rest, tag);
        if outcomes.last().1 {
            let s = successful_tags(outcomes);
            if s.contains(tag) {
                let found = choose|j: int| 0 <= j < s.len() && s[j] == tag;
                if found < s.len() - 1 {
                    assert(successful_tags(rest).contains(tag));
                }
            }
        }
    }
}

/// Reconnection recovers exactly once: the poll that finds the session
/// unhealthy stops every worker of that session, and the next successful
/// connect–subscribe–register pass establishes one fresh session whose
/// workers are exactly the newly registered tags.
pub proof fn lemma_session_loss_recovers_once(m: SessionModel, outcomes: Seq<(Seq<char>, bool)>)
    requires
        m.state == SessionState::Subscribed,
    ensures
        ({
            let down = poll_step(m, false);
            &&& down.state == SessionState::Disconnected
            &&& down.monitored.len() == 0
            &&& ({
                let up = register_step(
                    subscribe_step(connect_step(begin_connect_step(down), true), true),
                    outcomes,
                );
                up.state == SessionState::Subscribed && up.monitored == successful_tags(outcomes)
            })
        }),
{
}

} // verus!
