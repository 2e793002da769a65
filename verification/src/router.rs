//! The control router's demultiplexing: each wire message is either
//! escalated as session-fatal or delivered, unchanged and in order, to
//! the queue of the worker of its own media kind.

use vstd::prelude::*;
use crate::media::{ControlMessage, ControlMessageModel, MediaKind, StreamEvent, StreamEventModel};

verus! {

/// What the router does with one wire message.
pub enum RouteDecision {
    /// The message is session-fatal: run the critical-error path.
    Escalate { reason: String },
    /// Forward the event to the worker of kind `kind`.
    Deliver { kind: MediaKind, event: StreamEvent },
}

/// The mathematical value of a [`RouteDecision`].
pub enum RouteDecisionModel {
    Escalate { reason: Seq<char> },
    Deliver { kind: MediaKind, event: StreamEventModel },
}

impl View for RouteDecision {
    type V = RouteDecisionModel;

    open spec fn view(&self) -> RouteDecisionModel {
        match self {
            RouteDecision::Escalate { reason } => RouteDecisionModel::Escalate { reason: reason@ },
            RouteDecision::Deliver { kind, event } => RouteDecisionModel::Deliver {
                kind: *kind,
                event: event@,
            },
        }
    }
}

/// Where one wire message goes: a fatal report to the critical-error
/// path, a stream event to its own kind's worker.
pub open spec fn route_model(m: ControlMessageModel) -> RouteDecisionModel {
    match m {
        ControlMessageModel::FatalError { reason } => RouteDecisionModel::Escalate { reason },
        ControlMessageModel::Stream { kind, event } => RouteDecisionModel::Deliver { kind, event },
    }
}

/// Decide where one wire message goes.
pub fn route(msg: ControlMessage) -> (d: RouteDecision)
    ensures
        d@ == route_model(msg@),
{
    match msg {
        ControlMessage::FatalError { reason } => RouteDecision::Escalate { reason },
        ControlMessage::Stream { kind, event } => RouteDecision::Deliver { kind, event },
    }
}

/// The two worker queues, one per media kind, in arrival order.
pub struct DualQueue {
    pub audio: Vec<StreamEvent>,
    pub video: Vec<StreamEvent>,
}

/// The views of a queue's events.
pub open spec fn event_views(v: Seq<StreamEvent>) -> Seq<StreamEventModel> {
    v.map_values(|e: StreamEvent| e@)
}

impl View for DualQueue {
    type V = (Seq<StreamEventModel>, Seq<StreamEventModel>);

    open spec fn view(&self) -> (Seq<StreamEventModel>, Seq<StreamEventModel>) {
        (event_views(self.audio@), event_views(self.video@))
    }
}

/// The queues after one event is delivered to the worker of `kind`:
/// that kind's queue grows at the back, the other kind's queue is
/// untouched.
pub open spec fn deliver_model(
    q: (Seq<StreamEventModel>, Seq<StreamEventModel>),
    kind: MediaKind,
    e: StreamEventModel,
) -> (Seq<StreamEventModel>, Seq<StreamEventModel>) {
    match kind {
        MediaKind::Audio => (q.0.push(e), q.1),
        MediaKind::Video => (q.0, q.1.push(e)),
    }
}

impl DualQueue {
    /// Two empty queues.
    pub fn new() -> (q: DualQueue)
        ensures
            q@.0 == Seq::<StreamEventModel>::empty(),
            q@.1 == Seq::<StreamEventModel>::empty(),
    {
        let q = DualQueue { audio: Vec::new(), video: Vec::new() };
        proof {
            assert(q@.0 =~= Seq::<StreamEventModel>::empty());
            assert(q@.1 =~= Seq::<StreamEventModel>::empty());
        }
        q
    }

    /// Deliver one event to the queue of the worker of `kind`.
    pub fn push_event(&mut self, kind: MediaKind, event: StreamEvent)
        ensures
            final(self)@ == deliver_model(old(self)@, kind, event@),
    {
        let ghost q0 = self@;
        match kind {
            MediaKind::Audio => {
                self.audio.push(event);
                proof {
                    assert(self@.0 =~= q0.0.push(event@));
                    assert(self@.1 =~= q0.1);
                }
            },
            MediaKind::Video => {
                self.video.push(event);
                proof {
                    assert(self@.1 =~= q0.1.push(event@));
                    assert(self@.0 =~= q0.0);
                }
            },
        }
    }

    /// Take the oldest event queued for the worker of `kind`, if any.
    pub fn pop_event(&mut self, kind: MediaKind) -> (r: Option<StreamEvent>)
        ensures
            kind == MediaKind::Audio && old(self)@.0.len() == 0 ==> (r is None && final(self)@
                == old(self)@),
            kind == MediaKind::Video && old(self)@.1.len() == 0 ==> (r is None && final(self)@
                == old(self)@),
            kind == MediaKind::Audio && old(self)@.0.len() > 0 ==> (r matches Some(e) && e@ == old(
                self,
            )@.0.first() && final(self)@.0 == old(self)@.0.drop_first() && final(self)@.1 == old(
                self,
            )@.1),
            kind == MediaKind::Video && old(self)@.1.len() > 0 ==> (r matches Some(e) && e@ == old(
                self,
            )@.1.first() && final(self)@.1 == old(self)@.1.drop_first() && final(self)@.0 == old(
                self,
            )@.0),
    {
        let ghost q0 = self@;
        match kind {
            MediaKind::Audio => {
                if self.audio.len() == 0 {
                    None
                } else {
                    let e = self.audio.remove(0);
                    proof {
                        assert(self@.0 =~= q0.0.drop_first());
                        assert(self@.1 =~= q0.1);
                    }
                    Some(e)
                }
            },
            MediaKind::Video => {
                if self.video.len() == 0 {
                    None
                } else {
                    let e = self.video.remove(0);
                    proof {
                        assert(self@.1 =~= q0.1.drop_first());
                        assert(self@.0 =~= q0.0);
                    }
                    Some(e)
                }
            },
        }
    }
}

/// The stream events among `msgs` tagged with kind `kind`, in arrival
/// order.
pub open spec fn events_for(msgs: Seq<ControlMessageModel>, kind: MediaKind) -> Seq<
    StreamEventModel,
>
    decreases msgs.len(),
{
    if msgs.len() == 0 {
        Seq::<StreamEventModel>::empty()
    } else {
        (match msgs.first() {
            ControlMessageModel::Stream { kind: k, event } => if k == kind {
                seq![event]
            } else {
                Seq::<StreamEventModel>::empty()
            },
            ControlMessageModel::FatalError { .. } => Seq::<StreamEventModel>::empty(),
        }) + events_for(msgs.drop_first(), kind)
    }
}

/// The queues after the router delivers each stream message of `msgs`
/// in turn.
pub open spec fn route_all(
    q: (Seq<StreamEventModel>, Seq<StreamEventModel>),
    msgs: Seq<ControlMessageModel>,
) -> (Seq<StreamEventModel>, Seq<StreamEventModel>)
    decreases msgs.len(),
{
    if msgs.len() == 0 {
        q
    } else {
        match msgs.first() {
            ControlMessageModel::Stream { kind, event } => route_all(
                deliver_model(q, kind, event),
                msgs.drop_first(),
            ),
            ControlMessageModel::FatalError { .. } => route_all(q, msgs.drop_first()),
        }
    }
}

/// The routing law: after any message sequence is routed, each worker
/// queue has grown by exactly the stream events of its own kind, in
/// arrival order — no event is delivered to the other kind's worker,
/// and no reordering happens within a kind.
pub proof fn lemma_routing_partitions(
    q: (Seq<StreamEventModel>, Seq<StreamEventModel>),
    msgs: Seq<ControlMessageModel>,
)
    ensures
        route_all(q, msgs).0 == q.0 + events_for(msgs, MediaKind::Audio),
        route_all(q, msgs).1 == q.1 + events_for(msgs, MediaKind::Video),
    decreases msgs.len(),
{
    if msgs.len() == 0 {
        assert(q.0 + events_for(msgs, MediaKind::Audio) =~= q.0);
        assert(q.1 + events_for(msgs, MediaKind::Video) =~= q.1);
    } else {
        match msgs.first() {
            ControlMessageModel::Stream { kind, event } => {
                let q1 = deliver_model(q, kind, event);
                lemma_routing_partitions(q1, msgs.drop_first());
                match kind {
                    MediaKind::Audio => {
                        assert(q1.0 + events_for(msgs.drop_first(), MediaKind::Audio) =~= q.0
                            + events_for(msgs, MediaKind::Audio));
                        assert(q1.1 + events_for(msgs.drop_first(), MediaKind::Video) =~= q.1
                            + events_for(msgs, MediaKind::Video));
                    },
                    MediaKind::Video => {
                        assert(q1.0 + events_for(msgs.drop_first(), MediaKind::Audio) =~= q.0
                            + events_for(msgs, MediaKind::Audio));
                        assert(q1.1 + events_for(msgs.drop_first(), MediaKind::Video) =~= q.1
                            + events_for(msgs, MediaKind::Video));
                    },
                }
            },
            ControlMessageModel::FatalError { .. } => {
                lemma_routing_partitions(q, msgs.drop_first());
                assert(events_for(msgs, MediaKind::Audio) =~= events_for(
                    msgs.drop_first(),
                    MediaKind::Audio,
                ));
                assert(events_for(msgs, MediaKind::Video) =~= events_for(
                    msgs.drop_first(),
                    MediaKind::Video,
                ));
            },
        }
    }
}

} // verus!
