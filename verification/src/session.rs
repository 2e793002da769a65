//! The session controller: the running flag, the supervised child
//! process, the worker queues and the endpoint table, with one step
//! function per loop.
//!
//! Three loops run per session: the control router and one stream
//! worker per media kind.  Each loop iteration is one call of a step
//! function here; the shell performs the returned actions between
//! iterations.  All three step functions exit without touching
//! anything once the running flag is cleared, so every loop observes a
//! teardown within one poll interval.

use vstd::prelude::*;
use vstd::string::*;
use crate::actions::{
    action_views, fatal_count, fatal_count_one, interrupt_count, interrupt_count_one,
    lemma_counts_pair, lemma_counts_single, mutates_endpoints, HostAction, HostActionModel,
};
use crate::credentials::{Credentials, CredentialsModel};
use crate::errors::SessionError;
use crate::graph::{is_live, wf, EndpointModel, EndpointTable};
use crate::media::{ControlMessage, ControlMessageModel, MediaKind, StreamEvent, StreamEventModel};
use crate::names::names_endpoint;
use crate::router::{deliver_model, DualQueue};
use crate::worker::{handle_stream_event, worker_actions, worker_table_step};

verus! {

/// What a loop should do after one iteration.
#[derive(Clone, Copy, Debug, PartialEq, Eq, Structural)]
pub enum LoopDirective {
    /// The loop is done; its thread exits.
    Exit,
    /// Work was done; poll again at once.
    Continue,
    /// Nothing was pending; sleep one poll interval, then poll again.
    Idle,
}

/// The controller of one session.
pub struct SessionController {
    pub credentials: Credentials,
    pub running: bool,
    pub child_present: bool,
    pub fatal_reported: bool,
    pub queues: DualQueue,
    pub graph: EndpointTable,
}

/// The mathematical value of a [`SessionController`].
pub struct SessionModel {
    pub credentials: CredentialsModel,
    pub running: bool,
    pub child_present: bool,
    pub fatal_reported: bool,
    pub audio_queue: Seq<StreamEventModel>,
    pub video_queue: Seq<StreamEventModel>,
    pub graph: Seq<EndpointModel>,
}

impl View for SessionController {
    type V = SessionModel;

    open spec fn view(&self) -> SessionModel {
        SessionModel {
            credentials: self.credentials@,
            running: self.running,
            child_present: self.child_present,
            fatal_reported: self.fatal_reported,
            audio_queue: self.queues@.0,
            video_queue: self.queues@.1,
            graph: self.graph@,
        }
    }
}

/// The queue the worker of kind `kind` reads.
pub open spec fn queue_for(s: SessionModel, kind: MediaKind) -> Seq<StreamEventModel> {
    match kind {
        MediaKind::Audio => s.audio_queue,
        MediaKind::Video => s.video_queue,
    }
}

/// The session after the worker of `kind` takes its oldest event.
pub open spec fn pop_queue(s: SessionModel, kind: MediaKind) -> SessionModel {
    match kind {
        MediaKind::Audio => SessionModel { audio_queue: s.audio_queue.drop_first(), ..s },
        MediaKind::Video => SessionModel { video_queue: s.video_queue.drop_first(), ..s },
    }
}

/// The session after the critical-error path: the running flag is
/// cleared first, so every loop drains, the child handle is taken, and
/// the fatal report is marked surfaced.
pub open spec fn fatal_model(s: SessionModel) -> SessionModel {
    SessionModel { running: false, child_present: false, fatal_reported: true, ..s }
}

/// What the critical-error path asks of the shell: interrupt the child
/// if one is still held, and surface the session's fatal notification
/// if none has been surfaced yet.
pub open spec fn fatal_actions(s: SessionModel, reason: Seq<char>) -> Seq<HostActionModel> {
    (if s.child_present {
        seq![HostActionModel::InterruptChild]
    } else {
        Seq::<HostActionModel>::empty()
    }) + (if !s.fatal_reported {
        seq![HostActionModel::ReportFatal { reason }]
    } else {
        Seq::<HostActionModel>::empty()
    })
}

/// The session after a teardown: the running flag is cleared first,
/// then the child handle is taken.
pub open spec fn teardown_model(s: SessionModel) -> SessionModel {
    SessionModel { running: false, child_present: false, ..s }
}

/// What a teardown asks of the shell: interrupt the child if one is
/// still held.
pub open spec fn teardown_actions(s: SessionModel) -> Seq<HostActionModel> {
    if s.child_present {
        seq![HostActionModel::InterruptChild]
    } else {
        Seq::<HostActionModel>::empty()
    }
}

/// The worker of `kind` can handle `e` without failing construction:
/// an added endpoint needs a fresh transport path that ends in a
/// usable name.
pub open spec fn event_acceptable(
    g: Seq<EndpointModel>,
    kind: MediaKind,
    e: StreamEventModel,
) -> bool {
    e matches StreamEventModel::EndpointAdded { transport_path, .. } ==> (!is_live(
        g,
        kind,
        transport_path,
    ) && names_endpoint(transport_path))
}

/// The reason the critical-error path reports when an endpoint cannot
/// be built.
pub open spec fn construction_failure_reason() -> Seq<char> {
    "endpoint construction failed"@
}

/// An incoming location carries a target stream filter.
pub open spec fn filter_requested(c: CredentialsModel) -> bool {
    c.stream_id matches Some(id) && id.len() > 0
}

/// A new location collides with the already-fixed stream filter.
pub open spec fn location_conflict(current: CredentialsModel, incoming: CredentialsModel) -> bool {
    filter_requested(incoming) && current.stream_id is Some
}

/// The credentials after a location change: the incoming ones, with
/// the target stream filter fixed by whoever set it first.
pub open spec fn merged_credentials(
    current: CredentialsModel,
    incoming: CredentialsModel,
) -> CredentialsModel {
    CredentialsModel {
        stream_id: if filter_requested(incoming) {
            incoming.stream_id
        } else {
            current.stream_id
        },
        ..incoming
    }
}

/// What the control router's loop does for one poll: exit at once when
/// the running flag is cleared; otherwise sleep on an empty poll, exit
/// through the critical-error path on a fatal report, and keep going
/// after delivering a stream event.
pub open spec fn router_directive(s: SessionModel, poll: Option<ControlMessageModel>) -> LoopDirective {
    if !s.running {
        LoopDirective::Exit
    } else {
        match poll {
            None => LoopDirective::Idle,
            Some(ControlMessageModel::FatalError { .. }) => LoopDirective::Exit,
            Some(ControlMessageModel::Stream { .. }) => LoopDirective::Continue,
        }
    }
}

/// The session after one poll of the control router.
pub open spec fn router_next(s: SessionModel, poll: Option<ControlMessageModel>) -> SessionModel {
    if !s.running {
        s
    } else {
        match poll {
            None => s,
            Some(ControlMessageModel::FatalError { .. }) => fatal_model(s),
            Some(ControlMessageModel::Stream { kind, event }) => {
                let queues = deliver_model((s.audio_queue, s.video_queue), kind, event);
                SessionModel { audio_queue: queues.0, video_queue: queues.1, ..s }
            },
        }
    }
}

/// What one poll of the control router asks of the shell.
pub open spec fn router_out(s: SessionModel, poll: Option<ControlMessageModel>) -> Seq<
    HostActionModel,
> {
    if !s.running {
        Seq::<HostActionModel>::empty()
    } else {
        match poll {
            Some(ControlMessageModel::FatalError { reason }) => fatal_actions(s, reason),
            _ => Seq::<HostActionModel>::empty(),
        }
    }
}

/// What the worker of `kind` does for one poll of its queue.
pub open spec fn worker_directive(s: SessionModel, kind: MediaKind) -> LoopDirective {
    if !s.running {
        LoopDirective::Exit
    } else if queue_for(s, kind).len() == 0 {
        LoopDirective::Idle
    } else {
        LoopDirective::Continue
    }
}

/// The session after one poll of the worker of `kind`: an acceptable
/// event updates the endpoint table; one that cannot be built runs the
/// critical-error path.
pub open spec fn worker_next(s: SessionModel, kind: MediaKind) -> SessionModel {
    if !s.running || queue_for(s, kind).len() == 0 {
        s
    } else {
        let e = queue_for(s, kind).first();
        let popped = pop_queue(s, kind);
        if event_acceptable(s.graph, kind, e) {
            SessionModel { graph: worker_table_step(s.graph, kind, e), ..popped }
        } else {
            fatal_model(popped)
        }
    }
}

/// What one poll of the worker of `kind` asks of the shell.
pub open spec fn worker_out(s: SessionModel, kind: MediaKind) -> Seq<HostActionModel> {
    if !s.running || queue_for(s, kind).len() == 0 {
        Seq::<HostActionModel>::empty()
    } else {
        let e = queue_for(s, kind).first();
        if event_acceptable(s.graph, kind, e) {
            worker_actions(s.graph, kind, e)
        } else {
            fatal_actions(s, construction_failure_reason())
        }
    }
}

/// The view of a polled wire message.
pub open spec fn poll_view(poll: Option<ControlMessage>) -> Option<ControlMessageModel> {
    match poll {
        Some(m) => Some(m@),
        None => None,
    }
}

impl SessionController {
    /// A controller for a session that has not been launched yet.
    pub fn new(credentials: Credentials) -> (s: SessionController)
        ensures
            s@ == (SessionModel {
                credentials: credentials@,
                running: false,
                child_present: false,
                fatal_reported: false,
                audio_queue: Seq::<StreamEventModel>::empty(),
                video_queue: Seq::<StreamEventModel>::empty(),
                graph: Seq::<EndpointModel>::empty(),
            }),
            wf(s@.graph),
    {
        let s = SessionController {
            credentials,
            running: false,
            child_present: false,
            fatal_reported: false,
            queues: DualQueue::new(),
            graph: EndpointTable::new(),
        };
        s
    }

    /// Adopt a newly resolved location.  The target stream filter is
    /// fixed by whoever first sets one: a location that carries a
    /// filter while one is already fixed is rejected and changes
    /// nothing.
    pub fn set_location(&mut self, credentials: Credentials) -> (r: Result<(), SessionError>)
        ensures
            location_conflict(old(self)@.credentials, credentials@) ==> (r == Result::<
                (),
                SessionError,
            >::Err(SessionError::InvalidState) && final(self)@ == old(self)@),
            !location_conflict(old(self)@.credentials, credentials@) ==> (r is Ok && final(self)@
                == (SessionModel {
                credentials: merged_credentials(old(self)@.credentials, credentials@),
                ..old(self)@
            })),
    {
        let requested = match &credentials.stream_id {
            Some(id) => !id.as_str().is_empty(),
            None => false,
        };
        if requested && self.credentials.stream_id.is_some() {
            return Err(SessionError::InvalidState);
        }
        let kept = self.credentials.stream_id.take();
        let mut incoming = credentials;
        if !requested {
            incoming.stream_id = kept;
        }
        self.credentials = incoming;
        Ok(())
    }

    /// Whether a worker process should be launched now: the
    /// credentials are complete and no child is supervised yet.
    pub fn ready_to_launch(&self) -> (b: bool)
        ensures
            b == (self@.credentials.is_complete() && !self@.child_present),
    {
        self.credentials.is_complete() && !self.child_present
    }

    /// Adopt the just-launched worker process: the session now runs,
    /// and the controller holds the one child handle of the session.
    pub fn on_worker_launched(&mut self)
        requires
            !old(self)@.child_present,
        ensures
            final(self)@ == (SessionModel { running: true, child_present: true, ..old(self)@ }),
    {
        self.running = true;
        self.child_present = true;
    }

    /// The shared critical-error path: clear the running flag so all
    /// three loops drain, take and interrupt the child process, and
    /// surface the session's single fatal notification.
    pub fn critical_error(&mut self, reason: String) -> (actions: Vec<HostAction>)
        ensures
            final(self)@ == fatal_model(old(self)@),
            action_views(actions@) == fatal_actions(old(self)@, reason@),
    {
        self.running = false;
        let mut actions: Vec<HostAction> = Vec::new();
        if self.child_present {
            self.child_present = false;
            actions.push(HostAction::InterruptChild);
        }
        if !self.fatal_reported {
            self.fatal_reported = true;
            actions.push(HostAction::ReportFatal { reason });
        }
        proof {
            assert(action_views(actions@) =~= fatal_actions(old(self)@, reason@));
        }
        actions
    }

    /// Tear the session down: clear the running flag first, so the
    /// loops exit within one poll interval, then take and interrupt
    /// the child process.  Idempotent: with nothing active it does
    /// nothing.
    pub fn teardown(&mut self) -> (actions: Vec<HostAction>)
        ensures
            final(self)@ == teardown_model(old(self)@),
            action_views(actions@) == teardown_actions(old(self)@),
    {
        self.running = false;
        let mut actions: Vec<HostAction> = Vec::new();
        if self.child_present {
            self.child_present = false;
            actions.push(HostAction::InterruptChild);
        }
        proof {
            assert(action_views(actions@) =~= teardown_actions(old(self)@));
        }
        actions
    }

    /// One iteration of the control router's loop, handed the result
    /// of one non-blocking receive.  Exits at once, touching nothing,
    /// when the running flag is cleared; escalates a fatal report and
    /// exits; delivers a stream event to its own kind's queue.
    pub fn router_step(&mut self, poll: Option<ControlMessage>) -> (out: (
        LoopDirective,
        Vec<HostAction>,
    ))
        ensures
            out.0 == router_directive(old(self)@, poll_view(poll)),
            final(self)@ == router_next(old(self)@, poll_view(poll)),
            action_views(out.1@) == router_out(old(self)@, poll_view(poll)),
    {
        if !self.running {
            let actions: Vec<HostAction> = Vec::new();
            proof {
                assert(action_views(actions@) =~= Seq::<HostActionModel>::empty());
            }
            return (LoopDirective::Exit, actions);
        }
        match poll {
            None => {
                let actions: Vec<HostAction> = Vec::new();
                proof {
                    assert(action_views(actions@) =~= Seq::<HostActionModel>::empty());
                }
                (LoopDirective::Idle, actions)
            },
            Some(ControlMessage::FatalError { reason }) => {
                let actions = self.critical_error(reason);
                (LoopDirective::Exit, actions)
            },
            Some(ControlMessage::Stream { kind, event }) => {
                self.queues.push_event(kind, event);
                let actions: Vec<HostAction> = Vec::new();
                proof {
                    assert(action_views(actions@) =~= Seq::<HostActionModel>::empty());
                }
                (LoopDirective::Continue, actions)
            },
        }
    }

    /// One iteration of the stream worker of `kind`.  Exits at once,
    /// touching nothing, when the running flag is cleared; sleeps when
    /// its queue is empty; otherwise handles the oldest queued event,
    /// escalating through the critical-error path an addition whose
    /// endpoint cannot be built.
    pub fn worker_step(&mut self, kind: MediaKind) -> (out: (LoopDirective, Vec<HostAction>))
        requires
            wf(old(self)@.graph),
        ensures
            wf(final(self)@.graph),
            out.0 == worker_directive(old(self)@, kind),
            final(self)@ == worker_next(old(self)@, kind),
            action_views(out.1@) == worker_out(old(self)@, kind),
    {
        if !self.running {
            let actions: Vec<HostAction> = Vec::new();
            proof {
                assert(action_views(actions@) =~= Seq::<HostActionModel>::empty());
            }
            return (LoopDirective::Exit, actions);
        }
        match self.queues.pop_event(kind) {
            None => {
                let actions: Vec<HostAction> = Vec::new();
                proof {
                    assert(action_views(actions@) =~= Seq::<HostActionModel>::empty());
                }
                (LoopDirective::Idle, actions)
            },
            Some(event) => {
                let acceptable = match &event {
                    StreamEvent::EndpointAdded { transport_path, .. } => {
                        let fresh = self.graph.find(kind, transport_path).is_none();
                        let name = crate::names::endpoint_name_of(transport_path.as_str());
                        fresh && !name.as_str().is_empty()
                    },
                    _ => true,
                };
                if acceptable {
                    let actions = handle_stream_event(&mut self.graph, kind, event);
                    (LoopDirective::Continue, actions)
                } else {
                    let actions = self.critical_error(
                        String::from_str("endpoint construction failed"),
                    );
                    (LoopDirective::Continue, actions)
                }
            },
        }
    }
}

/// Once the running flag is cleared, every loop exits at its next
/// poll, touches no state, performs no action, and processes no
/// queued message.
pub proof fn lemma_cleared_flag_stops_loops(
    s: SessionModel,
    poll: Option<ControlMessageModel>,
    kind: MediaKind,
)
    requires
        !s.running,
    ensures
        router_directive(s, poll) == LoopDirective::Exit,
        router_next(s, poll) == s,
        router_out(s, poll) == Seq::<HostActionModel>::empty(),
        worker_directive(s, kind) == LoopDirective::Exit,
        worker_next(s, kind) == s,
        worker_out(s, kind) == Seq::<HostActionModel>::empty(),
{
}

/// One poll of any of the session's three loops: the control router
/// with what its receive returned, or a stream worker on its queue.
pub enum SessionPoll {
    Router(Option<ControlMessageModel>),
    Worker(MediaKind),
}

/// The session after one poll of one loop.
pub open spec fn poll_next(s: SessionModel, p: SessionPoll) -> SessionModel {
    match p {
        SessionPoll::Router(m) => router_next(s, m),
        SessionPoll::Worker(kind) => worker_next(s, kind),
    }
}

/// What one poll of one loop asks of the shell.
pub open spec fn poll_out(s: SessionModel, p: SessionPoll) -> Seq<HostActionModel> {
    match p {
        SessionPoll::Router(m) => router_out(s, m),
        SessionPoll::Worker(kind) => worker_out(s, kind),
    }
}

/// The session after the loops poll in any interleaving.
pub open spec fn run_polls(s: SessionModel, ps: Seq<SessionPoll>) -> SessionModel
    decreases ps.len(),
{
    if ps.len() == 0 {
        s
    } else {
        run_polls(poll_next(s, ps.first()), ps.drop_first())
    }
}

/// Once the running flag is cleared — by a teardown or by the
/// critical-error path — no later poll of any loop, in any
/// interleaving, changes the session or asks anything of the shell:
/// queued messages are never processed and no endpoint is ever
/// mutated again.
pub proof fn lemma_stopped_session_stays_stopped(s: SessionModel, ps: Seq<SessionPoll>)
    requires
        !s.running,
    ensures
        run_polls(s, ps) == s,
        forall|i: int|
            0 <= i < ps.len() ==> poll_out(run_polls(s, ps.take(i)), #[trigger] ps[i])
                == Seq::<HostActionModel>::empty(),
    decreases ps.len(),
{
    if ps.len() > 0 {
        lemma_stopped_session_stays_stopped(s, ps.drop_first());
        assert forall|i: int| 0 <= i < ps.len() implies poll_out(
            run_polls(s, ps.take(i)),
            #[trigger] ps[i],
        ) == Seq::<HostActionModel>::empty() by {
            if i == 0 {
                assert(ps.take(0) =~= Seq::<SessionPoll>::empty());
            } else {
                assert(ps.take(i).first() == ps[0]);
                assert(ps.take(i).drop_first() =~= ps.drop_first().take(i - 1));
                assert(ps.drop_first()[i - 1] == ps[i]);
            }
        }
    }
}

/// The critical-error path interrupts the child exactly when one is
/// still held, surfaces exactly one fatal notification per session,
/// mutates no endpoint, and leaves a session in which every loop
/// exits and no further action is ever produced.
pub proof fn lemma_fatal_error_tears_down(
    s: SessionModel,
    reason: Seq<char>,
    later_reason: Seq<char>,
    kind: MediaKind,
)
    ensures
        !fatal_model(s).running,
        !fatal_model(s).child_present,
        fatal_model(s).fatal_reported,
        fatal_model(s).graph == s.graph,
        interrupt_count(fatal_actions(s, reason)) == (if s.child_present {
            1nat
        } else {
            0nat
        }),
        fatal_count(fatal_actions(s, reason)) == (if s.fatal_reported {
            0nat
        } else {
            1nat
        }),
        !mutates_endpoints(fatal_actions(s, reason)),
        fatal_count(fatal_actions(fatal_model(s), later_reason)) == 0,
        interrupt_count(fatal_actions(fatal_model(s), later_reason)) == 0,
        interrupt_count(teardown_actions(fatal_model(s))) == 0,
        worker_out(fatal_model(s), kind) == Seq::<HostActionModel>::empty(),
        worker_next(fatal_model(s), kind) == fatal_model(s),
{
    lemma_fatal_actions_counts(s, reason);
    lemma_fatal_actions_counts(fatal_model(s), later_reason);
    assert(teardown_actions(fatal_model(s)) =~= Seq::<HostActionModel>::empty());
    assert(interrupt_count(Seq::<HostActionModel>::empty()) == 0);
}

/// The exact shape of the critical-error path's actions.
proof fn lemma_fatal_actions_counts(s: SessionModel, reason: Seq<char>)
    ensures
        interrupt_count(fatal_actions(s, reason)) == (if s.child_present {
            1nat
        } else {
            0nat
        }),
        fatal_count(fatal_actions(s, reason)) == (if s.fatal_reported {
            0nat
        } else {
            1nat
        }),
        !mutates_endpoints(fatal_actions(s, reason)),
{
    let acts = fatal_actions(s, reason);
    if s.child_present {
        if !s.fatal_reported {
            assert(acts =~= seq![
                HostActionModel::InterruptChild,
                HostActionModel::ReportFatal { reason },
            ]);
            lemma_counts_pair(
                HostActionModel::InterruptChild,
                HostActionModel::ReportFatal { reason },
            );
        } else {
            assert(acts =~= seq![HostActionModel::InterruptChild]);
            lemma_counts_single(HostActionModel::InterruptChild);
        }
    } else {
        if !s.fatal_reported {
            assert(acts =~= seq![HostActionModel::ReportFatal { reason }]);
            lemma_counts_single(HostActionModel::ReportFatal { reason });
        } else {
            assert(acts =~= Seq::<HostActionModel>::empty());
            assert(fatal_count(acts) == 0);
            assert(interrupt_count(acts) == 0);
        }
    }
}

/// Tearing down an already-torn-down session does nothing.
pub proof fn lemma_teardown_idempotent(s: SessionModel)
    ensures
        teardown_model(teardown_model(s)) == teardown_model(s),
        teardown_actions(teardown_model(s)) == Seq::<HostActionModel>::empty(),
{
}

} // verus!
