//! The stream worker: one per media kind, translating lifecycle events
//! into endpoint-table changes and pipeline-host actions.

use vstd::prelude::*;
use crate::actions::{
    action_views, ack_count, lemma_ack_count_pair, lemma_ack_count_single, HostAction,
    HostActionModel,
};
use crate::graph::{
    first_live, is_live, live_count, pad_is_live, remove_first, update_first_pad, wf,
    EndpointModel, EndpointTable,
};
use crate::graph::{
    lemma_count_push, lemma_count_remove_first, lemma_count_update_first_pad,
    lemma_is_live_iff_count_positive, lemma_remove_first_not_live, lemma_update_first_pad_fields,
    lemma_wf_count_at_most_one, lemma_wf_push, lemma_wf_remove_first,
};
use crate::media::{AckToken, MediaKind, StreamEvent, StreamEventModel};
use crate::names::{endpoint_name_of, last_component, names_endpoint};

verus! {

/// The endpoint a worker of kind `kind` records for an added stream.
pub open spec fn added_endpoint(
    kind: MediaKind,
    transport_path: Seq<char>,
    format_descriptor: Seq<char>,
    pad_name: Seq<char>,
) -> EndpointModel {
    EndpointModel {
        kind,
        transport_path,
        endpoint_name: last_component(transport_path),
        pad_name,
        format_descriptor,
    }
}

/// The endpoint table after the worker of kind `kind` handles `e`: an
/// addition records the new endpoint, a removal drops the path's
/// endpoint if one is live, and a format change renegotiates the pad's
/// endpoint on the video worker while the audio worker, whose format is
/// fixed for the session, ignores it.
pub open spec fn worker_table_step(
    t: Seq<EndpointModel>,
    kind: MediaKind,
    e: StreamEventModel,
) -> Seq<EndpointModel> {
    match e {
        StreamEventModel::EndpointAdded { transport_path, format_descriptor, pad_name } => t.push(
            added_endpoint(kind, transport_path, format_descriptor, pad_name),
        ),
        StreamEventModel::EndpointRemoved { transport_path, ack } => remove_first(
            t,
            kind,
            transport_path,
        ),
        StreamEventModel::FormatChanged { pad_name, format_descriptor } => {
            if kind == MediaKind::Video {
                update_first_pad(t, MediaKind::Video, pad_name, format_descriptor)
            } else {
                t
            }
        },
    }
}

/// The actions the worker of kind `kind` hands to the shell for `e`:
/// build the added endpoint; tear down the removed one, when live, and
/// acknowledge the removal either way; declare and propagate a changed
/// format on the video worker's live pad.
pub open spec fn worker_actions(
    t: Seq<EndpointModel>,
    kind: MediaKind,
    e: StreamEventModel,
) -> Seq<HostActionModel> {
    match e {
        StreamEventModel::EndpointAdded { transport_path, format_descriptor, pad_name } => seq![
            HostActionModel::AttachEndpoint {
                kind,
                transport_path,
                format_descriptor,
                endpoint_name: last_component(transport_path),
                pad_name,
            },
        ],
        StreamEventModel::EndpointRemoved { transport_path, ack } => {
            if is_live(t, kind, transport_path) {
                seq![
                    HostActionModel::DetachEndpoint {
                        kind,
                        endpoint_name: first_live(t, kind, transport_path).endpoint_name,
                        pad_name: first_live(t, kind, transport_path).pad_name,
                    },
                    HostActionModel::SignalAck { ack },
                ]
            } else {
                seq![HostActionModel::SignalAck { ack }]
            }
        },
        StreamEventModel::FormatChanged { pad_name, format_descriptor } => {
            if kind == MediaKind::Video && pad_is_live(t, MediaKind::Video, pad_name) {
                seq![
                    HostActionModel::UpdateEndpointFormat { pad_name, format_descriptor },
                    HostActionModel::PropagateFormatDownstream { pad_name, format_descriptor },
                ]
            } else {
                Seq::<HostActionModel>::empty()
            }
        },
    }
}

/// Handle one lifecycle event on the worker of kind `kind`: update the
/// endpoint table and return the actions the shell must perform, in
/// order.  An addition must be for a transport path that is not yet
/// live and that ends in a usable name; the wire protocol guarantees
/// both.
pub fn handle_stream_event(
    table: &mut EndpointTable,
    kind: MediaKind,
    event: StreamEvent,
) -> (actions: Vec<HostAction>)
    requires
        wf(old(table)@),
        event@ matches StreamEventModel::EndpointAdded { transport_path, .. } ==> (!is_live(
            old(table)@,
            kind,
            transport_path,
        ) && names_endpoint(transport_path)),
    ensures
        wf(final(table)@),
        final(table)@ == worker_table_step(old(table)@, kind, event@),
        action_views(actions@) == worker_actions(old(table)@, kind, event@),
{
    let ghost t0 = table@;
    let ghost ev = event@;
    let mut actions: Vec<HostAction> = Vec::new();
    match event {
        StreamEvent::EndpointAdded { transport_path, format_descriptor, pad_name } => {
            let endpoint_name = endpoint_name_of(transport_path.as_str());
            actions.push(
                HostAction::AttachEndpoint {
                    kind,
                    transport_path: transport_path.clone(),
                    format_descriptor: format_descriptor.clone(),
                    endpoint_name,
                    pad_name: pad_name.clone(),
                },
            );
            table.attach(kind, transport_path, format_descriptor, pad_name);
            proof {
                assert(action_views(actions@) =~= worker_actions(t0, kind, ev));
            }
        },
        StreamEvent::EndpointRemoved { transport_path, ack } => {
            match table.remove_path(kind, &transport_path) {
                Some(removed) => {
                    actions.push(
                        HostAction::DetachEndpoint {
                            kind,
                            endpoint_name: removed.endpoint_name,
                            pad_name: removed.pad_name,
                        },
                    );
                },
                None => {},
            }
            actions.push(HostAction::SignalAck { ack });
            proof {
                assert(action_views(actions@) =~= worker_actions(t0, kind, ev));
            }
        },
        StreamEvent::FormatChanged { pad_name, format_descriptor } => {
            match kind {
                MediaKind::Video => {
                    let updated = table.set_format(
                        MediaKind::Video,
                        &pad_name,
                        format_descriptor.clone(),
                    );
                    if updated {
                        actions.push(
                            HostAction::UpdateEndpointFormat {
                                pad_name: pad_name.clone(),
                                format_descriptor: format_descriptor.clone(),
                            },
                        );
                        actions.push(
                            HostAction::PropagateFormatDownstream { pad_name, format_descriptor },
                        );
                    }
                },
                MediaKind::Audio => {},
            }
            proof {
                assert(action_views(actions@) =~= worker_actions(t0, kind, ev));
            }
        },
    }
    actions
}

/// A worker's table stays well-formed under every event it can handle;
/// an addition needs its path fresh and usable as a name.
pub proof fn lemma_step_preserves_wf(t: Seq<EndpointModel>, kind: MediaKind, e: StreamEventModel)
    requires
        wf(t),
        e matches StreamEventModel::EndpointAdded { transport_path, .. } ==> (!is_live(
            t,
            kind,
            transport_path,
        ) && names_endpoint(transport_path)),
    ensures
        wf(worker_table_step(t, kind, e)),
{
    match e {
        StreamEventModel::EndpointAdded { transport_path, format_descriptor, pad_name } => {
            lemma_wf_push(t, added_endpoint(kind, transport_path, format_descriptor, pad_name));
        },
        StreamEventModel::EndpointRemoved { transport_path, ack } => {
            lemma_wf_remove_first(t, kind, transport_path);
        },
        StreamEventModel::FormatChanged { pad_name, format_descriptor } => {
            if kind == MediaKind::Video {
                lemma_update_first_pad_fields(t, MediaKind::Video, pad_name, format_descriptor);
            }
        },
    }
}

/// After a fresh endpoint's addition is handled, exactly one endpoint
/// of its kind reads its transport path.
pub proof fn lemma_added_endpoint_live_once(
    t: Seq<EndpointModel>,
    kind: MediaKind,
    transport_path: Seq<char>,
    format_descriptor: Seq<char>,
    pad_name: Seq<char>,
)
    requires
        !is_live(t, kind, transport_path),
    ensures
        live_count(
            worker_table_step(
                t,
                kind,
                StreamEventModel::EndpointAdded { transport_path, format_descriptor, pad_name },
            ),
            kind,
            transport_path,
        ) == 1,
{
    let e = added_endpoint(kind, transport_path, format_descriptor, pad_name);
    lemma_count_push(t, e, kind, transport_path);
    lemma_is_live_iff_count_positive(t, kind, transport_path);
}

/// The event `e`, handled by the worker of kind `handling_kind`,
/// neither adds nor removes an endpoint of kind `kind` on `path`.
pub open spec fn leaves_endpoint_alone(
    e: StreamEventModel,
    handling_kind: MediaKind,
    kind: MediaKind,
    path: Seq<char>,
) -> bool {
    match e {
        StreamEventModel::EndpointAdded { transport_path, .. } => !(handling_kind == kind
            && transport_path == path),
        StreamEventModel::EndpointRemoved { transport_path, .. } => !(handling_kind == kind
            && transport_path == path),
        StreamEventModel::FormatChanged { .. } => true,
    }
}

/// Handling an event that leaves `(kind, path)` alone keeps that
/// path's endpoint count.
pub proof fn lemma_unrelated_event_preserves_count(
    t: Seq<EndpointModel>,
    handling_kind: MediaKind,
    e: StreamEventModel,
    kind: MediaKind,
    path: Seq<char>,
)
    requires
        leaves_endpoint_alone(e, handling_kind, kind, path),
    ensures
        live_count(worker_table_step(t, handling_kind, e), kind, path) == live_count(
            t,
            kind,
            path,
        ),
{
    match e {
        StreamEventModel::EndpointAdded { transport_path, format_descriptor, pad_name } => {
            let added = added_endpoint(handling_kind, transport_path, format_descriptor, pad_name);
            lemma_count_push(t, added, kind, path);
        },
        StreamEventModel::EndpointRemoved { transport_path, ack } => {
            lemma_count_remove_first(t, handling_kind, transport_path, kind, path);
        },
        StreamEventModel::FormatChanged { pad_name, format_descriptor } => {
            if handling_kind == MediaKind::Video {
                lemma_count_update_first_pad(
                    t,
                    MediaKind::Video,
                    pad_name,
                    format_descriptor,
                    kind,
                    path,
                );
            }
        },
    }
}

/// Handling a removal on a well-formed table leaves no endpoint of its
/// kind on its path, and signals its acknowledgement exactly once.
pub proof fn lemma_removed_endpoint_gone(
    t: Seq<EndpointModel>,
    kind: MediaKind,
    transport_path: Seq<char>,
    ack: AckToken,
)
    requires
        wf(t),
    ensures
        live_count(
            worker_table_step(
                t,
                kind,
                StreamEventModel::EndpointRemoved { transport_path, ack },
            ),
            kind,
            transport_path,
        ) == 0,
        ack_count(
            worker_actions(t, kind, StreamEventModel::EndpointRemoved { transport_path, ack }),
            ack,
        ) == 1,
{
    lemma_wf_count_at_most_one(t, kind, transport_path);
    lemma_count_remove_first(t, kind, transport_path, kind, transport_path);
    lemma_is_live_iff_count_positive(t, kind, transport_path);
    if is_live(t, kind, transport_path) {
        lemma_ack_count_pair(
            HostActionModel::DetachEndpoint {
                kind,
                endpoint_name: first_live(t, kind, transport_path).endpoint_name,
                pad_name: first_live(t, kind, transport_path).pad_name,
            },
            HostActionModel::SignalAck { ack },
            ack,
        );
    } else {
        lemma_ack_count_single(HostActionModel::SignalAck { ack }, ack);
    }
}

/// A removal with no matching live endpoint changes nothing and still
/// acknowledges exactly once.
pub proof fn lemma_removal_without_endpoint(
    t: Seq<EndpointModel>,
    kind: MediaKind,
    transport_path: Seq<char>,
    ack: AckToken,
)
    requires
        !is_live(t, kind, transport_path),
    ensures
        worker_table_step(t, kind, StreamEventModel::EndpointRemoved { transport_path, ack })
            == t,
        worker_actions(t, kind, StreamEventModel::EndpointRemoved { transport_path, ack })
            == seq![HostActionModel::SignalAck { ack }],
        ack_count(
            worker_actions(t, kind, StreamEventModel::EndpointRemoved { transport_path, ack }),
            ack,
        ) == 1,
{
    lemma_remove_first_not_live(t, kind, transport_path);
    lemma_ack_count_single(HostActionModel::SignalAck { ack }, ack);
}

/// The table after a worker handles each event of `events` in turn,
/// each tagged with the kind of the worker that handles it.
pub open spec fn fold_steps(
    t: Seq<EndpointModel>,
    events: Seq<(MediaKind, StreamEventModel)>,
) -> Seq<EndpointModel>
    decreases events.len(),
{
    if events.len() == 0 {
        t
    } else {
        fold_steps(worker_table_step(t, events.first().0, events.first().1), events.drop_first())
    }
}

/// The lifecycle law: once a fresh endpoint's addition is handled,
/// exactly one endpoint of its kind reads its transport path, and that
/// stays true while the workers handle any events that leave the
/// path alone; handling its removal then leaves none and signals the
/// removal's acknowledgement exactly once.
pub proof fn lemma_endpoint_lifecycle(
    t: Seq<EndpointModel>,
    kind: MediaKind,
    transport_path: Seq<char>,
    format_descriptor: Seq<char>,
    pad_name: Seq<char>,
    between: Seq<(MediaKind, StreamEventModel)>,
    ack: AckToken,
)
    requires
        !is_live(t, kind, transport_path),
        forall|i: int|
            0 <= i < between.len() ==> leaves_endpoint_alone(
                (#[trigger] between[i]).1,
                between[i].0,
                kind,
                transport_path,
            ),
    ensures
        live_count(
            fold_steps(
                worker_table_step(
                    t,
                    kind,
                    StreamEventModel::EndpointAdded { transport_path, format_descriptor, pad_name },
                ),
                between,
            ),
            kind,
            transport_path,
        ) == 1,
        live_count(
            worker_table_step(
                fold_steps(
                    worker_table_step(
                        t,
                        kind,
                        StreamEventModel::EndpointAdded {
                            transport_path,
                            format_descriptor,
                            pad_name,
                        },
                    ),
                    between,
                ),
                kind,
                StreamEventModel::EndpointRemoved { transport_path, ack },
            ),
            kind,
            transport_path,
        ) == 0,
        ack_count(
            worker_actions(
                fold_steps(
                    worker_table_step(
                        t,
                        kind,
                        StreamEventModel::EndpointAdded {
                            transport_path,
                            format_descriptor,
                            pad_name,
                        },
                    ),
                    between,
                ),
                kind,
                StreamEventModel::EndpointRemoved { transport_path, ack },
            ),
            ack,
        ) == 1,
{
    let t1 = worker_table_step(
        t,
        kind,
        StreamEventModel::EndpointAdded { transport_path, format_descriptor, pad_name },
    );
    lemma_added_endpoint_live_once(t, kind, transport_path, format_descriptor, pad_name);
    lemma_fold_preserves_count(t1, between, kind, transport_path);
    let t2 = fold_steps(t1, between);
    lemma_count_remove_first(t2, kind, transport_path, kind, transport_path);
    lemma_is_live_iff_count_positive(t2, kind, transport_path);
    lemma_ack_count_pair(
        HostActionModel::DetachEndpoint {
            kind,
            endpoint_name: first_live(t2, kind, transport_path).endpoint_name,
            pad_name: first_live(t2, kind, transport_path).pad_name,
        },
        HostActionModel::SignalAck { ack },
        ack,
    );
}

/// Folding events that all leave `(kind, path)` alone keeps that
/// path's endpoint count.
proof fn lemma_fold_preserves_count(
    t: Seq<EndpointModel>,
    events: Seq<(MediaKind, StreamEventModel)>,
    kind: MediaKind,
    path: Seq<char>,
)
    requires
        forall|i: int|
            0 <= i < events.len() ==> leaves_endpoint_alone(
                (#[trigger] events[i]).1,
                events[i].0,
                kind,
                path,
            ),
    ensures
        live_count(fold_steps(t, events), kind, path) == live_count(t, kind, path),
    decreases events.len(),
{
    if events.len() > 0 {
        lemma_unrelated_event_preserves_count(t, events.first().0, events.first().1, kind, path);
        let t1 = worker_table_step(t, events.first().0, events.first().1);
        assert forall|i: int| 0 <= i < events.drop_first().len() implies leaves_endpoint_alone(
            (#[trigger] events.drop_first()[i]).1,
            events.drop_first()[i].0,
            kind,
            path,
        ) by {
            assert(events.drop_first()[i] == events[i + 1]);
        }
        lemma_fold_preserves_count(t1, events.drop_first(), kind, path);
    }
}

} // verus!
