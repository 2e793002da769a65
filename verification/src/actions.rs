//! The actions the verified control plane hands to its unverified
//! shell: graph mutations for the pipeline host, the removal
//! acknowledgement, and the fatal path's process and notification
//! steps.

use vstd::prelude::*;
use crate::media::{AckToken, MediaKind};

verus! {

/// One step the shell must perform against the pipeline host, the
/// child process or the remote worker.
#[derive(Clone, Debug, PartialEq, Eq)]
pub enum HostAction {
    /// Build the endpoint's subgraph: bind `transport_path`, declare
    /// `format_descriptor`, name the subgraph `endpoint_name` and
    /// expose `pad_name`.
    AttachEndpoint {
        kind: MediaKind,
        transport_path: String,
        format_descriptor: String,
        endpoint_name: String,
        pad_name: String,
    },
    /// Stop the named subgraph, detach it and withdraw its pad.
    DetachEndpoint { kind: MediaKind, endpoint_name: String, pad_name: String },
    /// Declare the new format on the endpoint exposing `pad_name`.
    UpdateEndpointFormat { pad_name: String, format_descriptor: String },
    /// Push the renegotiated format to the ports downstream of the
    /// endpoint exposing `pad_name`.
    PropagateFormatDownstream { pad_name: String, format_descriptor: String },
    /// Signal the one-shot removal acknowledgement the remote worker
    /// blocks on.
    SignalAck { ack: AckToken },
    /// Send the graceful interrupt to the child process.
    InterruptChild,
    /// Surface the session's single fatal notification.
    ReportFatal { reason: String },
}

/// The mathematical value of a [`HostAction`].
pub enum HostActionModel {
    AttachEndpoint {
        kind: MediaKind,
        transport_path: Seq<char>,
        format_descriptor: Seq<char>,
        endpoint_name: Seq<char>,
        pad_name: Seq<char>,
    },
    DetachEndpoint { kind: MediaKind, endpoint_name: Seq<char>, pad_name: Seq<char> },
    UpdateEndpointFormat { pad_name: Seq<char>, format_descriptor: Seq<char> },
    PropagateFormatDownstream { pad_name: Seq<char>, format_descriptor: Seq<char> },
    SignalAck { ack: AckToken },
    InterruptChild,
    ReportFatal { reason: Seq<char> },
}

impl View for HostAction {
    type V = HostActionModel;

    open spec fn view(&self) -> HostActionModel {
        match self {
            HostAction::AttachEndpoint {
                kind,
                transport_path,
                format_descriptor,
                endpoint_name,
                pad_name,
            } => HostActionModel::AttachEndpoint {
                kind: *kind,
                transport_path: transport_path@,
                format_descriptor: format_descriptor@,
                endpoint_name: endpoint_name@,
                pad_name: pad_name@,
            },
            HostAction::DetachEndpoint { kind, endpoint_name, pad_name } => {
                HostActionModel::DetachEndpoint {
                    kind: *kind,
                    endpoint_name: endpoint_name@,
                    pad_name: pad_name@,
                }
            },
            HostAction::UpdateEndpointFormat { pad_name, format_descriptor } => {
                HostActionModel::UpdateEndpointFormat {
                    pad_name: pad_name@,
                    format_descriptor: format_descriptor@,
                }
            },
            HostAction::PropagateFormatDownstream { pad_name, format_descriptor } => {
                HostActionModel::PropagateFormatDownstream {
                    pad_name: pad_name@,
                    format_descriptor: format_descriptor@,
                }
            },
            HostAction::SignalAck { ack } => HostActionModel::SignalAck { ack: *ack },
            HostAction::InterruptChild => HostActionModel::InterruptChild,
            HostAction::ReportFatal { reason } => HostActionModel::ReportFatal { reason: reason@ },
        }
    }
}

/// The views of a sequence of actions.
pub open spec fn action_views(v: Seq<HostAction>) -> Seq<HostActionModel> {
    v.map_values(|a: HostAction| a@)
}

/// How often `actions` signals the acknowledgement `ack`.
pub open spec fn ack_count(actions: Seq<HostActionModel>, ack: AckToken) -> nat
    decreases actions.len(),
{
    if actions.len() == 0 {
        0
    } else {
        (match actions.first() {
            HostActionModel::SignalAck { ack: a } => if a == ack {
                1nat
            } else {
                0nat
            },
            _ => 0nat,
        }) + ack_count(actions.drop_first(), ack)
    }
}

/// How often `actions` surfaces a fatal notification.
pub open spec fn fatal_count(actions: Seq<HostActionModel>) -> nat
    decreases actions.len(),
{
    if actions.len() == 0 {
        0
    } else {
        (match actions.first() {
            HostActionModel::ReportFatal { .. } => 1nat,
            _ => 0nat,
        }) + fatal_count(actions.drop_first())
    }
}

/// How often `actions` interrupts the child process.
pub open spec fn interrupt_count(actions: Seq<HostActionModel>) -> nat
    decreases actions.len(),
{
    if actions.len() == 0 {
        0
    } else {
        (match actions.first() {
            HostActionModel::InterruptChild => 1nat,
            _ => 0nat,
        }) + interrupt_count(actions.drop_first())
    }
}

/// How one action contributes to [`fatal_count`].
pub open spec fn fatal_count_one(a: HostActionModel) -> nat {
    match a {
        HostActionModel::ReportFatal { .. } => 1nat,
        _ => 0nat,
    }
}

/// How one action contributes to [`interrupt_count`].
pub open spec fn interrupt_count_one(a: HostActionModel) -> nat {
    match a {
        HostActionModel::InterruptChild => 1nat,
        _ => 0nat,
    }
}

/// The fatal and interrupt counts of a one-action sequence.
pub proof fn lemma_counts_single(a: HostActionModel)
    ensures
        fatal_count(seq![a]) == fatal_count_one(a),
        interrupt_count(seq![a]) == interrupt_count_one(a),
{
    assert(seq![a].first() == a);
    assert(seq![a].drop_first() =~= Seq::<HostActionModel>::empty());
    assert(fatal_count(Seq::<HostActionModel>::empty()) == 0);
    assert(interrupt_count(Seq::<HostActionModel>::empty()) == 0);
}

/// The fatal and interrupt counts of a two-action sequence.
pub proof fn lemma_counts_pair(a: HostActionModel, b: HostActionModel)
    ensures
        fatal_count(seq![a, b]) == fatal_count_one(a) + fatal_count_one(b),
        interrupt_count(seq![a, b]) == interrupt_count_one(a) + interrupt_count_one(b),
{
    assert(seq![a, b].first() == a);
    assert(seq![a, b].drop_first() =~= seq![b]);
    lemma_counts_single(b);
}

/// How one action contributes to [`ack_count`].
pub open spec fn ack_count_one(a: HostActionModel, ack: AckToken) -> nat {
    match a {
        HostActionModel::SignalAck { ack: x } => if x == ack {
            1nat
        } else {
            0nat
        },
        _ => 0nat,
    }
}

/// The acknowledgement count of a one-action sequence.
pub proof fn lemma_ack_count_single(a: HostActionModel, ack: AckToken)
    ensures
        ack_count(seq![a], ack) == ack_count_one(a, ack),
{
    assert(seq![a].first() == a);
    assert(seq![a].drop_first() =~= Seq::<HostActionModel>::empty());
    assert(ack_count(Seq::<HostActionModel>::empty(), ack) == 0);
}

/// The acknowledgement count of a two-action sequence.
pub proof fn lemma_ack_count_pair(a: HostActionModel, b: HostActionModel, ack: AckToken)
    ensures
        ack_count(seq![a, b], ack) == ack_count_one(a, ack) + ack_count_one(b, ack),
{
    assert(seq![a, b].first() == a);
    assert(seq![a, b].drop_first() =~= seq![b]);
    lemma_ack_count_single(b, ack);
}

/// Whether `actions` mutates the pipeline graph's endpoints: builds,
/// detaches or renegotiates one.
pub open spec fn mutates_endpoints(actions: Seq<HostActionModel>) -> bool {
    exists|i: int|
        0 <= i < actions.len() && ((#[trigger] actions[i]) matches HostActionModel::AttachEndpoint {
            ..
        } || actions[i] matches HostActionModel::DetachEndpoint { .. } || actions[i]
            matches HostActionModel::UpdateEndpointFormat { .. } || actions[i]
            matches HostActionModel::PropagateFormatDownstream { .. })
}

} // verus!
