//! Media kinds and the lifecycle messages the worker process sends.

use vstd::prelude::*;

verus! {

/// The two kinds of media stream a session can carry.  Every stream
/// endpoint, worker queue and worker loop belongs to exactly one kind.
#[derive(Clone, Copy, Debug, PartialEq, Eq, Structural)]
pub enum MediaKind {
    Audio,
    Video,
}

/// The identity of a one-shot removal acknowledgement channel.  The
/// remote worker blocks on this channel after sending an endpoint
/// removal, so the stream worker must signal it exactly once.
#[derive(Clone, Copy, Debug, PartialEq, Eq, Structural)]
pub struct AckToken {
    pub id: u64,
}

/// A lifecycle event for one media kind, as carried by the wire
/// protocol after the kind tag has been read.
#[derive(Clone, Debug, PartialEq, Eq)]
pub enum StreamEvent {
    /// A new live endpoint: a shared-memory transport path, the format
    /// descriptor its data arrives in, and the name of the pad the
    /// endpoint must expose.
    EndpointAdded { transport_path: String, format_descriptor: String, pad_name: String },
    /// The endpoint reading `transport_path` is gone; the sender blocks
    /// on `ack` until the removal has been processed.
    EndpointRemoved { transport_path: String, ack: AckToken },
    /// The endpoint exposing `pad_name` renegotiated its format.
    FormatChanged { pad_name: String, format_descriptor: String },
}

/// The mathematical value of a [`StreamEvent`]: the same shape over
/// sequences of characters.
pub enum StreamEventModel {
    EndpointAdded { transport_path: Seq<char>, format_descriptor: Seq<char>, pad_name: Seq<char> },
    EndpointRemoved { transport_path: Seq<char>, ack: AckToken },
    FormatChanged { pad_name: Seq<char>, format_descriptor: Seq<char> },
}

impl View for StreamEvent {
    type V = StreamEventModel;

    open spec fn view(&self) -> StreamEventModel {
        match self {
            StreamEvent::EndpointAdded { transport_path, format_descriptor, pad_name } => {
                StreamEventModel::EndpointAdded {
                    transport_path: transport_path@,
                    format_descriptor: format_descriptor@,
                    pad_name: pad_name@,
                }
            },
            StreamEvent::EndpointRemoved { transport_path, ack } => {
                StreamEventModel::EndpointRemoved { transport_path: transport_path@, ack: *ack }
            },
            StreamEvent::FormatChanged { pad_name, format_descriptor } => {
                StreamEventModel::FormatChanged {
                    pad_name: pad_name@,
                    format_descriptor: format_descriptor@,
                }
            },
        }
    }
}

/// A message received on the session's IPC channel.
#[derive(Clone, Debug, PartialEq, Eq)]
pub enum ControlMessage {
    /// The worker process reports an unrecoverable condition.
    FatalError { reason: String },
    /// A lifecycle event for one media kind.
    Stream { kind: MediaKind, event: StreamEvent },
}

/// The mathematical value of a [`ControlMessage`].
pub enum ControlMessageModel {
    FatalError { reason: Seq<char> },
    Stream { kind: MediaKind, event: StreamEventModel },
}

impl View for ControlMessage {
    type V = ControlMessageModel;

    open spec fn view(&self) -> ControlMessageModel {
        match self {
            ControlMessage::FatalError { reason } => {
                ControlMessageModel::FatalError { reason: reason@ }
            },
            ControlMessage::Stream { kind, event } => {
                ControlMessageModel::Stream { kind: *kind, event: event@ }
            },
        }
    }
}

} // verus!
