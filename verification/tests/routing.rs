//! Routing and loop cancellation: demultiplexing by media kind, queue
//! order, and the behaviour of the loops once the running flag is
//! cleared.

use opentok_remote::media::{ControlMessage, MediaKind, StreamEvent};
use opentok_remote::router::{route, DualQueue, RouteDecision};
use opentok_remote::session::{LoopDirective, SessionController};
use opentok_remote::credentials::Credentials;

fn added(path: &str, pad: &str) -> StreamEvent {
    StreamEvent::EndpointAdded {
        transport_path: path.to_string(),
        format_descriptor: "video/x-raw".to_string(),
        pad_name: pad.to_string(),
    }
}

#[test]
fn stream_messages_go_to_their_own_kind() {
    let audio = ControlMessage::Stream {
        kind: MediaKind::Audio,
        event: added("/tmp/a0", "audio_stream"),
    };
    match route(audio) {
        RouteDecision::Deliver { kind, .. } => assert_eq!(kind, MediaKind::Audio),
        _ => panic!("expected a delivery"),
    }
    let video = ControlMessage::Stream {
        kind: MediaKind::Video,
        event: added("/tmp/v0", "video_stream_0"),
    };
    match route(video) {
        RouteDecision::Deliver { kind, .. } => assert_eq!(kind, MediaKind::Video),
        _ => panic!("expected a delivery"),
    }
}

#[test]
fn fatal_messages_are_escalated() {
    let msg = ControlMessage::FatalError { reason: "boom".to_string() };
    match route(msg) {
        RouteDecision::Escalate { reason } => assert_eq!(reason, "boom"),
        _ => panic!("expected an escalation"),
    }
}

#[test]
fn queues_never_cross_deliver() {
    let mut q = DualQueue::new();
    q.push_event(MediaKind::Audio, added("/tmp/a0", "audio_stream"));
    q.push_event(MediaKind::Video, added("/tmp/v0", "video_stream_0"));
    q.push_event(MediaKind::Audio, added("/tmp/a1", "audio_stream"));
    assert_eq!(q.audio.len(), 2);
    assert_eq!(q.video.len(), 1);
    assert!(q.audio.iter().all(|e| !matches!(
        e,
        StreamEvent::EndpointAdded { transport_path, .. } if transport_path.starts_with("/tmp/v")
    )));
}

#[test]
fn queues_keep_arrival_order() {
    let mut q = DualQueue::new();
    q.push_event(MediaKind::Video, added("/tmp/v0", "video_stream_0"));
    q.push_event(MediaKind::Video, added("/tmp/v1", "video_stream_1"));
    let first = q.pop_event(MediaKind::Video).unwrap();
    let second = q.pop_event(MediaKind::Video).unwrap();
    assert!(matches!(
        first,
        StreamEvent::EndpointAdded { transport_path, .. } if transport_path == "/tmp/v0"
    ));
    assert!(matches!(
        second,
        StreamEvent::EndpointAdded { transport_path, .. } if transport_path == "/tmp/v1"
    ));
    assert!(q.pop_event(MediaKind::Video).is_none());
}

#[test]
fn router_delivers_by_kind_and_keeps_order() {
    let mut ctl = SessionController::new(Credentials::empty());
    ctl.on_worker_launched();
    for (kind, path, pad) in [
        (MediaKind::Audio, "/tmp/a0", "audio_stream"),
        (MediaKind::Video, "/tmp/v0", "video_stream_0"),
        (MediaKind::Video, "/tmp/v1", "video_stream_1"),
    ] {
        let (d, _) = ctl.router_step(Some(ControlMessage::Stream { kind, event: added(path, pad) }));
        assert_eq!(d, LoopDirective::Continue);
    }
    assert_eq!(ctl.queues.audio.len(), 1);
    assert_eq!(ctl.queues.video.len(), 2);
    assert!(matches!(
        &ctl.queues.video[0],
        StreamEvent::EndpointAdded { transport_path, .. } if transport_path == "/tmp/v0"
    ));
}

#[test]
fn idle_poll_sleeps_and_changes_nothing() {
    let mut ctl = SessionController::new(Credentials::empty());
    ctl.on_worker_launched();
    let (d, acts) = ctl.router_step(None);
    assert_eq!(d, LoopDirective::Idle);
    assert!(acts.is_empty());
    assert!(ctl.running);
    let (d2, acts2) = ctl.worker_step(MediaKind::Audio);
    assert_eq!(d2, LoopDirective::Idle);
    assert!(acts2.is_empty());
}

#[test]
fn cleared_flag_stops_all_three_loops_without_processing() {
    let mut ctl = SessionController::new(Credentials::empty());
    ctl.on_worker_launched();
    // queue work for both workers, then tear down before they run
    for (kind, path, pad) in [
        (MediaKind::Audio, "/tmp/a0", "audio_stream"),
        (MediaKind::Video, "/tmp/v0", "video_stream_0"),
    ] {
        ctl.router_step(Some(ControlMessage::Stream { kind, event: added(path, pad) }));
    }
    ctl.teardown();
    assert!(!ctl.running);

    let (d, acts) = ctl.router_step(Some(ControlMessage::Stream {
        kind: MediaKind::Audio,
        event: added("/tmp/a9", "audio_stream"),
    }));
    assert_eq!(d, LoopDirective::Exit);
    assert!(acts.is_empty());
    let (da, acts_a) = ctl.worker_step(MediaKind::Audio);
    let (dv, acts_v) = ctl.worker_step(MediaKind::Video);
    assert_eq!(da, LoopDirective::Exit);
    assert_eq!(dv, LoopDirective::Exit);
    assert!(acts_a.is_empty());
    assert!(acts_v.is_empty());
    // the queued messages were not processed and no endpoint was built
    assert_eq!(ctl.queues.audio.len(), 1);
    assert_eq!(ctl.queues.video.len(), 1);
    assert_eq!(ctl.graph.endpoints.len(), 0);
}
