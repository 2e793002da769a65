//! Endpoint lifecycle: additions, removals, acknowledgements and the
//! full source-session scenario.

use opentok_remote::actions::HostAction;
use opentok_remote::credentials::Credentials;
use opentok_remote::media::{AckToken, ControlMessage, MediaKind, StreamEvent};
use opentok_remote::session::{LoopDirective, SessionController};

fn api_credentials() -> Credentials {
    let mut c = Credentials::empty();
    c.api_key = Some("k".to_string());
    c.session_id = Some("s".to_string());
    c.token = Some("t".to_string());
    c
}

fn added(path: &str, caps: &str, pad: &str) -> StreamEvent {
    StreamEvent::EndpointAdded {
        transport_path: path.to_string(),
        format_descriptor: caps.to_string(),
        pad_name: pad.to_string(),
    }
}

fn removed(path: &str, ack: u64) -> StreamEvent {
    StreamEvent::EndpointRemoved {
        transport_path: path.to_string(),
        ack: AckToken { id: ack },
    }
}

fn running_controller() -> SessionController {
    let mut ctl = SessionController::new(api_credentials());
    ctl.on_worker_launched();
    ctl
}

fn deliver(ctl: &mut SessionController, kind: MediaKind, event: StreamEvent) {
    let (d, acts) = ctl.router_step(Some(ControlMessage::Stream { kind, event }));
    assert_eq!(d, LoopDirective::Continue);
    assert!(acts.is_empty());
}

fn acks_in(actions: &[HostAction], ack: u64) -> usize {
    actions
        .iter()
        .filter(|a| matches!(a, HostAction::SignalAck { ack: AckToken { id } } if *id == ack))
        .count()
}

#[test]
fn add_then_remove_leaves_nothing_and_acks_once() {
    let mut ctl = running_controller();
    deliver(&mut ctl, MediaKind::Audio, added("/tmp/a0", "audio/x-raw", "audio_stream"));
    let (d, acts) = ctl.worker_step(MediaKind::Audio);
    assert_eq!(d, LoopDirective::Continue);
    assert_eq!(acts.len(), 1);
    match &acts[0] {
        HostAction::AttachEndpoint { kind, transport_path, endpoint_name, pad_name, .. } => {
            assert_eq!(*kind, MediaKind::Audio);
            assert_eq!(transport_path, "/tmp/a0");
            assert_eq!(endpoint_name, "a0");
            assert_eq!(pad_name, "audio_stream");
        }
        other => panic!("expected an attach action, got {:?}", other),
    }
    assert_eq!(ctl.graph.endpoints.len(), 1);

    deliver(&mut ctl, MediaKind::Audio, removed("/tmp/a0", 1));
    let (d2, acts2) = ctl.worker_step(MediaKind::Audio);
    assert_eq!(d2, LoopDirective::Continue);
    assert_eq!(ctl.graph.endpoints.len(), 0);
    assert_eq!(acks_in(&acts2, 1), 1);
    match &acts2[0] {
        HostAction::DetachEndpoint { endpoint_name, pad_name, .. } => {
            assert_eq!(endpoint_name, "a0");
            assert_eq!(pad_name, "audio_stream");
        }
        other => panic!("expected a detach action, got {:?}", other),
    }
}

#[test]
fn removal_without_endpoint_still_acks_once() {
    let mut ctl = running_controller();
    deliver(&mut ctl, MediaKind::Video, removed("/tmp/ghost", 9));
    let (d, acts) = ctl.worker_step(MediaKind::Video);
    assert_eq!(d, LoopDirective::Continue);
    assert_eq!(acts.len(), 1);
    assert_eq!(acks_in(&acts, 9), 1);
    assert!(ctl.running);
    assert!(!ctl.fatal_reported);
    assert_eq!(ctl.graph.endpoints.len(), 0);
}

#[test]
fn endpoint_stays_while_other_paths_come_and_go() {
    let mut ctl = running_controller();
    deliver(&mut ctl, MediaKind::Video, added("/tmp/v0", "video/x-raw", "video_stream_0"));
    ctl.worker_step(MediaKind::Video);
    deliver(&mut ctl, MediaKind::Video, added("/tmp/v1", "video/x-raw", "video_stream_1"));
    ctl.worker_step(MediaKind::Video);
    assert_eq!(ctl.graph.endpoints.len(), 2);
    deliver(&mut ctl, MediaKind::Video, removed("/tmp/v1", 3));
    let (_, acts) = ctl.worker_step(MediaKind::Video);
    assert_eq!(acks_in(&acts, 3), 1);
    assert_eq!(ctl.graph.endpoints.len(), 1);
    assert_eq!(ctl.graph.endpoints[0].transport_path, "/tmp/v0");
}

#[test]
fn duplicate_path_addition_escalates_construction_failure() {
    let mut ctl = running_controller();
    deliver(&mut ctl, MediaKind::Video, added("/tmp/v0", "video/x-raw", "video_stream_0"));
    ctl.worker_step(MediaKind::Video);
    deliver(&mut ctl, MediaKind::Video, added("/tmp/v0", "video/x-raw", "video_stream_1"));
    let (d, acts) = ctl.worker_step(MediaKind::Video);
    assert_eq!(d, LoopDirective::Continue);
    assert!(!ctl.running);
    assert!(ctl.fatal_reported);
    assert!(acts.iter().any(|a| matches!(a, HostAction::InterruptChild)));
    assert!(acts.iter().any(|a| matches!(a, HostAction::ReportFatal { .. })));
    // the duplicate was not recorded
    assert_eq!(ctl.graph.endpoints.len(), 1);
}

#[test]
fn unusable_transport_path_escalates_construction_failure() {
    let mut ctl = running_controller();
    deliver(&mut ctl, MediaKind::Audio, added("/tmp/", "audio/x-raw", "audio_stream"));
    let (_, acts) = ctl.worker_step(MediaKind::Audio);
    assert!(ctl.fatal_reported);
    assert!(acts.iter().any(|a| matches!(a, HostAction::ReportFatal { .. })));
    assert_eq!(ctl.graph.endpoints.len(), 0);
}

#[test]
fn source_session_scenario() {
    // Launch with the API credential triple.
    let creds = api_credentials();
    let args = creds.launch_args("rendezvous-1");
    assert_eq!(
        args,
        vec![
            "--direction",
            "src",
            "--ipc-server",
            "rendezvous-1",
            "--api-key",
            "k",
            "--session-id",
            "s",
            "--token",
            "t",
        ]
        .into_iter()
        .map(str::to_string)
        .collect::<Vec<String>>()
    );
    let mut ctl = SessionController::new(creds);
    assert!(ctl.ready_to_launch());
    ctl.on_worker_launched();
    assert!(ctl.running);

    // The worker reports a new video stream.
    deliver(
        &mut ctl,
        MediaKind::Video,
        added("/tmp/sock1", "video/x-raw,w=640,h=480", "video_stream_0"),
    );
    let (_, acts) = ctl.worker_step(MediaKind::Video);
    assert_eq!(acts.len(), 1);
    assert_eq!(ctl.graph.endpoints.len(), 1);
    let endpoint = &ctl.graph.endpoints[0];
    assert_eq!(endpoint.kind, MediaKind::Video);
    assert_eq!(endpoint.endpoint_name, "sock1");
    assert_eq!(endpoint.pad_name, "video_stream_0");
    assert_eq!(endpoint.format_descriptor, "video/x-raw,w=640,h=480");
    assert_eq!(endpoint.source_element_name(), "shmsrc_video_stream_0");
    assert_eq!(endpoint.format_element_name(), "capsfilter_video_stream_0");

    // The stream renegotiates its format.
    deliver(
        &mut ctl,
        MediaKind::Video,
        StreamEvent::FormatChanged {
            pad_name: "video_stream_0".to_string(),
            format_descriptor: "video/x-raw,w=1280,h=720".to_string(),
        },
    );
    let (_, acts2) = ctl.worker_step(MediaKind::Video);
    assert_eq!(ctl.graph.endpoints[0].format_descriptor, "video/x-raw,w=1280,h=720");
    assert_eq!(
        acts2,
        vec![
            HostAction::UpdateEndpointFormat {
                pad_name: "video_stream_0".to_string(),
                format_descriptor: "video/x-raw,w=1280,h=720".to_string(),
            },
            HostAction::PropagateFormatDownstream {
                pad_name: "video_stream_0".to_string(),
                format_descriptor: "video/x-raw,w=1280,h=720".to_string(),
            },
        ]
    );

    // The stream leaves.
    deliver(&mut ctl, MediaKind::Video, removed("/tmp/sock1", 42));
    let (_, acts3) = ctl.worker_step(MediaKind::Video);
    assert_eq!(ctl.graph.endpoints.len(), 0);
    assert_eq!(acks_in(&acts3, 42), 1);
    assert!(matches!(
        &acts3[0],
        HostAction::DetachEndpoint { endpoint_name, .. } if endpoint_name == "sock1"
    ));
}

#[test]
fn format_change_for_unknown_pad_does_nothing() {
    let mut ctl = running_controller();
    deliver(
        &mut ctl,
        MediaKind::Video,
        StreamEvent::FormatChanged {
            pad_name: "video_stream_7".to_string(),
            format_descriptor: "video/x-raw".to_string(),
        },
    );
    let (d, acts) = ctl.worker_step(MediaKind::Video);
    assert_eq!(d, LoopDirective::Continue);
    assert!(acts.is_empty());
    assert!(ctl.running);
}

#[test]
fn audio_worker_ignores_format_changes() {
    let mut ctl = running_controller();
    deliver(&mut ctl, MediaKind::Audio, added("/tmp/a0", "audio/x-raw", "audio_stream"));
    ctl.worker_step(MediaKind::Audio);
    deliver(
        &mut ctl,
        MediaKind::Audio,
        StreamEvent::FormatChanged {
            pad_name: "audio_stream".to_string(),
            format_descriptor: "audio/x-raw,rate=48000".to_string(),
        },
    );
    let (d, acts) = ctl.worker_step(MediaKind::Audio);
    assert_eq!(d, LoopDirective::Continue);
    assert!(acts.is_empty());
    assert_eq!(ctl.graph.endpoints[0].format_descriptor, "audio/x-raw");
}

#[test]
fn readd_after_removal_is_a_fresh_endpoint() {
    let mut ctl = running_controller();
    deliver(&mut ctl, MediaKind::Video, added("/tmp/v0", "video/x-raw,a", "video_stream_0"));
    ctl.worker_step(MediaKind::Video);
    deliver(&mut ctl, MediaKind::Video, removed("/tmp/v0", 5));
    ctl.worker_step(MediaKind::Video);
    assert_eq!(ctl.graph.endpoints.len(), 0);
    deliver(&mut ctl, MediaKind::Video, added("/tmp/v0", "video/x-raw,b", "video_stream_1"));
    let (d, _) = ctl.worker_step(MediaKind::Video);
    assert_eq!(d, LoopDirective::Continue);
    assert!(ctl.running);
    assert_eq!(ctl.graph.endpoints.len(), 1);
    assert_eq!(ctl.graph.endpoints[0].format_descriptor, "video/x-raw,b");
}
