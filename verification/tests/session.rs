//! Session supervision: credentials and launch arguments, the set-once
//! stream filter, the fatal path and teardown.

use opentok_remote::actions::HostAction;
use opentok_remote::credentials::Credentials;
use opentok_remote::errors::SessionError;
use opentok_remote::media::{AckToken, ControlMessage, MediaKind, StreamEvent};
use opentok_remote::names::endpoint_name_of;
use opentok_remote::session::{LoopDirective, SessionController};

fn api_credentials() -> Credentials {
    let mut c = Credentials::empty();
    c.api_key = Some("k".to_string());
    c.session_id = Some("s".to_string());
    c.token = Some("t".to_string());
    c
}

#[test]
fn empty_credentials_are_not_complete() {
    let c = Credentials::empty();
    assert!(!c.is_complete());
    assert!(c.location().is_none());
}

#[test]
fn api_triple_is_complete_and_has_a_location() {
    let c = api_credentials();
    assert!(c.is_complete());
    assert_eq!(c.location().unwrap(), "opentok://s");
}

#[test]
fn partial_api_triple_is_not_complete() {
    let mut c = api_credentials();
    c.token = None;
    assert!(!c.is_complete());
    // even a demo-room identifier does not stand in while an API key is set
    c.room_uri = Some("https://rooms.example/rust345".to_string());
    assert!(!c.is_complete());
}

#[test]
fn room_uri_alone_is_complete() {
    let mut c = Credentials::empty();
    c.room_uri = Some("https://rooms.example/rust345".to_string());
    assert!(c.is_complete());
    let args = c.launch_args("srv-7");
    assert_eq!(
        args,
        vec!["--direction", "src", "--ipc-server", "srv-7", "--room-uri", "https://rooms.example/rust345"]
            .into_iter()
            .map(str::to_string)
            .collect::<Vec<String>>()
    );
}

#[test]
fn stream_filter_is_appended_to_launch_args() {
    let mut c = api_credentials();
    c.stream_id = Some("stream-9".to_string());
    let args = c.launch_args("srv");
    assert_eq!(args.len(), 12);
    assert_eq!(args[10], "--stream-id");
    assert_eq!(args[11], "stream-9");
}

#[test]
fn stream_filter_is_fixed_once() {
    let mut c = Credentials::empty();
    assert!(c.set_stream_id("one".to_string()).is_ok());
    assert_eq!(c.stream_id.as_deref(), Some("one"));
    assert_eq!(c.set_stream_id("two".to_string()), Err(SessionError::InvalidState));
    assert_eq!(c.stream_id.as_deref(), Some("one"));
}

#[test]
fn location_change_keeps_the_fixed_filter() {
    let mut ctl = SessionController::new(Credentials::empty());
    let mut first = api_credentials();
    first.stream_id = Some("stream-1".to_string());
    assert!(ctl.set_location(first).is_ok());
    assert_eq!(ctl.credentials.stream_id.as_deref(), Some("stream-1"));

    // a location without a filter keeps the fixed one
    let second = api_credentials();
    assert!(ctl.set_location(second).is_ok());
    assert_eq!(ctl.credentials.stream_id.as_deref(), Some("stream-1"));

    // a location with a new filter is rejected and changes nothing
    let mut third = api_credentials();
    third.session_id = Some("s2".to_string());
    third.stream_id = Some("stream-2".to_string());
    assert_eq!(ctl.set_location(third), Err(SessionError::InvalidState));
    assert_eq!(ctl.credentials.stream_id.as_deref(), Some("stream-1"));
    assert_eq!(ctl.credentials.session_id.as_deref(), Some("s"));
}

#[test]
fn empty_stream_filter_is_ignored() {
    let mut ctl = SessionController::new(Credentials::empty());
    let mut creds = api_credentials();
    creds.stream_id = Some("".to_string());
    assert!(ctl.set_location(creds).is_ok());
    assert!(ctl.credentials.stream_id.is_none());
}

#[test]
fn fatal_error_interrupts_child_and_reports_once() {
    let mut ctl = SessionController::new(api_credentials());
    ctl.on_worker_launched();
    // one audio and one video endpoint are live
    for (kind, path, pad) in [
        (MediaKind::Audio, "/tmp/a0", "audio_stream"),
        (MediaKind::Video, "/tmp/v0", "video_stream_0"),
    ] {
        ctl.router_step(Some(ControlMessage::Stream {
            kind,
            event: StreamEvent::EndpointAdded {
                transport_path: path.to_string(),
                format_descriptor: "raw".to_string(),
                pad_name: pad.to_string(),
            },
        }));
        ctl.worker_step(kind);
    }
    assert_eq!(ctl.graph.endpoints.len(), 2);

    let (d, acts) = ctl.router_step(Some(ControlMessage::FatalError {
        reason: "decoder crashed".to_string(),
    }));
    assert_eq!(d, LoopDirective::Exit);
    assert_eq!(
        acts,
        vec![
            HostAction::InterruptChild,
            HostAction::ReportFatal { reason: "decoder crashed".to_string() },
        ]
    );
    assert!(!ctl.running);
    assert!(!ctl.child_present);
    assert!(ctl.fatal_reported);

    // both endpoints are simply abandoned: no mutation is attempted
    let (da, acts_a) = ctl.worker_step(MediaKind::Audio);
    let (dv, acts_v) = ctl.worker_step(MediaKind::Video);
    assert_eq!(da, LoopDirective::Exit);
    assert_eq!(dv, LoopDirective::Exit);
    assert!(acts_a.is_empty());
    assert!(acts_v.is_empty());
    assert_eq!(ctl.graph.endpoints.len(), 2);

    // a second fatal surfaces nothing and interrupts nothing
    let acts2 = ctl.critical_error("again".to_string());
    assert!(acts2.is_empty());
}

#[test]
fn teardown_interrupts_once_and_is_idempotent() {
    let mut ctl = SessionController::new(api_credentials());
    ctl.on_worker_launched();
    let acts = ctl.teardown();
    assert_eq!(acts, vec![HostAction::InterruptChild]);
    assert!(!ctl.running);
    assert!(!ctl.child_present);
    let acts2 = ctl.teardown();
    assert!(acts2.is_empty());
}

#[test]
fn teardown_before_launch_does_nothing() {
    let mut ctl = SessionController::new(Credentials::empty());
    let acts = ctl.teardown();
    assert!(acts.is_empty());
    assert!(!ctl.ready_to_launch());
}

#[test]
fn endpoint_names_come_from_the_path_tail() {
    assert_eq!(endpoint_name_of("/tmp/sock1"), "sock1");
    assert_eq!(endpoint_name_of("sock1"), "sock1");
    assert_eq!(endpoint_name_of("/var/run/media/a_b-c"), "a_b-c");
    assert_eq!(endpoint_name_of("/tmp/"), "");
    assert_eq!(endpoint_name_of(""), "");
}

#[test]
fn only_session_level_failures_escalate() {
    assert!(SessionError::LaunchFailed.is_session_fatal());
    assert!(SessionError::RemoteFatal.is_session_fatal());
    assert!(SessionError::GraphConstructionFailed.is_session_fatal());
    assert!(!SessionError::ProtocolError.is_session_fatal());
    assert!(!SessionError::InvalidState.is_session_fatal());
}

#[test]
fn removal_ack_carries_its_own_token() {
    let mut ctl = SessionController::new(api_credentials());
    ctl.on_worker_launched();
    ctl.router_step(Some(ControlMessage::Stream {
        kind: MediaKind::Audio,
        event: StreamEvent::EndpointRemoved {
            transport_path: "/tmp/none".to_string(),
            ack: AckToken { id: 77 },
        },
    }));
    let (_, acts) = ctl.worker_step(MediaKind::Audio);
    assert_eq!(acts, vec![HostAction::SignalAck { ack: AckToken { id: 77 } }]);
}
