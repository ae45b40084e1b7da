use gossip_probe::message::AnnouncementInfo;
use gossip_probe::session::step;
use gossip_probe::session::Action;
use gossip_probe::session::Event;
use gossip_probe::session::Phase;
use gossip_probe::session::TransportError;
use gossip_probe::session::POLL_INTERVAL_SECS;
use gossip_probe::store::NodeInfo;

fn announced_s(channels: Vec<u64>) -> NodeInfo {
    let mut alias = [0u8; 32];
    alias[..8].copy_from_slice(b"Acinonyx");
    NodeInfo {
        announcement: Some(AnnouncementInfo {
            timestamp: 1,
            rgb: [0; 3],
            alias,
            features: vec![0, 0],
            addresses: vec![],
        }),
        channels,
    }
}

const ERRORS_S: [TransportError; 4] = [
    TransportError::Unreachable,
    TransportError::HandshakeFailed,
    TransportError::DecryptionFailed,
    TransportError::ConnectionLost,
];

#[test]
fn the_poll_interval_is_one_second() {
    assert_eq!(POLL_INTERVAL_SECS, 1);
}

#[test]
fn a_session_connects_then_polls() {
    assert_eq!(step(Phase::Idle, &Event::Start), (Phase::Connecting, Action::Connect));
    assert_eq!(
        step(Phase::Connecting, &Event::Connected),
        (Phase::Ready, Action::Poll { delay: false })
    );
}

#[test]
fn polling_goes_on_while_the_node_is_not_known() {
    assert_eq!(
        step(Phase::Ready, &Event::Polled(None)),
        (Phase::Ready, Action::Poll { delay: true })
    );
    // Many times over: there is no limit.
    let mut phase = Phase::Ready;
    for _ in 0..1000 {
        let (next, action) = step(phase, &Event::Polled(None));
        assert_eq!(action, Action::Poll { delay: true });
        phase = next;
    }
    assert_eq!(phase, Phase::Ready);
}

#[test]
fn polling_goes_on_while_the_node_has_not_announced_itself() {
    let known = NodeInfo { announcement: None, channels: vec![1, 2, 3] };
    assert_eq!(
        step(Phase::Ready, &Event::Polled(Some(known))),
        (Phase::Ready, Action::Poll { delay: true })
    );
}

#[test]
fn the_session_ends_with_the_report_once_the_node_is_found() {
    let scid = (500000u64 << 40) | (1 << 16);
    let (phase, action) = step(Phase::Ready, &Event::Polled(Some(announced_s(vec![scid]))));
    assert_eq!(phase, Phase::Finished);
    match action {
        Action::Report(lines) => {
            assert_eq!(lines.len(), 4);
            assert_eq!(lines[0], "Alias = Acinonyx");
            assert!(lines[1].starts_with("Features = "));
            assert_eq!(lines[2], "Channels (1):");
            assert_eq!(lines[3], "500000x1x0");
        }
        other => panic!("{:?}", other),
    }
}

#[test]
fn a_transport_failure_ends_a_running_session() {
    for error in ERRORS_S {
        for phase in [Phase::Idle, Phase::Connecting, Phase::Ready] {
            assert_eq!(
                step(phase, &Event::TransportFailed(error)),
                (Phase::Failed(error), Action::Fail(error))
            );
        }
    }
}

#[test]
fn a_frame_that_does_not_decrypt_is_no_silent_drop() {
    let (phase, action) =
        step(Phase::Ready, &Event::TransportFailed(TransportError::DecryptionFailed));
    assert_eq!(phase, Phase::Failed(TransportError::DecryptionFailed));
    assert_eq!(action, Action::Fail(TransportError::DecryptionFailed));
    assert_ne!(action, Action::Poll { delay: true });
    // Nothing brings the session back.
    assert_eq!(step(phase, &Event::Polled(Some(announced_s(vec![])))), (phase, Action::Nothing));
    assert_eq!(step(phase, &Event::Connected), (phase, Action::Nothing));
    assert_eq!(step(phase, &Event::Start), (phase, Action::Nothing));
}

#[test]
fn a_session_that_is_over_stays_over() {
    let events = [
        Event::Start,
        Event::Connected,
        Event::TransportFailed(TransportError::ConnectionLost),
        Event::Polled(None),
        Event::Polled(Some(announced_s(vec![5]))),
    ];
    for event in &events {
        assert_eq!(step(Phase::Finished, event), (Phase::Finished, Action::Nothing));
        for error in ERRORS_S {
            assert_eq!(step(Phase::Failed(error), event), (Phase::Failed(error), Action::Nothing));
        }
    }
}

#[test]
fn an_event_out_of_place_changes_nothing() {
    assert_eq!(step(Phase::Idle, &Event::Connected), (Phase::Idle, Action::Nothing));
    assert_eq!(step(Phase::Idle, &Event::Polled(None)), (Phase::Idle, Action::Nothing));
    assert_eq!(
        step(Phase::Idle, &Event::Polled(Some(announced_s(vec![])))),
        (Phase::Idle, Action::Nothing)
    );
    assert_eq!(step(Phase::Connecting, &Event::Start), (Phase::Connecting, Action::Nothing));
    assert_eq!(
        step(Phase::Connecting, &Event::Polled(Some(announced_s(vec![])))),
        (Phase::Connecting, Action::Nothing)
    );
    assert_eq!(step(Phase::Ready, &Event::Start), (Phase::Ready, Action::Nothing));
    assert_eq!(step(Phase::Ready, &Event::Connected), (Phase::Ready, Action::Nothing));
}
