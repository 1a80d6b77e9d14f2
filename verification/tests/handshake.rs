use monoio_quiche::handshake::{on_send, HandshakeAction};
use monoio_quiche::Error;
use std::time::{Duration, Instant};

#[test]
fn a_packet_is_sent_whatever_the_state() {
    let info = quiche::SendInfo {
        from: ([127, 0, 0, 1], 1000).into(),
        to: ([127, 0, 0, 1], 2000).into(),
        at: Instant::now(),
    };
    for closed in [false, true] {
        for established in [false, true] {
            match on_send(Ok((64, info)), closed, established, None) {
                HandshakeAction::Send { len, info: to } => {
                    assert_eq!(len, 64);
                    assert_eq!(to, info);
                }
                _ => panic!("a packet was not sent"),
            }
        }
    }
}

#[test]
fn a_closed_connection_fails_even_if_it_was_established() {
    for established in [false, true] {
        assert!(matches!(
            on_send(Err(quiche::Error::Done), true, established, None),
            HandshakeAction::Fail(Error::Quiche(quiche::Error::InvalidState))
        ));
    }
}

#[test]
fn a_handshake_with_nothing_left_to_send_is_complete() {
    assert!(matches!(
        on_send(Err(quiche::Error::Done), false, true, None),
        HandshakeAction::Established
    ));
}

#[test]
fn an_open_handshake_waits_for_the_peer() {
    let wait = Duration::from_millis(333);
    match on_send(Err(quiche::Error::Done), false, false, Some(wait)) {
        HandshakeAction::Receive(Some(t)) => assert_eq!(t, wait),
        _ => panic!("the handshake did not wait"),
    }
    assert!(matches!(
        on_send(Err(quiche::Error::Done), false, false, None),
        HandshakeAction::Receive(None)
    ));
}

#[test]
fn a_failing_connection_fails_the_handshake() {
    assert!(matches!(
        on_send(Err(quiche::Error::TlsFail), false, false, None),
        HandshakeAction::Fail(Error::Quiche(quiche::Error::TlsFail))
    ));
}
