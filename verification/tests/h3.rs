use monoio_quiche::h3::{on_h3, on_poll, on_send, NextAction, SendAction};
use monoio_quiche::Error;
use quiche::h3::Event;

#[test]
fn an_event_is_reported() {
    match on_poll(Ok((12, Event::Reset(3)))) {
        NextAction::Return(Ok((stream_id, event))) => {
            assert_eq!(stream_id, 12);
            assert_eq!(event, Event::Reset(3));
        }
        _ => panic!("an event was not reported"),
    }
}

#[test]
fn a_quiet_layer_is_flushed() {
    assert!(matches!(on_poll(Err(quiche::h3::Error::Done)), NextAction::Flush));
}

#[test]
fn a_failing_layer_is_reported() {
    assert!(matches!(
        on_poll(Err(quiche::h3::Error::TransportError(quiche::Error::Done))),
        NextAction::Return(Err(Error::QuicheH3(quiche::h3::Error::TransportError(
            quiche::Error::Done
        ))))
    ));
}

#[test]
fn an_answer_of_the_layer_is_passed_on() {
    assert!(matches!(on_h3(Ok(8u64)), Ok(8)));
    assert!(matches!(
        on_h3::<u64>(Err(quiche::h3::Error::StreamBlocked)),
        Err(Error::QuicheH3(quiche::h3::Error::StreamBlocked))
    ));
    assert!(matches!(
        on_h3::<usize>(Err(quiche::h3::Error::Done)),
        Err(Error::QuicheH3(quiche::h3::Error::Done))
    ));
}

#[test]
fn what_the_layer_took_is_flushed() {
    assert!(matches!(on_send(Ok(8u64)), SendAction::Flush(8)));
    assert!(matches!(on_send(Ok(1200usize)), SendAction::Flush(1200)));
    assert!(matches!(on_send(Ok(())), SendAction::Flush(())));
}

#[test]
fn what_the_layer_refused_is_not_flushed() {
    assert!(matches!(
        on_send::<u64>(Err(quiche::h3::Error::StreamBlocked)),
        SendAction::Return(Err(Error::QuicheH3(quiche::h3::Error::StreamBlocked)))
    ));
    assert!(matches!(
        on_send::<usize>(Err(quiche::h3::Error::Done)),
        SendAction::Return(Err(Error::QuicheH3(quiche::h3::Error::Done)))
    ));
    assert!(matches!(
        on_send::<()>(Err(quiche::h3::Error::FrameUnexpected)),
        SendAction::Return(Err(Error::QuicheH3(quiche::h3::Error::FrameUnexpected)))
    ));
}
