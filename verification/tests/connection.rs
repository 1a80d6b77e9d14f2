use monoio_quiche::address::Endpoint;
use monoio_quiche::connection::{
    on_close, on_flushed, on_packet, on_send, on_stream_recv, on_stream_send, on_timer,
    CloseAction, FlushFor, ReadAction, StreamRecvAction, StreamSendAction, WriteAction,
};
use monoio_quiche::datagram::on_received;
use monoio_quiche::{Connection, Error};
use std::io;
use std::time::{Duration, Instant};

fn send_info() -> quiche::SendInfo {
    quiche::SendInfo {
        from: ([127, 0, 0, 1], 1000).into(),
        to: ([127, 0, 0, 1], 2000).into(),
        at: Instant::now(),
    }
}

#[test]
fn binds_any_v4_address_for_a_v4_peer() {
    let peer = Endpoint::V4 { octets: [192, 0, 2, 1], port: 443 };
    let (local, remote) = Connection::connect(Ok(Some(peer))).unwrap();
    assert_eq!(local, Endpoint::V4 { octets: [0; 4], port: 0 });
    assert_eq!(remote, peer);
}

#[test]
fn binds_any_v6_address_for_a_v6_peer() {
    let peer = Endpoint::V6 {
        segments: [0xfe80, 0, 0, 0, 0, 0, 0, 1],
        port: 443,
        flowinfo: 5,
        scope_id: 2,
    };
    let (local, remote) = Connection::connect(Ok(Some(peer))).unwrap();
    assert_eq!(
        local,
        Endpoint::V6 { segments: [0; 8], port: 0, flowinfo: 0, scope_id: 0 }
    );
    assert_eq!(remote, peer);
}

#[test]
fn a_name_without_addresses_is_refused() {
    match Connection::connect(Ok(None)) {
        Err(Error::Io(e)) => {
            assert_eq!(e.kind(), io::ErrorKind::Other);
            assert_eq!(e.to_string(), "empty address");
        }
        _ => panic!("an empty address was accepted"),
    }
}

#[test]
fn a_name_that_does_not_resolve_is_refused() {
    let failure = io::Error::new(io::ErrorKind::NotFound, "no such name");
    match Connection::connect(Err(failure)) {
        Err(Error::Io(e)) => assert_eq!(e.kind(), io::ErrorKind::NotFound),
        _ => panic!("a failed lookup was accepted"),
    }
}

#[test]
fn flush_sends_what_there_is() {
    let info = send_info();
    match on_send(Ok((1200, info))) {
        WriteAction::Send { len, info: to } => {
            assert_eq!(len, 1200);
            assert_eq!(to, info);
        }
        _ => panic!("a packet was not sent"),
    }
}

#[test]
fn flush_ends_when_nothing_is_left() {
    assert!(matches!(on_send(Err(quiche::Error::Done)), WriteAction::Return(Ok(()))));
}

#[test]
fn flush_fails_with_the_connection() {
    assert!(matches!(
        on_send(Err(quiche::Error::TlsFail)),
        WriteAction::Return(Err(Error::Quiche(quiche::Error::TlsFail)))
    ));
}

#[test]
fn taken_bytes_are_flushed_and_reported() {
    assert!(matches!(
        on_stream_send(Ok(17)),
        StreamSendAction::Flush(FlushFor::Report(17))
    ));
}

#[test]
fn a_full_stream_is_tried_again_after_a_flush() {
    assert!(matches!(
        on_stream_send(Err(quiche::Error::Done)),
        StreamSendAction::Flush(FlushFor::Retry)
    ));
}

#[test]
fn a_stopped_stream_takes_nothing() {
    assert!(matches!(
        on_stream_send(Err(quiche::Error::StreamStopped(9))),
        StreamSendAction::Return(Err(Error::Quiche(quiche::Error::StreamStopped(9))))
    ));
}

#[test]
fn read_bytes_are_reported_with_the_fin_flag() {
    assert!(matches!(on_stream_recv(Ok((5, true))), StreamRecvAction::Return(Ok((5, true)))));
    assert!(matches!(on_stream_recv(Ok((5, false))), StreamRecvAction::Return(Ok((5, false)))));
}

#[test]
fn a_stream_without_data_is_waited_for() {
    assert!(matches!(on_stream_recv(Err(quiche::Error::Done)), StreamRecvAction::Wait));
}

#[test]
fn a_reset_stream_cannot_be_read() {
    assert!(matches!(
        on_stream_recv(Err(quiche::Error::StreamReset(2))),
        StreamRecvAction::Return(Err(Error::Quiche(quiche::Error::StreamReset(2))))
    ));
}

#[test]
fn closing_flushes() {
    assert!(matches!(on_close(Ok(())), CloseAction::Flush));
}

#[test]
fn a_connection_closes_once() {
    assert!(matches!(
        on_close(Err(quiche::Error::Done)),
        CloseAction::Return(Err(Error::Quiche(quiche::Error::Done)))
    ));
}

#[test]
fn a_value_is_reported_after_its_flush() {
    assert!(matches!(on_flushed(4u64, Ok(())), Ok(4)));
    assert!(matches!(
        on_flushed(4u64, Err(Error::Quiche(quiche::Error::InvalidState))),
        Err(Error::Quiche(quiche::Error::InvalidState))
    ));
}

#[test]
fn the_read_loop_goes_on_after_a_packet() {
    let wait = Duration::from_millis(30);
    match on_packet(Ok(()), Some(wait)) {
        ReadAction::Receive(Some(t)) => assert_eq!(t, wait),
        _ => panic!("the loop did not wait for the next packet"),
    }
    assert!(matches!(on_packet(Ok(()), None), ReadAction::Receive(None)));
}

#[test]
fn the_read_loop_fails_with_the_connection() {
    assert!(matches!(
        on_packet(Err(Error::Quiche(quiche::Error::CryptoFail)), None),
        ReadAction::Return(Err(Error::Quiche(quiche::Error::CryptoFail)))
    ));
}

#[test]
fn the_timer_ends_the_read_loop_of_a_closed_connection() {
    assert!(matches!(on_timer(true, None), ReadAction::Return(Ok(()))));
    let wait = Duration::from_millis(30);
    match on_timer(false, Some(wait)) {
        ReadAction::Receive(Some(t)) => assert_eq!(t, wait),
        _ => panic!("the loop did not wait for the next packet"),
    }
}

#[test]
fn a_datagram_is_taken_or_refused() {
    assert!(on_received(Ok(1200)).is_ok());
    assert!(matches!(
        on_received(Err(quiche::Error::BufferTooShort)),
        Err(Error::Quiche(quiche::Error::BufferTooShort))
    ));
}
