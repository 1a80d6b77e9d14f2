use monoio_quiche::Error;
use std::io;

#[test]
fn errors_keep_their_cause() {
    assert!(matches!(
        Error::from(quiche::Error::StreamReset(7)),
        Error::Quiche(quiche::Error::StreamReset(7))
    ));
    assert!(matches!(
        Error::from(quiche::h3::Error::StreamBlocked),
        Error::QuicheH3(quiche::h3::Error::StreamBlocked)
    ));
    let io = io::Error::new(io::ErrorKind::AddrInUse, "taken");
    match Error::from(io) {
        Error::Io(e) => assert_eq!(e.kind(), io::ErrorKind::AddrInUse),
        _ => panic!("a socket error became something else"),
    }
}

#[test]
fn socket_error_comes_back_unchanged() {
    let io = io::Error::new(io::ErrorKind::TimedOut, "too late");
    let back = io::Error::from(Error::from(io));
    assert_eq!(back.kind(), io::ErrorKind::TimedOut);
    assert_eq!(back.to_string(), "too late");
}

#[test]
fn quic_error_becomes_other() {
    let io = io::Error::from(Error::Quiche(quiche::Error::InvalidState));
    assert_eq!(io.kind(), io::ErrorKind::Other);
    let cause = io.get_ref().unwrap().downcast_ref::<quiche::Error>().unwrap();
    assert_eq!(*cause, quiche::Error::InvalidState);
}

#[test]
fn h3_error_becomes_other() {
    let io = io::Error::from(Error::QuicheH3(quiche::h3::Error::IdError));
    assert_eq!(io.kind(), io::ErrorKind::Other);
    let cause = io.get_ref().unwrap().downcast_ref::<quiche::h3::Error>().unwrap();
    assert_eq!(*cause, quiche::h3::Error::IdError);
}

#[test]
fn messages_name_the_layer() {
    assert_eq!(
        Error::Quiche(quiche::Error::InvalidStreamState(3)).message(),
        "quiche error: InvalidStreamState(3)"
    );
    assert_eq!(
        Error::QuicheH3(quiche::h3::Error::MissingSettings).message(),
        "quiche h3 error: MissingSettings"
    );
    let io = io::Error::new(io::ErrorKind::Other, "no route");
    assert_eq!(Error::Io(io).message(), "io error: no route");
}

#[test]
fn a_cause_is_shown_as_it_is_given() {
    assert_eq!(Error::Quiche(quiche::Error::Done).describe("nothing"), "quiche error: nothing");
}
