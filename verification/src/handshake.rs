//! The handshake of a client, step by step. The socket is somebody else's: each
//! step says what to do with it, and the next step is told how that went.
use crate::connection::Connection;
use crate::datagram;
use crate::datagram::Datagram;
use crate::error::Error;
use crate::quic;
use crate::readiness::Readiness;
use crate::readiness::StreamIo;
use quiche::Connection as QuicheConnection;
use quiche::Error as QuicheError;
use quiche::SendInfo;
use std::io::Error as IoError;
use std::time::Duration;
use vstd::prelude::*;

verus! {

/// A connection whose handshake is under way.
pub struct Handshake {
    pub session: QuicheConnection,
}

/// What has happened since the last step.
pub enum HandshakeEvent {
    /// Nothing yet: this is the first step.
    Begin,
    /// A datagram was sent, or could not be.
    Sent(Result<usize, IoError>),
    /// A datagram came in, or the socket failed.
    Received(Result<Datagram, IoError>),
    /// The timer fired and the wait for a datagram was called off. A datagram
    /// may have come in all the same.
    Expired(Result<Datagram, IoError>),
}

impl HandshakeEvent {
    /// The event leads straight to the question whether there is a packet to send.
    pub open spec fn asks(self) -> bool {
        match self {
            HandshakeEvent::Begin => true,
            HandshakeEvent::Sent(result) => result is Ok,
            _ => false,
        }
    }
}

/// What to do next.
pub enum HandshakeAction {
    /// Send the front of the buffer.
    Send { len: usize, info: SendInfo },
    /// Wait for a datagram, for no longer than this if there is a limit.
    Receive(Option<Duration>),
    /// The handshake is complete.
    Established,
    /// The handshake has failed.
    Fail(Error),
}

/// What to do once the connection was asked for a packet: send it. Where it has
/// none, the connection's state decides.
pub open spec fn send_action(
    result: Result<(usize, SendInfo), QuicheError>,
    closed: bool,
    established: bool,
    timeout: Option<Duration>,
) -> HandshakeAction {
    match result {
        Ok(packet) => HandshakeAction::Send { len: packet.0, info: packet.1 },
        Err(QuicheError::Done) => if closed {
            HandshakeAction::Fail(Error::Quiche(QuicheError::InvalidState))
        } else if established {
            HandshakeAction::Established
        } else {
            HandshakeAction::Receive(timeout)
        },
        Err(e) => HandshakeAction::Fail(Error::Quiche(e)),
    }
}

/// The connection was asked for a packet, and this follows from it.
pub open spec fn pumped(
    before: QuicheConnection,
    after: QuicheConnection,
    buf_before: Seq<u8>,
    buf_after: Seq<u8>,
    action: HandshakeAction,
) -> bool {
    exists|r: Result<(usize, SendInfo), QuicheError>, t: Option<Duration>|
        {
            &&& #[trigger] quic::send_outcome(before, after, buf_before, buf_after, r)
            &&& #[trigger] quic::timeout_outcome(after, t)
            &&& action == send_action(
                r,
                quic::connection_closed(after),
                quic::connection_established(after),
                t,
            )
        }
}

/// The connection took in what came from outside. If that has closed it, the
/// handshake fails; otherwise the connection is asked for a packet.
pub open spec fn resumed(
    before: QuicheConnection,
    after: QuicheConnection,
    buf_before: Seq<u8>,
    buf_after: Seq<u8>,
    action: HandshakeAction,
) -> bool {
    if quic::connection_closed(before) {
        &&& after == before
        &&& buf_after == buf_before
        &&& action == HandshakeAction::Fail(Error::Quiche(QuicheError::InvalidState))
    } else {
        pumped(before, after, buf_before, buf_after, action)
    }
}

/// A datagram was fed to the connection, and this follows from it.
pub open spec fn fed(
    before: QuicheConnection,
    after: QuicheConnection,
    buf_before: Seq<u8>,
    buf_after: Seq<u8>,
    datagram: Datagram,
    action: HandshakeAction,
) -> bool {
    exists|mid: QuicheConnection, buf_mid: Seq<u8>, r: Result<(), Error>|
        {
            &&& #[trigger] datagram::received(before, mid, buf_before, buf_mid, datagram, r)
            &&& match r {
                Ok(_) => resumed(mid, after, buf_mid, buf_after, action),
                Err(e) => {
                    &&& after == mid
                    &&& buf_after == buf_mid
                    &&& action == HandshakeAction::Fail(e)
                },
            }
        }
}

/// One step of a handshake: the event takes the connection and the buffer from
/// one state to the other, and the action follows.
pub open spec fn handshake_step(
    before: QuicheConnection,
    after: QuicheConnection,
    buf_before: Seq<u8>,
    buf_after: Seq<u8>,
    event: HandshakeEvent,
    action: HandshakeAction,
) -> bool {
    match event {
        HandshakeEvent::Begin => pumped(before, after, buf_before, buf_after, action),
        HandshakeEvent::Sent(Ok(_)) => pumped(before, after, buf_before, buf_after, action),
        HandshakeEvent::Sent(Err(e)) => {
            &&& after == before
            &&& buf_after == buf_before
            &&& action == HandshakeAction::Fail(Error::Io(e))
        },
        HandshakeEvent::Received(Err(e)) => {
            &&& after == before
            &&& buf_after == buf_before
            &&& action == HandshakeAction::Fail(Error::Io(e))
        },
        HandshakeEvent::Received(Ok(d)) => fed(before, after, buf_before, buf_after, d, action),
        HandshakeEvent::Expired(Ok(d)) => fed(before, after, buf_before, buf_after, d, action),
        HandshakeEvent::Expired(Err(_)) => exists|mid: QuicheConnection|
            {
                &&& #[trigger] quic::on_timeout_outcome(before, mid)
                &&& resumed(mid, after, buf_before, buf_after, action)
            },
    }
}

/// What to do once the connection was asked for a packet, given what it answered
/// and what it says of itself.
pub fn on_send(
    result: Result<(usize, SendInfo), QuicheError>,
    closed: bool,
    established: bool,
    timeout: Option<Duration>,
) -> (action: HandshakeAction)
    ensures
        action == send_action(result, closed, established, timeout),
{
    match result {
        Ok((len, info)) => HandshakeAction::Send { len, info },
        Err(QuicheError::Done) => {
            if closed {
                HandshakeAction::Fail(Error::Quiche(QuicheError::InvalidState))
            } else if established {
                HandshakeAction::Established
            } else {
                HandshakeAction::Receive(timeout)
            }
        },
        Err(e) => HandshakeAction::Fail(Error::Quiche(e)),
    }
}

impl Handshake {
    /// Asks the connection for a packet.
    fn pump(&mut self, buffer: &mut [u8]) -> (action: HandshakeAction)
        ensures
            pumped(old(self).session, final(self).session, old(buffer)@, final(buffer)@, action),
            final(buffer)@.len() == old(buffer)@.len(),
            action matches HandshakeAction::Send { len, info } ==> 0 < len <= old(buffer)@.len(),
            old(buffer)@.len() == 0 ==> action == HandshakeAction::Fail(
                Error::Quiche(QuicheError::BufferTooShort),
            ),
            old(buffer)@.len() > 0 && quic::connection_closed(old(self).session) ==> action
                == HandshakeAction::Fail(Error::Quiche(QuicheError::InvalidState)),
    {
        let result = self.session.send(buffer);
        let closed = self.session.is_closed();
        let established = self.session.is_established();
        let timeout = self.session.timeout();
        on_send(result, closed, established, timeout)
    }

    /// Goes on after the connection took in what came from outside.
    fn resume(&mut self, buffer: &mut [u8]) -> (action: HandshakeAction)
        ensures
            resumed(old(self).session, final(self).session, old(buffer)@, final(buffer)@, action),
            final(buffer)@.len() == old(buffer)@.len(),
            action matches HandshakeAction::Send { len, info } ==> 0 < len <= old(buffer)@.len(),
    {
        if self.session.is_closed() {
            HandshakeAction::Fail(Error::Quiche(QuicheError::InvalidState))
        } else {
            self.pump(buffer)
        }
    }

    /// Feeds a datagram to the connection, and goes on.
    fn feed(&mut self, buffer: &mut [u8], datagram: Datagram) -> (action: HandshakeAction)
        requires
            datagram.len <= old(buffer)@.len(),
        ensures
            fed(
                old(self).session,
                final(self).session,
                old(buffer)@,
                final(buffer)@,
                datagram,
                action,
            ),
            final(buffer)@.len() == old(buffer)@.len(),
            action matches HandshakeAction::Send { len, info } ==> 0 < len <= old(buffer)@.len(),
            datagram.len == 0 ==> action == HandshakeAction::Fail(
                Error::Quiche(QuicheError::BufferTooShort),
            ),
    {
        match datagram::receive(&mut self.session, buffer, datagram) {
            Ok(_) => self.resume(buffer),
            Err(e) => HandshakeAction::Fail(e),
        }
    }

    /// Takes the handshake one step further. The datagram of an event lies at the
    /// front of `buffer`, and so does the one that the action says to send.
    pub fn step(&mut self, buffer: &mut [u8], event: HandshakeEvent) -> (action: HandshakeAction)
        requires
            event matches HandshakeEvent::Received(Ok(d)) ==> d.len <= old(buffer)@.len(),
            event matches HandshakeEvent::Expired(Ok(d)) ==> d.len <= old(buffer)@.len(),
        ensures
            handshake_step(
                old(self).session,
                final(self).session,
                old(buffer)@,
                final(buffer)@,
                event,
                action,
            ),
            final(buffer)@.len() == old(buffer)@.len(),
            action matches HandshakeAction::Send { len, info } ==> 0 < len <= old(buffer)@.len(),
            event.asks() && old(buffer)@.len() == 0 ==> action == HandshakeAction::Fail(
                Error::Quiche(QuicheError::BufferTooShort),
            ),
            event.asks() && old(buffer)@.len() > 0 && quic::connection_closed(old(self).session)
                ==> action == HandshakeAction::Fail(Error::Quiche(QuicheError::InvalidState)),
            event matches HandshakeEvent::Received(Ok(d)) && d.len == 0 ==> action
                == HandshakeAction::Fail(Error::Quiche(QuicheError::BufferTooShort)),
            event matches HandshakeEvent::Expired(Ok(d)) && d.len == 0 ==> action
                == HandshakeAction::Fail(Error::Quiche(QuicheError::BufferTooShort)),
            event matches HandshakeEvent::Expired(Err(_)) && quic::connection_closed(
                old(self).session,
            ) ==> action == HandshakeAction::Fail(Error::Quiche(QuicheError::InvalidState)),
    {
        match event {
            HandshakeEvent::Begin => self.pump(buffer),
            HandshakeEvent::Sent(Ok(_)) => self.pump(buffer),
            HandshakeEvent::Sent(Err(e)) => HandshakeAction::Fail(Error::Io(e)),
            HandshakeEvent::Received(Err(e)) => HandshakeAction::Fail(Error::Io(e)),
            HandshakeEvent::Received(Ok(d)) => self.feed(buffer, d),
            HandshakeEvent::Expired(Ok(d)) => self.feed(buffer, d),
            HandshakeEvent::Expired(Err(_)) => {
                self.session.on_timeout();
                self.resume(buffer)
            },
        }
    }

    /// The connection that a complete handshake leaves. No stream has been
    /// waited for, and the HTTP/3 layer may be asked for events at once.
    pub fn into_connection(self) -> (conn: Connection)
        ensures
            conn.session == self.session,
            conn.stream_io@ == Map::<u64, Readiness>::empty(),
            conn.h3_io == (Readiness { ready: true, waker: None }),
            conn.wf(),
    {
        Connection {
            session: self.session,
            stream_io: StreamIo::new(),
            h3_io: Readiness::new(true),
        }
    }
}

} // verus!
