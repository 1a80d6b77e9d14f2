//! A QUIC connection and those who wait for it. What the connection does with
//! its socket is laid out in steps: each says what to do next, and the step
//! after it is told how that went.
use crate::address::Endpoint;
use crate::datagram;
use crate::datagram::Datagram;
use crate::error;
use crate::error::Error;
use crate::h3;
use crate::h3::H3Connection;
use crate::handshake::Handshake;
use crate::http3;
use crate::quic;
use crate::readiness;
use crate::readiness::Readiness;
use crate::readiness::StreamIo;
use quiche::h3::Config as QuicheH3Config;
use quiche::Config as QuicheConfig;
use quiche::Connection as QuicheConnection;
use quiche::ConnectionId;
use quiche::Error as QuicheError;
use quiche::RecvInfo;
use quiche::SendInfo;
use std::io::Error as IoError;
use std::io::ErrorKind;
use std::task::Waker;
use std::time::Duration;
use vstd::prelude::*;

verus! {

/// An established connection.
pub struct Connection {
    pub session: QuicheConnection,
    /// Those who wait for data of a stream.
    pub stream_io: StreamIo,
    /// The one who waits for an event of the HTTP/3 layer.
    pub h3_io: Readiness,
}

/// What has happened since the last step of a flush.
pub enum WriteEvent {
    /// Nothing yet: this is the first step.
    Begin,
    /// A datagram was sent, or could not be.
    Sent(Result<usize, IoError>),
}

impl WriteEvent {
    /// The event leads to the question whether there is a packet to send.
    pub open spec fn asks(self) -> bool {
        match self {
            WriteEvent::Begin => true,
            WriteEvent::Sent(result) => result is Ok,
        }
    }
}

/// The next step of a flush.
pub enum WriteAction {
    /// Send the front of the buffer.
    Send { len: usize, info: SendInfo },
    /// The flush is over.
    Return(Result<(), Error>),
}

/// What a flush is made for.
pub enum FlushFor {
    /// The stream had no room: try again afterwards.
    Retry,
    /// The stream took this many bytes: report it afterwards.
    Report(usize),
}

/// What has happened since the last step of sending on a stream.
pub enum StreamSendEvent {
    /// Nothing yet: this is the first step.
    Begin,
    /// A flush is over.
    Flushed(FlushFor, Result<(), Error>),
}

/// The next step of sending on a stream.
pub enum StreamSendAction {
    /// Flush.
    Flush(FlushFor),
    /// Sending is over.
    Return(Result<usize, Error>),
}

/// The next step of reading from a stream.
pub enum StreamRecvAction {
    /// Wait until the stream is ready, then try again.
    Wait,
    /// Reading is over.
    Return(Result<(usize, bool), Error>),
}

/// What has happened since the last step of closing.
pub enum CloseEvent {
    /// Nothing yet: this is the first step.
    Begin,
    /// The flush is over.
    Flushed(Result<(), Error>),
}

/// The next step of closing.
pub enum CloseAction {
    /// Flush.
    Flush,
    /// Closing is over.
    Return(Result<(), Error>),
}

/// What has happened since the last step of the read loop.
pub enum ReadEvent {
    /// Nothing yet: this is the first step.
    Begin,
    /// A datagram came in, or the socket failed.
    Received(Result<Datagram, IoError>),
    /// The timer fired and the wait for a datagram was called off. A datagram
    /// may have come in all the same.
    Expired(Result<Datagram, IoError>),
    /// Nobody holds the connection any more.
    Exit,
}

/// The next step of the read loop.
pub enum ReadAction {
    /// Wait for a datagram. If there is a limit, wait for no longer than this,
    /// and stop when nobody holds the connection any more.
    Receive(Option<Duration>),
    /// The loop is over.
    Return(Result<(), Error>),
}

/// What a flush does once the connection was asked for a packet.
pub open spec fn write_action(result: Result<(usize, SendInfo), QuicheError>) -> WriteAction {
    match result {
        Ok(packet) => WriteAction::Send { len: packet.0, info: packet.1 },
        Err(QuicheError::Done) => WriteAction::Return(Ok(())),
        Err(e) => WriteAction::Return(Err(Error::Quiche(e))),
    }
}

/// One step of a flush.
pub open spec fn write_step(
    before: QuicheConnection,
    after: QuicheConnection,
    buf_before: Seq<u8>,
    buf_after: Seq<u8>,
    event: WriteEvent,
    action: WriteAction,
) -> bool {
    match event {
        WriteEvent::Sent(Err(e)) => {
            &&& after == before
            &&& buf_after == buf_before
            &&& action == WriteAction::Return(Err(Error::Io(e)))
        },
        _ => exists|r: Result<(usize, SendInfo), QuicheError>|
            {
                &&& #[trigger] quic::send_outcome(before, after, buf_before, buf_after, r)
                &&& quic::closing_kept(before, after)
                &&& action == write_action(r)
            },
    }
}

/// What to do once data was offered to a stream.
pub open spec fn stream_send_action(result: Result<usize, QuicheError>) -> StreamSendAction {
    match result {
        Ok(n) => StreamSendAction::Flush(FlushFor::Report(n)),
        Err(QuicheError::Done) => StreamSendAction::Flush(FlushFor::Retry),
        Err(e) => StreamSendAction::Return(Err(Error::Quiche(e))),
    }
}

/// Data was offered to a stream, and this follows from it.
pub open spec fn offered(
    before: QuicheConnection,
    after: QuicheConnection,
    stream_id: u64,
    data: Seq<u8>,
    fin: bool,
    action: StreamSendAction,
) -> bool {
    exists|r: Result<usize, QuicheError>|
        {
            &&& #[trigger] quic::stream_send_outcome(before, after, stream_id, data, fin, r)
            &&& quic::closing_kept(before, after)
            &&& action == stream_send_action(r)
            &&& r matches Ok(n) ==> n <= data.len() && (n == 0 ==> data.len() == 0)
        }
}

/// One step of sending on a stream.
pub open spec fn stream_send_step(
    before: QuicheConnection,
    after: QuicheConnection,
    stream_id: u64,
    data: Seq<u8>,
    fin: bool,
    event: StreamSendEvent,
    action: StreamSendAction,
) -> bool {
    match event {
        StreamSendEvent::Begin => offered(before, after, stream_id, data, fin, action),
        StreamSendEvent::Flushed(purpose, result) => match result {
            Ok(_) => match purpose {
                FlushFor::Retry => offered(before, after, stream_id, data, fin, action),
                FlushFor::Report(n) => after == before && action == StreamSendAction::Return(Ok(n)),
            },
            Err(e) => after == before && action == StreamSendAction::Return(Err(e)),
        },
    }
}

/// What to do once a stream was asked for data.
pub open spec fn stream_recv_action(result: Result<(usize, bool), QuicheError>) -> StreamRecvAction {
    match result {
        Ok(read) => StreamRecvAction::Return(Ok(read)),
        Err(QuicheError::Done) => StreamRecvAction::Wait,
        Err(e) => StreamRecvAction::Return(Err(Error::Quiche(e))),
    }
}

/// A stream was asked for data, and this follows from it.
pub open spec fn asked(
    before: QuicheConnection,
    after: QuicheConnection,
    stream_id: u64,
    out_before: Seq<u8>,
    out_after: Seq<u8>,
    action: StreamRecvAction,
) -> bool {
    exists|r: Result<(usize, bool), QuicheError>|
        {
            &&& #[trigger] quic::stream_recv_outcome(
                before,
                after,
                stream_id,
                out_before,
                out_after,
                r,
            )
            &&& quic::closing_kept(before, after)
            &&& action == stream_recv_action(r)
            &&& r matches Ok(read) ==> read.0 <= out_after.len()
        }
}

/// What to do once the connection was asked to close.
pub open spec fn close_action(result: Result<(), QuicheError>) -> CloseAction {
    match result {
        Ok(_) => CloseAction::Flush,
        Err(e) => CloseAction::Return(Err(Error::Quiche(e))),
    }
}

/// One step of closing. How the flush goes does not matter.
pub open spec fn close_step(
    before: QuicheConnection,
    after: QuicheConnection,
    app: bool,
    code: u64,
    reason: Seq<u8>,
    event: CloseEvent,
    action: CloseAction,
) -> bool {
    match event {
        CloseEvent::Begin => exists|r: Result<(), QuicheError>|
            {
                &&& #[trigger] quic::close_outcome(before, after, app, code, reason, r)
                &&& r is Err <==> quic::connection_closing(before)
                &&& r matches Err(e) ==> e == QuicheError::Done && after == before
                &&& r is Ok ==> quic::connection_closing(after)
                &&& action == close_action(r)
            },
        CloseEvent::Flushed(_) => after == before && action == CloseAction::Return(Ok(())),
    }
}

/// What is reported after a flush that was made for a value: the value, or why
/// the flush failed.
pub open spec fn flush_result<T>(value: T, flushed: Result<(), Error>) -> Result<T, Error> {
    match flushed {
        Ok(_) => Ok(value),
        Err(e) => Err(e),
    }
}

/// The next step of the read loop once a datagram was fed to the connection.
pub open spec fn packet_action(result: Result<(), Error>, timeout: Option<Duration>) -> ReadAction {
    match result {
        Ok(_) => ReadAction::Receive(timeout),
        Err(e) => ReadAction::Return(Err(e)),
    }
}

/// The next step of the read loop once the connection acted on its timer.
pub open spec fn timer_action(closed: bool, timeout: Option<Duration>) -> ReadAction {
    if closed {
        ReadAction::Return(Ok(()))
    } else {
        ReadAction::Receive(timeout)
    }
}

/// The wakers of the tasks that a packet may be of interest to: those that wait
/// for streams which are readable now, and the one that waits for an event of
/// the HTTP/3 layer.
pub open spec fn interested(conn: Connection) -> Seq<Waker> {
    let readers = readiness::waiting(conn.stream_io@, quic::readable_streams(conn.session));
    match conn.h3_io.waker {
        Some(waker) => readers.push(waker),
        None => readers,
    }
}

/// The flags were raised after a packet came in, and these wakers handed out.
pub open spec fn roused(before: Connection, after: Connection, woken: Seq<Waker>) -> bool {
    &&& after.session == before.session
    &&& after.stream_io@ == (if before.stream_io@ == Map::<u64, Readiness>::empty() {
        before.stream_io@
    } else {
        readiness::raised(before.stream_io@, quic::readable_streams(before.session))
    })
    &&& after.h3_io == (Readiness { ready: true, waker: None })
    &&& woken == interested(before)
}

/// A datagram was fed to the connection in the read loop, and this follows.
pub open spec fn read_packet(
    before: Connection,
    after: Connection,
    buf_before: Seq<u8>,
    buf_after: Seq<u8>,
    datagram: Datagram,
    action: ReadAction,
    woken: Seq<Waker>,
) -> bool {
    exists|mid: Connection, r: Result<(), Error>, t: Option<Duration>|
        {
            &&& #[trigger] datagram::received(
                before.session,
                mid.session,
                buf_before,
                buf_after,
                datagram,
                r,
            )
            &&& mid == (Connection { session: mid.session, ..before })
            &&& match r {
                Ok(_) => roused(mid, after, woken),
                Err(_) => after == mid && woken == Seq::<Waker>::empty(),
            }
            &&& #[trigger] quic::timeout_outcome(after.session, t)
            &&& action == packet_action(r, t)
        }
}

/// One step of the read loop.
pub open spec fn read_step(
    before: Connection,
    after: Connection,
    buf_before: Seq<u8>,
    buf_after: Seq<u8>,
    event: ReadEvent,
    action: ReadAction,
    woken: Seq<Waker>,
) -> bool {
    match event {
        ReadEvent::Begin => {
            &&& after == before
            &&& buf_after == buf_before
            &&& action matches ReadAction::Receive(t) && quic::timeout_outcome(after.session, t)
            &&& woken == Seq::<Waker>::empty()
        },
        ReadEvent::Received(Ok(d)) => read_packet(
            before,
            after,
            buf_before,
            buf_after,
            d,
            action,
            woken,
        ),
        ReadEvent::Expired(Ok(d)) => read_packet(
            before,
            after,
            buf_before,
            buf_after,
            d,
            action,
            woken,
        ),
        ReadEvent::Received(Err(e)) => {
            &&& after == before
            &&& buf_after == buf_before
            &&& action == ReadAction::Return(Err(Error::Io(e)))
            &&& woken == Seq::<Waker>::empty()
        },
        ReadEvent::Expired(Err(_)) => {
            &&& quic::on_timeout_outcome(before.session, after.session)
            &&& quic::closing_kept(before.session, after.session)
            &&& after == (Connection { session: after.session, ..before })
            &&& buf_after == buf_before
            &&& exists|t: Option<Duration>|
                {
                    &&& #[trigger] quic::timeout_outcome(after.session, t)
                    &&& action == timer_action(quic::connection_closed(after.session), t)
                }
            &&& woken == Seq::<Waker>::empty()
        },
        ReadEvent::Exit => {
            &&& after == before
            &&& buf_after == buf_before
            &&& action == ReadAction::Return(Ok(()))
            &&& woken == Seq::<Waker>::empty()
        },
    }
}

/// What a flush does, given the connection's answer to being asked for a packet.
pub fn on_send(result: Result<(usize, SendInfo), QuicheError>) -> (action: WriteAction)
    ensures
        action == write_action(result),
{
    match result {
        Ok((len, info)) => WriteAction::Send { len, info },
        Err(QuicheError::Done) => WriteAction::Return(Ok(())),
        Err(e) => WriteAction::Return(Err(Error::Quiche(e))),
    }
}

/// What to do, given a stream's answer to an offer of data.
pub fn on_stream_send(result: Result<usize, QuicheError>) -> (action: StreamSendAction)
    ensures
        action == stream_send_action(result),
{
    match result {
        Ok(n) => StreamSendAction::Flush(FlushFor::Report(n)),
        Err(QuicheError::Done) => StreamSendAction::Flush(FlushFor::Retry),
        Err(e) => StreamSendAction::Return(Err(Error::Quiche(e))),
    }
}

/// What to do, given a stream's answer to being asked for data.
pub fn on_stream_recv(result: Result<(usize, bool), QuicheError>) -> (action: StreamRecvAction)
    ensures
        action == stream_recv_action(result),
{
    match result {
        Ok(read) => StreamRecvAction::Return(Ok(read)),
        Err(QuicheError::Done) => StreamRecvAction::Wait,
        Err(e) => StreamRecvAction::Return(Err(Error::Quiche(e))),
    }
}

/// What to do, given the connection's answer to being asked to close.
pub fn on_close(result: Result<(), QuicheError>) -> (action: CloseAction)
    ensures
        action == close_action(result),
{
    match result {
        Ok(_) => CloseAction::Flush,
        Err(e) => CloseAction::Return(Err(Error::Quiche(e))),
    }
}

/// What to report after a flush that was made for `value`.
pub fn on_flushed<T>(value: T, flushed: Result<(), Error>) -> (out: Result<T, Error>)
    ensures
        out == flush_result(value, flushed),
{
    match flushed {
        Ok(_) => Ok(value),
        Err(e) => Err(e),
    }
}

/// The next step of the read loop, given how a datagram was taken.
pub fn on_packet(result: Result<(), Error>, timeout: Option<Duration>) -> (action: ReadAction)
    ensures
        action == packet_action(result, timeout),
{
    match result {
        Ok(_) => ReadAction::Receive(timeout),
        Err(e) => ReadAction::Return(Err(e)),
    }
}

/// The next step of the read loop, given what the timer left of the connection.
pub fn on_timer(closed: bool, timeout: Option<Duration>) -> (action: ReadAction)
    ensures
        action == timer_action(closed, timeout),
{
    if closed {
        ReadAction::Return(Ok(()))
    } else {
        ReadAction::Receive(timeout)
    }
}

impl Connection {
    /// Nobody waits for what is there already.
    pub open spec fn wf(self) -> bool {
        self.stream_io.wf() && self.h3_io.wf()
    }

    /// The address to bind and the address to connect to, given the first address
    /// that a name resolves to, if there is one.
    pub fn connect(resolved: Result<Option<Endpoint>, IoError>) -> (out: Result<
        (Endpoint, Endpoint),
        Error,
    >)
        ensures
            match resolved {
                Ok(Some(peer)) => out matches Ok(ends) && ends.1 == peer && ends.0.same_family(peer)
                    && ends.0.is_unspecified(),
                Ok(None) => out matches Err(Error::Io(e)) && error::made_of_message(
                    e,
                    ErrorKind::Other,
                    "empty address"@,
                ),
                Err(e) => out matches Err(Error::Io(f)) && f == e,
            },
    {
        match resolved {
            Ok(Some(peer)) => Ok((peer.bind_address(), peer)),
            Ok(None) => Err(Error::Io(error::io_error_of_message(ErrorKind::Other, "empty address"))),
            Err(e) => Err(Error::Io(e)),
        }
    }

    /// Starts the handshake of a client on a path, which goes from its address
    /// `to` to its address `from`.
    pub fn connect_with_addr(
        server_name: Option<&str>,
        scid: &ConnectionId<'_>,
        path: &RecvInfo,
        config: &mut QuicheConfig,
    ) -> (out: Result<Handshake, Error>)
        requires
            quic::settings_fit(*old(config)),
        ensures
            exists|r: Result<QuicheConnection, QuicheError>|
                {
                    &&& #[trigger] quic::connect_outcome(
                        quic::name_of(server_name),
                        *scid,
                        *path,
                        *old(config),
                        *final(config),
                        r,
                    )
                    &&& match r {
                        Ok(conn) => out matches Ok(handshake) && handshake.session == conn,
                        Err(e) => out matches Err(error) && error == Error::Quiche(e),
                    }
                },
            out matches Ok(handshake) ==> !quic::connection_established(handshake.session)
                && !quic::connection_closing(handshake.session),
            quic::settings_fit(*final(config)),
    {
        match quic::connect(server_name, scid, path, config) {
            Ok(session) => Ok(Handshake { session }),
            Err(e) => Err(Error::Quiche(e)),
        }
    }

    /// The QUIC connection.
    pub fn session(&self) -> (session: &QuicheConnection)
        ensures
            *session == self.session,
    {
        &self.session
    }

    /// Takes a flush one step further: hands the connection's packets to the
    /// socket until there are none left. The datagram that the action says to
    /// send lies at the front of `buffer`.
    pub fn write_io(&mut self, buffer: &mut [u8], event: WriteEvent) -> (action: WriteAction)
        ensures
            write_step(
                old(self).session,
                final(self).session,
                old(buffer)@,
                final(buffer)@,
                event,
                action,
            ),
            *final(self) == (Connection { session: final(self).session, ..*old(self) }),
            final(buffer)@.len() == old(buffer)@.len(),
            action matches WriteAction::Send { len, info } ==> 0 < len <= old(buffer)@.len(),
            event.asks() && old(buffer)@.len() == 0 ==> action == WriteAction::Return(
                Err(Error::Quiche(QuicheError::BufferTooShort)),
            ),
            event.asks() && old(buffer)@.len() > 0 && (quic::connection_closed(old(self).session)
                || quic::connection_draining(old(self).session)) ==> action == WriteAction::Return(
                Ok(()),
            ) && *final(self) == *old(self),
    {
        match event {
            WriteEvent::Sent(Err(e)) => WriteAction::Return(Err(Error::Io(e))),
            _ => {
                let result = self.session.send(buffer);
                on_send(result)
            },
        }
    }

    /// Takes the sending of data on a stream one step further: offers the data to
    /// the stream until it takes some of it, and flushes after each offer.
    pub fn stream_send(
        &mut self,
        stream_id: u64,
        buf: &[u8],
        fin: bool,
        event: StreamSendEvent,
    ) -> (action: StreamSendAction)
        ensures
            stream_send_step(
                old(self).session,
                final(self).session,
                stream_id,
                buf@,
                fin,
                event,
                action,
            ),
            *final(self) == (Connection { session: final(self).session, ..*old(self) }),
    {
        match event {
            StreamSendEvent::Flushed(_, Err(e)) => StreamSendAction::Return(Err(e)),
            StreamSendEvent::Flushed(FlushFor::Report(n), Ok(_)) => StreamSendAction::Return(Ok(n)),
            _ => {
                let result = self.session.stream_send(stream_id, buf, fin);
                on_stream_send(result)
            },
        }
    }

    /// Asks a stream for data. If there is none, the stream gets a slot to wait
    /// on.
    pub fn stream_recv(&mut self, stream_id: u64, out: &mut [u8]) -> (action: StreamRecvAction)
        ensures
            asked(
                old(self).session,
                final(self).session,
                stream_id,
                old(out)@,
                final(out)@,
                action,
            ),
            final(out)@.len() == old(out)@.len(),
            action matches StreamRecvAction::Return(Ok(read)) ==> read.0 <= old(out)@.len(),
            final(self).stream_io@ == (if action is Wait && !old(self).stream_io@.dom().contains(
                stream_id,
            ) {
                old(self).stream_io@.insert(stream_id, Readiness { ready: false, waker: None })
            } else {
                old(self).stream_io@
            }),
            readiness::slots_kept(old(self).stream_io@, final(self).stream_io@),
            final(self).h3_io == old(self).h3_io,
            old(self).wf() ==> final(self).wf(),
    {
        let result = self.session.stream_recv(stream_id, out);
        let action = on_stream_recv(result);
        if let StreamRecvAction::Wait = &action {
            self.stream_io.register(stream_id);
        }
        action
    }

    /// Whether a stream is ready. If it is not, the task behind `waker` waits for
    /// it from now on.
    pub fn poll_stream(&mut self, stream_id: u64, waker: &Waker) -> (ready: bool)
        requires
            old(self).stream_io@.dom().contains(stream_id),
        ensures
            ready == old(self).stream_io@[stream_id].ready,
            ready ==> final(self).stream_io@ == old(self).stream_io@,
            final(self).stream_io@ == old(self).stream_io@.insert(
                stream_id,
                final(self).stream_io@[stream_id],
            ),
            final(self).stream_io@[stream_id].ready == ready,
            !ready ==> (final(self).stream_io@[stream_id].waker matches Some(w)
                && readiness::same_task(w, *waker)),
            readiness::slots_kept(old(self).stream_io@, final(self).stream_io@),
            final(self).session == old(self).session,
            final(self).h3_io == old(self).h3_io,
            old(self).wf() ==> final(self).wf(),
    {
        self.stream_io.poll(stream_id, waker)
    }

    /// Whether the HTTP/3 layer may be asked for events. If not, the task behind
    /// `waker` waits for it from now on.
    pub fn poll_h3(&mut self, waker: &Waker) -> (ready: bool)
        ensures
            ready == old(self).h3_io.ready,
            ready ==> *final(self) == *old(self),
            *final(self) == (Connection { h3_io: final(self).h3_io, ..*old(self) }),
            final(self).h3_io.ready == ready,
            !ready ==> (final(self).h3_io.waker matches Some(w) && readiness::same_task(w, *waker)),
            old(self).wf() ==> final(self).wf(),
    {
        self.h3_io.poll(waker)
    }

    /// Whether the connection is closed or on its way to it, for whatever reason.
    pub fn is_closing(&self) -> (closing: bool)
        ensures
            closing == quic::connection_closing(self.session),
    {
        self.session.is_closed() || self.session.is_draining()
            || self.session.local_error().is_some()
    }

    /// Takes the closing of the connection one step further: asks the connection
    /// to close, and flushes, so that the peer learns of it.
    pub fn close(&mut self, app: bool, err: u64, reason: &[u8], event: CloseEvent) -> (action:
        CloseAction)
        requires
            event is Begin ==> err <= quic::MAX_VARINT || quic::connection_closing(
                old(self).session,
            ),
        ensures
            close_step(
                old(self).session,
                final(self).session,
                app,
                err,
                reason@,
                event,
                action,
            ),
            event is Begin ==> action == (if quic::connection_closing(old(self).session) {
                CloseAction::Return(Err(Error::Quiche(QuicheError::Done)))
            } else {
                CloseAction::Flush
            }),
            event is Begin && quic::connection_closing(old(self).session) ==> *final(self) == *old(
                self,
            ),
            event is Begin ==> quic::connection_closing(final(self).session),
            *final(self) == (Connection { session: final(self).session, ..*old(self) }),
    {
        match event {
            CloseEvent::Begin => {
                let result = self.session.close(app, err, reason);
                on_close(result)
            },
            CloseEvent::Flushed(_) => CloseAction::Return(Ok(())),
        }
    }

    /// Raises the flags after a packet came in, and hands out the wakers of the
    /// tasks to wake.
    fn wakeup(&mut self) -> (woken: Vec<Waker>)
        ensures
            roused(*old(self), *final(self), woken@),
            old(self).wf() ==> final(self).wf(),
    {
        let ids: Vec<u64> = quic::readable(&self.session);
        let mut woken: Vec<Waker> = self.stream_io.raise(&ids);
        if let Some(waker) = self.h3_io.raise() {
            woken.push(waker);
        }
        woken
    }

    /// Feeds a datagram to the connection in the read loop.
    fn read_packet(&mut self, buffer: &mut [u8], datagram: Datagram) -> (out: (
        ReadAction,
        Vec<Waker>,
    ))
        requires
            datagram.len <= old(buffer)@.len(),
        ensures
            read_packet(
                *old(self),
                *final(self),
                old(buffer)@,
                final(buffer)@,
                datagram,
                out.0,
                out.1@,
            ),
            datagram.len == 0 ==> out.0 == ReadAction::Return(
                Err(Error::Quiche(QuicheError::BufferTooShort)),
            ),
            old(self).wf() ==> final(self).wf(),
    {
        let result = datagram::receive(&mut self.session, buffer, datagram);
        let ghost mid = *self;
        assert(datagram::received(
            old(self).session,
            mid.session,
            old(buffer)@,
            buffer@,
            datagram,
            result,
        ));
        let woken = match &result {
            Ok(_) => self.wakeup(),
            Err(_) => Vec::new(),
        };
        let timeout = self.session.timeout();
        (on_packet(result, timeout), woken)
    }

    /// Takes the read loop one step further: feeds datagrams and timers to the
    /// connection, and tells whom to wake. The datagram of an event lies at the
    /// front of `buffer`.
    pub fn read_loop(&mut self, buffer: &mut [u8], event: ReadEvent) -> (out: (
        ReadAction,
        Vec<Waker>,
    ))
        requires
            event matches ReadEvent::Received(Ok(d)) ==> d.len <= old(buffer)@.len(),
            event matches ReadEvent::Expired(Ok(d)) ==> d.len <= old(buffer)@.len(),
        ensures
            read_step(
                *old(self),
                *final(self),
                old(buffer)@,
                final(buffer)@,
                event,
                out.0,
                out.1@,
            ),
            readiness::slots_kept(old(self).stream_io@, final(self).stream_io@),
            old(self).wf() ==> final(self).wf(),
            event is Begin && quic::connection_closed(old(self).session) ==> out.0
                == ReadAction::Receive(None),
            event matches ReadEvent::Received(Ok(d)) && d.len == 0 ==> out.0 == ReadAction::Return(
                Err(Error::Quiche(QuicheError::BufferTooShort)),
            ),
            event matches ReadEvent::Expired(Ok(d)) && d.len == 0 ==> out.0 == ReadAction::Return(
                Err(Error::Quiche(QuicheError::BufferTooShort)),
            ),
            event matches ReadEvent::Expired(Err(_)) && quic::connection_closed(old(self).session)
                ==> out.0 == ReadAction::Return(Ok(())),
    {
        match event {
            ReadEvent::Begin => {
                let timeout = self.session.timeout();
                (ReadAction::Receive(timeout), Vec::new())
            },
            ReadEvent::Received(Ok(d)) => self.read_packet(buffer, d),
            ReadEvent::Expired(Ok(d)) => self.read_packet(buffer, d),
            ReadEvent::Received(Err(e)) => (ReadAction::Return(Err(Error::Io(e))), Vec::new()),
            ReadEvent::Expired(Err(_)) => {
                self.session.on_timeout();
                let closed = self.session.is_closed();
                let timeout = self.session.timeout();
                (on_timer(closed, timeout), Vec::new())
            },
            ReadEvent::Exit => (ReadAction::Return(Ok(())), Vec::new()),
        }
    }

    /// Opens the HTTP/3 layer of the connection.
    pub fn h3(&mut self, config: &QuicheH3Config) -> (out: Result<H3Connection, Error>)
        requires
            http3::h3_settings_fit(*config),
        ensures
            h3::opened(old(self).session, final(self).session, *config, out),
            *final(self) == (Connection { session: final(self).session, ..*old(self) }),
    {
        H3Connection::new_with_transport(&mut self.session, config)
    }
}

} // verus!
