//! HTTP/3 on a QUIC connection.
use crate::connection;
use crate::connection::Connection;
use crate::error::Error;
use crate::http3;
use crate::quic;
use quiche::h3::Config as QuicheH3Config;
use quiche::h3::Connection as QuicheH3Connection;
use quiche::h3::Error as QuicheH3Error;
use quiche::h3::Event as H3Event;
use quiche::h3::Header as H3Header;
use quiche::Connection as QuicheConnection;
use vstd::prelude::*;

verus! {

/// The HTTP/3 layer of a connection.
pub struct H3Connection {
    pub h3: QuicheH3Connection,
}

/// What has happened since the last step of sending something of which a value is
/// reported.
pub enum SendEvent<T> {
    /// Nothing yet: this is the first step.
    Begin,
    /// The flush that was made for this value is over.
    Flushed(T, Result<(), Error>),
}

/// The next step of sending something of which a value is reported.
pub enum SendAction<T> {
    /// Flush, and come back with this value.
    Flush(T),
    /// Sending is over.
    Return(Result<T, Error>),
}

/// What has happened since the last step of waiting for an event.
pub enum NextEvent {
    /// Nothing yet: this is the first step.
    Begin,
    /// The HTTP/3 layer may be asked for events.
    Ready,
    /// A flush is over.
    Flushed(Result<(), Error>),
}

/// The next step of waiting for an event.
pub enum NextAction {
    /// Wait until the HTTP/3 layer may be asked for events.
    Wait,
    /// Flush.
    Flush,
    /// There is an event, or the connection has failed.
    Return(Result<(u64, H3Event), Error>),
}

/// What is made of an answer of the HTTP/3 layer.
pub open spec fn h3_result<T>(result: Result<T, QuicheH3Error>) -> Result<T, Error> {
    match result {
        Ok(value) => Ok(value),
        Err(e) => Err(Error::QuicheH3(e)),
    }
}

/// The HTTP/3 layer of a connection was opened, or could not be.
pub open spec fn opened(
    before: QuicheConnection,
    after: QuicheConnection,
    config: QuicheH3Config,
    out: Result<H3Connection, Error>,
) -> bool {
    exists|r: Result<QuicheH3Connection, QuicheH3Error>|
        {
            &&& #[trigger] http3::with_transport_outcome(before, after, config, r)
            &&& quic::closing_kept(before, after)
            &&& match r {
                Ok(h3) => out matches Ok(conn) && conn.h3 == h3,
                Err(e) => out matches Err(error) && error == Error::QuicheH3(e),
            }
        }
}

/// What to do once the HTTP/3 layer was given something to send: only what it took
/// is flushed.
pub open spec fn send_action<T>(result: Result<T, QuicheH3Error>) -> SendAction<T> {
    match result {
        Ok(value) => SendAction::Flush(value),
        Err(e) => SendAction::Return(Err(Error::QuicheH3(e))),
    }
}

/// One step of sending a request.
pub open spec fn request_step(
    before: (QuicheH3Connection, QuicheConnection),
    after: (QuicheH3Connection, QuicheConnection),
    headers: Seq<H3Header>,
    fin: bool,
    event: SendEvent<u64>,
    action: SendAction<u64>,
) -> bool {
    match event {
        SendEvent::Begin => exists|r: Result<u64, QuicheH3Error>|
            {
                &&& #[trigger] http3::send_request_outcome(before, after, headers, fin, r)
                &&& quic::closing_kept(before.1, after.1)
                &&& action == send_action(r)
            },
        SendEvent::Flushed(stream_id, flushed) => {
            &&& after == before
            &&& action == SendAction::Return(connection::flush_result(stream_id, flushed))
        },
    }
}

/// One step of sending a response.
pub open spec fn response_step(
    before: (QuicheH3Connection, QuicheConnection),
    after: (QuicheH3Connection, QuicheConnection),
    stream_id: u64,
    headers: Seq<H3Header>,
    fin: bool,
    event: SendEvent<()>,
    action: SendAction<()>,
) -> bool {
    match event {
        SendEvent::Begin => exists|r: Result<(), QuicheH3Error>|
            {
                &&& #[trigger] http3::send_response_outcome(
                    before,
                    after,
                    stream_id,
                    headers,
                    fin,
                    r,
                )
                &&& quic::closing_kept(before.1, after.1)
                &&& action == send_action(r)
            },
        SendEvent::Flushed(value, flushed) => {
            &&& after == before
            &&& action == SendAction::Return(connection::flush_result(value, flushed))
        },
    }
}

/// One step of sending body data.
pub open spec fn body_step(
    before: (QuicheH3Connection, QuicheConnection),
    after: (QuicheH3Connection, QuicheConnection),
    stream_id: u64,
    body: Seq<u8>,
    fin: bool,
    event: SendEvent<usize>,
    action: SendAction<usize>,
) -> bool {
    match event {
        SendEvent::Begin => exists|r: Result<usize, QuicheH3Error>|
            {
                &&& #[trigger] http3::send_body_outcome(before, after, stream_id, body, fin, r)
                &&& quic::closing_kept(before.1, after.1)
                &&& action == send_action(r)
                &&& r matches Ok(n) ==> n <= body.len() && stream_id % 4 == 0 && (body.len() == 0
                    ==> fin)
            },
        SendEvent::Flushed(n, flushed) => {
            &&& after == before
            &&& action == SendAction::Return(connection::flush_result(n, flushed))
        },
    }
}

/// What to do once the HTTP/3 layer was asked for an event.
pub open spec fn poll_action(result: Result<(u64, H3Event), QuicheH3Error>) -> NextAction {
    match result {
        Ok(event) => NextAction::Return(Ok(event)),
        Err(QuicheH3Error::Done) => NextAction::Flush,
        Err(e) => NextAction::Return(Err(Error::QuicheH3(e))),
    }
}

/// The HTTP/3 layer was asked for an event, and this follows from it.
pub open spec fn polled(
    before: (QuicheH3Connection, QuicheConnection),
    after: (QuicheH3Connection, QuicheConnection),
    action: NextAction,
) -> bool {
    exists|r: Result<(u64, H3Event), QuicheH3Error>|
        {
            &&& #[trigger] http3::poll_outcome(before, after, r)
            &&& quic::closing_kept(before.1, after.1)
            &&& action == poll_action(r)
        }
}

/// One step of waiting for an event.
pub open spec fn next_step(
    h3_before: H3Connection,
    h3_after: H3Connection,
    before: Connection,
    after: Connection,
    event: NextEvent,
    action: NextAction,
) -> bool {
    match event {
        NextEvent::Begin => {
            &&& h3_after == h3_before
            &&& after == before
            &&& action == NextAction::Wait
        },
        NextEvent::Ready => {
            &&& after == (Connection { session: after.session, ..before })
            &&& polled((h3_before.h3, before.session), (h3_after.h3, after.session), action)
        },
        NextEvent::Flushed(Err(e)) => {
            &&& h3_after == h3_before
            &&& after == before
            &&& action == NextAction::Return(Err(e))
        },
        NextEvent::Flushed(Ok(_)) => {
            &&& h3_after == h3_before
            &&& after == (Connection { h3_io: after.h3_io, ..before })
            &&& after.h3_io.ready == false
            &&& after.h3_io.waker == before.h3_io.waker
            &&& action == NextAction::Wait
        },
    }
}

/// Body data of a stream was asked for, and this follows from it.
pub open spec fn body_received(
    before: (QuicheH3Connection, QuicheConnection),
    after: (QuicheH3Connection, QuicheConnection),
    stream_id: u64,
    out_before: Seq<u8>,
    out_after: Seq<u8>,
    result: Result<usize, Error>,
) -> bool {
    exists|r: Result<usize, QuicheH3Error>|
        {
            &&& #[trigger] http3::recv_body_outcome(
                before,
                after,
                stream_id,
                out_before,
                out_after,
                r,
            )
            &&& quic::closing_kept(before.1, after.1)
            &&& result == h3_result(r)
        }
}

/// What to report, given an answer of the HTTP/3 layer.
pub fn on_h3<T>(result: Result<T, QuicheH3Error>) -> (out: Result<T, Error>)
    ensures
        out == h3_result(result),
{
    match result {
        Ok(value) => Ok(value),
        Err(e) => Err(Error::QuicheH3(e)),
    }
}

/// What to do, given the HTTP/3 layer's answer to something to send.
pub fn on_send<T>(result: Result<T, QuicheH3Error>) -> (action: SendAction<T>)
    ensures
        action == send_action(result),
{
    match result {
        Ok(value) => SendAction::Flush(value),
        Err(e) => SendAction::Return(Err(Error::QuicheH3(e))),
    }
}

/// What to do, given the HTTP/3 layer's answer to being asked for an event.
pub fn on_poll(result: Result<(u64, H3Event), QuicheH3Error>) -> (action: NextAction)
    ensures
        action == poll_action(result),
{
    match result {
        Ok(event) => NextAction::Return(Ok(event)),
        Err(QuicheH3Error::Done) => NextAction::Flush,
        Err(e) => NextAction::Return(Err(Error::QuicheH3(e))),
    }
}

impl H3Connection {
    /// Opens the HTTP/3 layer of a connection.
    pub fn new_with_transport(
        session: &mut QuicheConnection,
        config: &QuicheH3Config,
    ) -> (out: Result<H3Connection, Error>)
        requires
            http3::h3_settings_fit(*config),
        ensures
            opened(*old(session), *final(session), *config, out),
    {
        match QuicheH3Connection::with_transport(session, config) {
            Ok(h3) => Ok(H3Connection { h3 }),
            Err(e) => Err(Error::QuicheH3(e)),
        }
    }

    /// Takes the sending of a request on a new stream one step further: hands it to
    /// the HTTP/3 layer, flushes, and reports the stream.
    pub fn send_request(
        &mut self,
        session: &mut QuicheConnection,
        headers: &[H3Header],
        fin: bool,
        event: SendEvent<u64>,
    ) -> (action: SendAction<u64>)
        ensures
            request_step(
                (old(self).h3, *old(session)),
                (final(self).h3, *final(session)),
                headers@,
                fin,
                event,
                action,
            ),
    {
        match event {
            SendEvent::Begin => {
                let result = http3::send_request(&mut self.h3, session, headers, fin);
                on_send(result)
            },
            SendEvent::Flushed(stream_id, flushed) => SendAction::Return(
                connection::on_flushed(stream_id, flushed),
            ),
        }
    }

    /// Takes the sending of a response on the stream of a request one step further:
    /// hands it to the HTTP/3 layer, flushes, and reports success.
    pub fn send_response(
        &mut self,
        session: &mut QuicheConnection,
        stream_id: u64,
        headers: &[H3Header],
        fin: bool,
        event: SendEvent<()>,
    ) -> (action: SendAction<()>)
        ensures
            response_step(
                (old(self).h3, *old(session)),
                (final(self).h3, *final(session)),
                stream_id,
                headers@,
                fin,
                event,
                action,
            ),
    {
        match event {
            SendEvent::Begin => {
                let result = http3::send_response(&mut self.h3, session, stream_id, headers, fin);
                on_send(result)
            },
            SendEvent::Flushed(value, flushed) => SendAction::Return(
                connection::on_flushed(value, flushed),
            ),
        }
    }

    /// Takes the sending of body data on a stream one step further: hands it to the
    /// HTTP/3 layer, flushes, and reports how much of it was taken.
    pub fn send_body(
        &mut self,
        session: &mut QuicheConnection,
        stream_id: u64,
        body: &[u8],
        fin: bool,
        event: SendEvent<usize>,
    ) -> (action: SendAction<usize>)
        ensures
            body_step(
                (old(self).h3, *old(session)),
                (final(self).h3, *final(session)),
                stream_id,
                body@,
                fin,
                event,
                action,
            ),
    {
        match event {
            SendEvent::Begin => {
                let result = self.h3.send_body(session, stream_id, body, fin);
                on_send(result)
            },
            SendEvent::Flushed(n, flushed) => SendAction::Return(
                connection::on_flushed(n, flushed),
            ),
        }
    }

    /// Reads body data of a stream into the front of `out`.
    pub fn recv_body(
        &mut self,
        session: &mut QuicheConnection,
        stream_id: u64,
        out: &mut [u8],
    ) -> (result: Result<usize, Error>)
        ensures
            body_received(
                (old(self).h3, *old(session)),
                (final(self).h3, *final(session)),
                stream_id,
                old(out)@,
                final(out)@,
                result,
            ),
            final(out)@.len() == old(out)@.len(),
            result matches Ok(n) ==> 0 < n <= old(out)@.len(),
    {
        let result = self.h3.recv_body(session, stream_id, out);
        on_h3(result)
    }

    /// Takes the wait for an event one step further: asks the HTTP/3 layer
    /// whenever it may be asked, and flushes when it has nothing to report.
    pub fn next(&mut self, conn: &mut Connection, event: NextEvent) -> (action: NextAction)
        ensures
            next_step(*old(self), *final(self), *old(conn), *final(conn), event, action),
            event is Ready && quic::connection_failed(old(conn).session) ==> action is Flush
                && *final(self) == *old(self) && *final(conn) == *old(conn),
            old(conn).wf() ==> final(conn).wf(),
    {
        match event {
            NextEvent::Begin => NextAction::Wait,
            NextEvent::Ready => {
                let result = self.h3.poll(&mut conn.session);
                on_poll(result)
            },
            NextEvent::Flushed(Err(e)) => NextAction::Return(Err(e)),
            NextEvent::Flushed(Ok(_)) => {
                conn.h3_io.lower();
                NextAction::Wait
            },
        }
    }
}

} // verus!
