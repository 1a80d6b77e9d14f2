//! What a call of each operation does: which call of `quiche` was made with what, and
//! what was made of its answer. Each law starts from the call itself, and ends at the
//! relations of [`quic`](crate::quic) and [`http3`](crate::http3).
use crate::address::Endpoint;
use crate::connection;
use crate::connection::CloseAction;
use crate::connection::CloseEvent;
use crate::connection::Connection;
use crate::connection::FlushFor;
use crate::connection::ReadAction;
use crate::connection::ReadEvent;
use crate::connection::StreamRecvAction;
use crate::connection::StreamSendAction;
use crate::connection::StreamSendEvent;
use crate::connection::WriteAction;
use crate::connection::WriteEvent;
use crate::datagram;
use crate::datagram::Datagram;
use crate::error;
use crate::error::Error;
use crate::h3;
use crate::h3::H3Connection;
use crate::h3::NextAction;
use crate::h3::NextEvent;
use crate::h3::SendAction;
use crate::h3::SendEvent;
use crate::handshake;
use crate::handshake::Handshake;
use crate::handshake::HandshakeAction;
use crate::handshake::HandshakeEvent;
use crate::http3;
use crate::quic;
use crate::readiness;
use crate::readiness::Readiness;
use crate::readiness::StreamIo;
use crate::settings::H3Settings;
use crate::settings::QuicSettings;
use quiche::h3::Config as QuicheH3Config;
use quiche::h3::Error as QuicheH3Error;
use quiche::h3::Event as H3Event;
use quiche::h3::Header as H3Header;
use quiche::Config as QuicheConfig;
use quiche::Connection as QuicheConnection;
use quiche::ConnectionId;
use quiche::Error as QuicheError;
use quiche::RecvInfo;
use quiche::SendInfo;
use std::io::Error as IoError;
use std::io::ErrorKind;
use std::task::Waker;
use std::time::Duration;
use vstd::arithmetic::power2::pow2;
use vstd::prelude::*;

verus! {

/// A handshake that begins, or that has sent a datagram, asks the connection for a
/// packet, and sends what it gets. It is complete, waits or fails only where the
/// connection has none, or refuses.
pub proof fn handshake_asks_for_packets(
    h: &mut Handshake,
    buffer: &mut [u8],
    event: HandshakeEvent,
    action: HandshakeAction,
)
    requires
        call_ensures(Handshake::step, (h, buffer, event), action),
        event is Begin || event matches HandshakeEvent::Sent(Ok(_)),
    ensures
        action matches HandshakeAction::Send { len, info } ==> quic::send_outcome(
            old(h).session,
            final(h).session,
            old(buffer)@,
            final(buffer)@,
            Ok((len, info)),
        ) && 0 < len <= final(buffer)@.len(),
        action is Established ==> quic::send_outcome(
            old(h).session,
            final(h).session,
            old(buffer)@,
            final(buffer)@,
            Err(QuicheError::Done),
        )
            && quic::connection_established(final(h).session) && !quic::connection_closed(final(h).session),
        action matches HandshakeAction::Receive(timeout) ==> quic::send_outcome(
            old(h).session,
            final(h).session,
            old(buffer)@,
            final(buffer)@,
            Err(QuicheError::Done),
        )
            && !quic::connection_established(final(h).session) && !quic::connection_closed(final(h).session)
            && quic::timeout_outcome(final(h).session, timeout),
        action matches HandshakeAction::Fail(error) ==> error is Quiche && (
        (error->Quiche_0 == QuicheError::InvalidState && quic::connection_closed(final(h).session) && quic::send_outcome(
            old(h).session,
            final(h).session,
            old(buffer)@,
            final(buffer)@,
            Err(QuicheError::Done),
        ))
            || (error->Quiche_0 != QuicheError::Done && quic::send_outcome(
            old(h).session,
            final(h).session,
            old(buffer)@,
            final(buffer)@,
            Err(error->Quiche_0),
        ))),
{
}

/// A handshake that is told of a datagram, before or after its timer fired, hands exactly
/// the bytes of that datagram and its addresses to the connection. If the connection
/// refuses them, the handshake fails with that error; if they close the connection, it
/// fails; otherwise the connection that took them is the one that is asked for a packet.
/// `fed` holds that connection, what it made of the bytes, and what it said.
pub proof fn handshake_feeds_every_datagram(
    before: Handshake,
    after: Handshake,
    buf_before: Seq<u8>,
    buf_after: Seq<u8>,
    event: HandshakeEvent,
    action: HandshakeAction,
    datagram: Datagram,
) -> (fed: (QuicheConnection, Seq<u8>, Result<usize, QuicheError>))
    requires
        exists|h: &mut Handshake, buffer: &mut [u8]|
            {
                &&& #[trigger] call_ensures(Handshake::step, (h, buffer, event), action)
                &&& *h == before && *final(h) == after
                &&& buffer@ == buf_before && final(buffer)@ == buf_after
            },
        event == HandshakeEvent::Received(Ok(datagram)) || event == HandshakeEvent::Expired(
            Ok(datagram),
        ),
        datagram.len <= buf_before.len(),
    ensures
        quic::recv_outcome(
            before.session,
            fed.0,
            buf_before.take(datagram.len as int),
            fed.1,
            datagram.info,
            fed.2,
        ),
        fed.1.len() == datagram.len,
        fed.2 is Err ==> action == HandshakeAction::Fail(Error::Quiche(fed.2->Err_0)) && after.session
            == fed.0 && buf_after == fed.1 + buf_before.skip(datagram.len as int),
        fed.2 is Ok && quic::connection_closed(fed.0) ==> action == HandshakeAction::Fail(
            Error::Quiche(QuicheError::InvalidState),
        ) && after.session == fed.0 && buf_after == fed.1 + buf_before.skip(datagram.len as int),
        fed.2 is Ok && !quic::connection_closed(fed.0) ==> (
            action matches HandshakeAction::Send { len, info } ==> quic::send_outcome(
            fed.0,
            after.session,
            (fed.1 + buf_before.skip(datagram.len as int)),
            buf_after,
            Ok((len, info)),
        ) && 0 < len <= buf_after.len()),
        fed.2 is Ok && !quic::connection_closed(fed.0) ==> (action is Established ==> quic::send_outcome(
            fed.0,
            after.session,
            (fed.1 + buf_before.skip(datagram.len as int)),
            buf_after,
            Err(QuicheError::Done),
        )
            && quic::connection_established(after.session) && !quic::connection_closed(after.session)),
        fed.2 is Ok && !quic::connection_closed(fed.0) ==> (action matches HandshakeAction::Receive(timeout) ==> quic::send_outcome(
            fed.0,
            after.session,
            (fed.1 + buf_before.skip(datagram.len as int)),
            buf_after,
            Err(QuicheError::Done),
        )
            && !quic::connection_established(after.session) && !quic::connection_closed(after.session)
            && quic::timeout_outcome(after.session, timeout)),
        fed.2 is Ok && !quic::connection_closed(fed.0) ==> (action matches HandshakeAction::Fail(error) ==> error is Quiche && (
        (error->Quiche_0 == QuicheError::InvalidState && quic::connection_closed(after.session) && quic::send_outcome(
            fed.0,
            after.session,
            (fed.1 + buf_before.skip(datagram.len as int)),
            buf_after,
            Err(QuicheError::Done),
        ))
            || (error->Quiche_0 != QuicheError::Done && quic::send_outcome(
            fed.0,
            after.session,
            (fed.1 + buf_before.skip(datagram.len as int)),
            buf_after,
            Err(error->Quiche_0),
        )))),
{
    let n = datagram.len as int;
    let (mid, mixed, r) = choose|mid: QuicheConnection, mixed: Seq<u8>, r: Result<(), Error>|
        {
            &&& #[trigger] datagram::received(before.session, mid, buf_before, mixed, datagram, r)
            &&& match r {
                Ok(_) => handshake::resumed(mid, after.session, mixed, buf_after, action),
                Err(e) => {
                    &&& after.session == mid
                    &&& buf_after == mixed
                    &&& action == HandshakeAction::Fail(e)
                },
            }
        };
    let answer = choose|answer: Result<usize, QuicheError>|
        {
            &&& #[trigger] quic::recv_outcome(
                before.session,
                mid,
                buf_before.take(n),
                mixed.take(n),
                datagram.info,
                answer,
            )
            &&& r == datagram::receive_result(answer)
        };
    assert(mixed =~= mixed.take(n) + buf_before.skip(n)) by {
        assert(mixed =~= mixed.take(n) + mixed.skip(n));
    }
    (mid, mixed.take(n), answer)
}

/// A handshake whose timer fired without a datagram lets the connection act on it. If that
/// closes the connection, the handshake fails; otherwise the connection that has acted is
/// the one that is asked for a packet. `acted` is that connection.
pub proof fn handshake_acts_on_its_timer(
    before: Handshake,
    after: Handshake,
    buf_before: Seq<u8>,
    buf_after: Seq<u8>,
    event: HandshakeEvent,
    action: HandshakeAction,
) -> (acted: QuicheConnection)
    requires
        exists|h: &mut Handshake, buffer: &mut [u8]|
            {
                &&& #[trigger] call_ensures(Handshake::step, (h, buffer, event), action)
                &&& *h == before && *final(h) == after
                &&& buffer@ == buf_before && final(buffer)@ == buf_after
            },
        event matches HandshakeEvent::Expired(Err(_)),
    ensures
        quic::on_timeout_outcome(before.session, acted),
        quic::connection_closed(acted) ==> action == HandshakeAction::Fail(
            Error::Quiche(QuicheError::InvalidState),
        ) && after.session == acted && buf_after == buf_before,
        !quic::connection_closed(acted) ==> (
            action matches HandshakeAction::Send { len, info } ==> quic::send_outcome(
            acted,
            after.session,
            buf_before,
            buf_after,
            Ok((len, info)),
        ) && 0 < len <= buf_after.len()),
        !quic::connection_closed(acted) ==> (action is Established ==> quic::send_outcome(
            acted,
            after.session,
            buf_before,
            buf_after,
            Err(QuicheError::Done),
        )
            && quic::connection_established(after.session) && !quic::connection_closed(after.session)),
        !quic::connection_closed(acted) ==> (action matches HandshakeAction::Receive(timeout) ==> quic::send_outcome(
            acted,
            after.session,
            buf_before,
            buf_after,
            Err(QuicheError::Done),
        )
            && !quic::connection_established(after.session) && !quic::connection_closed(after.session)
            && quic::timeout_outcome(after.session, timeout)),
        !quic::connection_closed(acted) ==> (action matches HandshakeAction::Fail(error) ==> error is Quiche && (
        (error->Quiche_0 == QuicheError::InvalidState && quic::connection_closed(after.session) && quic::send_outcome(
            acted,
            after.session,
            buf_before,
            buf_after,
            Err(QuicheError::Done),
        ))
            || (error->Quiche_0 != QuicheError::Done && quic::send_outcome(
            acted,
            after.session,
            buf_before,
            buf_after,
            Err(error->Quiche_0),
        )))),
{
    choose|mid: QuicheConnection|
        {
            &&& #[trigger] quic::on_timeout_outcome(before.session, mid)
            &&& handshake::resumed(mid, after.session, buf_before, buf_after, action)
        }
}

/// A handshake whose socket failed fails with that error, and does nothing else.
pub proof fn handshake_stops_with_the_socket(
    h: &mut Handshake,
    buffer: &mut [u8],
    event: HandshakeEvent,
    action: HandshakeAction,
    e: IoError,
)
    requires
        call_ensures(Handshake::step, (h, buffer, event), action),
        event == HandshakeEvent::Sent(Err(e)) || event == HandshakeEvent::Received(Err(e)),
    ensures
        action == HandshakeAction::Fail(Error::Io(e)),
        *final(h) == *old(h),
        final(buffer)@ == old(buffer)@,
{
}

/// The connection that a handshake leaves is the one that shook hands. Nobody waits for
/// it yet, and the HTTP/3 layer may be asked at once.
pub proof fn handshake_leaves_its_connection(h: Handshake, conn: Connection)
    requires
        call_ensures(Handshake::into_connection, (h,), conn),
    ensures
        conn.session == h.session,
        forall|id: u64| !(#[trigger] conn.stream_io@.dom().contains(id)),
        conn.h3_io.ready,
        conn.h3_io.waker is None,
{
}

/// A client binds an address of the peer's version of IP, any interface and any port, and
/// connects to the address that was resolved. Without one it fails.
pub proof fn connect_binds_any_address(
    resolved: Result<Option<Endpoint>, IoError>,
    out: Result<(Endpoint, Endpoint), Error>,
)
    requires
        call_ensures(Connection::connect, (resolved,), out),
    ensures
        resolved matches Ok(Some(peer)) ==> out is Ok && out->Ok_0.1 == peer && match out->Ok_0.0 {
            Endpoint::V4 { octets, port } => {
                &&& peer is V4
                &&& port == 0
                &&& octets@ == seq![0u8, 0u8, 0u8, 0u8]
            },
            Endpoint::V6 { segments, port, flowinfo, scope_id } => {
                &&& peer is V6
                &&& port == 0 && flowinfo == 0 && scope_id == 0
                &&& segments@ == seq![0u16, 0u16, 0u16, 0u16, 0u16, 0u16, 0u16, 0u16]
            },
        },
        resolved matches Ok(None) ==> out is Err && out->Err_0 is Io && error::made_of_message(
            out->Err_0->Io_0,
            ErrorKind::Other,
            "empty address"@,
        ),
        resolved matches Err(e) ==> out is Err && out->Err_0 == Error::Io(e),
{
    if let Ok(Some(peer)) = resolved {
        match out->Ok_0.0 {
            Endpoint::V4 { octets, port } => {
                assert(octets@ =~= seq![0u8, 0u8, 0u8, 0u8]);
            },
            Endpoint::V6 { segments, port, flowinfo, scope_id } => {
                assert(segments@ =~= seq![0u16, 0u16, 0u16, 0u16, 0u16, 0u16, 0u16, 0u16]);
            },
        }
    }
}

/// A client's connection is made by one call, with the caller's name of the server,
/// identifier, path and settings, and the handshake works on what that call made.
pub proof fn connect_makes_the_connection(
    server_name: Option<&str>,
    scid: &ConnectionId<'_>,
    path: &RecvInfo,
    config: &mut QuicheConfig,
    out: Result<Handshake, Error>,
)
    requires
        call_ensures(Connection::connect_with_addr, (server_name, scid, path, config), out),
    ensures
        server_name matches Some(name) ==> (out matches Ok(h) ==> quic::connect_outcome(
            Some(name@),
            *scid,
            *path,
            *old(config),
            *final(config),
            Ok(h.session),
        )),
        server_name is None ==> (out matches Ok(h) ==> quic::connect_outcome(
            None,
            *scid,
            *path,
            *old(config),
            *final(config),
            Ok(h.session),
        )),
        out matches Err(error) ==> error is Quiche,
        server_name matches Some(name) ==> (out matches Err(error) ==> quic::connect_outcome(
            Some(name@),
            *scid,
            *path,
            *old(config),
            *final(config),
            Err(error->Quiche_0),
        )),
        server_name is None ==> (out matches Err(error) ==> quic::connect_outcome(
            None,
            *scid,
            *path,
            *old(config),
            *final(config),
            Err(error->Quiche_0),
        )),
{
}

/// The session that a connection hands out is its own.
pub proof fn session_is_the_connections_own(c: Connection, session: &QuicheConnection)
    requires
        call_ensures(Connection::session, (&c,), session),
    ensures
        *session == c.session,
{
}

/// A flush that begins, or that has sent a datagram, asks the connection for the next
/// packet and sends what it gets. It succeeds only where the connection has none left.
pub proof fn flush_asks_for_packets(
    c: &mut Connection,
    buffer: &mut [u8],
    event: WriteEvent,
    action: WriteAction,
)
    requires
        call_ensures(Connection::write_io, (c, buffer, event), action),
        event is Begin || event matches WriteEvent::Sent(Ok(_)),
    ensures
        action matches WriteAction::Send { len, info } ==> quic::send_outcome(
            old(c).session,
            final(c).session,
            old(buffer)@,
            final(buffer)@,
            Ok((len, info)),
        ) && 0 < len <= final(buffer)@.len(),
        action matches WriteAction::Return(Ok(_)) ==> quic::send_outcome(
            old(c).session,
            final(c).session,
            old(buffer)@,
            final(buffer)@,
            Err(QuicheError::Done),
        ),
        action matches WriteAction::Return(Err(error)) ==> error is Quiche && error->Quiche_0
            != QuicheError::Done && quic::send_outcome(
            old(c).session,
            final(c).session,
            old(buffer)@,
            final(buffer)@,
            Err(error->Quiche_0),
        ),
        final(c).stream_io == old(c).stream_io,
        final(c).h3_io == old(c).h3_io,
{
}

/// A flush whose socket failed fails with that error, and does nothing else.
pub proof fn flush_stops_with_the_socket(
    c: &mut Connection,
    buffer: &mut [u8],
    action: WriteAction,
    e: IoError,
)
    requires
        call_ensures(Connection::write_io, (c, buffer, WriteEvent::Sent(Err(e))), action),
    ensures
        action == WriteAction::Return(Err(Error::Io(e))),
        *final(c) == *old(c),
        final(buffer)@ == old(buffer)@,
{
}

/// Sending on a stream offers it the caller's data, all of it and with the caller's end
/// mark, at first and again after a flush that was made for want of room. What the stream
/// takes is flushed and then reported; what it refuses is reported at once.
pub proof fn stream_send_offers_the_data(
    c: &mut Connection,
    stream_id: u64,
    buf: &[u8],
    fin: bool,
    event: StreamSendEvent,
    action: StreamSendAction,
)
    requires
        call_ensures(Connection::stream_send, (c, stream_id, buf, fin, event), action),
        event is Begin || event matches StreamSendEvent::Flushed(FlushFor::Retry, Ok(_)),
    ensures
        action matches StreamSendAction::Flush(FlushFor::Report(n)) ==> n <= buf@.len()
            && quic::stream_send_outcome(old(c).session, final(c).session, stream_id, buf@, fin, Ok(n)),
        action matches StreamSendAction::Flush(FlushFor::Retry) ==> quic::stream_send_outcome(
            old(c).session,
            final(c).session,
            stream_id,
            buf@,
            fin,
            Err(QuicheError::Done),
        ),
        action matches StreamSendAction::Return(result) ==> result is Err && result->Err_0 is Quiche
            && result->Err_0->Quiche_0 != QuicheError::Done && quic::stream_send_outcome(
            old(c).session,
            final(c).session,
            stream_id,
            buf@,
            fin,
            Err(result->Err_0->Quiche_0),
        ),
        final(c).stream_io == old(c).stream_io,
        final(c).h3_io == old(c).h3_io,
{
}

/// After a flush that failed, sending on a stream fails with its error; after the flush of
/// what the stream took, it reports that much. Nothing is offered in either case.
pub proof fn stream_send_reports_after_flush(
    c: &mut Connection,
    stream_id: u64,
    buf: &[u8],
    fin: bool,
    purpose: FlushFor,
    flushed: Result<(), Error>,
    action: StreamSendAction,
)
    requires
        call_ensures(
            Connection::stream_send,
            (c, stream_id, buf, fin, StreamSendEvent::Flushed(purpose, flushed)),
            action,
        ),
        flushed is Err || purpose is Report,
    ensures
        flushed matches Err(e) ==> action == StreamSendAction::Return(Err(e)),
        flushed is Ok ==> action == StreamSendAction::Return(Ok(purpose->Report_0)),
        *final(c) == *old(c),
{
}

/// The bytes that a stream took of the data it was offered, over several answers.
pub open spec fn bytes_taken(
    data: Seq<u8>,
    answers: Seq<Option<Result<usize, QuicheError>>>,
) -> Seq<u8>
    decreases answers.len(),
{
    if answers.len() == 0 {
        Seq::empty()
    } else {
        let earlier = bytes_taken(data, answers.drop_last());
        match answers.last() {
            Some(Ok(n)) => earlier + data.take(n as int),
            _ => earlier,
        }
    }
}

/// A stream that answered nothing but `Done` took nothing.
proof fn lemma_nothing_taken(data: Seq<u8>, answers: Seq<Option<Result<usize, QuicheError>>>)
    requires
        forall|i: int|
            0 <= i < answers.len() ==> !((#[trigger] answers[i]) matches Some(Ok(_))),
    ensures
        bytes_taken(data, answers) == Seq::<u8>::empty(),
    decreases answers.len(),
{
    if answers.len() > 0 {
        let front = answers.drop_last();
        assert forall|i: int| 0 <= i < front.len() implies !((#[trigger] front[i]) matches Some(
            Ok(_),
        )) by {
            assert(front[i] == answers[i]);
        }
        lemma_nothing_taken(data, front);
        assert(answers.last() == answers[answers.len() - 1]);
    }
}

/// Over all its steps, sending on a stream has the stream take data at most once. Every
/// offer but the last is answered `Done`, and nothing is offered after one that was taken.
/// If a number of bytes is reported, the stream took exactly that many, from the front of
/// the caller's data, and the flush after that succeeded. `answers` holds what the stream
/// answered in each step that offered it something.
pub proof fn stream_send_sends_once(
    before: Seq<Connection>,
    after: Seq<Connection>,
    stream_id: u64,
    buf: &[u8],
    fin: bool,
    events: Seq<StreamSendEvent>,
    actions: Seq<StreamSendAction>,
) -> (answers: Seq<Option<Result<usize, QuicheError>>>)
    requires
        actions.len() > 0,
        before.len() == actions.len() && after.len() == actions.len(),
        events.len() == actions.len(),
        events[0] is Begin,
        forall|i: int|
            #![trigger actions[i]]
            0 <= i < actions.len() ==> exists|c: &mut Connection|
                {
                    &&& #[trigger] call_ensures(
                        Connection::stream_send,
                        (c, stream_id, buf, fin, events[i]),
                        actions[i],
                    )
                    &&& *c == before[i]
                    &&& *final(c) == after[i]
                },
        forall|i: int|
            #![trigger events[i]]
            0 < i < events.len() ==> actions[i - 1] is Flush && events[i] is Flushed
                && events[i]->Flushed_0 == actions[i - 1]->Flush_0,
    ensures
        answers.len() == actions.len(),
        forall|i: int|
            #![trigger answers[i]]
            0 <= i < answers.len() ==> (answers[i] matches Some(answer)
                ==> quic::stream_send_outcome(
                before[i].session,
                after[i].session,
                stream_id,
                buf@,
                fin,
                answer,
            )),
        forall|i: int|
            #![trigger answers[i]]
            0 <= i < answers.len() && answers[i] is None ==> after[i] == before[i],
        forall|i: int|
            #![trigger answers[i]]
            0 <= i < answers.len() - 2 ==> answers[i] == Some(
                Err::<usize, QuicheError>(QuicheError::Done),
            ),
        answers.len() > 1 ==> (answers[answers.len() - 2] matches Some(answer) && (answer is Ok
            || answer->Err_0 == QuicheError::Done)),
        answers.len() > 1 && answers[answers.len() - 2]->0 is Ok ==> answers.last() is None,
        actions.last() matches StreamSendAction::Return(Ok(n)) ==> {
            &&& answers.len() > 1
            &&& answers.last() is None
            &&& answers[answers.len() - 2] == Some(Ok::<usize, QuicheError>(n))
            &&& events.last() matches StreamSendEvent::Flushed(_, Ok(_))
            &&& n <= buf@.len()
            &&& bytes_taken(buf@, answers) == buf@.take(n as int)
        },
        actions.last() matches StreamSendAction::Return(Err(e)) ==> match answers.last() {
            Some(answer) => answer is Err && answer->Err_0 != QuicheError::Done && e
                == Error::Quiche(answer->Err_0),
            None => events.last() is Flushed && events.last()->Flushed_1 == Err::<(), Error>(e),
        },
{
    let n = actions.len();
    let answers = Seq::new(
        n,
        |i: int|
            match actions[i] {
                StreamSendAction::Flush(FlushFor::Report(m)) => Some(Ok(m)),
                StreamSendAction::Flush(FlushFor::Retry) => Some(Err(QuicheError::Done)),
                StreamSendAction::Return(result) => if (events[i] is Flushed
                    && events[i]->Flushed_1 is Err) || result is Ok {
                    None
                } else {
                    Some(Err(result->Err_0->Quiche_0))
                },
            },
    );
    assert forall|i: int| #![trigger answers[i]] 0 <= i < n implies {
        &&& answers[i] matches Some(answer) ==> quic::stream_send_outcome(
            before[i].session,
            after[i].session,
            stream_id,
            buf@,
            fin,
            answer,
        ) && (answer matches Ok(m) ==> m <= buf@.len())
        &&& answers[i] is None ==> after[i] == before[i] && events[i] is Flushed && actions[i]
            == match events[i]->Flushed_1 {
            Ok(_) => StreamSendAction::Return(Ok(events[i]->Flushed_0->Report_0)),
            Err(e) => StreamSendAction::Return(Err(e)),
        }
        &&& answers[i] is None && events[i]->Flushed_1 is Ok ==> events[i]->Flushed_0 is Report
        &&& actions[i] is Flush ==> (events[i] is Begin || (events[i]->Flushed_0 is Retry))
        &&& actions[i] is Return && answers[i] is Some ==> actions[i] == StreamSendAction::Return(
            Err(Error::Quiche(answers[i]->0->Err_0)),
        ) && answers[i]->0 is Err && answers[i]->0->Err_0 != QuicheError::Done && (events[i] is Begin
            || (events[i]->Flushed_0 is Retry))
    } by {
        assert(connection::stream_send_step(
            before[i].session,
            after[i].session,
            stream_id,
            buf@,
            fin,
            events[i],
            actions[i],
        ));
    }
    assert forall|i: int| #![trigger answers[i]] 0 <= i < n - 2 implies answers[i] == Some(
        Err::<usize, QuicheError>(QuicheError::Done),
    ) by {
        assert(events[i + 1] is Flushed);
        assert(events[i + 2] is Flushed);
        assert(answers[i + 1] == answers[i + 1]);
    }
    let last = n - 1;
    assert(answers[last] == answers.last());
    if n > 1 {
        assert(events[last] is Flushed);
        assert(answers[last - 1] is Some);
    }
    if let StreamSendAction::Return(Ok(m)) = actions.last() {
        assert(answers.last() is None);
        let offers = answers.drop_last();
        assert forall|i: int| 0 <= i < offers.drop_last().len() implies !((
        #[trigger] offers.drop_last()[i]) matches Some(Ok(_))) by {
            assert(offers.drop_last()[i] == answers[i]);
        }
        lemma_nothing_taken(buf@, offers.drop_last());
        assert(offers.last() == answers[last - 1]);
        assert(bytes_taken(buf@, answers) == bytes_taken(buf@, offers));
        assert(bytes_taken(buf@, offers) =~= buf@.take(m as int));
    }
    answers
}

/// Reading from a stream asks that stream, with the caller's buffer, and reports what it
/// answers. Only if it has nothing does the reader wait, on a slot that is there then and
/// whose flag nobody raised without need.
pub proof fn stream_recv_asks_the_stream(
    c: &mut Connection,
    stream_id: u64,
    out: &mut [u8],
    action: StreamRecvAction,
)
    requires
        call_ensures(Connection::stream_recv, (c, stream_id, out), action),
    ensures
        action matches StreamRecvAction::Return(Ok(read)) ==> quic::stream_recv_outcome(
            old(c).session,
            final(c).session,
            stream_id,
            old(out)@,
            final(out)@,
            Ok(read),
        ) && read.0 <= final(out)@.len(),
        action matches StreamRecvAction::Return(Err(error)) ==> error is Quiche && error->Quiche_0
            != QuicheError::Done && quic::stream_recv_outcome(
            old(c).session,
            final(c).session,
            stream_id,
            old(out)@,
            final(out)@,
            Err(error->Quiche_0),
        ),
        action is Wait ==> quic::stream_recv_outcome(
            old(c).session,
            final(c).session,
            stream_id,
            old(out)@,
            final(out)@,
            Err(QuicheError::Done),
        ),
        action is Wait ==> final(c).stream_io@.dom().contains(stream_id),
        action is Wait && !old(c).stream_io@.dom().contains(stream_id)
            ==> !final(c).stream_io@[stream_id].ready
            && final(c).stream_io@[stream_id].waker is None,
        forall|id: u64| #[trigger]
            old(c).stream_io@.dom().contains(id) ==> final(c).stream_io@.dom().contains(id)
                && final(c).stream_io@[id] == old(c).stream_io@[id],
        forall|id: u64| #[trigger]
            final(c).stream_io@.dom().contains(id) ==> old(c).stream_io@.dom().contains(id) || (
            action is Wait && id == stream_id),
        final(c).h3_io == old(c).h3_io,
{
}

/// Closing asks the connection to close with the caller's own flag, code and reason. It is
/// refused exactly where the connection is closed, draining or has failed already, and then
/// nothing changes and nothing is sent; otherwise a flush follows.
pub proof fn close_hands_on_the_code(
    c: &mut Connection,
    app: bool,
    err: u64,
    reason: &[u8],
    action: CloseAction,
)
    requires
        call_ensures(Connection::close, (c, app, err, reason, CloseEvent::Begin), action),
    ensures
        action is Flush ==> quic::close_outcome(old(c).session, final(c).session, app, err, reason@, Ok(())),
        action is Flush <==> !quic::connection_closed(old(c).session) && !quic::connection_draining(old(c).session)
            && !quic::connection_failed(old(c).session),
        !(action is Flush) ==> action == CloseAction::Return(
            Err(Error::Quiche(QuicheError::Done)),
        ) && *final(c) == *old(c) && quic::close_outcome(
            old(c).session,
            final(c).session,
            app,
            err,
            reason@,
            Err(QuicheError::Done),
        ),
        quic::connection_closed(final(c).session) || quic::connection_draining(final(c).session) || quic::connection_failed(
            final(c).session,
        ),
        final(c).stream_io == old(c).stream_io,
        final(c).h3_io == old(c).h3_io,
{
    let r = choose|r: Result<(), QuicheError>|
        {
            &&& #[trigger] quic::close_outcome(old(c).session, final(c).session, app, err, reason@, r)
            &&& r is Err <==> quic::connection_closing(old(c).session)
            &&& r matches Err(e) ==> e == QuicheError::Done && final(c).session == old(c).session
            &&& r is Ok ==> quic::connection_closing(final(c).session)
            &&& action == connection::close_action(r)
        };
    if r is Ok {
        let unit = r->Ok_0;
        assert(unit == ());
    }
}

/// Once its flush is over, closing has succeeded, however the flush went.
pub proof fn close_succeeds_after_flush(
    c: &mut Connection,
    app: bool,
    err: u64,
    reason: &[u8],
    flushed: Result<(), Error>,
    action: CloseAction,
)
    requires
        call_ensures(Connection::close, (c, app, err, reason, CloseEvent::Flushed(flushed)), action),
    ensures
        action matches CloseAction::Return(Ok(_)),
        *final(c) == *old(c),
{
}

/// A connection is on its way out exactly where it is closed, draining or has failed.
pub proof fn closing_is_told(c: Connection, closing: bool)
    requires
        call_ensures(Connection::is_closing, (&c,), closing),
    ensures
        closing <==> quic::connection_closed(c.session) || quic::connection_draining(c.session)
            || quic::connection_failed(c.session),
{
}

/// The wakers that wait for streams are those of the slots, and no others.
proof fn lemma_waiting_is_waiting(slots: Map<u64, Readiness>, ids: Seq<u64>)
    ensures
        forall|id: u64|
            #![trigger slots[id]]
            ids.contains(id) && slots.dom().contains(id) && slots[id].waker is Some
                ==> readiness::waiting(slots, ids).contains(slots[id].waker->0),
        forall|w: Waker| #[trigger]
            readiness::waiting(slots, ids).contains(w) ==> exists|id: u64|
                ids.contains(id) && #[trigger] slots.dom().contains(id) && slots[id].waker == Some(w),
    decreases ids.len(),
{
    if ids.len() > 0 {
        let front = ids.drop_last();
        let last = ids.last();
        let earlier = readiness::waiting(slots, front);
        let all = readiness::waiting(slots, ids);
        lemma_waiting_is_waiting(slots, front);
        assert(ids[ids.len() - 1] == last);
        assert forall|id: u64| #[trigger] front.contains(id) implies ids.contains(id) by {
            let k = choose|k: int| 0 <= k < front.len() && front[k] == id;
            assert(ids[k] == id);
        }
        assert forall|id: u64| #[trigger] ids.contains(id) implies front.contains(id) || id == last by {
            let k = choose|k: int| 0 <= k < ids.len() && ids[k] == id;
            if k < ids.len() - 1 {
                assert(front[k] == id);
            }
        }
        assert forall|w: Waker| #[trigger] earlier.contains(w) implies all.contains(w) by {
            let k = choose|k: int| 0 <= k < earlier.len() && earlier[k] == w;
            assert(all[k] == w);
        }
        assert forall|id: u64|
            #![trigger slots[id]]
            ids.contains(id) && slots.dom().contains(id) && slots[id].waker is Some implies all.contains(
            slots[id].waker->0,
        ) by {
            if !front.contains(id) {
                assert(all[all.len() - 1] == slots[id].waker->0);
            }
        }
        assert forall|w: Waker| #[trigger] all.contains(w) implies exists|id: u64|
            ids.contains(id) && #[trigger] slots.dom().contains(id) && slots[id].waker == Some(w) by {
            let k = choose|k: int| 0 <= k < all.len() && all[k] == w;
            if k < earlier.len() {
                assert(earlier[k] == w);
                assert(earlier.contains(w));
                let id = choose|id: u64|
                    front.contains(id) && #[trigger] slots.dom().contains(id) && slots[id].waker
                        == Some(w);
                assert(ids.contains(id) && slots.dom().contains(id));
            } else {
                assert(ids.contains(last) && slots.dom().contains(last));
            }
        }
    }
}

/// Each slot of a readable stream that holds a waker hands it out once.
proof fn lemma_waiting_counts(slots: Map<u64, Readiness>, ids: Seq<u64>)
    ensures
        ids.to_set().filter(|id: u64| slots.dom().contains(id) && slots[id].waker is Some).finite(),
        readiness::waiting(slots, ids).len() == ids.to_set().filter(
            |id: u64| slots.dom().contains(id) && slots[id].waker is Some,
        ).len(),
    decreases ids.len(),
{
    let waits = |id: u64| slots.dom().contains(id) && slots[id].waker is Some;
    if ids.len() == 0 {
        assert(ids.to_set().filter(waits) =~= Set::<u64>::empty());
    } else {
        let front = ids.drop_last();
        let last = ids.last();
        lemma_waiting_counts(slots, front);
        assert forall|id: u64| #[trigger] ids.contains(id) <==> front.contains(id) || id == last by {
            if ids.contains(id) {
                let k = choose|k: int| 0 <= k < ids.len() && ids[k] == id;
                if k < ids.len() - 1 {
                    assert(front[k] == id);
                }
            }
            if front.contains(id) {
                let k = choose|k: int| 0 <= k < front.len() && front[k] == id;
                assert(ids[k] == id);
            }
            assert(ids[ids.len() - 1] == last);
        }
        if waits(last) {
            assert(ids.to_set().filter(waits) =~= front.to_set().filter(waits).insert(last));
        } else {
            assert(ids.to_set().filter(waits) =~= front.to_set().filter(waits));
        }
    }
}

/// A read loop that is told of a datagram, before or after its timer fired, hands exactly
/// the bytes of that datagram and its addresses to the connection. If the connection
/// refuses them, the loop ends with that error and wakes nobody. Otherwise it goes on, for
/// as long as the connection's timer says, and:
///
/// - every stream that is readable now and has a slot is ready, and the task that waited
///   for it is woken;
/// - the HTTP/3 layer may be asked, and the task that waited for it is woken;
/// - no other slot changes, no other task is woken, and no slot wakes its task twice.
///
/// `fed` is what the connection made of the bytes, and what it said.
pub proof fn read_loop_feeds_and_wakes(
    before: Connection,
    after: Connection,
    buf_before: Seq<u8>,
    buf_after: Seq<u8>,
    event: ReadEvent,
    out: (ReadAction, Vec<Waker>),
    datagram: Datagram,
) -> (fed: (Seq<u8>, Result<usize, QuicheError>))
    requires
        exists|c: &mut Connection, buffer: &mut [u8]|
            {
                &&& #[trigger] call_ensures(Connection::read_loop, (c, buffer, event), out)
                &&& *c == before && *final(c) == after
                &&& buffer@ == buf_before && final(buffer)@ == buf_after
            },
        event == ReadEvent::Received(Ok(datagram)) || event == ReadEvent::Expired(Ok(datagram)),
        datagram.len <= buf_before.len(),
    ensures
        quic::recv_outcome(
            before.session,
            after.session,
            buf_before.take(datagram.len as int),
            fed.0,
            datagram.info,
            fed.1,
        ),
        fed.0.len() == datagram.len,
        buf_after == fed.0 + buf_before.skip(datagram.len as int),
        fed.1 is Err ==> out.0 == ReadAction::Return(Err(Error::Quiche(fed.1->Err_0))) && out.1@.len()
            == 0 && after.stream_io == before.stream_io && after.h3_io == before.h3_io,
        fed.1 is Ok ==> (out.0 matches ReadAction::Receive(timeout) && quic::timeout_outcome(
            after.session,
            timeout,
        )),
        fed.1 is Ok ==> after.h3_io.ready && after.h3_io.waker is None,
        fed.1 is Ok && before.h3_io.waker is Some ==> out.1@.contains(before.h3_io.waker->0),
        fed.1 is Ok ==> forall|id: u64|
            #![trigger before.stream_io@.dom().contains(id)]
            before.stream_io@.dom().contains(id) && quic::readable_streams(after.session).contains(id) ==> {
                &&& after.stream_io@.dom().contains(id)
                &&& after.stream_io@[id].ready
                &&& after.stream_io@[id].waker is None
                &&& before.stream_io@[id].waker is Some ==> out.1@.contains(
                    before.stream_io@[id].waker->0,
                )
            },
        fed.1 is Ok ==> forall|id: u64|
            #![trigger before.stream_io@.dom().contains(id)]
            before.stream_io@.dom().contains(id) && !quic::readable_streams(after.session).contains(id)
                ==> after.stream_io@.dom().contains(id) && after.stream_io@[id]
                == before.stream_io@[id],
        fed.1 is Ok ==> forall|id: u64| #[trigger]
            after.stream_io@.dom().contains(id) && !before.stream_io@.dom().contains(id) ==> {
                &&& quic::readable_streams(after.session).contains(id)
                &&& after.stream_io@[id].ready
                &&& after.stream_io@[id].waker is None
            },
        fed.1 is Ok && before.stream_io@.dom() != Set::<u64>::empty() ==> forall|id: u64| #[trigger]
            quic::readable_streams(after.session).contains(id) ==> after.stream_io@.dom().contains(id),
        fed.1 is Ok && before.stream_io@.dom() == Set::<u64>::empty() ==> after.stream_io@.dom()
            == Set::<u64>::empty(),
        fed.1 is Ok ==> forall|w: Waker| #[trigger]
            out.1@.contains(w) ==> before.h3_io.waker == Some(w) || exists|id: u64|
                quic::readable_streams(after.session).contains(id) && #[trigger]
                before.stream_io@.dom().contains(id) && before.stream_io@[id].waker == Some(w),
        fed.1 is Ok ==> out.1@.len() == quic::readable_streams(after.session).to_set().filter(
            |id: u64| before.stream_io@.dom().contains(id) && before.stream_io@[id].waker is Some,
        ).len() + (if before.h3_io.waker is Some {
            1int
        } else {
            0int
        }),
{
    let n = datagram.len as int;
    let action = out.0;
    let woken = out.1@;
    let (mid, r, t) = choose|mid: Connection, r: Result<(), Error>, t: Option<Duration>|
        {
            &&& #[trigger] datagram::received(before.session, mid.session, buf_before, buf_after, datagram, r)
            &&& mid == (Connection { session: mid.session, ..before })
            &&& match r {
                Ok(_) => connection::roused(mid, after, woken),
                Err(_) => after == mid && woken == Seq::<Waker>::empty(),
            }
            &&& #[trigger] quic::timeout_outcome(after.session, t)
            &&& action == connection::packet_action(r, t)
        };
    let answer = choose|answer: Result<usize, QuicheError>|
        {
            &&& #[trigger] quic::recv_outcome(
                before.session,
                mid.session,
                buf_before.take(n),
                buf_after.take(n),
                datagram.info,
                answer,
            )
            &&& r == datagram::receive_result(answer)
        };
    assert(buf_after =~= buf_after.take(n) + buf_before.skip(n)) by {
        assert(buf_after =~= buf_after.take(n) + buf_after.skip(n));
    }
    if r is Ok {
        let ids = quic::readable_streams(after.session);
        let slots = before.stream_io@;
        let readers = readiness::waiting(slots, ids);
        lemma_waiting_is_waiting(slots, ids);
        lemma_waiting_counts(slots, ids);
        assert(connection::roused(mid, after, woken));
        assert forall|w: Waker| #[trigger] readers.contains(w) implies woken.contains(w) by {
            let k = choose|k: int| 0 <= k < readers.len() && readers[k] == w;
            assert(woken[k] == w);
        }
        if before.h3_io.waker is Some {
            assert(woken[woken.len() - 1] == before.h3_io.waker->0);
        }
        assert forall|w: Waker| #[trigger] woken.contains(w) implies before.h3_io.waker == Some(w)
            || readers.contains(w) by {
            let k = choose|k: int| 0 <= k < woken.len() && woken[k] == w;
            if k < readers.len() {
                assert(readers[k] == w);
            }
        }
        if slots.dom() == Set::<u64>::empty() {
            assert(slots =~= Map::<u64, Readiness>::empty());
        } else {
            assert(slots != Map::<u64, Readiness>::empty());
        }
        assert forall|id: u64|
            #![trigger slots.dom().contains(id)]
            slots.dom().contains(id) implies slots != Map::<u64, Readiness>::empty() by {
            assert(!Map::<u64, Readiness>::empty().dom().contains(id));
        }
    }
    (buf_after.take(n), answer)
}

/// A read loop whose timer fired without a datagram lets the connection act on it, and wakes
/// nobody. It ends if that leaves the connection closed, and goes on otherwise.
pub proof fn read_loop_acts_on_its_timer(
    c: &mut Connection,
    buffer: &mut [u8],
    event: ReadEvent,
    out: (ReadAction, Vec<Waker>),
)
    requires
        call_ensures(Connection::read_loop, (c, buffer, event), out),
        event matches ReadEvent::Expired(Err(_)),
    ensures
        quic::on_timeout_outcome(old(c).session, final(c).session),
        quic::connection_closed(final(c).session) ==> out.0 matches ReadAction::Return(Ok(_)),
        !quic::connection_closed(final(c).session) ==> (out.0 matches ReadAction::Receive(timeout)
            && quic::timeout_outcome(final(c).session, timeout)),
        out.1@.len() == 0,
        final(c).stream_io == old(c).stream_io,
        final(c).h3_io == old(c).h3_io,
        final(buffer)@ == old(buffer)@,
{
}

/// A read loop begins by waiting for as long as the connection's timer says. It ends with
/// the error of the socket, or when it is told to. None of this touches the connection or
/// wakes anybody.
pub proof fn read_loop_begins_and_ends(
    c: &mut Connection,
    buffer: &mut [u8],
    event: ReadEvent,
    out: (ReadAction, Vec<Waker>),
)
    requires
        call_ensures(Connection::read_loop, (c, buffer, event), out),
        event is Begin || event is Exit || event matches ReadEvent::Received(Err(_)),
    ensures
        event is Begin ==> (out.0 matches ReadAction::Receive(timeout) && quic::timeout_outcome(
            old(c).session,
            timeout,
        )),
        event is Exit ==> out.0 matches ReadAction::Return(Ok(_)),
        event matches ReadEvent::Received(Err(e)) ==> out.0 == ReadAction::Return(Err(Error::Io(e))),
        out.1@.len() == 0,
        *final(c) == *old(c),
        final(buffer)@ == old(buffer)@,
{
}

/// A task that polls a stream which is not ready is woken when a datagram makes the stream
/// readable, and finds it ready when it polls again: the three calls, one after the other.
pub proof fn waiting_reader_is_woken(
    first: Connection,
    before: Connection,
    stream_id: u64,
    waker: &Waker,
    ready: bool,
    after: Connection,
    buf_before: Seq<u8>,
    buf_after: Seq<u8>,
    event: ReadEvent,
    out: (ReadAction, Vec<Waker>),
    datagram: Datagram,
    last: Connection,
    later: &Waker,
    ready_again: bool,
)
    requires
        exists|c: &mut Connection|
            {
                &&& #[trigger] call_ensures(Connection::poll_stream, (c, stream_id, waker), ready)
                &&& *c == first && *final(c) == before
            },
        first.stream_io@.dom().contains(stream_id),
        !ready,
        exists|c: &mut Connection, buffer: &mut [u8]|
            {
                &&& #[trigger] call_ensures(Connection::read_loop, (c, buffer, event), out)
                &&& *c == before && *final(c) == after
                &&& buffer@ == buf_before && final(buffer)@ == buf_after
            },
        event == ReadEvent::Received(Ok(datagram)) || event == ReadEvent::Expired(Ok(datagram)),
        datagram.len <= buf_before.len(),
        out.0 is Receive,
        quic::readable_streams(after.session).contains(stream_id),
        exists|c: &mut Connection|
            {
                &&& #[trigger] call_ensures(Connection::poll_stream, (c, stream_id, later), ready_again)
                &&& *c == after && *final(c) == last
            },
    ensures
        exists|w: Waker| out.1@.contains(w) && #[trigger] readiness::same_task(w, *waker),
        ready_again,
{
    let fed = read_loop_feeds_and_wakes(
        before,
        after,
        buf_before,
        buf_after,
        event,
        out,
        datagram,
    );
    assert(before.stream_io@.dom().contains(stream_id));
    assert(readiness::same_task(before.stream_io@[stream_id].waker->0, *waker));
}

/// A task that polls the HTTP/3 layer before it may be asked is woken by the next datagram
/// that the connection takes, and finds the layer ready when it polls again: the three
/// calls, one after the other.
pub proof fn waiting_h3_reader_is_woken(
    first: Connection,
    before: Connection,
    waker: &Waker,
    ready: bool,
    after: Connection,
    buf_before: Seq<u8>,
    buf_after: Seq<u8>,
    event: ReadEvent,
    out: (ReadAction, Vec<Waker>),
    datagram: Datagram,
    last: Connection,
    later: &Waker,
    ready_again: bool,
)
    requires
        exists|c: &mut Connection|
            {
                &&& #[trigger] call_ensures(Connection::poll_h3, (c, waker), ready)
                &&& *c == first && *final(c) == before
            },
        !ready,
        exists|c: &mut Connection, buffer: &mut [u8]|
            {
                &&& #[trigger] call_ensures(Connection::read_loop, (c, buffer, event), out)
                &&& *c == before && *final(c) == after
                &&& buffer@ == buf_before && final(buffer)@ == buf_after
            },
        event == ReadEvent::Received(Ok(datagram)) || event == ReadEvent::Expired(Ok(datagram)),
        datagram.len <= buf_before.len(),
        out.0 is Receive,
        exists|c: &mut Connection|
            {
                &&& #[trigger] call_ensures(Connection::poll_h3, (c, later), ready_again)
                &&& *c == after && *final(c) == last
            },
    ensures
        exists|w: Waker| out.1@.contains(w) && #[trigger] readiness::same_task(w, *waker),
        ready_again,
{
    let fed = read_loop_feeds_and_wakes(
        before,
        after,
        buf_before,
        buf_after,
        event,
        out,
        datagram,
    );
    assert(readiness::same_task(before.h3_io.waker->0, *waker));
}

/// To poll a stream changes nothing but the waker of its slot, and that only if the stream
/// is not ready.
pub proof fn polling_a_stream_touches_its_slot(
    c: &mut Connection,
    stream_id: u64,
    waker: &Waker,
    ready: bool,
)
    requires
        call_ensures(Connection::poll_stream, (c, stream_id, waker), ready),
        old(c).stream_io@.dom().contains(stream_id),
    ensures
        ready == old(c).stream_io@[stream_id].ready,
        final(c).stream_io@.dom() == old(c).stream_io@.dom(),
        final(c).stream_io@[stream_id].ready == ready,
        ready ==> final(c).stream_io@[stream_id] == old(c).stream_io@[stream_id],
        !ready ==> (final(c).stream_io@[stream_id].waker matches Some(w) && readiness::same_task(
            w,
            *waker,
        )),
        forall|id: u64|
            #![trigger final(c).stream_io@[id]]
            id != stream_id && old(c).stream_io@.dom().contains(id) ==> final(c).stream_io@[id]
                == old(c).stream_io@[id],
        final(c).session == old(c).session,
        final(c).h3_io == old(c).h3_io,
{
    assert(final(c).stream_io@.dom() =~= old(c).stream_io@.dom());
}

/// To poll the HTTP/3 layer changes nothing but its waker, and that only if the layer may
/// not be asked yet.
pub proof fn polling_the_layer_touches_its_waker(c: &mut Connection, waker: &Waker, ready: bool)
    requires
        call_ensures(Connection::poll_h3, (c, waker), ready),
    ensures
        ready == old(c).h3_io.ready,
        final(c).h3_io.ready == ready,
        ready ==> final(c).h3_io == old(c).h3_io,
        !ready ==> (final(c).h3_io.waker matches Some(w) && readiness::same_task(w, *waker)),
        final(c).session == old(c).session,
        final(c).stream_io == old(c).stream_io,
{
}

/// To send a request hands the caller's header fields and end mark to the HTTP/3 layer. What
/// the layer takes is flushed next, and never reported at once; what it refuses is reported
/// with its error, and nothing is flushed.
pub proof fn send_request_hands_on_to_the_layer(
    l: &mut H3Connection,
    session: &mut QuicheConnection,
    headers: &[H3Header],
    fin: bool,
    action: SendAction<u64>,
)
    requires
        call_ensures(H3Connection::send_request, (l, session, headers, fin, SendEvent::Begin), action),
    ensures
        action is Flush ==> http3::send_request_outcome(
            (old(l).h3, *old(session)),
            (final(l).h3, *final(session)),
            headers@,
            fin,
            Ok(action->Flush_0),
        ),
        action matches SendAction::Return(result) ==> result is Err && result->Err_0 is QuicheH3
            && http3::send_request_outcome(
            (old(l).h3, *old(session)),
            (final(l).h3, *final(session)),
            headers@,
            fin,
            Err(result->Err_0->QuicheH3_0),
        ),
{
}

/// A request is reported as sent on a stream only after the layer opened that stream for
/// these header fields and this end mark, and only if the flush after that succeeded; if it
/// failed, its error is reported.
pub proof fn send_request_reports_after_flush(
    first: &mut H3Connection,
    first_session: &mut QuicheConnection,
    headers: &[H3Header],
    fin: bool,
    action: SendAction<u64>,
    second: &mut H3Connection,
    second_session: &mut QuicheConnection,
    value: u64,
    flushed: Result<(), Error>,
    last: SendAction<u64>,
)
    requires
        call_ensures(
            H3Connection::send_request,
            (first, first_session, headers, fin, SendEvent::Begin),
            action,
        ),
        call_ensures(
            H3Connection::send_request,
            (second, second_session, headers, fin, SendEvent::Flushed(value, flushed)),
            last,
        ),
        action is Flush ==> value == action->Flush_0,
    ensures
        !(action matches SendAction::Return(Ok(_))),
        flushed is Ok ==> last == SendAction::Return(Ok(value)),
        flushed matches Err(e) ==> last == SendAction::<u64>::Return(Err(e)),
        *final(second) == *old(second),
        *final(second_session) == *old(second_session),
        action is Flush && last == SendAction::<u64>::Return(Ok(value)) ==> flushed is Ok
            && http3::send_request_outcome(
            (old(first).h3, *old(first_session)),
            (final(first).h3, *final(first_session)),
            headers@,
            fin,
            Ok(value),
        ),
{
}

/// To send a response hands the caller's stream, header fields and end mark to the HTTP/3
/// layer. What the layer takes is flushed next, and never reported at once; what it refuses
/// is reported with its error, and nothing is flushed.
pub proof fn send_response_hands_on_to_the_layer(
    l: &mut H3Connection,
    session: &mut QuicheConnection,
    stream_id: u64,
    headers: &[H3Header],
    fin: bool,
    action: SendAction<()>,
)
    requires
        call_ensures(H3Connection::send_response, (l, session, stream_id, headers, fin, SendEvent::Begin), action),
    ensures
        action is Flush ==> http3::send_response_outcome(
            (old(l).h3, *old(session)),
            (final(l).h3, *final(session)),
            stream_id,
            headers@,
            fin,
            Ok(action->Flush_0),
        ),
        action matches SendAction::Return(result) ==> result is Err && result->Err_0 is QuicheH3
            && http3::send_response_outcome(
            (old(l).h3, *old(session)),
            (final(l).h3, *final(session)),
            stream_id,
            headers@,
            fin,
            Err(result->Err_0->QuicheH3_0),
        ),
{
}

/// A response is reported as sent only after the layer took these header fields and this end
/// mark for this stream, and only if the flush after that succeeded; if it failed, its error
/// is reported.
pub proof fn send_response_reports_after_flush(
    first: &mut H3Connection,
    first_session: &mut QuicheConnection,
    stream_id: u64,
    headers: &[H3Header],
    fin: bool,
    action: SendAction<()>,
    second: &mut H3Connection,
    second_session: &mut QuicheConnection,
    value: (),
    flushed: Result<(), Error>,
    last: SendAction<()>,
)
    requires
        call_ensures(
            H3Connection::send_response,
            (first, first_session, stream_id, headers, fin, SendEvent::Begin),
            action,
        ),
        call_ensures(
            H3Connection::send_response,
            (second, second_session, stream_id, headers, fin, SendEvent::Flushed(value, flushed)),
            last,
        ),
        action is Flush ==> value == action->Flush_0,
    ensures
        !(action matches SendAction::Return(Ok(_))),
        flushed is Ok ==> last == SendAction::Return(Ok(value)),
        flushed matches Err(e) ==> last == SendAction::<()>::Return(Err(e)),
        *final(second) == *old(second),
        *final(second_session) == *old(second_session),
        action is Flush && last == SendAction::<()>::Return(Ok(value)) ==> flushed is Ok
            && http3::send_response_outcome(
            (old(first).h3, *old(first_session)),
            (final(first).h3, *final(first_session)),
            stream_id,
            headers@,
            fin,
            Ok(value),
        ),
{
}

/// To send body data hands the caller's stream, bytes and end mark to the HTTP/3 layer. What
/// the layer takes is flushed next, and never reported at once; what it refuses is reported
/// with its error, and nothing is flushed.
pub proof fn send_body_hands_on_to_the_layer(
    l: &mut H3Connection,
    session: &mut QuicheConnection,
    stream_id: u64,
    body: &[u8],
    fin: bool,
    action: SendAction<usize>,
)
    requires
        call_ensures(H3Connection::send_body, (l, session, stream_id, body, fin, SendEvent::Begin), action),
    ensures
        action is Flush ==> http3::send_body_outcome(
            (old(l).h3, *old(session)),
            (final(l).h3, *final(session)),
            stream_id,
            body@,
            fin,
            Ok(action->Flush_0),
        ),
        action matches SendAction::Return(result) ==> result is Err && result->Err_0 is QuicheH3
            && http3::send_body_outcome(
            (old(l).h3, *old(session)),
            (final(l).h3, *final(session)),
            stream_id,
            body@,
            fin,
            Err(result->Err_0->QuicheH3_0),
        ),
        action matches SendAction::Flush(n) ==> n <= body@.len(),
{
}

/// A number of body bytes is reported as sent only after the layer took that many of these
/// bytes for this stream, and only if the flush after that succeeded; if it failed, its error
/// is reported.
pub proof fn send_body_reports_after_flush(
    first: &mut H3Connection,
    first_session: &mut QuicheConnection,
    stream_id: u64,
    body: &[u8],
    fin: bool,
    action: SendAction<usize>,
    second: &mut H3Connection,
    second_session: &mut QuicheConnection,
    value: usize,
    flushed: Result<(), Error>,
    last: SendAction<usize>,
)
    requires
        call_ensures(
            H3Connection::send_body,
            (first, first_session, stream_id, body, fin, SendEvent::Begin),
            action,
        ),
        call_ensures(
            H3Connection::send_body,
            (second, second_session, stream_id, body, fin, SendEvent::Flushed(value, flushed)),
            last,
        ),
        action is Flush ==> value == action->Flush_0,
    ensures
        !(action matches SendAction::Return(Ok(_))),
        flushed is Ok ==> last == SendAction::Return(Ok(value)),
        flushed matches Err(e) ==> last == SendAction::<usize>::Return(Err(e)),
        *final(second) == *old(second),
        *final(second_session) == *old(second_session),
        action is Flush && last == SendAction::<usize>::Return(Ok(value)) ==> flushed is Ok
            && http3::send_body_outcome(
            (old(first).h3, *old(first_session)),
            (final(first).h3, *final(first_session)),
            stream_id,
            body@,
            fin,
            Ok(value),
        ),
{
}

/// To read body data asks the HTTP/3 layer for that stream, with the caller's buffer, and
/// reports what it answers.
pub proof fn recv_body_asks_the_layer(
    l: &mut H3Connection,
    session: &mut QuicheConnection,
    stream_id: u64,
    out: &mut [u8],
    result: Result<usize, Error>,
)
    requires
        call_ensures(H3Connection::recv_body, (l, session, stream_id, out), result),
    ensures
        result matches Ok(n) ==> 0 < n <= final(out)@.len() && http3::recv_body_outcome(
            (old(l).h3, *old(session)),
            (final(l).h3, *final(session)),
            stream_id,
            old(out)@,
            final(out)@,
            Ok(n),
        ),
        result matches Err(error) ==> error is QuicheH3 && http3::recv_body_outcome(
            (old(l).h3, *old(session)),
            (final(l).h3, *final(session)),
            stream_id,
            old(out)@,
            final(out)@,
            Err(error->QuicheH3_0),
        ),
{
}

/// The HTTP/3 layer of a connection is opened by one call, on that connection and with the
/// caller's settings.
pub proof fn opening_asks_the_connection(
    session: &mut QuicheConnection,
    config: &QuicheH3Config,
    out: Result<H3Connection, Error>,
)
    requires
        call_ensures(H3Connection::new_with_transport, (session, config), out),
    ensures
        out matches Ok(l) ==> http3::with_transport_outcome(*old(session), *final(session), *config, Ok(l.h3)),
        out matches Err(error) ==> error is QuicheH3 && http3::with_transport_outcome(
            *old(session),
            *final(session),
            *config,
            Err(error->QuicheH3_0),
        ),
{
}

/// The HTTP/3 layer that a connection opens is one on its own session.
pub proof fn connection_opens_its_own_layer(
    c: &mut Connection,
    config: &QuicheH3Config,
    out: Result<H3Connection, Error>,
)
    requires
        call_ensures(Connection::h3, (c, config), out),
    ensures
        out matches Ok(l) ==> http3::with_transport_outcome(old(c).session, final(c).session, *config, Ok(l.h3)),
        out matches Err(error) ==> error is QuicheH3 && http3::with_transport_outcome(
            old(c).session,
            final(c).session,
            *config,
            Err(error->QuicheH3_0),
        ),
        final(c).stream_io == old(c).stream_io,
        final(c).h3_io == old(c).h3_io,
{
}

/// A wait for an event that is told that the HTTP/3 layer may be asked asks it, and returns
/// its answer. Only if the layer has nothing to report is that not returned: then a flush
/// follows.
pub proof fn next_asks_the_layer(
    l: &mut H3Connection,
    c: &mut Connection,
    action: NextAction,
)
    requires
        call_ensures(H3Connection::next, (l, c, NextEvent::Ready), action),
    ensures
        !(action is Wait),
        action matches NextAction::Return(Ok(reported)) ==> http3::poll_outcome(
            (old(l).h3, old(c).session),
            (final(l).h3, final(c).session),
            Ok(reported),
        ),
        action matches NextAction::Return(Err(error)) ==> error is QuicheH3 && error->QuicheH3_0
            != QuicheH3Error::Done && http3::poll_outcome((old(l).h3, old(c).session), (final(l).h3, final(c).session), Err(error->QuicheH3_0)),
        action is Flush ==> http3::poll_outcome((old(l).h3, old(c).session), (final(l).h3, final(c).session), Err(QuicheH3Error::Done)),
        final(c).stream_io == old(c).stream_io,
        final(c).h3_io == old(c).h3_io,
{
}

/// A wait for an event begins by waiting. After a flush it waits again, with the flag down
/// and the waker kept; if the flush failed, it returns its error. None of this asks the layer.
pub proof fn next_waits_and_flushes(
    l: &mut H3Connection,
    c: &mut Connection,
    event: NextEvent,
    action: NextAction,
)
    requires
        call_ensures(H3Connection::next, (l, c, event), action),
        !(event is Ready),
    ensures
        event is Begin ==> action is Wait && *final(c) == *old(c),
        event matches NextEvent::Flushed(Ok(_)) ==> action is Wait && !final(c).h3_io.ready && final(c).h3_io.waker == old(c).h3_io.waker,
        event matches NextEvent::Flushed(Err(e)) ==> action == NextAction::Return(Err(e)) && *final(c)
            == *old(c),
        *final(l) == *old(l),
        final(c).session == old(c).session,
        final(c).stream_io == old(c).stream_io,
{
}

/// A datagram is fed to the connection as exactly its bytes of the buffer, with its
/// addresses, and the connection's refusal is what is reported. `fed` is what the connection
/// made of the bytes, and what it said.
pub proof fn receiving_feeds_the_datagram(
    before: QuicheConnection,
    after: QuicheConnection,
    buf_before: Seq<u8>,
    buf_after: Seq<u8>,
    datagram: Datagram,
    result: Result<(), Error>,
) -> (fed: (Seq<u8>, Result<usize, QuicheError>))
    requires
        exists|session: &mut QuicheConnection, buffer: &mut [u8]|
            {
                &&& #[trigger] call_ensures(datagram::receive, (session, buffer, datagram), result)
                &&& *session == before && *final(session) == after
                &&& buffer@ == buf_before && final(buffer)@ == buf_after
            },
        datagram.len <= buf_before.len(),
    ensures
        quic::recv_outcome(
            before,
            after,
            buf_before.take(datagram.len as int),
            fed.0,
            datagram.info,
            fed.1,
        ),
        buf_after == fed.0 + buf_before.skip(datagram.len as int),
        fed.1 is Ok <==> result is Ok,
        fed.1 is Err ==> result == Err::<(), Error>(Error::Quiche(fed.1->Err_0)),
{
    let n = datagram.len as int;
    let answer = choose|answer: Result<usize, QuicheError>|
        {
            &&& #[trigger] quic::recv_outcome(
                before,
                after,
                buf_before.take(n),
                buf_after.take(n),
                datagram.info,
                answer,
            )
            &&& result == datagram::receive_result(answer)
        };
    assert(buf_after =~= buf_after.take(n) + buf_before.skip(n)) by {
        assert(buf_after =~= buf_after.take(n) + buf_after.skip(n));
    }
    (buf_after.take(n), answer)
}

/// A task that polls a flag which is down is handed out when the flag is raised, and only
/// once; from then on the flag is found up, until it is lowered.
pub proof fn raising_wakes_who_polled(
    polled: &mut Readiness,
    waker: &Waker,
    ready: bool,
    raised: &mut Readiness,
    woken: Option<Waker>,
    raised_again: &mut Readiness,
    woken_again: Option<Waker>,
    polled_again: &mut Readiness,
    later: &Waker,
    ready_again: bool,
    lowered: &mut Readiness,
    polled_last: &mut Readiness,
    ready_last: bool,
)
    requires
        call_ensures(Readiness::poll, (polled, waker), ready),
        !ready,
        *old(raised) == *final(polled),
        call_ensures(Readiness::raise, (raised,), woken),
        *old(raised_again) == *final(raised),
        call_ensures(Readiness::raise, (raised_again,), woken_again),
        *old(polled_again) == *final(raised_again),
        call_ensures(Readiness::poll, (polled_again, later), ready_again),
        *old(lowered) == *final(polled_again),
        call_ensures(Readiness::lower, (lowered,), ()),
        *old(polled_last) == *final(lowered),
        call_ensures(Readiness::poll, (polled_last, later), ready_last),
    ensures
        woken matches Some(w) && readiness::same_task(w, *waker),
        woken_again is None,
        ready_again,
        !ready_last,
{
}

/// To poll a flag tells whether it is up and leaves it so; one that is up gets no waker.
pub proof fn polling_leaves_the_flag(r: &mut Readiness, waker: &Waker, ready: bool)
    requires
        call_ensures(Readiness::poll, (r, waker), ready),
    ensures
        ready == old(r).ready,
        final(r).ready == old(r).ready,
        ready ==> final(r).waker == old(r).waker,
{
}

/// To lower a flag keeps its waker.
pub proof fn lowering_keeps_the_waker(r: &mut Readiness)
    requires
        call_ensures(Readiness::lower, (r,), ()),
    ensures
        !final(r).ready,
        final(r).waker == old(r).waker,
{
}

/// A stream that is waited for has a slot, which is down if it is new; every other slot
/// stays as it is.
pub proof fn registering_makes_a_slot(s: &mut StreamIo, stream_id: u64)
    requires
        call_ensures(StreamIo::register, (s, stream_id), ()),
    ensures
        final(s)@.dom().contains(stream_id),
        !old(s)@.dom().contains(stream_id) ==> !final(s)@[stream_id].ready
            && final(s)@[stream_id].waker is None,
        forall|id: u64| #[trigger]
            old(s)@.dom().contains(id) ==> final(s)@.dom().contains(id) && final(s)@[id]
                == old(s)@[id],
        forall|id: u64| #[trigger]
            final(s)@.dom().contains(id) ==> old(s)@.dom().contains(id) || id == stream_id,
{
}

/// Where streams are found readable, their slots are up and hold no waker, the wakers that
/// they held are handed out, and no others; the other slots stay as they are.
pub proof fn raising_streams_wakes_their_readers(
    s: &mut StreamIo,
    ids: &Vec<u64>,
    woken: Vec<Waker>,
)
    requires
        call_ensures(StreamIo::raise, (s, ids), woken),
    ensures
        forall|id: u64|
            #![trigger old(s)@.dom().contains(id)]
            old(s)@.dom().contains(id) && ids@.contains(id) ==> {
                &&& final(s)@.dom().contains(id)
                &&& final(s)@[id].ready
                &&& final(s)@[id].waker is None
                &&& old(s)@[id].waker is Some ==> woken@.contains(old(s)@[id].waker->0)
            },
        forall|id: u64|
            #![trigger old(s)@.dom().contains(id)]
            old(s)@.dom().contains(id) && !ids@.contains(id) ==> final(s)@.dom().contains(id)
                && final(s)@[id] == old(s)@[id],
        forall|w: Waker| #[trigger]
            woken@.contains(w) ==> exists|id: u64|
                ids@.contains(id) && #[trigger] old(s)@.dom().contains(id) && old(s)@[id].waker
                    == Some(w),
        woken@.len() == ids@.to_set().filter(
            |id: u64| old(s)@.dom().contains(id) && old(s)@[id].waker is Some,
        ).len(),
        forall|id: u64| #[trigger]
            final(s)@.dom().contains(id) && !old(s)@.dom().contains(id) ==> {
                &&& ids@.contains(id)
                &&& final(s)@[id].ready
                &&& final(s)@[id].waker is None
            },
        old(s)@.dom() != Set::<u64>::empty() ==> forall|id: u64| #[trigger]
            ids@.contains(id) ==> final(s)@.dom().contains(id),
        old(s)@.dom() == Set::<u64>::empty() ==> final(s)@.dom() == Set::<u64>::empty(),
{
    let slots = old(s)@;
    if slots.dom() == Set::<u64>::empty() {
        assert(slots =~= Map::<u64, Readiness>::empty());
    } else {
        assert(slots != Map::<u64, Readiness>::empty());
    }
    lemma_waiting_is_waiting(slots, ids@);
    lemma_waiting_counts(slots, ids@);
    assert forall|id: u64|
        #![trigger slots.dom().contains(id)]
        slots.dom().contains(id) implies slots != Map::<u64, Readiness>::empty() by {
        assert(!Map::<u64, Readiness>::empty().dom().contains(id));
    }
}

/// Each cause becomes the library's error of its own sort, and comes back out of it: a
/// socket error as it was, any other as the cause of an error of kind `Other`.
pub proof fn errors_keep_their_causes(
    e: IoError,
    of_io: Error,
    io_back: IoError,
    q: QuicheError,
    of_quiche: Error,
    quiche_back: IoError,
    h: QuicheH3Error,
    of_h3: Error,
    h3_back: IoError,
)
    requires
        call_ensures(<Error as From<IoError>>::from, (e,), of_io),
        call_ensures(<IoError as From<Error>>::from, (of_io,), io_back),
        call_ensures(<Error as From<QuicheError>>::from, (q,), of_quiche),
        call_ensures(<IoError as From<Error>>::from, (of_quiche,), quiche_back),
        call_ensures(<Error as From<QuicheH3Error>>::from, (h,), of_h3),
        call_ensures(<IoError as From<Error>>::from, (of_h3,), h3_back),
    ensures
        of_io == Error::Io(e),
        io_back == e,
        of_quiche == Error::Quiche(q),
        error::made_of_quiche(quiche_back, ErrorKind::Other, q),
        of_h3 == Error::QuicheH3(h),
        error::made_of_h3(h3_back, ErrorKind::Other, h),
{
}

/// The text of an error names the part that failed and ends with the text of its cause.
pub proof fn errors_show_their_causes(e: Error, cause: &str, text: String)
    requires
        call_ensures(Error::describe, (&e, cause), text),
    ensures
        e is Io ==> text@ == "io error: "@ + cause@,
        e is Quiche ==> text@ == "quiche error: "@ + cause@,
        e is QuicheH3 ==> text@ == "quiche h3 error: "@ + cause@,
{
}

/// The text that an error is shown as ends with what its cause is shown as. `cause` is that.
pub proof fn errors_show_as_their_causes_do(e: Error, text: String) -> (cause: String)
    requires
        call_ensures(Error::message, (&e,), text),
    ensures
        e matches Error::Io(io) ==> vstd::string::to_string_from_display_ensures(&io, cause) && text@
            == "io error: "@ + cause@,
        e matches Error::Quiche(q) ==> vstd::string::to_string_from_display_ensures(&q, cause)
            && text@ == "quiche error: "@ + cause@,
        e matches Error::QuicheH3(h) ==> vstd::string::to_string_from_display_ensures(&h, cause)
            && text@ == "quiche h3 error: "@ + cause@,
{
    choose|cause: String| #[trigger] e.shows_cause(cause) && text@ == error::shown(e, cause@)
}

/// To poll a stream's slot changes nothing but its waker, and that only if its flag is down.
pub proof fn polling_a_slot_touches_its_waker(
    s: &mut StreamIo,
    stream_id: u64,
    waker: &Waker,
    ready: bool,
)
    requires
        call_ensures(StreamIo::poll, (s, stream_id, waker), ready),
        old(s)@.dom().contains(stream_id),
    ensures
        ready == old(s)@[stream_id].ready,
        final(s)@.dom() == old(s)@.dom(),
        final(s)@[stream_id].ready == ready,
        ready ==> final(s)@[stream_id] == old(s)@[stream_id],
        !ready ==> (final(s)@[stream_id].waker matches Some(w) && readiness::same_task(w, *waker)),
        forall|id: u64|
            #![trigger final(s)@[id]]
            id != stream_id && old(s)@.dom().contains(id) ==> final(s)@[id] == old(s)@[id],
{
    assert(final(s)@.dom() =~= old(s)@.dom());
}

/// A flag is made as it is asked for, and nobody waits for it.
pub proof fn new_flags_wake_nobody(ready: bool, r: Readiness)
    requires
        call_ensures(Readiness::new, (ready,), r),
    ensures
        r.ready == ready,
        r.waker is None,
{
}

/// At first no stream has a slot, and it is empty exactly where none has.
pub proof fn slots_are_counted(fresh: StreamIo, s: StreamIo, empty: bool)
    requires
        call_ensures(StreamIo::new, (), fresh),
        call_ensures(StreamIo::is_empty, (&s,), empty),
    ensures
        forall|id: u64| !(#[trigger] fresh@.dom().contains(id)),
        empty <==> forall|id: u64| !(#[trigger] s@.dom().contains(id)),
{
    if forall|id: u64| !(#[trigger] s@.dom().contains(id)) {
        assert(s@ =~= Map::<u64, Readiness>::empty());
    }
}

/// What a flush does tells what the connection answered.
pub proof fn flush_tells_the_answer(
    result: Result<(usize, SendInfo), QuicheError>,
    action: WriteAction,
)
    requires
        call_ensures(connection::on_send, (result,), action),
    ensures
        action matches WriteAction::Send { len, info } ==> result == Ok::<(usize, SendInfo), QuicheError>(
            (len, info),
        ),
        action matches WriteAction::Return(Ok(_)) ==> result == Err::<(usize, SendInfo), QuicheError>(
            QuicheError::Done,
        ),
        action matches WriteAction::Return(Err(error)) ==> error is Quiche && error->Quiche_0
            != QuicheError::Done && result == Err::<(usize, SendInfo), QuicheError>(error->Quiche_0),
{
}

/// What a handshake does tells what the connection answered and what state it is in.
pub proof fn handshake_tells_the_answer(
    result: Result<(usize, SendInfo), QuicheError>,
    closed: bool,
    established: bool,
    timeout: Option<Duration>,
    action: HandshakeAction,
)
    requires
        call_ensures(handshake::on_send, (result, closed, established, timeout), action),
    ensures
        action matches HandshakeAction::Send { len, info } ==> result == Ok::<
            (usize, SendInfo),
            QuicheError,
        >((len, info)),
        action is Established ==> result is Err && result->Err_0 == QuicheError::Done && established
            && !closed,
        action matches HandshakeAction::Receive(limit) ==> result is Err && result->Err_0
            == QuicheError::Done && !established && !closed && limit == timeout,
        action matches HandshakeAction::Fail(error) ==> error is Quiche && result is Err && (
        (error->Quiche_0 == QuicheError::InvalidState && closed && result->Err_0
            == QuicheError::Done) || (result->Err_0 != QuicheError::Done && error->Quiche_0
            == result->Err_0)),
{
}

/// What is done with an offer to a stream tells what the stream answered.
pub proof fn stream_send_tells_the_answer(
    result: Result<usize, QuicheError>,
    action: StreamSendAction,
)
    requires
        call_ensures(connection::on_stream_send, (result,), action),
    ensures
        match action {
            StreamSendAction::Flush(FlushFor::Report(n)) => result is Ok && result->Ok_0 == n,
            StreamSendAction::Flush(FlushFor::Retry) => result is Err && result->Err_0
                == QuicheError::Done,
            StreamSendAction::Return(Ok(_)) => false,
            StreamSendAction::Return(Err(e)) => result is Err && result->Err_0 != QuicheError::Done
                && e == Error::Quiche(result->Err_0),
        },
{
}

/// What a reader does tells what the stream answered.
pub proof fn stream_recv_tells_the_answer(
    result: Result<(usize, bool), QuicheError>,
    action: StreamRecvAction,
)
    requires
        call_ensures(connection::on_stream_recv, (result,), action),
    ensures
        match action {
            StreamRecvAction::Wait => result is Err && result->Err_0 == QuicheError::Done,
            StreamRecvAction::Return(Ok(read)) => result is Ok && result->Ok_0 == read,
            StreamRecvAction::Return(Err(e)) => result is Err && result->Err_0 != QuicheError::Done
                && e == Error::Quiche(result->Err_0),
        },
{
}

/// What closing does tells what the connection answered.
pub proof fn close_tells_the_answer(result: Result<(), QuicheError>, action: CloseAction)
    requires
        call_ensures(connection::on_close, (result,), action),
    ensures
        match action {
            CloseAction::Flush => result is Ok,
            CloseAction::Return(Ok(_)) => false,
            CloseAction::Return(Err(e)) => result is Err && e == Error::Quiche(result->Err_0),
        },
{
}

/// After a flush for a value, that value is reported exactly if the flush succeeded, and its
/// error otherwise.
pub proof fn flush_decides_the_report<T>(
    value: T,
    flushed: Result<(), Error>,
    out: Result<T, Error>,
)
    requires
        call_ensures(connection::on_flushed::<T>, (value, flushed), out),
    ensures
        out is Ok <==> flushed is Ok,
        out is Ok ==> out->Ok_0 == value,
        out is Err ==> out->Err_0 == flushed->Err_0,
{
}

/// The read loop goes on after a datagram that was taken, and after a timer that did not
/// close the connection, for as long as the timer says; it ends otherwise.
pub proof fn read_loop_goes_on(
    result: Result<(), Error>,
    timeout: Option<Duration>,
    after_packet: ReadAction,
    closed: bool,
    after_timer: ReadAction,
)
    requires
        call_ensures(connection::on_packet, (result, timeout), after_packet),
        call_ensures(connection::on_timer, (closed, timeout), after_timer),
    ensures
        match after_packet {
            ReadAction::Receive(limit) => result is Ok && limit == timeout,
            ReadAction::Return(Ok(_)) => false,
            ReadAction::Return(Err(e)) => result is Err && e == result->Err_0,
        },
        match after_timer {
            ReadAction::Receive(limit) => !closed && limit == timeout,
            ReadAction::Return(Ok(_)) => closed,
            ReadAction::Return(Err(_)) => false,
        },
{
}

/// What is made of an answer of the HTTP/3 layer tells what it was: as a report, as what
/// follows an attempt to send, and as what follows a question for events.
pub proof fn layer_tells_the_answer<T>(
    result: Result<T, QuicheH3Error>,
    report: Result<T, Error>,
    sent: SendAction<T>,
    polled: Result<(u64, H3Event), QuicheH3Error>,
    next: NextAction,
)
    requires
        call_ensures(h3::on_h3::<T>, (result,), report),
        call_ensures(h3::on_send::<T>, (result,), sent),
        call_ensures(h3::on_poll, (polled,), next),
    ensures
        match report {
            Ok(value) => result is Ok && value == result->Ok_0,
            Err(e) => result is Err && e == Error::QuicheH3(result->Err_0),
        },
        match sent {
            SendAction::Flush(value) => result is Ok && value == result->Ok_0,
            SendAction::Return(Ok(_)) => false,
            SendAction::Return(Err(e)) => result is Err && e == Error::QuicheH3(result->Err_0),
        },
        match next {
            NextAction::Wait => false,
            NextAction::Flush => polled is Err && polled->Err_0 == QuicheH3Error::Done,
            NextAction::Return(Ok(reported)) => polled is Ok && reported == polled->Ok_0,
            NextAction::Return(Err(e)) => polled is Err && polled->Err_0 != QuicheH3Error::Done && e
                == Error::QuicheH3(polled->Err_0),
        },
{
}

/// What is reported of a datagram tells what the connection answered.
pub proof fn datagram_tells_the_answer(result: Result<usize, QuicheError>, out: Result<(), Error>)
    requires
        call_ensures(datagram::on_received, (result,), out),
    ensures
        out is Ok <==> result is Ok,
        out is Err ==> out->Err_0 == Error::Quiche(result->Err_0),
{
}

/// The address to bind is of the peer's version of IP, with any interface and any port.
pub proof fn bind_address_is_unspecified(peer: Endpoint, local: Endpoint)
    requires
        call_ensures(Endpoint::bind_address, (&peer,), local),
    ensures
        match local {
            Endpoint::V4 { octets, port } => {
                &&& peer is V4
                &&& port == 0
                &&& octets@ == seq![0u8, 0u8, 0u8, 0u8]
            },
            Endpoint::V6 { segments, port, flowinfo, scope_id } => {
                &&& peer is V6
                &&& port == 0 && flowinfo == 0 && scope_id == 0
                &&& segments@ == seq![0u16, 0u16, 0u16, 0u16, 0u16, 0u16, 0u16, 0u16]
            },
        },
{
    match local {
        Endpoint::V4 { octets, port } => {
            assert(octets@ =~= seq![0u8, 0u8, 0u8, 0u8]);
        },
        Endpoint::V6 { segments, port, flowinfo, scope_id } => {
            assert(segments@ =~= seq![0u16, 0u16, 0u16, 0u16, 0u16, 0u16, 0u16, 0u16]);
        },
    }
}

/// The buffers have the size of the datagrams that are sent and taken.
pub proof fn buffers_hold_a_datagram()
    ensures
        datagram::MAX_DATAGRAM_SIZE == 1350,
{
}

/// The largest integer that a packet carries has 62 bits.
pub proof fn packets_carry_62_bits()
    ensures
        quic::MAX_VARINT + 1 == pow2(62),
{
    vstd::arithmetic::power2::lemma2_to64_rest();
}

/// Settings fit exactly if each number that is given does.
pub proof fn quic_settings_fit_each(s: QuicSettings, fits: bool)
    requires
        call_ensures(QuicSettings::fits, (&s,), fits),
    ensures
        fits <==> {
            &&& s.max_idle_timeout matches Some(v) ==> v <= quic::MAX_VARINT
            &&& s.max_recv_udp_payload_size matches Some(v) ==> v <= quic::MAX_VARINT
            &&& s.initial_max_data matches Some(v) ==> v <= quic::MAX_VARINT
            &&& s.initial_max_stream_data_bidi_local matches Some(v) ==> v <= quic::MAX_VARINT
            &&& s.initial_max_stream_data_bidi_remote matches Some(v) ==> v <= quic::MAX_VARINT
            &&& s.initial_max_stream_data_uni matches Some(v) ==> v <= quic::MAX_VARINT
            &&& s.initial_max_streams_bidi matches Some(v) ==> v <= quic::MAX_VARINT
            &&& s.initial_max_streams_uni matches Some(v) ==> v <= quic::MAX_VARINT
            &&& s.ack_delay_exponent matches Some(v) ==> v < 64
            &&& s.max_ack_delay matches Some(v) ==> v <= quic::MAX_VARINT
            &&& s.active_connection_id_limit matches Some(v) ==> v <= quic::MAX_VARINT && 3 * v <= usize::MAX
        },
{
}

/// Settings that fit are put into a configuration each as it was given, what was not given
/// is left alone, and the configuration stays one that can be sent. Settings that do not fit
/// leave it as it was.
pub proof fn quic_settings_are_applied_each(s: QuicSettings, config: &mut QuicheConfig, done: bool)
    requires
        call_ensures(QuicSettings::apply, (&s, config), done),
    ensures
        done <==> {
            &&& s.max_idle_timeout matches Some(v) ==> v <= quic::MAX_VARINT
            &&& s.max_recv_udp_payload_size matches Some(v) ==> v <= quic::MAX_VARINT
            &&& s.initial_max_data matches Some(v) ==> v <= quic::MAX_VARINT
            &&& s.initial_max_stream_data_bidi_local matches Some(v) ==> v <= quic::MAX_VARINT
            &&& s.initial_max_stream_data_bidi_remote matches Some(v) ==> v <= quic::MAX_VARINT
            &&& s.initial_max_stream_data_uni matches Some(v) ==> v <= quic::MAX_VARINT
            &&& s.initial_max_streams_bidi matches Some(v) ==> v <= quic::MAX_VARINT
            &&& s.initial_max_streams_uni matches Some(v) ==> v <= quic::MAX_VARINT
            &&& s.ack_delay_exponent matches Some(v) ==> v < 64
            &&& s.max_ack_delay matches Some(v) ==> v <= quic::MAX_VARINT
            &&& s.active_connection_id_limit matches Some(v) ==> v <= quic::MAX_VARINT && 3 * v <= usize::MAX
        },
        done ==> *final(config) == {
            let c1 = if s.max_idle_timeout is Some {
                quic::with_max_idle_timeout(*old(config), s.max_idle_timeout->0)
            } else {
                *old(config)
            };
            let c2 = if s.max_recv_udp_payload_size is Some {
                quic::with_max_recv_udp_payload_size(c1, s.max_recv_udp_payload_size->0)
            } else {
                c1
            };
            let c3 = if s.initial_max_data is Some {
                quic::with_initial_max_data(c2, s.initial_max_data->0)
            } else {
                c2
            };
            let c4 = if s.initial_max_stream_data_bidi_local is Some {
                quic::with_initial_max_stream_data_bidi_local(c3, s.initial_max_stream_data_bidi_local->0)
            } else {
                c3
            };
            let c5 = if s.initial_max_stream_data_bidi_remote is Some {
                quic::with_initial_max_stream_data_bidi_remote(c4, s.initial_max_stream_data_bidi_remote->0)
            } else {
                c4
            };
            let c6 = if s.initial_max_stream_data_uni is Some {
                quic::with_initial_max_stream_data_uni(c5, s.initial_max_stream_data_uni->0)
            } else {
                c5
            };
            let c7 = if s.initial_max_streams_bidi is Some {
                quic::with_initial_max_streams_bidi(c6, s.initial_max_streams_bidi->0)
            } else {
                c6
            };
            let c8 = if s.initial_max_streams_uni is Some {
                quic::with_initial_max_streams_uni(c7, s.initial_max_streams_uni->0)
            } else {
                c7
            };
            let c9 = if s.ack_delay_exponent is Some {
                quic::with_ack_delay_exponent(c8, s.ack_delay_exponent->0)
            } else {
                c8
            };
            let c10 = if s.max_ack_delay is Some {
                quic::with_max_ack_delay(c9, s.max_ack_delay->0)
            } else {
                c9
            };
            let c11 = if s.active_connection_id_limit is Some {
                quic::with_active_connection_id_limit(c10, s.active_connection_id_limit->0)
            } else {
                c10
            };
            c11
        },
        !done ==> *final(config) == *old(config),
        quic::settings_fit(*old(config)) ==> quic::settings_fit(*final(config)),
{
}

/// Settings fit exactly if each number that is given does.
pub proof fn h3_settings_fit_each(s: H3Settings, fits: bool)
    requires
        call_ensures(H3Settings::fits, (&s,), fits),
    ensures
        fits <==> {
            &&& s.max_field_section_size matches Some(v) ==> v <= quic::MAX_VARINT
            &&& s.qpack_max_table_capacity matches Some(v) ==> v <= quic::MAX_VARINT
            &&& s.qpack_blocked_streams matches Some(v) ==> v <= quic::MAX_VARINT
        },
{
}

/// Settings that fit are put into a configuration each as it was given, what was not given
/// is left alone, and the configuration stays one that can be sent. Settings that do not fit
/// leave it as it was.
pub proof fn h3_settings_are_applied_each(s: H3Settings, config: &mut QuicheH3Config, done: bool)
    requires
        call_ensures(H3Settings::apply, (&s, config), done),
    ensures
        done <==> {
            &&& s.max_field_section_size matches Some(v) ==> v <= quic::MAX_VARINT
            &&& s.qpack_max_table_capacity matches Some(v) ==> v <= quic::MAX_VARINT
            &&& s.qpack_blocked_streams matches Some(v) ==> v <= quic::MAX_VARINT
        },
        done ==> *final(config) == {
            let c1 = if s.max_field_section_size is Some {
                http3::with_max_field_section_size(*old(config), s.max_field_section_size->0)
            } else {
                *old(config)
            };
            let c2 = if s.qpack_max_table_capacity is Some {
                http3::with_qpack_max_table_capacity(c1, s.qpack_max_table_capacity->0)
            } else {
                c1
            };
            let c3 = if s.qpack_blocked_streams is Some {
                http3::with_qpack_blocked_streams(c2, s.qpack_blocked_streams->0)
            } else {
                c2
            };
            c3
        },
        !done ==> *final(config) == *old(config),
        http3::h3_settings_fit(*old(config)) ==> http3::h3_settings_fit(*final(config)),
{
}

/// The configuration made of settings that fit is a new one of the caller's version, with
/// each number as it was given. Settings that do not fit make none, and a failure is
/// reported as it came. `fresh` is what the new configuration was before.
pub proof fn quic_settings_make_a_configuration(
    s: QuicSettings,
    version: u32,
    out: Result<Option<QuicheConfig>, Error>,
) -> (fresh: QuicheConfig)
    requires
        call_ensures(QuicSettings::config, (&s, version), out),
    ensures
        out is Ok ==> quic::config_outcome(version, Ok(fresh)),
        out matches Ok(made) ==> (made is Some <==> {
            &&& s.max_idle_timeout matches Some(v) ==> v <= quic::MAX_VARINT
            &&& s.max_recv_udp_payload_size matches Some(v) ==> v <= quic::MAX_VARINT
            &&& s.initial_max_data matches Some(v) ==> v <= quic::MAX_VARINT
            &&& s.initial_max_stream_data_bidi_local matches Some(v) ==> v <= quic::MAX_VARINT
            &&& s.initial_max_stream_data_bidi_remote matches Some(v) ==> v <= quic::MAX_VARINT
            &&& s.initial_max_stream_data_uni matches Some(v) ==> v <= quic::MAX_VARINT
            &&& s.initial_max_streams_bidi matches Some(v) ==> v <= quic::MAX_VARINT
            &&& s.initial_max_streams_uni matches Some(v) ==> v <= quic::MAX_VARINT
            &&& s.ack_delay_exponent matches Some(v) ==> v < 64
            &&& s.max_ack_delay matches Some(v) ==> v <= quic::MAX_VARINT
            &&& s.active_connection_id_limit matches Some(v) ==> v <= quic::MAX_VARINT && 3 * v <= usize::MAX
        }),
        out matches Ok(Some(config)) ==> quic::settings_fit(config) && config == {
            let c1 = if s.max_idle_timeout is Some {
                quic::with_max_idle_timeout(fresh, s.max_idle_timeout->0)
            } else {
                fresh
            };
            let c2 = if s.max_recv_udp_payload_size is Some {
                quic::with_max_recv_udp_payload_size(c1, s.max_recv_udp_payload_size->0)
            } else {
                c1
            };
            let c3 = if s.initial_max_data is Some {
                quic::with_initial_max_data(c2, s.initial_max_data->0)
            } else {
                c2
            };
            let c4 = if s.initial_max_stream_data_bidi_local is Some {
                quic::with_initial_max_stream_data_bidi_local(c3, s.initial_max_stream_data_bidi_local->0)
            } else {
                c3
            };
            let c5 = if s.initial_max_stream_data_bidi_remote is Some {
                quic::with_initial_max_stream_data_bidi_remote(c4, s.initial_max_stream_data_bidi_remote->0)
            } else {
                c4
            };
            let c6 = if s.initial_max_stream_data_uni is Some {
                quic::with_initial_max_stream_data_uni(c5, s.initial_max_stream_data_uni->0)
            } else {
                c5
            };
            let c7 = if s.initial_max_streams_bidi is Some {
                quic::with_initial_max_streams_bidi(c6, s.initial_max_streams_bidi->0)
            } else {
                c6
            };
            let c8 = if s.initial_max_streams_uni is Some {
                quic::with_initial_max_streams_uni(c7, s.initial_max_streams_uni->0)
            } else {
                c7
            };
            let c9 = if s.ack_delay_exponent is Some {
                quic::with_ack_delay_exponent(c8, s.ack_delay_exponent->0)
            } else {
                c8
            };
            let c10 = if s.max_ack_delay is Some {
                quic::with_max_ack_delay(c9, s.max_ack_delay->0)
            } else {
                c9
            };
            let c11 = if s.active_connection_id_limit is Some {
                quic::with_active_connection_id_limit(c10, s.active_connection_id_limit->0)
            } else {
                c10
            };
            c11
        },
        out matches Err(error) ==> error is Quiche && quic::config_outcome(
            version,
            Err(error->Quiche_0),
        ),
{
    let r = choose|r: Result<QuicheConfig, QuicheError>|
        {
            &&& #[trigger] quic::config_outcome(version, r)
            &&& match r {
                Ok(config) => out == Ok::<Option<QuicheConfig>, Error>(
                    if s.fit() {
                        Some(s.applied(config))
                    } else {
                        None
                    },
                ),
                Err(e) => out matches Err(error) && error == Error::Quiche(e),
            }
        };
    r->Ok_0
}

/// The HTTP/3 configuration made of settings that fit is the default one, with each number
/// as it was given. Settings that do not fit make none. `fresh` is the default one.
pub proof fn h3_settings_make_a_configuration(
    s: H3Settings,
    out: Option<QuicheH3Config>,
) -> (fresh: QuicheH3Config)
    requires
        call_ensures(H3Settings::config, (&s,), out),
    ensures
        out is Some <==> {
            &&& s.max_field_section_size matches Some(v) ==> v <= quic::MAX_VARINT
            &&& s.qpack_max_table_capacity matches Some(v) ==> v <= quic::MAX_VARINT
            &&& s.qpack_blocked_streams matches Some(v) ==> v <= quic::MAX_VARINT
        },
        out matches Some(config) ==> http3::h3_settings_fit(config) && http3::is_default_h3_config(
            fresh,
        ) && config == {
            let c1 = if s.max_field_section_size is Some {
                http3::with_max_field_section_size(fresh, s.max_field_section_size->0)
            } else {
                fresh
            };
            let c2 = if s.qpack_max_table_capacity is Some {
                http3::with_qpack_max_table_capacity(c1, s.qpack_max_table_capacity->0)
            } else {
                c1
            };
            let c3 = if s.qpack_blocked_streams is Some {
                http3::with_qpack_blocked_streams(c2, s.qpack_blocked_streams->0)
            } else {
                c2
            };
            c3
        },
{
    choose|fresh: QuicheH3Config| #[trigger]
        http3::is_default_h3_config(fresh) && out == Some(s.applied(fresh))
}

} // verus!
