//! What holds of the library as a whole, across calls.
use crate::connection;
use crate::connection::CloseAction;
use crate::connection::CloseEvent;
use crate::connection::Connection;
use crate::connection::FlushFor;
use crate::connection::ReadAction;
use crate::connection::ReadEvent;
use crate::connection::StreamRecvAction;
use crate::connection::StreamSendAction;
use crate::connection::StreamSendEvent;
use crate::connection::WriteAction;
use crate::connection::WriteEvent;
use crate::error;
use crate::error::Error;
use crate::h3;
use crate::h3::H3Connection;
use crate::h3::NextAction;
use crate::h3::NextEvent;
use crate::h3::SendAction;
use crate::h3::SendEvent;
use crate::handshake;
use crate::handshake::HandshakeAction;
use crate::handshake::HandshakeEvent;
use crate::http3;
use crate::quic;
use crate::readiness;
use crate::readiness::Readiness;
use quiche::h3::Config as QuicheH3Config;
use quiche::h3::Connection as QuicheH3Connection;
use quiche::h3::Error as QuicheH3Error;
use quiche::h3::Event as H3Event;
use quiche::h3::Header as H3Header;
use quiche::Connection as QuicheConnection;
use quiche::Error as QuicheError;
use quiche::SendInfo;
use std::io::Error as IoError;
use std::task::Waker;
use vstd::prelude::*;
use vstd::std_specs::convert::FromSpec;

verus! {

/// A waker that waits for a stream of `ids` is among those handed out.
proof fn lemma_waiting_contains(slots: Map<u64, Readiness>, ids: Seq<u64>, id: u64)
    requires
        ids.contains(id),
        slots.dom().contains(id),
        slots[id].waker is Some,
    ensures
        readiness::waiting(slots, ids).contains(slots[id].waker->0),
    decreases ids.len(),
{
    let front = ids.drop_last();
    let earlier = readiness::waiting(slots, front);
    let all = readiness::waiting(slots, ids);
    if front.contains(id) {
        lemma_waiting_contains(slots, front, id);
        let k = choose|k: int| 0 <= k < earlier.len() && earlier[k] == slots[id].waker->0;
        assert(all[k] == slots[id].waker->0);
    } else {
        assert(ids.last() == id) by {
            let k = choose|k: int| 0 <= k < ids.len() && ids[k] == id;
            if k < ids.len() - 1 {
                assert(front[k] == id);
            }
        }
        assert(all[all.len() - 1] == slots[id].waker->0);
    }
}

/// Nobody waits for streams whose slots hold no waker.
proof fn lemma_nobody_left(slots: Map<u64, Readiness>, ids: Seq<u64>)
    requires
        forall|id: u64| ids.contains(id) && #[trigger] slots.dom().contains(id) ==> slots[id].waker is None,
    ensures
        readiness::waiting(slots, ids) == Seq::<Waker>::empty(),
    decreases ids.len(),
{
    if ids.len() > 0 {
        let front = ids.drop_last();
        assert forall|id: u64| front.contains(id) && #[trigger] slots.dom().contains(id) implies slots[id].waker is None by {
            let k = choose|k: int| 0 <= k < front.len() && front[k] == id;
            assert(ids[k] == id);
        }
        lemma_nobody_left(slots, front);
        assert(ids[ids.len() - 1] == ids.last());
        assert(ids.contains(ids.last()));
    }
}

/// A task that waits for a stream is woken by the datagram that makes the stream
/// readable, and then finds the stream ready: whenever the read loop is told of a
/// datagram and goes on. `waker` is the one it polled with.
pub proof fn stream_reader_is_woken(
    before: Connection,
    after: Connection,
    buf_before: Seq<u8>,
    buf_after: Seq<u8>,
    event: ReadEvent,
    action: ReadAction,
    woken: Seq<Waker>,
    stream_id: u64,
    waker: Waker,
)
    requires
        connection::read_step(before, after, buf_before, buf_after, event, action, woken),
        event matches ReadEvent::Received(Ok(_)) || event matches ReadEvent::Expired(Ok(_)),
        action is Receive,
        before.stream_io@.dom().contains(stream_id),
        before.stream_io@[stream_id].waker matches Some(w) && readiness::same_task(w, waker),
        quic::readable_streams(after.session).contains(stream_id),
    ensures
        exists|w: Waker| woken.contains(w) && #[trigger] readiness::same_task(w, waker),
        after.stream_io@.dom().contains(stream_id),
        after.stream_io@[stream_id].ready,
{
    let ids = quic::readable_streams(after.session);
    let readers = readiness::waiting(before.stream_io@, ids);
    let stored = before.stream_io@[stream_id].waker->0;
    lemma_waiting_contains(before.stream_io@, ids, stream_id);
    let k = choose|k: int| 0 <= k < readers.len() && readers[k] == stored;
    assert(woken[k] == stored);
    assert(before.stream_io@ != Map::<u64, Readiness>::empty());
}

/// A task that waits for an event of the HTTP/3 layer is woken by any datagram, and then
/// finds the layer ready: whenever the read loop is told of a datagram and goes on.
/// `waker` is the one it polled with.
pub proof fn h3_reader_is_woken(
    before: Connection,
    after: Connection,
    buf_before: Seq<u8>,
    buf_after: Seq<u8>,
    event: ReadEvent,
    action: ReadAction,
    woken: Seq<Waker>,
    waker: Waker,
)
    requires
        connection::read_step(before, after, buf_before, buf_after, event, action, woken),
        event matches ReadEvent::Received(Ok(_)) || event matches ReadEvent::Expired(Ok(_)),
        action is Receive,
        before.h3_io.waker matches Some(w) && readiness::same_task(w, waker),
    ensures
        exists|w: Waker| woken.contains(w) && #[trigger] readiness::same_task(w, waker),
        after.h3_io.ready,
{
    assert(woken[woken.len() - 1] == before.h3_io.waker->0);
}

/// The read loop loses no waker: whatever it is told, a waker that waits for a
/// stream is still waiting for it afterwards, or has been handed out.
pub proof fn read_loop_loses_no_stream_waker(
    before: Connection,
    after: Connection,
    buf_before: Seq<u8>,
    buf_after: Seq<u8>,
    event: ReadEvent,
    action: ReadAction,
    woken: Seq<Waker>,
    stream_id: u64,
    waker: Waker,
)
    requires
        connection::read_step(before, after, buf_before, buf_after, event, action, woken),
        before.stream_io@.dom().contains(stream_id),
        before.stream_io@[stream_id].waker == Some(waker),
    ensures
        after.stream_io@.dom().contains(stream_id),
        after.stream_io@[stream_id].waker == Some(waker) || woken.contains(waker),
{
    assert(before.stream_io@ != Map::<u64, Readiness>::empty());
    let accepted = |mid: Connection|
        connection::roused(mid, after, woken) && mid.stream_io == before.stream_io;
    if exists|mid: Connection| #[trigger] accepted(mid) {
        let mid = choose|mid: Connection| #[trigger] accepted(mid);
        let ids = quic::readable_streams(mid.session);
        if ids.contains(stream_id) {
            let readers = readiness::waiting(mid.stream_io@, ids);
            lemma_waiting_contains(mid.stream_io@, ids, stream_id);
            let k = choose|k: int| 0 <= k < readers.len() && readers[k] == waker;
            assert(woken[k] == waker);
        }
    } else {
        assert(after.stream_io == before.stream_io) by {
            assert forall|mid: Connection| connection::roused(mid, after, woken) implies mid.stream_io
                != before.stream_io by {
                assert(!accepted(mid));
            }
        }
    }
}

/// The read loop loses no waker: whatever it is told, the waker that waits for an
/// event of the HTTP/3 layer is still waiting afterwards, or has been handed out.
pub proof fn read_loop_loses_no_h3_waker(
    before: Connection,
    after: Connection,
    buf_before: Seq<u8>,
    buf_after: Seq<u8>,
    event: ReadEvent,
    action: ReadAction,
    woken: Seq<Waker>,
    waker: Waker,
)
    requires
        connection::read_step(before, after, buf_before, buf_after, event, action, woken),
        before.h3_io.waker == Some(waker),
    ensures
        after.h3_io.waker == Some(waker) || woken.contains(waker),
{
    if after.h3_io.waker != Some(waker) {
        assert(woken[woken.len() - 1] == waker);
    }
}

/// A task is woken once for each time that it waits: if nothing has happened since
/// the flags were raised, to raise them again wakes nobody and changes nothing.
pub proof fn waking_twice_wakes_once(
    first: Connection,
    second: Connection,
    third: Connection,
    woken: Seq<Waker>,
    woken_again: Seq<Waker>,
)
    requires
        connection::roused(first, second, woken),
        connection::roused(second, third, woken_again),
    ensures
        woken_again == Seq::<Waker>::empty(),
        third.session == second.session,
        third.stream_io@ == second.stream_io@,
        third.h3_io == second.h3_io,
{
    let ids = quic::readable_streams(first.session);
    lemma_nobody_left(second.stream_io@, ids);
    assert(readiness::raised(second.stream_io@, ids) =~= second.stream_io@
        || first.stream_io@ == Map::<u64, Readiness>::empty());
}

/// Only a packet that the connection accepts wakes anybody.
pub proof fn only_packets_wake(
    before: Connection,
    after: Connection,
    buf_before: Seq<u8>,
    buf_after: Seq<u8>,
    event: ReadEvent,
    action: ReadAction,
    woken: Seq<Waker>,
)
    requires
        connection::read_step(before, after, buf_before, buf_after, event, action, woken),
        woken.len() > 0,
    ensures
        action is Receive,
        event matches ReadEvent::Received(Ok(_)) || event matches ReadEvent::Expired(Ok(_)),
{
}

/// The read loop from its first step on: each wait was made, and the step after it was
/// told how that went. Only a wait with a limit can be called off or expire. Between
/// two steps anything may have happened to the connection.
pub open spec fn is_read_loop(
    before: Seq<Connection>,
    after: Seq<Connection>,
    bufs_before: Seq<Seq<u8>>,
    bufs_after: Seq<Seq<u8>>,
    events: Seq<ReadEvent>,
    actions: Seq<ReadAction>,
    woken: Seq<Seq<Waker>>,
) -> bool {
    let n = actions.len();
    &&& n > 0
    &&& before.len() == n && after.len() == n && events.len() == n && woken.len() == n
    &&& bufs_before.len() == n && bufs_after.len() == n
    &&& events[0] is Begin
    &&& forall|i: int|
        0 <= i < n ==> #[trigger] connection::read_step(
            before[i],
            after[i],
            bufs_before[i],
            bufs_after[i],
            events[i],
            actions[i],
            woken[i],
        )
    &&& forall|i: int|
        #![trigger events[i]]
        0 < i < n ==> match actions[i - 1] {
            ReadAction::Receive(None) => events[i] is Received,
            ReadAction::Receive(Some(_)) => events[i] is Received || events[i] is Expired
                || events[i] is Exit,
            ReadAction::Return(_) => false,
        }
}

/// The read loop ends without an error exactly when a wait with a limit is called off,
/// because nobody holds the connection any more, or when such a wait expires without a
/// datagram and the timer leaves the connection closed.
pub proof fn read_loop_ends(
    before: Seq<Connection>,
    after: Seq<Connection>,
    bufs_before: Seq<Seq<u8>>,
    bufs_after: Seq<Seq<u8>>,
    events: Seq<ReadEvent>,
    actions: Seq<ReadAction>,
    woken: Seq<Seq<Waker>>,
)
    requires
        is_read_loop(before, after, bufs_before, bufs_after, events, actions, woken),
    ensures
        actions.last() matches ReadAction::Return(Ok(_)) <==> {
            &&& actions.len() > 1
            &&& actions[actions.len() - 2] matches ReadAction::Receive(Some(_))
            &&& events.last() is Exit || (events.last() matches ReadEvent::Expired(Err(_))
                && quic::connection_closed(after.last().session))
        },
        forall|i: int| 0 <= i < actions.len() - 1 ==> (#[trigger] actions[i]) is Receive,
{
    let n = actions.len();
    assert forall|i: int| 0 <= i < n - 1 implies (#[trigger] actions[i]) is Receive by {
        assert(!(events[i + 1] is Begin));
    }
    let last = n - 1;
    assert(connection::read_step(
        before[last],
        after[last],
        bufs_before[last],
        bufs_after[last],
        events[last],
        actions[last],
        woken[last],
    ));
    assert(events.last() == events[last]);
}

/// The read loop fails with a socket error exactly when the socket failed, and
/// with that error.
pub proof fn read_loop_reports_socket_errors(
    before: Connection,
    after: Connection,
    buf_before: Seq<u8>,
    buf_after: Seq<u8>,
    event: ReadEvent,
    action: ReadAction,
    woken: Seq<Waker>,
    e: IoError,
)
    requires
        connection::read_step(before, after, buf_before, buf_after, event, action, woken),
    ensures
        action == ReadAction::Return(Err(Error::Io(e))) <==> event == ReadEvent::Received(Err(e)),
{
}

/// A handshake is complete only on a connection that is established and not
/// closed, and it waits only on one that is neither.
pub proof fn handshake_result_fits_connection(
    before: QuicheConnection,
    after: QuicheConnection,
    buf_before: Seq<u8>,
    buf_after: Seq<u8>,
    event: HandshakeEvent,
    action: HandshakeAction,
)
    requires
        handshake::handshake_step(before, after, buf_before, buf_after, event, action),
    ensures
        action is Established ==> quic::connection_established(after) && !quic::connection_closed(
            after,
        ),
        action is Receive ==> !quic::connection_established(after) && !quic::connection_closed(
            after,
        ),
{
}

/// A handshake fails with a socket error exactly when the socket failed, and with
/// that error.
pub proof fn handshake_reports_socket_errors(
    before: QuicheConnection,
    after: QuicheConnection,
    buf_before: Seq<u8>,
    buf_after: Seq<u8>,
    event: HandshakeEvent,
    action: HandshakeAction,
    e: IoError,
)
    requires
        handshake::handshake_step(before, after, buf_before, buf_after, event, action),
    ensures
        action == HandshakeAction::Fail(Error::Io(e)) <==> event == HandshakeEvent::Sent(Err(e))
            || event == HandshakeEvent::Received(Err(e)),
{
}

/// A handshake from its first step on: nobody else touched the connection, each
/// action was carried out, and the step after it was told how that went.
pub open spec fn is_handshake(
    before: Seq<QuicheConnection>,
    after: Seq<QuicheConnection>,
    bufs_before: Seq<Seq<u8>>,
    bufs_after: Seq<Seq<u8>>,
    events: Seq<HandshakeEvent>,
    actions: Seq<HandshakeAction>,
) -> bool {
    let n = actions.len();
    &&& n > 0
    &&& before.len() == n && after.len() == n && events.len() == n
    &&& bufs_before.len() == n && bufs_after.len() == n
    &&& events[0] is Begin
    &&& forall|i: int|
        0 <= i < n ==> #[trigger] handshake::handshake_step(
            before[i],
            after[i],
            bufs_before[i],
            bufs_after[i],
            events[i],
            actions[i],
        )
    &&& forall|i: int|
        #![trigger events[i]]
        0 < i < n ==> before[i] == after[i - 1] && match actions[i - 1] {
            HandshakeAction::Send { len, info } => events[i] is Sent,
            HandshakeAction::Receive(None) => events[i] is Received,
            HandshakeAction::Receive(Some(_)) => events[i] is Received || events[i] is Expired,
            _ => false,
        }
}

/// A handshake is complete only after the socket took every packet that the
/// connection had to send, and did not fail.
pub proof fn handshake_sends_everything(
    before: Seq<QuicheConnection>,
    after: Seq<QuicheConnection>,
    bufs_before: Seq<Seq<u8>>,
    bufs_after: Seq<Seq<u8>>,
    events: Seq<HandshakeEvent>,
    actions: Seq<HandshakeAction>,
)
    requires
        is_handshake(before, after, bufs_before, bufs_after, events, actions),
        actions.last() is Established,
    ensures
        forall|i: int|
            0 < i < events.len() ==> match #[trigger] events[i] {
                HandshakeEvent::Begin => false,
                HandshakeEvent::Sent(result) => result is Ok,
                HandshakeEvent::Received(result) => result is Ok,
                HandshakeEvent::Expired(_) => true,
            },
        forall|i: int|
            0 <= i < events.len() - 1 ==> match #[trigger] actions[i] {
                HandshakeAction::Send { len, info } => events[i + 1] matches HandshakeEvent::Sent(
                    Ok(_),
                ),
                HandshakeAction::Receive(_) => true,
                _ => false,
            },
        quic::connection_established(after.last()),
        !quic::connection_closed(after.last()),
{
    let n = actions.len();
    assert forall|i: int| 0 < i < n implies match #[trigger] events[i] {
        HandshakeEvent::Begin => false,
        HandshakeEvent::Sent(result) => result is Ok,
        HandshakeEvent::Received(result) => result is Ok,
        HandshakeEvent::Expired(_) => true,
    } by {
        assert(handshake::handshake_step(
            before[i],
            after[i],
            bufs_before[i],
            bufs_after[i],
            events[i],
            actions[i],
        ));
        if i < n - 1 {
            assert(!(events[i + 1] is Begin));
        }
    }
    assert forall|i: int| 0 <= i < n - 1 implies match #[trigger] actions[i] {
        HandshakeAction::Send { len, info } => events[i + 1] matches HandshakeEvent::Sent(Ok(_)),
        HandshakeAction::Receive(_) => true,
        _ => false,
    } by {
        assert(!(events[i + 1] is Begin));
    }
    let i = n - 1;
    assert(handshake::handshake_step(
        before[i],
        after[i],
        bufs_before[i],
        bufs_after[i],
        events[i],
        actions[i],
    ));
}

/// A flush from its first step on: each packet was handed to the socket, and the
/// step after it was told how that went.
pub open spec fn is_flush(
    before: Seq<QuicheConnection>,
    after: Seq<QuicheConnection>,
    bufs_before: Seq<Seq<u8>>,
    bufs_after: Seq<Seq<u8>>,
    events: Seq<WriteEvent>,
    actions: Seq<WriteAction>,
) -> bool {
    let n = actions.len();
    &&& n > 0
    &&& before.len() == n && after.len() == n && events.len() == n
    &&& bufs_before.len() == n && bufs_after.len() == n
    &&& events[0] is Begin
    &&& forall|i: int|
        0 <= i < n ==> #[trigger] connection::write_step(
            before[i],
            after[i],
            bufs_before[i],
            bufs_after[i],
            events[i],
            actions[i],
        )
    &&& forall|i: int| 0 < i < n ==> (#[trigger] events[i]) is Sent
    &&& forall|i: int| 0 <= i < n - 1 ==> (#[trigger] actions[i]) is Send
}

/// A flush succeeds only if the socket took every packet of the connection and the
/// connection had none left.
pub proof fn flush_sends_everything(
    before: Seq<QuicheConnection>,
    after: Seq<QuicheConnection>,
    bufs_before: Seq<Seq<u8>>,
    bufs_after: Seq<Seq<u8>>,
    events: Seq<WriteEvent>,
    actions: Seq<WriteAction>,
)
    requires
        is_flush(before, after, bufs_before, bufs_after, events, actions),
        actions.last() matches WriteAction::Return(Ok(_)),
    ensures
        forall|i: int| 0 < i < events.len() ==> (#[trigger] events[i]) matches WriteEvent::Sent(Ok(_)),
        quic::send_outcome(
            before.last(),
            after.last(),
            bufs_before.last(),
            bufs_after.last(),
            Err::<(usize, SendInfo), QuicheError>(QuicheError::Done),
        ),
{
    let n = actions.len();
    assert forall|i: int| 0 < i < n implies (#[trigger] events[i]) matches WriteEvent::Sent(Ok(_)) by {
        assert(connection::write_step(
            before[i],
            after[i],
            bufs_before[i],
            bufs_after[i],
            events[i],
            actions[i],
        ));
        if i < n - 1 {
            assert(actions[i] is Send);
        }
    }
    let i = n - 1;
    assert(connection::write_step(
        before[i],
        after[i],
        bufs_before[i],
        bufs_after[i],
        events[i],
        actions[i],
    ));
}

/// The sending of data on a stream from its first step on: each flush was made,
/// and the step after it was told for what and how it went.
pub open spec fn is_stream_send(
    before: Seq<QuicheConnection>,
    after: Seq<QuicheConnection>,
    stream_id: u64,
    data: Seq<u8>,
    fin: bool,
    events: Seq<StreamSendEvent>,
    actions: Seq<StreamSendAction>,
) -> bool {
    let n = actions.len();
    &&& n > 0
    &&& before.len() == n && after.len() == n && events.len() == n
    &&& events[0] is Begin
    &&& forall|i: int|
        0 <= i < n ==> #[trigger] connection::stream_send_step(
            before[i],
            after[i],
            stream_id,
            data,
            fin,
            events[i],
            actions[i],
        )
    &&& forall|i: int|
        #![trigger events[i]]
        0 < i < n ==> actions[i - 1] is Flush && events[i] is Flushed && events[i]->Flushed_0
            == actions[i - 1]->Flush_0
}

/// Sending on a stream reports a number of bytes only if the stream took that
/// many, no more than it was offered, and the flush after it succeeded. It reports
/// none only of empty data.
pub proof fn stream_send_reports_flushed_bytes(
    before: Seq<QuicheConnection>,
    after: Seq<QuicheConnection>,
    stream_id: u64,
    data: Seq<u8>,
    fin: bool,
    events: Seq<StreamSendEvent>,
    actions: Seq<StreamSendAction>,
    n: usize,
)
    requires
        is_stream_send(before, after, stream_id, data, fin, events, actions),
        actions.last() == StreamSendAction::Return(Ok(n)),
    ensures
        events.len() >= 2,
        quic::stream_send_outcome(
            before[events.len() - 2],
            after[events.len() - 2],
            stream_id,
            data,
            fin,
            Ok::<usize, QuicheError>(n),
        ),
        events.last() matches StreamSendEvent::Flushed(_, Ok(_)),
        n <= data.len(),
        n == 0 ==> data.len() == 0,
{
    let k = events.len() - 1;
    assert(connection::stream_send_step(
        before[k],
        after[k],
        stream_id,
        data,
        fin,
        events[k],
        actions[k],
    ));
    assert(k > 0);
    let j = k - 1;
    assert(events[k] is Flushed);
    assert(actions[j] == StreamSendAction::Flush(FlushFor::Report(n)));
    assert(connection::stream_send_step(
        before[j],
        after[j],
        stream_id,
        data,
        fin,
        events[j],
        actions[j],
    ));
    assert(connection::offered(before[j], after[j], stream_id, data, fin, actions[j]));
}

/// Several calls for data of one stream, in their order. Between two of them anything
/// may have happened to the connection.
pub open spec fn is_stream_reading(
    before: Seq<QuicheConnection>,
    after: Seq<QuicheConnection>,
    stream_id: u64,
    outs_before: Seq<Seq<u8>>,
    outs_after: Seq<Seq<u8>>,
    actions: Seq<StreamRecvAction>,
) -> bool {
    let n = actions.len();
    &&& before.len() == n && after.len() == n
    &&& outs_before.len() == n && outs_after.len() == n
    &&& forall|i: int|
        #![trigger actions[i]]
        0 <= i < n ==> connection::asked(
            before[i],
            after[i],
            stream_id,
            outs_before[i],
            outs_after[i],
            actions[i],
        )
}

/// What the stream answered to each of the calls.
pub open spec fn stream_answered(
    before: Seq<QuicheConnection>,
    after: Seq<QuicheConnection>,
    stream_id: u64,
    outs_before: Seq<Seq<u8>>,
    outs_after: Seq<Seq<u8>>,
    answers: Seq<Result<(usize, bool), QuicheError>>,
) -> bool {
    let n = answers.len();
    &&& before.len() == n && after.len() == n
    &&& outs_before.len() == n && outs_after.len() == n
    &&& forall|i: int|
        #![trigger answers[i]]
        0 <= i < n ==> quic::stream_recv_outcome(
            before[i],
            after[i],
            stream_id,
            outs_before[i],
            outs_after[i],
            answers[i],
        )
}

/// The bytes that the stream delivered, one answer after the other.
pub open spec fn delivered(
    outs: Seq<Seq<u8>>,
    answers: Seq<Result<(usize, bool), QuicheError>>,
) -> Seq<u8>
    decreases answers.len(),
{
    if answers.len() == 0 {
        Seq::empty()
    } else {
        let earlier = delivered(outs.drop_last(), answers.drop_last());
        match answers.last() {
            Ok(read) => earlier + outs.last().take(read.0 as int),
            Err(_) => earlier,
        }
    }
}

/// The bytes that the caller was told of, one call after the other.
pub open spec fn reported(outs: Seq<Seq<u8>>, actions: Seq<StreamRecvAction>) -> Seq<u8>
    decreases actions.len(),
{
    if actions.len() == 0 {
        Seq::empty()
    } else {
        let earlier = reported(outs.drop_last(), actions.drop_last());
        match actions.last() {
            StreamRecvAction::Return(Ok(read)) => earlier + outs.last().take(read.0 as int),
            _ => earlier,
        }
    }
}

/// Where each call passes on what the stream answered, the bytes are the same.
proof fn lemma_reported_is_delivered(
    outs: Seq<Seq<u8>>,
    actions: Seq<StreamRecvAction>,
    answers: Seq<Result<(usize, bool), QuicheError>>,
)
    requires
        actions.len() == answers.len(),
        forall|i: int|
            #![trigger actions[i]]
            0 <= i < actions.len() ==> actions[i] == connection::stream_recv_action(answers[i]),
    ensures
        reported(outs, actions) == delivered(outs, answers),
    decreases actions.len(),
{
    if actions.len() > 0 {
        let front = actions.drop_last();
        assert forall|i: int| #![trigger front[i]] 0 <= i < front.len() implies front[i]
            == connection::stream_recv_action(answers.drop_last()[i]) by {
            assert(front[i] == actions[i]);
        }
        lemma_reported_is_delivered(outs.drop_last(), front, answers.drop_last());
        assert(actions[actions.len() - 1] == connection::stream_recv_action(answers.last()));
    }
}

/// Reading from a stream loses nothing, repeats nothing and keeps the order: however
/// many calls it takes, the bytes that the caller is told of are those that the
/// stream delivered, each call fills no more than its buffer, and the stream is
/// reported to be over exactly where it said so. A call that waits has had nothing
/// from the stream.
pub proof fn stream_recv_reports_what_was_delivered(
    before: Seq<QuicheConnection>,
    after: Seq<QuicheConnection>,
    stream_id: u64,
    outs_before: Seq<Seq<u8>>,
    outs_after: Seq<Seq<u8>>,
    actions: Seq<StreamRecvAction>,
) -> (answers: Seq<Result<(usize, bool), QuicheError>>)
    requires
        is_stream_reading(before, after, stream_id, outs_before, outs_after, actions),
    ensures
        answers.len() == actions.len(),
        stream_answered(before, after, stream_id, outs_before, outs_after, answers),
        reported(outs_after, actions) == delivered(outs_after, answers),
        forall|i: int|
            #![trigger actions[i]]
            0 <= i < actions.len() ==> match answers[i] {
                Ok(read) => actions[i] == StreamRecvAction::Return(Ok(read)) && read.0
                    <= outs_after[i].len(),
                Err(QuicheError::Done) => actions[i] is Wait,
                Err(e) => actions[i] == StreamRecvAction::Return(Err(Error::Quiche(e))),
            },
{
    let answers = Seq::new(
        actions.len(),
        |i: int|
            choose|r: Result<(usize, bool), QuicheError>|
                {
                    &&& #[trigger] quic::stream_recv_outcome(
                        before[i],
                        after[i],
                        stream_id,
                        outs_before[i],
                        outs_after[i],
                        r,
                    )
                    &&& actions[i] == connection::stream_recv_action(r)
                    &&& r matches Ok(read) ==> read.0 <= outs_after[i].len()
                },
    );
    assert forall|i: int| #![trigger actions[i]] 0 <= i < actions.len() implies actions[i]
        == connection::stream_recv_action(answers[i]) && quic::stream_recv_outcome(
        before[i],
        after[i],
        stream_id,
        outs_before[i],
        outs_after[i],
        answers[i],
    ) && (answers[i] matches Ok(read) ==> read.0 <= outs_after[i].len()) by {
        assert(connection::asked(
            before[i],
            after[i],
            stream_id,
            outs_before[i],
            outs_after[i],
            actions[i],
        ));
    }
    assert forall|i: int| #![trigger answers[i]] 0 <= i < answers.len() implies quic::stream_recv_outcome(
        before[i],
        after[i],
        stream_id,
        outs_before[i],
        outs_after[i],
        answers[i],
    ) by {
        assert(actions[i] == connection::stream_recv_action(answers[i]));
    }
    lemma_reported_is_delivered(outs_after, actions, answers);
    answers
}

/// A step of the HTTP/3 layer took the QUIC connection from one state to the other.
pub open spec fn worked_on_h3(before: QuicheConnection, after: QuicheConnection) -> bool {
    ||| exists|config: QuicheH3Config, out: Result<H3Connection, Error>| #[trigger]
        h3::opened(before, after, config, out)
    ||| exists|
        layer: QuicheH3Connection,
        next: QuicheH3Connection,
        headers: Seq<H3Header>,
        fin: bool,
        event: SendEvent<u64>,
        action: SendAction<u64>,
    | #[trigger]
        h3::request_step((layer, before), (next, after), headers, fin, event, action)
    ||| exists|
        layer: QuicheH3Connection,
        next: QuicheH3Connection,
        stream_id: u64,
        headers: Seq<H3Header>,
        fin: bool,
        event: SendEvent<()>,
        action: SendAction<()>,
    | #[trigger]
        h3::response_step((layer, before), (next, after), stream_id, headers, fin, event, action)
    ||| exists|
        layer: QuicheH3Connection,
        next: QuicheH3Connection,
        stream_id: u64,
        body: Seq<u8>,
        fin: bool,
        event: SendEvent<usize>,
        action: SendAction<usize>,
    | #[trigger]
        h3::body_step((layer, before), (next, after), stream_id, body, fin, event, action)
    ||| exists|
        layer: QuicheH3Connection,
        next: QuicheH3Connection,
        stream_id: u64,
        out_before: Seq<u8>,
        out_after: Seq<u8>,
        result: Result<usize, Error>,
    | #[trigger]
        h3::body_received((layer, before), (next, after), stream_id, out_before, out_after, result)
    ||| exists|
        h3_before: H3Connection,
        h3_after: H3Connection,
        conn: Connection,
        next: Connection,
        event: NextEvent,
        action: NextAction,
    |
        {
            &&& #[trigger] h3::next_step(h3_before, h3_after, conn, next, event, action)
            &&& conn.session == before
            &&& next.session == after
        }
}

/// A step of the library, of whichever operation on an established connection, took
/// the QUIC connection from one state to the other.
pub open spec fn worked(before: QuicheConnection, after: QuicheConnection) -> bool {
    ||| exists|buf_before: Seq<u8>, buf_after: Seq<u8>, event: WriteEvent, action: WriteAction| #[trigger]
        connection::write_step(before, after, buf_before, buf_after, event, action)
    ||| exists|
        stream_id: u64,
        data: Seq<u8>,
        fin: bool,
        event: StreamSendEvent,
        action: StreamSendAction,
    | #[trigger]
        connection::stream_send_step(before, after, stream_id, data, fin, event, action)
    ||| exists|stream_id: u64, out_before: Seq<u8>, out_after: Seq<u8>, action: StreamRecvAction| #[trigger]
        connection::asked(before, after, stream_id, out_before, out_after, action)
    ||| exists|
        conn: Connection,
        next: Connection,
        buf_before: Seq<u8>,
        buf_after: Seq<u8>,
        event: ReadEvent,
        action: ReadAction,
        woken: Seq<Waker>,
    |
        {
            &&& #[trigger] connection::read_step(
                conn,
                next,
                buf_before,
                buf_after,
                event,
                action,
                woken,
            )
            &&& conn.session == before
            &&& next.session == after
        }
    ||| exists|
        app: bool,
        code: u64,
        reason: Seq<u8>,
        event: CloseEvent,
        action: CloseAction,
    | #[trigger]
        connection::close_step(before, after, app, code, reason, event, action)
    ||| worked_on_h3(before, after)
}

/// No step turns back a connection that is on its way out.
pub proof fn closing_lasts(states: Seq<QuicheConnection>)
    requires
        states.len() > 0,
        forall|i: int| #![trigger states[i]] 0 < i < states.len() ==> worked(states[i - 1], states[i]),
        quic::connection_closing(states[0]),
    ensures
        quic::connection_closing(states.last()),
    decreases states.len(),
{
    if states.len() > 1 {
        let front = states.drop_last();
        assert forall|i: int| #![trigger front[i]] 0 < i < front.len() implies worked(
            front[i - 1],
            front[i],
        ) by {
            assert(worked(states[i - 1], states[i]));
        }
        closing_lasts(front);
        let last = states.len() - 1;
        assert(worked(states[last - 1], states[last]));
        assert(front.last() == states[last - 1]);
    }
}

/// A connection closes once: after one close succeeded, and whatever steps of the
/// library were taken since, the next one answers `Done`, changes nothing and sends nothing.
pub proof fn second_close_is_refused(
    before: QuicheConnection,
    app: bool,
    code: u64,
    reason: Seq<u8>,
    states: Seq<QuicheConnection>,
    again_app: bool,
    again_code: u64,
    again_reason: Seq<u8>,
    after: QuicheConnection,
    action: CloseAction,
)
    requires
        states.len() > 0,
        connection::close_step(
            before,
            states[0],
            app,
            code,
            reason,
            CloseEvent::Begin,
            CloseAction::Flush,
        ),
        forall|i: int| #![trigger states[i]] 0 < i < states.len() ==> worked(states[i - 1], states[i]),
        connection::close_step(
            states.last(),
            after,
            again_app,
            again_code,
            again_reason,
            CloseEvent::Begin,
            action,
        ),
    ensures
        action == CloseAction::Return(Err(Error::Quiche(QuicheError::Done))),
        after == states.last(),
{
    closing_lasts(states);
}

/// Closing never fails with a socket error: how the flush goes does not matter.
pub proof fn close_ignores_the_socket(
    before: QuicheConnection,
    after: QuicheConnection,
    app: bool,
    code: u64,
    reason: Seq<u8>,
    event: CloseEvent,
    action: CloseAction,
)
    requires
        connection::close_step(before, after, app, code, reason, event, action),
    ensures
        !(action matches CloseAction::Return(Err(Error::Io(_)))),
        event is Flushed ==> action == CloseAction::Return(Ok(())),
{
}

/// A request is reported as sent only if the HTTP/3 layer opened that stream for it
/// and the flush after it sent everything; if the flush fails, its error is reported.
pub proof fn request_is_reported_after_flush(
    before: (QuicheH3Connection, QuicheConnection),
    taken: (QuicheH3Connection, QuicheConnection),
    headers: Seq<H3Header>,
    fin: bool,
    stream_id: u64,
    states_before: Seq<QuicheConnection>,
    states_after: Seq<QuicheConnection>,
    bufs_before: Seq<Seq<u8>>,
    bufs_after: Seq<Seq<u8>>,
    events: Seq<WriteEvent>,
    actions: Seq<WriteAction>,
    flushed: Result<(), Error>,
    later: (QuicheH3Connection, QuicheConnection),
    after: (QuicheH3Connection, QuicheConnection),
    action: SendAction<u64>,
)
    requires
        h3::request_step(before, taken, headers, fin, SendEvent::Begin, SendAction::Flush(stream_id)),
        is_flush(states_before, states_after, bufs_before, bufs_after, events, actions),
        actions.last() == WriteAction::Return(flushed),
        h3::request_step(later, after, headers, fin, SendEvent::Flushed(stream_id, flushed), action),
    ensures
        http3::send_request_outcome(before, taken, headers, fin, Ok::<u64, QuicheH3Error>(stream_id)),
        after == later,
        action == SendAction::Return(connection::flush_result(stream_id, flushed)),
        action == SendAction::<u64>::Return(Ok(stream_id)) <==> flushed is Ok,
        flushed is Ok ==> forall|i: int|
            0 < i < events.len() ==> (#[trigger] events[i]) matches WriteEvent::Sent(Ok(_)),
        flushed is Ok ==> quic::send_outcome(
            states_before.last(),
            states_after.last(),
            bufs_before.last(),
            bufs_after.last(),
            Err::<(usize, SendInfo), QuicheError>(QuicheError::Done),
        ),
{
    if flushed is Ok {
        flush_sends_everything(states_before, states_after, bufs_before, bufs_after, events, actions);
    }
}

/// A response is reported as sent only if the HTTP/3 layer took it and the flush after
/// it sent everything; if the flush fails, its error is reported.
pub proof fn response_is_reported_after_flush(
    before: (QuicheH3Connection, QuicheConnection),
    taken: (QuicheH3Connection, QuicheConnection),
    stream_id: u64,
    headers: Seq<H3Header>,
    fin: bool,
    value: (),
    states_before: Seq<QuicheConnection>,
    states_after: Seq<QuicheConnection>,
    bufs_before: Seq<Seq<u8>>,
    bufs_after: Seq<Seq<u8>>,
    events: Seq<WriteEvent>,
    actions: Seq<WriteAction>,
    flushed: Result<(), Error>,
    later: (QuicheH3Connection, QuicheConnection),
    after: (QuicheH3Connection, QuicheConnection),
    action: SendAction<()>,
)
    requires
        h3::response_step(before, taken, stream_id, headers, fin, SendEvent::Begin, SendAction::Flush(value)),
        is_flush(states_before, states_after, bufs_before, bufs_after, events, actions),
        actions.last() == WriteAction::Return(flushed),
        h3::response_step(later, after, stream_id, headers, fin, SendEvent::Flushed(value, flushed), action),
    ensures
        http3::send_response_outcome(before, taken, stream_id, headers, fin, Ok::<(), QuicheH3Error>(value)),
        after == later,
        action == SendAction::Return(connection::flush_result(value, flushed)),
        action == SendAction::<()>::Return(Ok(value)) <==> flushed is Ok,
        flushed is Ok ==> forall|i: int|
            0 < i < events.len() ==> (#[trigger] events[i]) matches WriteEvent::Sent(Ok(_)),
        flushed is Ok ==> quic::send_outcome(
            states_before.last(),
            states_after.last(),
            bufs_before.last(),
            bufs_after.last(),
            Err::<(usize, SendInfo), QuicheError>(QuicheError::Done),
        ),
{
    if flushed is Ok {
        flush_sends_everything(states_before, states_after, bufs_before, bufs_after, events, actions);
    }
}

/// Body data is reported as sent only if the HTTP/3 layer took that much of it and the
/// flush after it sent everything; if the flush fails, its error is reported.
pub proof fn body_is_reported_after_flush(
    before: (QuicheH3Connection, QuicheConnection),
    taken: (QuicheH3Connection, QuicheConnection),
    stream_id: u64,
    body: Seq<u8>,
    fin: bool,
    n: usize,
    states_before: Seq<QuicheConnection>,
    states_after: Seq<QuicheConnection>,
    bufs_before: Seq<Seq<u8>>,
    bufs_after: Seq<Seq<u8>>,
    events: Seq<WriteEvent>,
    actions: Seq<WriteAction>,
    flushed: Result<(), Error>,
    later: (QuicheH3Connection, QuicheConnection),
    after: (QuicheH3Connection, QuicheConnection),
    action: SendAction<usize>,
)
    requires
        h3::body_step(before, taken, stream_id, body, fin, SendEvent::Begin, SendAction::Flush(n)),
        is_flush(states_before, states_after, bufs_before, bufs_after, events, actions),
        actions.last() == WriteAction::Return(flushed),
        h3::body_step(later, after, stream_id, body, fin, SendEvent::Flushed(n, flushed), action),
    ensures
        http3::send_body_outcome(before, taken, stream_id, body, fin, Ok::<usize, QuicheH3Error>(n)),
        n <= body.len(),
        after == later,
        action == SendAction::Return(connection::flush_result(n, flushed)),
        action == SendAction::<usize>::Return(Ok(n)) <==> flushed is Ok,
        flushed is Ok ==> forall|i: int|
            0 < i < events.len() ==> (#[trigger] events[i]) matches WriteEvent::Sent(Ok(_)),
        flushed is Ok ==> quic::send_outcome(
            states_before.last(),
            states_after.last(),
            bufs_before.last(),
            bufs_after.last(),
            Err::<(usize, SendInfo), QuicheError>(QuicheError::Done),
        ),
{
    if flushed is Ok {
        flush_sends_everything(states_before, states_after, bufs_before, bufs_after, events, actions);
    }
}

/// When the HTTP/3 layer has nothing to report and the flush after that succeeds,
/// the next thing to do is to wait, for a flag that is down.
pub proof fn quiet_layer_waits(
    h3_before: H3Connection,
    h3_after: H3Connection,
    before: Connection,
    after: Connection,
    action: NextAction,
)
    requires
        h3::next_step(h3_before, h3_after, before, after, NextEvent::Flushed(Ok(())), action),
    ensures
        action is Wait,
        !after.h3_io.ready,
{
}

/// Any number of waits for an event, one after the other, each from its first step on:
/// the layer was asked only with the flag up, each flush was made, and the step after it
/// was told how that went. Between two steps anything may have happened to the
/// connection and to the layer.
pub open spec fn is_listening(
    h3_before: Seq<H3Connection>,
    h3_after: Seq<H3Connection>,
    before: Seq<Connection>,
    after: Seq<Connection>,
    events: Seq<NextEvent>,
    actions: Seq<NextAction>,
) -> bool {
    let n = actions.len();
    &&& h3_before.len() == n && h3_after.len() == n
    &&& before.len() == n && after.len() == n && events.len() == n
    &&& n > 0 ==> events[0] is Begin
    &&& forall|i: int|
        #![trigger actions[i]]
        0 <= i < n ==> h3::next_step(
            h3_before[i],
            h3_after[i],
            before[i],
            after[i],
            events[i],
            actions[i],
        )
    &&& forall|i: int|
        #![trigger events[i]]
        0 < i < n ==> match actions[i - 1] {
            NextAction::Wait => events[i] is Ready && before[i].h3_io.ready,
            NextAction::Flush => events[i] is Flushed,
            NextAction::Return(_) => events[i] is Begin,
        }
}

/// What the HTTP/3 layer answered in each step, where it was asked.
pub open spec fn layer_answered(
    h3_before: Seq<H3Connection>,
    h3_after: Seq<H3Connection>,
    before: Seq<Connection>,
    after: Seq<Connection>,
    events: Seq<NextEvent>,
    answers: Seq<Option<Result<(u64, H3Event), QuicheH3Error>>>,
) -> bool {
    let n = answers.len();
    &&& h3_before.len() == n && h3_after.len() == n
    &&& before.len() == n && after.len() == n && events.len() == n
    &&& forall|i: int|
        #![trigger answers[i]]
        0 <= i < n ==> match answers[i] {
            Some(answer) => events[i] is Ready && http3::poll_outcome(
                (h3_before[i].h3, before[i].session),
                (h3_after[i].h3, after[i].session),
                answer,
            ),
            None => !(events[i] is Ready),
        }
}

/// The values that the waits returned, in their order.
pub open spec fn returned(actions: Seq<NextAction>) -> Seq<Result<(u64, H3Event), Error>>
    decreases actions.len(),
{
    if actions.len() == 0 {
        Seq::empty()
    } else {
        let earlier = returned(actions.drop_last());
        match actions.last() {
            NextAction::Return(result) => earlier.push(result),
            _ => earlier,
        }
    }
}

/// The answers of the HTTP/3 layer other than `Done`, in their order.
pub open spec fn layer_results(
    answers: Seq<Option<Result<(u64, H3Event), QuicheH3Error>>>,
) -> Seq<Result<(u64, H3Event), Error>>
    decreases answers.len(),
{
    if answers.len() == 0 {
        Seq::empty()
    } else {
        let earlier = layer_results(answers.drop_last());
        match answers.last() {
            None => earlier,
            Some(Err(QuicheH3Error::Done)) => earlier,
            Some(answer) => earlier.push(h3::h3_result(answer)),
        }
    }
}

/// The answers of the HTTP/3 layer other than `Done` and the errors of the flushes, in
/// their order.
pub open spec fn results(
    events: Seq<NextEvent>,
    answers: Seq<Option<Result<(u64, H3Event), QuicheH3Error>>>,
) -> Seq<Result<(u64, H3Event), Error>>
    decreases answers.len(),
{
    if answers.len() == 0 {
        Seq::empty()
    } else {
        let earlier = results(events.drop_last(), answers.drop_last());
        match answers.last() {
            None => match events.last() {
                NextEvent::Flushed(Err(e)) => earlier.push(Err(e)),
                _ => earlier,
            },
            Some(Err(QuicheH3Error::Done)) => earlier,
            Some(answer) => earlier.push(h3::h3_result(answer)),
        }
    }
}

/// What a step does, given the layer's answer where it was asked.
spec fn next_action(
    event: NextEvent,
    answer: Option<Result<(u64, H3Event), QuicheH3Error>>,
) -> NextAction {
    match answer {
        Some(r) => h3::poll_action(r),
        None => match event {
            NextEvent::Flushed(Err(e)) => NextAction::Return(Err(e)),
            _ => NextAction::Wait,
        },
    }
}

/// Where each step follows from its event and the layer's answer, so do the values that
/// are returned.
proof fn lemma_returned_is_answered(
    events: Seq<NextEvent>,
    actions: Seq<NextAction>,
    answers: Seq<Option<Result<(u64, H3Event), QuicheH3Error>>>,
)
    requires
        events.len() == actions.len(),
        answers.len() == actions.len(),
        forall|i: int|
            #![trigger actions[i]]
            0 <= i < actions.len() ==> actions[i] == next_action(events[i], answers[i]),
    ensures
        returned(actions) == results(events, answers),
    decreases actions.len(),
{
    if actions.len() > 0 {
        let front = actions.drop_last();
        assert forall|i: int| #![trigger front[i]] 0 <= i < front.len() implies front[i]
            == next_action(events.drop_last()[i], answers.drop_last()[i]) by {
            assert(front[i] == actions[i]);
        }
        lemma_returned_is_answered(events.drop_last(), front, answers.drop_last());
        let last = actions.len() - 1;
        assert(actions[last] == next_action(events[last], answers[last]));
    }
}

/// Where no flush failed, only the layer's answers are left.
proof fn lemma_results_of_layer(
    events: Seq<NextEvent>,
    answers: Seq<Option<Result<(u64, H3Event), QuicheH3Error>>>,
)
    requires
        events.len() == answers.len(),
        forall|i: int|
            0 <= i < events.len() ==> !((#[trigger] events[i]) matches NextEvent::Flushed(Err(_))),
    ensures
        results(events, answers) == layer_results(answers),
    decreases answers.len(),
{
    if answers.len() > 0 {
        let front = events.drop_last();
        assert forall|i: int| 0 <= i < front.len() implies !((
        #[trigger] front[i]) matches NextEvent::Flushed(Err(_))) by {
            assert(front[i] == events[i]);
        }
        lemma_results_of_layer(front, answers.drop_last());
        assert(events.last() == events[events.len() - 1]);
    }
}

/// However many times an event is waited for, what is returned are the answers of the
/// HTTP/3 layer, in order and each once. Only its `Done` is not returned, and the error
/// of a flush that failed is returned in its place. After a flush that succeeded the
/// layer is not asked again before the flag was raised anew.
pub proof fn h3_events_come_from_the_layer(
    h3_before: Seq<H3Connection>,
    h3_after: Seq<H3Connection>,
    before: Seq<Connection>,
    after: Seq<Connection>,
    events: Seq<NextEvent>,
    actions: Seq<NextAction>,
) -> (answers: Seq<Option<Result<(u64, H3Event), QuicheH3Error>>>)
    requires
        is_listening(h3_before, h3_after, before, after, events, actions),
    ensures
        answers.len() == actions.len(),
        layer_answered(h3_before, h3_after, before, after, events, answers),
        returned(actions) == results(events, answers),
        (forall|i: int|
            0 <= i < events.len() ==> !((#[trigger] events[i]) matches NextEvent::Flushed(Err(_))))
            ==> returned(actions) == layer_results(answers),
        forall|i: int|
            #![trigger actions[i]]
            0 <= i < actions.len() ==> match answers[i] {
                Some(Ok(reported)) => actions[i] == NextAction::Return(Ok(reported)),
                Some(Err(QuicheH3Error::Done)) => actions[i] is Flush,
                Some(Err(e)) => actions[i] == NextAction::Return(Err(Error::QuicheH3(e))),
                None => match events[i] {
                    NextEvent::Flushed(Err(e)) => actions[i] == NextAction::Return(Err(e)),
                    _ => actions[i] is Wait,
                },
            },
        forall|i: int|
            #![trigger events[i]]
            0 < i < events.len() && events[i] is Ready ==> before[i].h3_io.ready && (
            events[i - 1] is Flushed ==> !after[i - 1].h3_io.ready),
{
    let answers = Seq::new(
        actions.len(),
        |i: int|
            if events[i] is Ready {
                Some(
                    choose|r: Result<(u64, H3Event), QuicheH3Error>|
                        {
                            &&& #[trigger] http3::poll_outcome(
                                (h3_before[i].h3, before[i].session),
                                (h3_after[i].h3, after[i].session),
                                r,
                            )
                            &&& actions[i] == h3::poll_action(r)
                        },
                )
            } else {
                None
            },
    );
    assert forall|i: int| #![trigger actions[i]] 0 <= i < actions.len() implies actions[i]
        == next_action(events[i], answers[i]) && (events[i] is Ready ==> http3::poll_outcome(
        (h3_before[i].h3, before[i].session),
        (h3_after[i].h3, after[i].session),
        answers[i]->0,
    )) by {
        assert(h3::next_step(
            h3_before[i],
            h3_after[i],
            before[i],
            after[i],
            events[i],
            actions[i],
        ));
        if events[i] is Ready {
            assert(h3::polled(
                (h3_before[i].h3, before[i].session),
                (h3_after[i].h3, after[i].session),
                actions[i],
            ));
        }
    }
    assert forall|i: int| #![trigger answers[i]] 0 <= i < answers.len() implies match answers[i] {
        Some(answer) => events[i] is Ready && http3::poll_outcome(
            (h3_before[i].h3, before[i].session),
            (h3_after[i].h3, after[i].session),
            answer,
        ),
        None => !(events[i] is Ready),
    } by {
        assert(actions[i] == next_action(events[i], answers[i]));
    }
    assert forall|i: int|
        #![trigger events[i]]
        0 < i < events.len() && events[i] is Ready implies before[i].h3_io.ready && (
    events[i - 1] is Flushed ==> !after[i - 1].h3_io.ready) by {
        assert(h3::next_step(
            h3_before[i - 1],
            h3_after[i - 1],
            before[i - 1],
            after[i - 1],
            events[i - 1],
            actions[i - 1],
        ));
    }
    lemma_returned_is_answered(events, actions, answers);
    if forall|i: int|
        0 <= i < events.len() ==> !((#[trigger] events[i]) matches NextEvent::Flushed(Err(_))) {
        lemma_results_of_layer(events, answers);
    }
    answers
}

/// A socket error comes through the library unchanged.
pub proof fn socket_error_round_trip(e: IoError, io: IoError)
    requires
        error::becomes_io_error(<Error as FromSpec<IoError>>::from_spec(e), io),
    ensures
        io == e,
{
}

} // verus!
