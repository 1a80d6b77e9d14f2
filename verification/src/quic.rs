//! The QUIC state machine of `quiche`, as the rest of the library sees it.
//!
//! A QUIC connection reads the clock and draws random numbers, so what a call
//! leaves behind is not a function of its arguments. For each such call there is
//! a relation, named after the call and ending in `_outcome`, between everything
//! that goes into the call and everything that comes out of it. It holds of
//! every call that was made. What is inside a connection stays closed.
use quiche::Config as QuicheConfig;
use quiche::Connection as QuicheConnection;
use quiche::ConnectionError;
use quiche::ConnectionId;
use quiche::Error as QuicheError;
use quiche::RecvInfo;
use quiche::SendInfo;
use std::time::Duration;
use vstd::prelude::*;

verus! {

/// The largest integer that a QUIC packet can carry.
pub const MAX_VARINT: u64 = 4_611_686_018_427_387_903;

/// `quiche::Error`, with its variants in the open.
#[verifier::external_type_specification]
pub struct ExQuicheError(QuicheError);

/// `quiche::Connection`, one end of a QUIC connection.
#[verifier::external_type_specification]
#[verifier::external_body]
pub struct ExQuicheConnection(QuicheConnection);

/// `quiche::Config`, the settings a connection is made with.
#[verifier::external_type_specification]
#[verifier::external_body]
pub struct ExQuicheConfig(QuicheConfig);

/// `quiche::ConnectionError`, the code and the reason that a connection is closed
/// with.
#[verifier::external_type_specification]
#[verifier::external_body]
pub struct ExConnectionError(ConnectionError);

/// `quiche::ConnectionId`.
#[verifier::external_type_specification]
#[verifier::external_body]
pub struct ExConnectionId<'a>(ConnectionId<'a>);

/// `quiche::RecvInfo`, the two addresses of a received packet: `from` is the
/// peer, `to` the local socket.
#[verifier::external_type_specification]
#[verifier::external_body]
pub struct ExRecvInfo(RecvInfo);

/// `quiche::SendInfo`, where an outgoing packet goes.
#[verifier::external_type_specification]
#[verifier::external_body]
pub struct ExSendInfo(SendInfo);

/// What `quiche::Connection::is_closed` answers of a connection.
pub uninterp spec fn connection_closed(conn: QuicheConnection) -> bool;

/// What `quiche::Connection::is_draining` answers of a connection.
pub uninterp spec fn connection_draining(conn: QuicheConnection) -> bool;

/// `quiche::Connection::local_error` has something to tell of a connection.
pub uninterp spec fn connection_failed(conn: QuicheConnection) -> bool;

/// The connection is closed or on its way to it, for whatever reason.
pub open spec fn connection_closing(conn: QuicheConnection) -> bool {
    connection_closed(conn) || connection_draining(conn) || connection_failed(conn)
}

/// A connection that was on its way out still is.
pub open spec fn closing_kept(before: QuicheConnection, after: QuicheConnection) -> bool {
    connection_closing(before) ==> connection_closing(after)
}

/// What `quiche::Connection::is_established` answers of a connection.
pub uninterp spec fn connection_established(conn: QuicheConnection) -> bool;

/// The streams that `quiche::Connection::readable` lists, in its order.
pub uninterp spec fn readable_streams(conn: QuicheConnection) -> Seq<u64>;

/// The characters of a server's name, if it is given.
pub open spec fn name_of(server_name: Option<&str>) -> Option<Seq<char>> {
    match server_name {
        Some(name) => Some(name@),
        None => None,
    }
}

/// The settings can be sent and worked with: `quiche::connect` takes them without
/// a panic, and so does the connection it makes later on.
pub uninterp spec fn settings_fit(config: QuicheConfig) -> bool;

/// `quiche::Config::new` may return this for a version.
pub uninterp spec fn config_outcome(
    version: u32,
    result: Result<QuicheConfig, QuicheError>,
) -> bool;

/// What `quiche::Config::set_max_idle_timeout` makes of the settings.
pub uninterp spec fn with_max_idle_timeout(config: QuicheConfig, v: u64) -> QuicheConfig;

/// What `quiche::Config::set_max_recv_udp_payload_size` makes of the settings.
pub uninterp spec fn with_max_recv_udp_payload_size(config: QuicheConfig, v: usize) -> QuicheConfig;

/// What `quiche::Config::set_initial_max_data` makes of the settings.
pub uninterp spec fn with_initial_max_data(config: QuicheConfig, v: u64) -> QuicheConfig;

/// What `quiche::Config::set_initial_max_stream_data_bidi_local` makes of the settings.
pub uninterp spec fn with_initial_max_stream_data_bidi_local(config: QuicheConfig, v: u64) -> QuicheConfig;

/// What `quiche::Config::set_initial_max_stream_data_bidi_remote` makes of the settings.
pub uninterp spec fn with_initial_max_stream_data_bidi_remote(config: QuicheConfig, v: u64) -> QuicheConfig;

/// What `quiche::Config::set_initial_max_stream_data_uni` makes of the settings.
pub uninterp spec fn with_initial_max_stream_data_uni(config: QuicheConfig, v: u64) -> QuicheConfig;

/// What `quiche::Config::set_initial_max_streams_bidi` makes of the settings.
pub uninterp spec fn with_initial_max_streams_bidi(config: QuicheConfig, v: u64) -> QuicheConfig;

/// What `quiche::Config::set_initial_max_streams_uni` makes of the settings.
pub uninterp spec fn with_initial_max_streams_uni(config: QuicheConfig, v: u64) -> QuicheConfig;

/// What `quiche::Config::set_ack_delay_exponent` makes of the settings.
pub uninterp spec fn with_ack_delay_exponent(config: QuicheConfig, v: u64) -> QuicheConfig;

/// What `quiche::Config::set_max_ack_delay` makes of the settings.
pub uninterp spec fn with_max_ack_delay(config: QuicheConfig, v: u64) -> QuicheConfig;

/// What `quiche::Config::set_active_connection_id_limit` makes of the settings.
pub uninterp spec fn with_active_connection_id_limit(config: QuicheConfig, v: u64) -> QuicheConfig;

/// `quiche::connect` may make this of these arguments.
pub uninterp spec fn connect_outcome(
    server_name: Option<Seq<char>>,
    scid: ConnectionId<'_>,
    path: RecvInfo,
    before: QuicheConfig,
    after: QuicheConfig,
    result: Result<QuicheConnection, QuicheError>,
) -> bool;

/// `quiche::Connection::send` may take the connection and the output buffer from
/// one state to the other and return this.
pub uninterp spec fn send_outcome(
    before: QuicheConnection,
    after: QuicheConnection,
    out_before: Seq<u8>,
    out_after: Seq<u8>,
    result: Result<(usize, SendInfo), QuicheError>,
) -> bool;

/// `quiche::Connection::recv` may take the connection and the packet from one
/// state to the other and return this.
pub uninterp spec fn recv_outcome(
    before: QuicheConnection,
    after: QuicheConnection,
    packet_before: Seq<u8>,
    packet_after: Seq<u8>,
    info: RecvInfo,
    result: Result<usize, QuicheError>,
) -> bool;

/// `quiche::Connection::timeout` may answer this of the connection.
pub uninterp spec fn timeout_outcome(conn: QuicheConnection, result: Option<Duration>) -> bool;

/// `quiche::Connection::on_timeout` may take the connection from one state to
/// the other.
pub uninterp spec fn on_timeout_outcome(before: QuicheConnection, after: QuicheConnection) -> bool;

/// `quiche::Connection::stream_send` may take the connection from one state to
/// the other and return this.
pub uninterp spec fn stream_send_outcome(
    before: QuicheConnection,
    after: QuicheConnection,
    stream_id: u64,
    data: Seq<u8>,
    fin: bool,
    result: Result<usize, QuicheError>,
) -> bool;

/// `quiche::Connection::stream_recv` may take the connection and the output
/// buffer from one state to the other and return this.
pub uninterp spec fn stream_recv_outcome(
    before: QuicheConnection,
    after: QuicheConnection,
    stream_id: u64,
    out_before: Seq<u8>,
    out_after: Seq<u8>,
    result: Result<(usize, bool), QuicheError>,
) -> bool;

/// `quiche::Connection::close` may take the connection from one state to the
/// other and return this.
pub uninterp spec fn close_outcome(
    before: QuicheConnection,
    after: QuicheConnection,
    app: bool,
    code: u64,
    reason: Seq<u8>,
    result: Result<(), QuicheError>,
) -> bool;

/// `quiche::Connection::is_closed`: reads a flag of the connection.
pub assume_specification[ QuicheConnection::is_closed ](conn: &QuicheConnection) -> (closed: bool)
    ensures
        closed == connection_closed(*conn),
;

/// `quiche::Connection::is_draining`: reads whether the connection only waits for
/// the peer to fall silent.
pub assume_specification[ QuicheConnection::is_draining ](conn: &QuicheConnection) -> (draining:
    bool)
    ensures
        draining == connection_draining(*conn),
;

/// `quiche::Connection::local_error`: reads what the connection was closed with
/// from this side, if it was.
pub assume_specification[ QuicheConnection::local_error ](conn: &QuicheConnection) -> (noted: Option<
    &ConnectionError,
>)
    ensures
        noted is Some == connection_failed(*conn),
;

/// `quiche::Connection::is_established`: reads a flag of the connection, which
/// tells that the handshake is complete.
pub assume_specification[ QuicheConnection::is_established ](conn: &QuicheConnection) -> (established: bool)
    ensures
        established == connection_established(*conn),
;

/// `quiche::Connection::send`: writes the next packet to the front of `out`. An
/// empty `out` is refused, and a connection that is closed or draining has nothing
/// to send; both leave everything as it was. It turns back no connection that is
/// on its way out.
pub assume_specification[ QuicheConnection::send ](
    conn: &mut QuicheConnection,
    out: &mut [u8],
) -> (result: Result<(usize, SendInfo), QuicheError>)
    ensures
        send_outcome(*old(conn), *final(conn), old(out)@, final(out)@, result),
        final(out)@.len() == old(out)@.len(),
        result matches Ok(packet) ==> 0 < packet.0 <= old(out)@.len(),
        old(out)@.len() == 0 ==> (result matches Err(e) && e == QuicheError::BufferTooShort)
            && *final(conn) == *old(conn),
        old(out)@.len() > 0 && (connection_closed(*old(conn)) || connection_draining(*old(conn)))
            ==> (result matches Err(e) && e == QuicheError::Done) && *final(conn) == *old(conn)
            && final(out)@ == old(out)@,
        closing_kept(*old(conn), *final(conn)),
;

/// `quiche::Connection::recv`: feeds a received packet to the connection, and
/// decrypts it in place. An empty packet is refused. It turns back no connection
/// that is on its way out.
pub assume_specification[ QuicheConnection::recv ](
    conn: &mut QuicheConnection,
    buf: &mut [u8],
    info: RecvInfo,
) -> (result: Result<usize, QuicheError>)
    ensures
        recv_outcome(*old(conn), *final(conn), old(buf)@, final(buf)@, info, result),
        final(buf)@.len() == old(buf)@.len(),
        old(buf)@.len() == 0 ==> (result matches Err(e) && e == QuicheError::BufferTooShort)
            && *final(conn) == *old(conn),
        closing_kept(*old(conn), *final(conn)),
;

/// `quiche::Connection::timeout`: how long until the connection's timer fires.
/// A closed connection has no timer.
pub assume_specification[ QuicheConnection::timeout ](conn: &QuicheConnection) -> (result: Option<
    Duration,
>)
    ensures
        timeout_outcome(*conn, result),
        connection_closed(*conn) ==> result is None,
;

/// `quiche::Connection::on_timeout`: lets the connection act on a timer that has
/// fired. It reopens no connection that is closed, and turns back none that is on
/// its way out.
pub assume_specification[ QuicheConnection::on_timeout ](conn: &mut QuicheConnection)
    ensures
        on_timeout_outcome(*old(conn), *final(conn)),
        connection_closed(*old(conn)) ==> connection_closed(*final(conn)),
        closing_kept(*old(conn), *final(conn)),
;

/// `quiche::Connection::stream_send`: buffers data, or the front of it, for a
/// stream. It takes nothing only of data that is empty. It turns back no
/// connection that is on its way out.
pub assume_specification[ QuicheConnection::stream_send ](
    conn: &mut QuicheConnection,
    stream_id: u64,
    buf: &[u8],
    fin: bool,
) -> (result: Result<usize, QuicheError>)
    ensures
        stream_send_outcome(*old(conn), *final(conn), stream_id, buf@, fin, result),
        result matches Ok(n) ==> n <= buf@.len() && (n == 0 ==> buf@.len() == 0),
        closing_kept(*old(conn), *final(conn)),
;

/// `quiche::Connection::stream_recv`: reads data of a stream into the front of
/// `out`. It turns back no connection that is on its way out.
pub assume_specification[ QuicheConnection::stream_recv ](
    conn: &mut QuicheConnection,
    stream_id: u64,
    out: &mut [u8],
) -> (result: Result<(usize, bool), QuicheError>)
    ensures
        stream_recv_outcome(*old(conn), *final(conn), stream_id, old(out)@, final(out)@, result),
        final(out)@.len() == old(out)@.len(),
        result matches Ok(read) ==> read.0 <= old(out)@.len(),
        closing_kept(*old(conn), *final(conn)),
;

/// `quiche::Connection::close`: notes the code and the reason that the next
/// packet is to carry, which `local_error` tells from then on. A connection that
/// is on its way out already, and no other, answers `Done` and stays as it is. A
/// code that no packet can carry would make a later `send` panic, so it is left
/// out where it would be noted.
pub assume_specification[ QuicheConnection::close ](
    conn: &mut QuicheConnection,
    app: bool,
    err: u64,
    reason: &[u8],
) -> (result: Result<(), QuicheError>)
    requires
        err <= MAX_VARINT || connection_closing(*old(conn)),
    ensures
        close_outcome(*old(conn), *final(conn), app, err, reason@, result),
        result is Err <==> connection_closing(*old(conn)),
        result matches Err(e) ==> e == QuicheError::Done && *final(conn) == *old(conn),
        result is Ok ==> connection_failed(*final(conn)),
;

/// `quiche::Connection::readable`: the streams with data to read.
#[verifier::external_body]
pub(crate) fn readable(conn: &QuicheConnection) -> (ids: Vec<u64>)
    ensures
        ids@ == readable_streams(*conn),
{
    conn.readable().collect()
}

/// `quiche::Config::new`: the settings that a connection has by default. They can
/// be sent. Whether there are any rests on the TLS library too.
pub assume_specification[ QuicheConfig::new ](version: u32) -> (result: Result<
    QuicheConfig,
    QuicheError,
>)
    ensures
        config_outcome(version, result),
        result matches Ok(config) ==> settings_fit(config),
;

/// `quiche::Config::set_max_idle_timeout`: stores how long, in milliseconds,
/// the connection may stay silent.
pub assume_specification[ QuicheConfig::set_max_idle_timeout ](config: &mut QuicheConfig, v: u64)
    requires
        v <= MAX_VARINT,
    ensures
        *final(config) == with_max_idle_timeout(*old(config), v),
        settings_fit(*old(config)) ==> settings_fit(*final(config)),
;

/// `quiche::Config::set_max_recv_udp_payload_size`: stores the size of the
/// largest datagram that is taken.
pub assume_specification[ QuicheConfig::set_max_recv_udp_payload_size ](config: &mut QuicheConfig, v: usize)
    requires
        v <= MAX_VARINT,
    ensures
        *final(config) == with_max_recv_udp_payload_size(*old(config), v),
        settings_fit(*old(config)) ==> settings_fit(*final(config)),
;

/// `quiche::Config::set_initial_max_data`: stores how many bytes the peer may
/// send on all streams together.
pub assume_specification[ QuicheConfig::set_initial_max_data ](config: &mut QuicheConfig, v: u64)
    requires
        v <= MAX_VARINT,
    ensures
        *final(config) == with_initial_max_data(*old(config), v),
        settings_fit(*old(config)) ==> settings_fit(*final(config)),
;

/// `quiche::Config::set_initial_max_stream_data_bidi_local`: stores how many
/// bytes the peer may send on a two-way stream opened here.
pub assume_specification[ QuicheConfig::set_initial_max_stream_data_bidi_local ](
    config: &mut QuicheConfig,
    v: u64,
)
    requires
        v <= MAX_VARINT,
    ensures
        *final(config) == with_initial_max_stream_data_bidi_local(*old(config), v),
        settings_fit(*old(config)) ==> settings_fit(*final(config)),
;

/// `quiche::Config::set_initial_max_stream_data_bidi_remote`: stores how many
/// bytes the peer may send on a two-way stream that it opened.
pub assume_specification[ QuicheConfig::set_initial_max_stream_data_bidi_remote ](
    config: &mut QuicheConfig,
    v: u64,
)
    requires
        v <= MAX_VARINT,
    ensures
        *final(config) == with_initial_max_stream_data_bidi_remote(*old(config), v),
        settings_fit(*old(config)) ==> settings_fit(*final(config)),
;

/// `quiche::Config::set_initial_max_stream_data_uni`: stores how many bytes the
/// peer may send on a one-way stream.
pub assume_specification[ QuicheConfig::set_initial_max_stream_data_uni ](config: &mut QuicheConfig, v: u64)
    requires
        v <= MAX_VARINT,
    ensures
        *final(config) == with_initial_max_stream_data_uni(*old(config), v),
        settings_fit(*old(config)) ==> settings_fit(*final(config)),
;

/// `quiche::Config::set_initial_max_streams_bidi`: stores how many two-way
/// streams the peer may open.
pub assume_specification[ QuicheConfig::set_initial_max_streams_bidi ](config: &mut QuicheConfig, v: u64)
    requires
        v <= MAX_VARINT,
    ensures
        *final(config) == with_initial_max_streams_bidi(*old(config), v),
        settings_fit(*old(config)) ==> settings_fit(*final(config)),
;

/// `quiche::Config::set_initial_max_streams_uni`: stores how many one-way
/// streams the peer may open.
pub assume_specification[ QuicheConfig::set_initial_max_streams_uni ](config: &mut QuicheConfig, v: u64)
    requires
        v <= MAX_VARINT,
    ensures
        *final(config) == with_initial_max_streams_uni(*old(config), v),
        settings_fit(*old(config)) ==> settings_fit(*final(config)),
;

/// `quiche::Config::set_ack_delay_exponent`: stores the exponent of the power
/// of two that acknowledgement delays are divided by. A power that does not fit in
/// 64 bits would make a later `send` panic.
pub assume_specification[ QuicheConfig::set_ack_delay_exponent ](config: &mut QuicheConfig, v: u64)
    requires
        v < 64,
    ensures
        *final(config) == with_ack_delay_exponent(*old(config), v),
        settings_fit(*old(config)) ==> settings_fit(*final(config)),
;

/// `quiche::Config::set_max_ack_delay`: stores how long, in milliseconds, an
/// acknowledgement may be held back.
pub assume_specification[ QuicheConfig::set_max_ack_delay ](config: &mut QuicheConfig, v: u64)
    requires
        v <= MAX_VARINT,
    ensures
        *final(config) == with_max_ack_delay(*old(config), v),
        settings_fit(*old(config)) ==> settings_fit(*final(config)),
;

/// `quiche::Config::set_active_connection_id_limit`: stores how many connection
/// identifiers of the peer are kept. Three times the number is computed when
/// the connection is made. A number below two is ignored.
pub assume_specification[ QuicheConfig::set_active_connection_id_limit ](config: &mut QuicheConfig, v: u64)
    requires
        v <= MAX_VARINT && 3 * v <= usize::MAX,
    ensures
        *final(config) == with_active_connection_id_limit(*old(config), v),
        settings_fit(*old(config)) ==> settings_fit(*final(config)),
        v < 2 ==> *final(config) == *old(config),
;

/// `quiche::connect`: a client's connection, from the address `to` of `path` to
/// its address `from`. It is neither established yet nor on its way out. Settings
/// that cannot be sent would make the call panic; the call leaves the settings
/// what they are. Whether it succeeds rests on the TLS library.
#[verifier::external_body]
pub(crate) fn connect(
    server_name: Option<&str>,
    scid: &ConnectionId<'_>,
    path: &RecvInfo,
    config: &mut QuicheConfig,
) -> (result: Result<QuicheConnection, QuicheError>)
    requires
        settings_fit(*old(config)),
    ensures
        connect_outcome(
            name_of(server_name),
            *scid,
            *path,
            *old(config),
            *final(config),
            result,
        ),
        settings_fit(*final(config)),
        result matches Ok(conn) ==> !connection_established(conn) && !connection_closing(conn),
{
    quiche::connect(server_name, scid, path.to, path.from, config)
}

} // verus!
