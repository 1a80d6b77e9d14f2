//! The HTTP/3 layer of `quiche`, as the rest of the library sees it. As with the
//! QUIC connection below it, a relation that ends in `_outcome` ties what comes
//! out of a call to what goes into it.
use crate::quic;
use crate::quic::MAX_VARINT;
use quiche::h3::Config as QuicheH3Config;
use quiche::h3::Connection as QuicheH3Connection;
use quiche::h3::Error as QuicheH3Error;
use quiche::h3::Event as H3Event;
use quiche::h3::Header as H3Header;
use quiche::Connection as QuicheConnection;
use vstd::prelude::*;

verus! {

/// `quiche::h3::Error`, with its variants in the open.
#[verifier::external_type_specification]
pub struct ExQuicheH3Error(QuicheH3Error);

/// `quiche::h3::Connection`, the HTTP/3 layer of a QUIC connection.
#[verifier::external_type_specification]
#[verifier::external_body]
pub struct ExQuicheH3Connection(QuicheH3Connection);

/// `quiche::h3::Config`, the settings of the HTTP/3 layer.
#[verifier::external_type_specification]
#[verifier::external_body]
pub struct ExQuicheH3Config(QuicheH3Config);

/// `quiche::h3::Header`, a header field.
#[verifier::external_type_specification]
#[verifier::external_body]
pub struct ExH3Header(H3Header);

/// `quiche::h3::Event`, what the HTTP/3 layer reports of a stream.
#[verifier::external_type_specification]
#[verifier::external_body]
pub struct ExH3Event(H3Event);

/// The settings can be sent: `quiche::h3::Connection::with_transport` takes them
/// without a panic.
pub uninterp spec fn h3_settings_fit(config: QuicheH3Config) -> bool;

/// The settings are those that `quiche::h3::Config::new` returns.
pub uninterp spec fn is_default_h3_config(config: QuicheH3Config) -> bool;

/// What `quiche::h3::Config::set_max_field_section_size` makes of the settings.
pub uninterp spec fn with_max_field_section_size(config: QuicheH3Config, v: u64) -> QuicheH3Config;

/// What `quiche::h3::Config::set_qpack_max_table_capacity` makes of the settings.
pub uninterp spec fn with_qpack_max_table_capacity(
    config: QuicheH3Config,
    v: u64,
) -> QuicheH3Config;

/// What `quiche::h3::Config::set_qpack_blocked_streams` makes of the settings.
pub uninterp spec fn with_qpack_blocked_streams(config: QuicheH3Config, v: u64) -> QuicheH3Config;

/// `quiche::h3::Connection::with_transport` may take the connection from one
/// state to the other and return this.
pub uninterp spec fn with_transport_outcome(
    before: QuicheConnection,
    after: QuicheConnection,
    config: QuicheH3Config,
    result: Result<QuicheH3Connection, QuicheH3Error>,
) -> bool;

/// `quiche::h3::Connection::send_request` may take both layers from one state to
/// the other and return this.
pub uninterp spec fn send_request_outcome(
    before: (QuicheH3Connection, QuicheConnection),
    after: (QuicheH3Connection, QuicheConnection),
    headers: Seq<H3Header>,
    fin: bool,
    result: Result<u64, QuicheH3Error>,
) -> bool;

/// `quiche::h3::Connection::send_response` may take both layers from one state
/// to the other and return this.
pub uninterp spec fn send_response_outcome(
    before: (QuicheH3Connection, QuicheConnection),
    after: (QuicheH3Connection, QuicheConnection),
    stream_id: u64,
    headers: Seq<H3Header>,
    fin: bool,
    result: Result<(), QuicheH3Error>,
) -> bool;

/// `quiche::h3::Connection::send_body` may take both layers from one state to
/// the other and return this.
pub uninterp spec fn send_body_outcome(
    before: (QuicheH3Connection, QuicheConnection),
    after: (QuicheH3Connection, QuicheConnection),
    stream_id: u64,
    body: Seq<u8>,
    fin: bool,
    result: Result<usize, QuicheH3Error>,
) -> bool;

/// `quiche::h3::Connection::recv_body` may take both layers and the output
/// buffer from one state to the other and return this.
pub uninterp spec fn recv_body_outcome(
    before: (QuicheH3Connection, QuicheConnection),
    after: (QuicheH3Connection, QuicheConnection),
    stream_id: u64,
    out_before: Seq<u8>,
    out_after: Seq<u8>,
    result: Result<usize, QuicheH3Error>,
) -> bool;

/// `quiche::h3::Connection::poll` may take both layers from one state to the
/// other and return this.
pub uninterp spec fn poll_outcome(
    before: (QuicheH3Connection, QuicheConnection),
    after: (QuicheH3Connection, QuicheConnection),
    result: Result<(u64, H3Event), QuicheH3Error>,
) -> bool;

/// `quiche::h3::Config::new`: the settings that the layer has by default. It always
/// succeeds, and they can be sent.
pub assume_specification[ QuicheH3Config::new ]() -> (result: Result<QuicheH3Config, QuicheH3Error>)
    ensures
        result is Ok,
        result matches Ok(config) ==> is_default_h3_config(config) && h3_settings_fit(config),
;

/// `quiche::h3::Config::set_max_field_section_size`: stores how large a list of
/// header fields may be.
pub assume_specification[ QuicheH3Config::set_max_field_section_size ](config: &mut QuicheH3Config, v: u64)
    requires
        v <= MAX_VARINT,
    ensures
        *final(config) == with_max_field_section_size(*old(config), v),
        h3_settings_fit(*old(config)) ==> h3_settings_fit(*final(config)),
;

/// `quiche::h3::Config::set_qpack_max_table_capacity`: stores how large the
/// table for compressed header fields may grow.
pub assume_specification[ QuicheH3Config::set_qpack_max_table_capacity ](config: &mut QuicheH3Config, v: u64)
    requires
        v <= MAX_VARINT,
    ensures
        *final(config) == with_qpack_max_table_capacity(*old(config), v),
        h3_settings_fit(*old(config)) ==> h3_settings_fit(*final(config)),
;

/// `quiche::h3::Config::set_qpack_blocked_streams`: stores how many streams may
/// wait for that table.
pub assume_specification[ QuicheH3Config::set_qpack_blocked_streams ](config: &mut QuicheH3Config, v: u64)
    requires
        v <= MAX_VARINT,
    ensures
        *final(config) == with_qpack_blocked_streams(*old(config), v),
        h3_settings_fit(*old(config)) ==> h3_settings_fit(*final(config)),
;

/// `quiche::h3::Connection::with_transport`: opens the HTTP/3 layer on a
/// connection. Settings that cannot be sent would make the call panic. Whether it
/// succeeds rests on the state of the connection, which is closed to view. It turns
/// back no connection that is on its way out.
pub assume_specification[ QuicheH3Connection::with_transport ](
    conn: &mut QuicheConnection,
    config: &QuicheH3Config,
) -> (result: Result<QuicheH3Connection, QuicheH3Error>)
    requires
        h3_settings_fit(*config),
    ensures
        with_transport_outcome(*old(conn), *final(conn), *config, result),
        quic::closing_kept(*old(conn), *final(conn)),
;

/// `quiche::h3::Connection::send_request`: sends a list of header fields on a
/// new stream, and returns the stream. It turns back no connection that is on its
/// way out.
#[verifier::external_body]
pub(crate) fn send_request(
    layer: &mut QuicheH3Connection,
    conn: &mut QuicheConnection,
    headers: &[H3Header],
    fin: bool,
) -> (result: Result<u64, QuicheH3Error>)
    ensures
        send_request_outcome(
            (*old(layer), *old(conn)),
            (*final(layer), *final(conn)),
            headers@,
            fin,
            result,
        ),
        quic::closing_kept(*old(conn), *final(conn)),
{
    layer.send_request(conn, headers, fin)
}

/// `quiche::h3::Connection::send_response`: sends a list of header fields on a
/// stream that a request came in on. It turns back no connection that is on its
/// way out.
#[verifier::external_body]
pub(crate) fn send_response(
    layer: &mut QuicheH3Connection,
    conn: &mut QuicheConnection,
    stream_id: u64,
    headers: &[H3Header],
    fin: bool,
) -> (result: Result<(), QuicheH3Error>)
    ensures
        send_response_outcome(
            (*old(layer), *old(conn)),
            (*final(layer), *final(conn)),
            stream_id,
            headers@,
            fin,
            result,
        ),
        quic::closing_kept(*old(conn), *final(conn)),
{
    layer.send_response(conn, stream_id, headers, fin)
}

/// `quiche::h3::Connection::send_body`: sends body data, or the front of it, on a
/// stream. Only streams that a client opens for requests carry bodies, and an
/// empty body is sent only to end a stream. It turns back no connection that is on
/// its way out.
pub assume_specification[ QuicheH3Connection::send_body ](
    layer: &mut QuicheH3Connection,
    conn: &mut QuicheConnection,
    stream_id: u64,
    body: &[u8],
    fin: bool,
) -> (result: Result<usize, QuicheH3Error>)
    ensures
        send_body_outcome(
            (*old(layer), *old(conn)),
            (*final(layer), *final(conn)),
            stream_id,
            body@,
            fin,
            result,
        ),
        quic::closing_kept(*old(conn), *final(conn)),
        result matches Ok(n) ==> n <= body@.len(),
        result is Ok ==> stream_id % 4 == 0,
        result is Ok && body@.len() == 0 ==> fin,
;

/// `quiche::h3::Connection::recv_body`: reads body data of a stream into the
/// front of `out`. It succeeds only where there is something to read. It turns back
/// no connection that is on its way out.
pub assume_specification[ QuicheH3Connection::recv_body ](
    layer: &mut QuicheH3Connection,
    conn: &mut QuicheConnection,
    stream_id: u64,
    out: &mut [u8],
) -> (result: Result<usize, QuicheH3Error>)
    ensures
        recv_body_outcome(
            (*old(layer), *old(conn)),
            (*final(layer), *final(conn)),
            stream_id,
            old(out)@,
            final(out)@,
            result,
        ),
        quic::closing_kept(*old(conn), *final(conn)),
        final(out)@.len() == old(out)@.len(),
        result matches Ok(n) ==> 0 < n <= old(out)@.len(),
;

/// `quiche::h3::Connection::poll`: the next event of the HTTP/3 layer, or `Done`
/// where there is none. A connection that was closed from this side has none left,
/// and stays as it is. It turns back no connection that is on its way out.
pub assume_specification[ QuicheH3Connection::poll ](
    layer: &mut QuicheH3Connection,
    conn: &mut QuicheConnection,
) -> (result: Result<(u64, H3Event), QuicheH3Error>)
    ensures
        poll_outcome((*old(layer), *old(conn)), (*final(layer), *final(conn)), result),
        quic::closing_kept(*old(conn), *final(conn)),
        quic::connection_failed(*old(conn)) ==> (result matches Err(e) && e == QuicheH3Error::Done)
            && *final(conn) == *old(conn) && *final(layer) == *old(layer),
;

} // verus!
