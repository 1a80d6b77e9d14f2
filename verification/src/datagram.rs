//! Datagrams, between the socket and the QUIC connection.
use crate::error::Error;
use crate::quic;
use quiche::Connection as QuicheConnection;
use quiche::Error as QuicheError;
use quiche::RecvInfo;
use vstd::prelude::*;

verus! {

/// The size of the buffers that datagrams are written to and read into.
pub const MAX_DATAGRAM_SIZE: usize = 1350;

/// A datagram that the socket has written to the front of a buffer.
pub struct Datagram {
    /// How much of the buffer it fills.
    pub len: usize,
    /// Where it came from and where it arrived.
    pub info: RecvInfo,
}

/// What is made of the connection's answer to a datagram.
pub open spec fn receive_result(result: Result<usize, QuicheError>) -> Result<(), Error> {
    match result {
        Ok(_) => Ok(()),
        Err(e) => Err(Error::Quiche(e)),
    }
}

/// The datagram at the front of `buf_before`, and nothing else of the buffer, was
/// fed to the connection, with this result.
pub open spec fn received(
    before: QuicheConnection,
    after: QuicheConnection,
    buf_before: Seq<u8>,
    buf_after: Seq<u8>,
    datagram: Datagram,
    result: Result<(), Error>,
) -> bool {
    let n = datagram.len as int;
    &&& buf_after.len() == buf_before.len()
    &&& buf_after.skip(n) == buf_before.skip(n)
    &&& quic::closing_kept(before, after)
    &&& exists|r: Result<usize, QuicheError>|
        {
            &&& #[trigger] quic::recv_outcome(
                before,
                after,
                buf_before.take(n),
                buf_after.take(n),
                datagram.info,
                r,
            )
            &&& result == receive_result(r)
        }
}

/// What to make of the connection's answer to a datagram.
pub fn on_received(result: Result<usize, QuicheError>) -> (out: Result<(), Error>)
    ensures
        out == receive_result(result),
{
    match result {
        Ok(_) => Ok(()),
        Err(e) => Err(Error::Quiche(e)),
    }
}

/// Feeds the datagram at the front of `buffer` to the connection.
pub fn receive(
    session: &mut QuicheConnection,
    buffer: &mut [u8],
    datagram: Datagram,
) -> (result: Result<(), Error>)
    requires
        datagram.len <= old(buffer)@.len(),
    ensures
        received(*old(session), *final(session), old(buffer)@, final(buffer)@, datagram, result),
        datagram.len == 0 ==> (result matches Err(e) && e == Error::Quiche(
            QuicheError::BufferTooShort,
        )) && *final(session) == *old(session),
{
    let ghost len = datagram.len as int;
    let (packet, rest) = buffer.split_at_mut(datagram.len);
    let answer = session.recv(packet, datagram.info);
    proof {
        assert(final(buffer)@ == final(packet)@ + final(rest)@);
        assert(final(buffer)@.take(len) =~= final(packet)@);
        assert(final(buffer)@.skip(len) =~= final(rest)@);
        assert(old(buffer)@.take(len) =~= old(buffer)@.subrange(0, len));
        assert(old(buffer)@.skip(len) =~= old(buffer)@.subrange(len, old(buffer)@.len() as int));
    }
    on_received(answer)
}

} // verus!
