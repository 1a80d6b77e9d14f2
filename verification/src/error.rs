//! What can go wrong: the socket, the QUIC connection, the HTTP/3 layer.
use quiche::h3::Error as QuicheH3Error;
use quiche::Error as QuicheError;
use std::io::Error as IoError;
use std::io::ErrorKind;
use vstd::prelude::*;
use vstd::std_specs::convert::FromSpecImpl;

verus! {

/// `std::io::Error`.
#[verifier::external_type_specification]
#[verifier::external_body]
pub struct ExIoError(IoError);

/// `std::io::ErrorKind`, with its variants in the open.
#[verifier::external_type_specification]
pub struct ExErrorKind(ErrorKind);

/// The error is one of this kind that was made of this message.
pub uninterp spec fn made_of_message(error: IoError, kind: ErrorKind, message: Seq<char>) -> bool;

/// The error is one of this kind that was made of this QUIC error.
pub uninterp spec fn made_of_quiche(error: IoError, kind: ErrorKind, cause: QuicheError) -> bool;

/// The error is one of this kind that was made of this HTTP/3 error.
pub uninterp spec fn made_of_h3(error: IoError, kind: ErrorKind, cause: QuicheH3Error) -> bool;

/// `std::io::Error::new` with a kind and a message.
#[verifier::external_body]
pub(crate) fn io_error_of_message(kind: ErrorKind, message: &str) -> (error: IoError)
    ensures
        made_of_message(error, kind, message@),
{
    IoError::new(kind, message)
}

/// `std::io::Error::new` with a kind and a QUIC error.
#[verifier::external_body]
fn io_error_of_quiche(kind: ErrorKind, cause: QuicheError) -> (error: IoError)
    ensures
        made_of_quiche(error, kind, cause),
{
    IoError::new(kind, cause)
}

/// `std::io::Error::new` with a kind and an HTTP/3 error.
#[verifier::external_body]
fn io_error_of_h3(kind: ErrorKind, cause: QuicheH3Error) -> (error: IoError)
    ensures
        made_of_h3(error, kind, cause),
{
    IoError::new(kind, cause)
}

/// The errors of this library.
#[derive(Debug)]
pub enum Error {
    /// The socket failed.
    Io(IoError),
    /// The QUIC connection failed.
    Quiche(QuicheError),
    /// The HTTP/3 layer failed.
    QuicheH3(QuicheH3Error),
}

impl From<IoError> for Error {
    fn from(e: IoError) -> (error: Error) {
        Error::Io(e)
    }
}

impl FromSpecImpl<IoError> for Error {
    open spec fn obeys_from_spec() -> bool {
        true
    }

    open spec fn from_spec(e: IoError) -> Error {
        Error::Io(e)
    }
}

impl From<QuicheError> for Error {
    fn from(e: QuicheError) -> (error: Error) {
        Error::Quiche(e)
    }
}

impl FromSpecImpl<QuicheError> for Error {
    open spec fn obeys_from_spec() -> bool {
        true
    }

    open spec fn from_spec(e: QuicheError) -> Error {
        Error::Quiche(e)
    }
}

impl From<QuicheH3Error> for Error {
    fn from(e: QuicheH3Error) -> (error: Error) {
        Error::QuicheH3(e)
    }
}

impl FromSpecImpl<QuicheH3Error> for Error {
    open spec fn obeys_from_spec() -> bool {
        true
    }

    open spec fn from_spec(e: QuicheH3Error) -> Error {
        Error::QuicheH3(e)
    }
}

/// What an error becomes as an error of the standard library: a socket error
/// stays what it is, any other becomes the cause of an error of kind `Other`.
pub open spec fn becomes_io_error(error: Error, io: IoError) -> bool {
    match error {
        Error::Io(e) => io == e,
        Error::Quiche(e) => made_of_quiche(io, ErrorKind::Other, e),
        Error::QuicheH3(e) => made_of_h3(io, ErrorKind::Other, e),
    }
}

impl From<Error> for IoError {
    fn from(error: Error) -> (io: IoError)
        ensures
            becomes_io_error(error, io),
    {
        match error {
            Error::Io(e) => e,
            Error::Quiche(e) => io_error_of_quiche(ErrorKind::Other, e),
            Error::QuicheH3(e) => io_error_of_h3(ErrorKind::Other, e),
        }
    }
}

/// Two conversions of one error may give different values, so no function says
/// what comes out; the contract of `from` does.
impl FromSpecImpl<Error> for IoError {
    open spec fn obeys_from_spec() -> bool {
        false
    }

    open spec fn from_spec(error: Error) -> IoError {
        error->Io_0
    }
}

/// The text that an error is shown as, given how its cause is shown.
pub open spec fn shown(error: Error, cause: Seq<char>) -> Seq<char> {
    match error {
        Error::Io(_) => "io error: "@ + cause,
        Error::Quiche(_) => "quiche error: "@ + cause,
        Error::QuicheH3(_) => "quiche h3 error: "@ + cause,
    }
}

impl Error {
    /// How the cause of an error is shown.
    pub open spec fn shows_cause(self, cause: String) -> bool {
        match self {
            Error::Io(e) => vstd::string::to_string_from_display_ensures(&e, cause),
            Error::Quiche(e) => vstd::string::to_string_from_display_ensures(&e, cause),
            Error::QuicheH3(e) => vstd::string::to_string_from_display_ensures(&e, cause),
        }
    }

    /// The text to show for the error, given the text of its cause.
    pub fn describe(&self, cause: &str) -> (text: String)
        ensures
            text@ == shown(*self, cause@),
    {
        let prefix = match self {
            Error::Io(_) => "io error: ",
            Error::Quiche(_) => "quiche error: ",
            Error::QuicheH3(_) => "quiche h3 error: ",
        };
        let mut text = prefix.to_owned();
        text.append(cause);
        text
    }

    /// The text to show for the error.
    pub fn message(&self) -> (text: String)
        ensures
            exists|cause: String| #[trigger] self.shows_cause(cause) && text@ == shown(*self, cause@),
    {
        let cause = match self {
            Error::Io(e) => e.to_string(),
            Error::Quiche(e) => e.to_string(),
            Error::QuicheH3(e) => e.to_string(),
        };
        assert(self.shows_cause(cause));
        self.describe(cause.as_str())
    }
}

} // verus!
