//! The error vocabulary of the adaptation layer.

use vstd::prelude::*;

verus! {

/// The kinds of transport failure that this layer tells apart.
///
/// `WouldBlock` is the only kind that is not fatal: it means "retry later".
#[derive(Clone, Copy, Debug, PartialEq, Eq, Structural)]
pub enum IoErrorKind {
    WouldBlock,
    ConnectionReset,
    ConnectionAborted,
    ConnectionRefused,
    BrokenPipe,
    NotConnected,
    UnexpectedEof,
    WriteZero,
    InvalidInput,
    InvalidData,
    TimedOut,
    Interrupted,
    Other,
}

impl IoErrorKind {
    /// Whether an error of this kind ends the operation for good.
    pub open spec fn fatal(self) -> bool {
        self != IoErrorKind::WouldBlock
    }

    /// Whether an error of this kind ends the operation for good.
    pub fn is_fatal(self) -> (r: bool)
        ensures
            r == self.fatal(),
    {
        match self {
            IoErrorKind::WouldBlock => false,
            _ => true,
        }
    }
}

/// An error in the vocabulary of generic I/O: a kind and a message.
#[derive(Debug)]
pub struct IoError {
    pub kind: IoErrorKind,
    pub message: String,
}

/// What can go wrong while connecting or while a stream is in use.
#[derive(Debug)]
pub enum Error {
    /// The connector could not be configured.
    Configuration(String),
    /// The handshake failed; the text is the engine's diagnostic.
    Handshake(String),
    /// The handshake failed because the transport did, with an error of this
    /// kind; the text is the engine's diagnostic.
    HandshakeIo(IoErrorKind, String),
    /// The transport, or the record layer on top of it, failed.
    Io(IoErrorKind),
    /// The operation cannot complete yet. Used between the layers only.
    WouldBlock,
}

impl Error {
    /// The kind under which this error is reported as a generic I/O error.
    pub open spec fn io_kind(self) -> IoErrorKind {
        match self {
            Error::Configuration(_) => IoErrorKind::InvalidInput,
            Error::Handshake(_) => IoErrorKind::Other,
            Error::HandshakeIo(kind, _) => kind,
            Error::Io(kind) => kind,
            Error::WouldBlock => IoErrorKind::WouldBlock,
        }
    }

    /// The message under which this error is reported as a generic I/O error.
    pub open spec fn io_message(self) -> Seq<char> {
        match self {
            Error::Configuration(text) => text@,
            Error::Handshake(text) => text@,
            Error::HandshakeIo(_, text) => text@,
            Error::Io(_) => Seq::empty(),
            Error::WouldBlock => Seq::empty(),
        }
    }

    /// Whether the error arose while the session was being negotiated.
    pub open spec fn in_handshake_phase(self) -> bool {
        self is Handshake || self is HandshakeIo
    }

    /// Whether the error arose while the session was being negotiated.
    pub fn is_handshake(&self) -> (r: bool)
        ensures
            r == self.in_handshake_phase(),
    {
        match self {
            Error::Handshake(_) => true,
            Error::HandshakeIo(_, _) => true,
            _ => false,
        }
    }

    /// Whether the error means "retry later" rather than failure.
    pub fn is_would_block(&self) -> (r: bool)
        ensures
            r == (*self is WouldBlock || *self == Error::Io(IoErrorKind::WouldBlock)),
    {
        match self {
            Error::WouldBlock => true,
            Error::Io(IoErrorKind::WouldBlock) => true,
            _ => false,
        }
    }

    /// Builds the error for a transport failure of the given kind.
    ///
    /// A failure of kind `WouldBlock` is no failure: it becomes `Error::WouldBlock`.
    pub fn from_io_kind(kind: IoErrorKind) -> (r: Error)
        ensures
            r == (if kind.fatal() {
                Error::Io(kind)
            } else {
                Error::WouldBlock
            }),
            r.io_kind() == kind,
    {
        match kind {
            IoErrorKind::WouldBlock => Error::WouldBlock,
            _ => Error::Io(kind),
        }
    }

    /// Converts the error for callers that only understand generic I/O errors.
    pub fn into_io_error(self) -> (r: IoError)
        ensures
            r.kind == self.io_kind(),
            r.message@ == self.io_message(),
    {
        match self {
            Error::Configuration(text) => IoError { kind: IoErrorKind::InvalidInput, message: text },
            Error::Handshake(text) => IoError { kind: IoErrorKind::Other, message: text },
            Error::HandshakeIo(kind, text) => IoError { kind, message: text },
            Error::Io(kind) => IoError { kind, message: String::new() },
            Error::WouldBlock => IoError { kind: IoErrorKind::WouldBlock, message: String::new() },
        }
    }
}

} // verus!
