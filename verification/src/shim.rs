//! The shim between a blocking-style caller and a non-blocking transport.
//!
//! The synchronous engine asks the shim to read or write. The shim's owner
//! polls the transport once, without suspending, and hands the transport's
//! answer to the shim, which turns it into what the engine is told and
//! remembers in which direction the transport was found not ready.

use vstd::prelude::*;
use crate::error::IoErrorKind;

verus! {

/// A direction of transfer over the transport.
#[derive(Clone, Copy, Debug, PartialEq, Eq, Structural)]
pub enum Direction {
    Read,
    Write,
}

/// The readiness event that a suspended computation waits for.
#[derive(Clone, Copy, Debug, PartialEq, Eq, Structural)]
pub enum Interest {
    Readable,
    Writable,
    /// No single direction is known: wake on whichever comes first.
    Either,
}

/// What the transport answered when it was polled once.
#[derive(Clone, Copy, Debug, PartialEq, Eq, Structural)]
pub enum TransportPoll {
    /// The transport moved this many bytes.
    Ready(usize),
    /// The transport cannot move bytes yet.
    NotReady,
    /// The transport failed with an error of this kind.
    Fatal(IoErrorKind),
}

/// What the synchronous caller is told about one read or write.
#[derive(Clone, Copy, Debug, PartialEq, Eq, Structural)]
pub enum SyncResult {
    /// This many bytes were moved.
    Done(usize),
    /// Nothing was moved; the call should be repeated later.
    WouldBlock,
    /// The transport failed for good.
    Failed(IoErrorKind),
}

/// What the caller is told when `limit` bytes were offered (or asked for) and
/// the transport gave `answer`.
///
/// A count is passed on exactly as the transport gave it. A transport that
/// claims more bytes than `limit` has broken its contract, which is reported
/// as a failure of kind `InvalidData`. An error of kind `WouldBlock` is the
/// same as not being ready.
pub open spec fn told(limit: usize, answer: TransportPoll) -> SyncResult {
    match answer {
        TransportPoll::Ready(n) => if n <= limit {
            SyncResult::Done(n)
        } else {
            SyncResult::Failed(IoErrorKind::InvalidData)
        },
        TransportPoll::NotReady => SyncResult::WouldBlock,
        TransportPoll::Fatal(kind) => if kind.fatal() {
            SyncResult::Failed(kind)
        } else {
            SyncResult::WouldBlock
        },
    }
}

/// The direction that the shim has on record after an operation in direction
/// `direction` that ended in `result`.
pub open spec fn recorded_after(direction: Direction, result: SyncResult) -> Option<Direction> {
    if result is WouldBlock {
        Some(direction)
    } else {
        None
    }
}

/// The readiness event to wait for, given the direction that a shim has on record.
pub open spec fn interest_for(waiting: Option<Direction>) -> Interest {
    match waiting {
        Some(Direction::Read) => Interest::Readable,
        Some(Direction::Write) => Interest::Writable,
        None => Interest::Either,
    }
}

/// The readiness event to wait for, given the direction that a shim has on record.
///
/// With nothing on record, waiting for either direction is always safe;
/// waiting for the wrong single direction would never wake the computation.
pub fn interest(waiting: Option<Direction>) -> (r: Interest)
    ensures
        r == interest_for(waiting),
{
    match waiting {
        Some(Direction::Read) => Interest::Readable,
        Some(Direction::Write) => Interest::Writable,
        None => Interest::Either,
    }
}

impl SyncResult {
    /// The same result in the shape of a blocking-style I/O call, where
    /// "would block" is an error kind of its own.
    pub open spec fn as_io_result(self) -> Result<usize, IoErrorKind> {
        match self {
            SyncResult::Done(n) => Ok(n),
            SyncResult::WouldBlock => Err(IoErrorKind::WouldBlock),
            SyncResult::Failed(kind) => Err(kind),
        }
    }

    /// The same result in the shape of a blocking-style I/O call.
    pub fn into_io_result(self) -> (r: Result<usize, IoErrorKind>)
        ensures
            r == self.as_io_result(),
    {
        match self {
            SyncResult::Done(n) => Ok(n),
            SyncResult::WouldBlock => Err(IoErrorKind::WouldBlock),
            SyncResult::Failed(kind) => Err(kind),
        }
    }

    /// Reads a result back from the shape of a blocking-style I/O call.
    pub fn from_io_result(result: Result<usize, IoErrorKind>) -> (r: SyncResult)
        ensures
            r == (match result {
                Ok(n) => SyncResult::Done(n),
                Err(kind) => if kind.fatal() {
                    SyncResult::Failed(kind)
                } else {
                    SyncResult::WouldBlock
                },
            }),
            !(r matches SyncResult::Failed(kind) && !kind.fatal()),
    {
        match result {
            Ok(n) => SyncResult::Done(n),
            Err(IoErrorKind::WouldBlock) => SyncResult::WouldBlock,
            Err(kind) => SyncResult::Failed(kind),
        }
    }
}

/// The shim's memory: the direction, if any, in which the transport was not
/// ready when it was last asked.
///
/// One synchronous call is in flight at a time, so one slot is enough: it is
/// filled when an operation would block and emptied when one completes or fails.
#[derive(Clone, Copy, Debug)]
pub struct Shim {
    waiting: Option<Direction>,
}

impl Shim {
    /// The direction on record.
    pub closed spec fn recorded(self) -> Option<Direction> {
        self.waiting
    }

    /// A shim with nothing on record.
    pub fn new() -> (r: Shim)
        ensures
            r.recorded() is None,
    {
        Shim { waiting: None }
    }

    /// The direction in which the transport was last found not ready, if the
    /// last operation did not complete.
    pub fn waiting(&self) -> (r: Option<Direction>)
        ensures
            r == self.recorded(),
    {
        self.waiting
    }

    /// The readiness event that the owner should wait for before it lets the
    /// synchronous caller try again.
    pub fn interest(&self) -> (r: Interest)
        ensures
            r == interest_for(self.recorded()),
    {
        interest(self.waiting)
    }

    /// Answers a synchronous read into a buffer of `capacity` bytes, for which
    /// the transport gave `answer`.
    pub fn try_read(&mut self, capacity: usize, answer: TransportPoll) -> (r: SyncResult)
        ensures
            r == told(capacity, answer),
            final(self).recorded() == recorded_after(Direction::Read, r),
    {
        let r = settle(capacity, answer);
        self.waiting = record(Direction::Read, r);
        r
    }

    /// Answers a synchronous write of `offered` bytes, for which the transport
    /// gave `answer`.
    pub fn try_write(&mut self, offered: usize, answer: TransportPoll) -> (r: SyncResult)
        ensures
            r == told(offered, answer),
            final(self).recorded() == recorded_after(Direction::Write, r),
    {
        let r = settle(offered, answer);
        self.waiting = record(Direction::Write, r);
        r
    }
}

fn settle(limit: usize, answer: TransportPoll) -> (r: SyncResult)
    ensures
        r == told(limit, answer),
{
    match answer {
        TransportPoll::Ready(n) => {
            if n <= limit {
                SyncResult::Done(n)
            } else {
                SyncResult::Failed(IoErrorKind::InvalidData)
            }
        },
        TransportPoll::NotReady => SyncResult::WouldBlock,
        TransportPoll::Fatal(kind) => {
            if kind.is_fatal() {
                SyncResult::Failed(kind)
            } else {
                SyncResult::WouldBlock
            }
        },
    }
}

fn record(direction: Direction, result: SyncResult) -> (r: Option<Direction>)
    ensures
        r == recorded_after(direction, result),
{
    match result {
        SyncResult::WouldBlock => Some(direction),
        _ => None,
    }
}

/// A partial transfer is reported as it happened: when the transport moves
/// `k` of the `n` bytes on offer, the caller is told `k`, neither more nor less.
pub proof fn lemma_partial_count_is_exact(n: usize, k: usize)
    requires
        k <= n,
    ensures
        told(n, TransportPoll::Ready(k)) == SyncResult::Done(k),
{
}

/// A fatal transport error is never turned into "would block", and "not
/// ready" is never turned into a failure or a count.
pub proof fn lemma_fatal_is_not_would_block(limit: usize, answer: TransportPoll)
    ensures
        (answer matches TransportPoll::Fatal(kind) && kind.fatal()) ==> told(limit, answer)
            == SyncResult::Failed(answer->Fatal_0),
        answer is NotReady ==> told(limit, answer) is WouldBlock,
        told(limit, answer) is WouldBlock <==> (answer is NotReady || answer
            == TransportPoll::Fatal(IoErrorKind::WouldBlock)),
        told(limit, answer) matches SyncResult::Failed(kind) ==> kind.fatal(),
        told(limit, answer) matches SyncResult::Done(n) ==> n <= limit && answer
            == TransportPoll::Ready(n),
{
}

} // verus!
