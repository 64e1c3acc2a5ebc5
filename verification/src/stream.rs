//! The established-session stream: how the session's blocking-style reads,
//! writes and shutdown are reported to a caller that expects to be suspended
//! rather than told "would block".

use vstd::prelude::*;
use vstd::slice::slice_subrange;
use crate::error::{Error, IoErrorKind};
use crate::progress::Progress;
use crate::shim::{interest, interest_for, recorded_after, told, Direction, Interest, SyncResult, TransportPoll};

verus! {

/// What a read is reported as when the session returned `result` and the shim
/// has `waiting` on record.
///
/// A count is passed on. "Would block" becomes a suspension, never an error
/// and never a read of no bytes. Everything else is a failure of the stream.
pub open spec fn read_report(result: SyncResult, waiting: Option<Direction>) -> Progress<usize> {
    match result {
        SyncResult::Done(n) => Progress::Ready(n),
        SyncResult::WouldBlock => Progress::Suspend(interest_for(waiting)),
        SyncResult::Failed(kind) => if kind.fatal() {
            Progress::Failed(Error::Io(kind))
        } else {
            Progress::Suspend(interest_for(waiting))
        },
    }
}

/// Reports one read of the session to the stream's caller.
///
/// After a suspension the caller is polled again once the transport is ready,
/// and the read is retried then.
pub fn read_progress(result: SyncResult, waiting: Option<Direction>) -> (r: Progress<usize>)
    ensures
        r == read_report(result, waiting),
{
    match result {
        SyncResult::Done(n) => Progress::Ready(n),
        SyncResult::WouldBlock => Progress::Suspend(interest(waiting)),
        SyncResult::Failed(kind) => {
            if kind.is_fatal() {
                Progress::Failed(Error::Io(kind))
            } else {
                Progress::Suspend(interest(waiting))
            }
        },
    }
}

/// What one poll of a read reports when the session passes on what the shim
/// tells it, the caller's buffer holds `capacity` bytes and the transport
/// gives `answer`.
pub open spec fn read_through(capacity: usize, answer: TransportPoll) -> Progress<usize> {
    read_report(
        told(capacity, answer),
        recorded_after(Direction::Read, told(capacity, answer)),
    )
}

/// The polls of one read, with the transport's answers in order: how often
/// the read was suspended, and how it ended, if it has.
pub open spec fn read_run(capacity: usize, answers: Seq<TransportPoll>) -> (
    nat,
    Option<Result<usize, Error>>,
)
    decreases answers.len(),
{
    if answers.len() == 0 {
        (0, None)
    } else {
        match read_through(capacity, answers[0]) {
            Progress::Suspend(_) => {
                let (suspensions, end) = read_run(capacity, answers.drop_first());
                (suspensions + 1, end)
            },
            ended => (0, ended.outcome()),
        }
    }
}

/// What the next step of a write is.
#[derive(Debug)]
pub enum WriteStep {
    /// Bytes are left: call the session again with what remains.
    Again,
    /// The write is to be reported to the caller as given.
    Settled(Progress<usize>),
}

/// How the stream's shutdown goes on.
#[derive(Clone, Copy, Debug, PartialEq, Eq, Structural)]
pub enum CloseStep {
    /// The peer could not be notified yet: park, then try again.
    Suspend(Interest),
    /// Release the transport. If the peer could not be notified, the failure
    /// is given for the record; it does not fail the shutdown.
    Release(Option<IoErrorKind>),
}

/// How a shutdown goes on when the session's attempt to notify the peer
/// returned `result` and the shim has `waiting` on record.
pub open spec fn close_report(result: Result<(), IoErrorKind>, waiting: Option<Direction>) -> CloseStep {
    match result {
        Ok(_) => CloseStep::Release(None),
        Err(kind) => if kind.fatal() {
            CloseStep::Release(Some(kind))
        } else {
            CloseStep::Suspend(interest_for(waiting))
        },
    }
}

/// Decides how a shutdown goes on after the session tried to notify the peer.
pub fn close_progress(result: Result<(), IoErrorKind>, waiting: Option<Direction>) -> (r: CloseStep)
    ensures
        r == close_report(result, waiting),
{
    match result {
        Ok(_) => CloseStep::Release(None),
        Err(kind) => {
            if kind.is_fatal() {
                CloseStep::Release(Some(kind))
            } else {
                CloseStep::Suspend(interest(waiting))
            }
        },
    }
}

/// The bytes that the next call of the session is offered: those of `buf`
/// that the session has not taken yet.
pub open spec fn offered(buf: Seq<u8>, written: nat) -> Seq<u8> {
    if written <= buf.len() {
        buf.subrange(written as int, buf.len() as int)
    } else {
        Seq::empty()
    }
}

/// The bytes that the session takes in all, when `written` bytes of `buf` are
/// taken already, each call is offered the rest, and the calls take
/// `counts[0]`, `counts[1]`, ... bytes of what they are offered. A call that
/// claims more than it was offered is a failure and ends the write.
pub open spec fn taken(buf: Seq<u8>, written: nat, counts: Seq<nat>) -> Seq<u8>
    decreases counts.len(),
{
    if counts.len() == 0 || written + counts[0] > buf.len() {
        Seq::empty()
    } else {
        offered(buf, written).subrange(0, counts[0] as int) + taken(
            buf,
            written + counts[0],
            counts.drop_first(),
        )
    }
}

/// The position within a caller's buffer up to which the session has taken
/// the bytes of a write.
#[derive(Clone, Copy, Debug)]
pub struct WriteCursor {
    total: usize,
    written: usize,
}

/// What `WriteCursor::advance` does when `written` of `total` bytes are taken
/// and the session returned `result`: the bytes taken afterwards, and the step.
pub open spec fn write_step(
    total: usize,
    written: usize,
    result: SyncResult,
    waiting: Option<Direction>,
) -> (usize, WriteStep) {
    match result {
        SyncResult::Done(k) => if k > total - written {
            (written, WriteStep::Settled(Progress::Failed(Error::Io(IoErrorKind::InvalidData))))
        } else if k == 0 && written < total {
            (written, WriteStep::Settled(Progress::Failed(Error::Io(IoErrorKind::WriteZero))))
        } else if written + k == total {
            (total, WriteStep::Settled(Progress::Ready(total)))
        } else {
            ((written + k) as usize, WriteStep::Again)
        },
        SyncResult::WouldBlock => (
            written,
            WriteStep::Settled(Progress::Suspend(interest_for(waiting))),
        ),
        SyncResult::Failed(kind) => if kind.fatal() {
            (written, WriteStep::Settled(Progress::Failed(Error::Io(kind))))
        } else {
            (written, WriteStep::Settled(Progress::Suspend(interest_for(waiting))))
        },
    }
}

impl WriteCursor {
    #[verifier::type_invariant]
    spec fn within_bounds(self) -> bool {
        self.written <= self.total
    }

    /// The length of the buffer that is being written.
    pub closed spec fn total(self) -> usize {
        self.total
    }

    /// The number of bytes that the session has taken so far.
    pub closed spec fn written(self) -> usize {
        self.written
    }

    /// A cursor at the start of a buffer of `total` bytes.
    pub fn new(total: usize) -> (r: WriteCursor)
        ensures
            r.total() == total,
            r.written() == 0,
    {
        WriteCursor { total, written: 0 }
    }

    /// The number of bytes that the session has taken so far.
    pub fn position(&self) -> (r: usize)
        ensures
            r == self.written(),
            r <= self.total(),
    {
        proof {
            use_type_invariant(self);
        }
        self.written
    }

    /// The length of the buffer that is being written.
    pub fn len(&self) -> (r: usize)
        ensures
            r == self.total(),
    {
        self.total
    }

    /// Whether the session has taken every byte.
    pub fn is_complete(&self) -> (r: bool)
        ensures
            r == (self.written() == self.total()),
    {
        self.written == self.total
    }

    /// The part of the caller's buffer to offer to the session next: the
    /// bytes that it has not taken yet, in order.
    pub fn remaining<'a>(&self, buf: &'a [u8]) -> (r: &'a [u8])
        ensures
            r@ == offered(buf@, self.written() as nat),
    {
        let len: usize = buf.len();
        if self.written <= len {
            slice_subrange(buf, self.written, len)
        } else {
            slice_subrange(buf, len, len)
        }
    }

    /// Takes in what the session returned for the bytes last offered, and
    /// decides how the write goes on.
    ///
    /// The write is reported complete only when the session has taken every
    /// byte. A suspension or a failure leaves the cursor where it is, so that
    /// a later call offers no byte twice and skips none. A session that takes
    /// nothing while bytes are left would stall the write: that is a failure
    /// of kind `WriteZero`.
    pub fn advance(&mut self, result: SyncResult, waiting: Option<Direction>) -> (r: WriteStep)
        ensures
            final(self).total() == old(self).total(),
            (final(self).written(), r) == write_step(
                old(self).total(),
                old(self).written(),
                result,
                waiting,
            ),
            old(self).written() <= final(self).written() <= final(self).total(),
    {
        proof {
            use_type_invariant(&*self);
        }
        match result {
            SyncResult::Done(k) => {
                let left: usize = self.total - self.written;
                if k > left {
                    WriteStep::Settled(Progress::Failed(Error::Io(IoErrorKind::InvalidData)))
                } else if k == 0 && left > 0 {
                    WriteStep::Settled(Progress::Failed(Error::Io(IoErrorKind::WriteZero)))
                } else {
                    self.written = self.written + k;
                    if self.written == self.total {
                        WriteStep::Settled(Progress::Ready(self.total))
                    } else {
                        WriteStep::Again
                    }
                }
            },
            SyncResult::WouldBlock => WriteStep::Settled(Progress::Suspend(interest(waiting))),
            SyncResult::Failed(kind) => {
                if kind.is_fatal() {
                    WriteStep::Settled(Progress::Failed(Error::Io(kind)))
                } else {
                    WriteStep::Settled(Progress::Suspend(interest(waiting)))
                }
            },
        }
    }
}

/// A read is suspended for as long as the transport is not ready, and, once
/// the transport has bytes, reports exactly the count that it gave: with the
/// transport not ready `suspensions` times and then ready with `n` bytes, the
/// read is parked `suspensions` times and ends with `n`.
pub proof fn lemma_read_suspends_until_data(
    capacity: usize,
    answers: Seq<TransportPoll>,
    suspensions: nat,
    n: usize,
)
    requires
        answers.len() == suspensions + 1,
        forall|i: int| 0 <= i < suspensions ==> (#[trigger] answers[i]) is NotReady,
        answers[suspensions as int] == TransportPoll::Ready(n),
        n <= capacity,
    ensures
        read_run(capacity, answers) == (suspensions, Some(Ok::<usize, Error>(n))),
    decreases suspensions,
{
    if suspensions > 0 {
        let rest = answers.drop_first();
        assert(answers[0] is NotReady);
        assert forall|i: int| 0 <= i < suspensions - 1 implies (#[trigger] rest[i]) is NotReady by {
            assert(rest[i] == answers[i + 1]);
        }
        assert(rest[suspensions - 1] == answers[suspensions as int]);
        lemma_read_suspends_until_data(capacity, rest, (suspensions - 1) as nat, n);
    }
}

/// While the transport has nothing to give, a read is never reported as
/// complete, not even with a count of zero: it stays suspended, waiting for
/// the transport to become readable.
pub proof fn lemma_read_without_data_stays_suspended(capacity: usize, answers: Seq<TransportPoll>)
    requires
        forall|i: int| 0 <= i < answers.len() ==> (#[trigger] answers[i]) is NotReady,
    ensures
        read_run(capacity, answers) == (answers.len(), None::<Result<usize, Error>>),
        forall|i: int|
            0 <= i < answers.len() ==> read_through(capacity, #[trigger] answers[i])
                == Progress::<usize>::Suspend(Interest::Readable),
    decreases answers.len(),
{
    if answers.len() > 0 {
        let rest = answers.drop_first();
        assert(answers[0] is NotReady);
        assert forall|i: int| 0 <= i < rest.len() implies (#[trigger] rest[i]) is NotReady by {
            assert(rest[i] == answers[i + 1]);
        }
        lemma_read_without_data_stays_suspended(capacity, rest);
    }
}

/// Whatever counts the session takes, in whatever number of calls, the bytes
/// that it has taken in all are the first bytes of the buffer, in order:
/// none is lost, none is offered again, and after a partial write the next
/// call is offered exactly the bytes that are left.
pub proof fn lemma_write_takes_a_prefix(buf: Seq<u8>, written: nat, counts: Seq<nat>)
    requires
        written <= buf.len(),
    ensures
        written + taken(buf, written, counts).len() <= buf.len(),
        buf.subrange(0, written as int) + taken(buf, written, counts) == buf.subrange(
            0,
            (written + taken(buf, written, counts).len()) as int,
        ),
        counts.len() > 0 && written + counts[0] <= buf.len() ==> offered(
            buf,
            written + counts[0],
        ) == offered(buf, written).subrange(counts[0] as int, buf.len() - written),
    decreases counts.len(),
{
    if counts.len() == 0 || written + counts[0] > buf.len() {
        assert(buf.subrange(0, written as int) + Seq::<u8>::empty() =~= buf.subrange(
            0,
            written as int,
        ));
    } else {
        let k = counts[0];
        let rest = taken(buf, written + k, counts.drop_first());
        lemma_write_takes_a_prefix(buf, written + k, counts.drop_first());
        assert(buf.subrange(0, written as int) + offered(buf, written).subrange(0, k as int)
            =~= buf.subrange(0, (written + k) as int));
        assert(buf.subrange(0, written as int) + (offered(buf, written).subrange(0, k as int)
            + rest) =~= (buf.subrange(0, written as int) + offered(buf, written).subrange(
            0,
            k as int,
        )) + rest);
        assert(offered(buf, written + k) =~= offered(buf, written).subrange(
            k as int,
            buf.len() - written,
        ));
    }
}

/// When the session takes `k` of the `n` bytes that are left, the cursor moves
/// by exactly `k`: the write is not reported complete while bytes are left,
/// and the next call starts at the first byte that was not taken.
pub proof fn lemma_partial_write_resumes_after_it(
    total: usize,
    written: usize,
    k: usize,
    waiting: Option<Direction>,
)
    requires
        written <= total,
        0 < k < total - written,
    ensures
        write_step(total, written, SyncResult::Done(k), waiting) == ((written + k) as usize, WriteStep::Again),
{
}

} // verus!
