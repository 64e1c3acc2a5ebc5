//! The handshake driver: a resumable computation that takes one handshake
//! attempt from its first call to success or failure.
//!
//! The engine's handshake is a blocking-style call that may stop midway with
//! "would block". It then hands back a continuation that holds all of its
//! progress. The driver keeps that continuation while the task is parked and
//! resumes it, rather than starting over. The engine's calls themselves are
//! made by the driver's owner; the decisions are made here.

use vstd::prelude::*;
use crate::error::{Error, IoErrorKind};
use crate::progress::Progress;
use crate::shim::{interest, interest_for, Direction};

verus! {

/// Where a handshake attempt stands.
///
/// `I` is what the first call of the engine needs (the shim around the
/// transport and the target identity); `C` is the engine's continuation.
#[derive(Debug)]
pub enum HandshakeState<I, C> {
    /// The engine has not been called yet.
    Initial(I),
    /// The engine stopped midway and handed back its continuation.
    InProgress(C),
    /// The session is established and has been handed out.
    Completed,
    /// The attempt failed and was discarded.
    Failed,
}

/// The call of the engine that is due next.
#[derive(Debug)]
pub enum Invocation<I, C> {
    /// Call the handshake entry point.
    Begin(I),
    /// Resume the continuation of the entry point's call.
    Resume(C),
}

/// What one call of the engine returned.
///
/// `T` is the established session.
#[derive(Debug)]
pub enum StepOutcome<T, C> {
    /// The handshake is complete.
    Established(T),
    /// The transport was not ready; the continuation holds the progress so far.
    WouldBlock(C),
    /// The handshake failed. `transport` is the kind of the transport error
    /// behind the failure, if there was one; `diagnostic` is the engine's account.
    Failure { transport: Option<IoErrorKind>, diagnostic: String },
}

/// How many calls and suspensions a run of the driver made.
pub struct Tally {
    /// Calls of the handshake entry point.
    pub begins: nat,
    /// Calls that resumed a continuation.
    pub resumes: nat,
    /// Times the computation was parked.
    pub suspensions: nat,
}

/// The error that a failed handshake is reported with. It always wraps the
/// engine's diagnostic; where a fatal transport error was behind the
/// failure, it gives the kind of that error as well.
pub open spec fn failure_error(transport: Option<IoErrorKind>, diagnostic: String) -> Error {
    match transport {
        Some(kind) => if kind.fatal() {
            Error::HandshakeIo(kind, diagnostic)
        } else {
            Error::Handshake(diagnostic)
        },
        None => Error::Handshake(diagnostic),
    }
}

/// The state that the driver is in after the engine returned `outcome`.
pub open spec fn state_after<I, T, C>(outcome: StepOutcome<T, C>) -> HandshakeState<I, C> {
    match outcome {
        StepOutcome::Established(_) => HandshakeState::Completed,
        StepOutcome::WouldBlock(continuation) => HandshakeState::InProgress(continuation),
        StepOutcome::Failure { .. } => HandshakeState::Failed,
    }
}

/// What the driver reports after the engine returned `outcome`, when the shim
/// has `waiting` on record.
pub open spec fn progress_after<T, C>(
    outcome: StepOutcome<T, C>,
    waiting: Option<Direction>,
) -> Progress<T> {
    match outcome {
        StepOutcome::Established(session) => Progress::Ready(session),
        StepOutcome::WouldBlock(_) => Progress::Suspend(interest_for(waiting)),
        StepOutcome::Failure { transport, diagnostic } => Progress::Failed(
            failure_error(transport, diagnostic),
        ),
    }
}

/// The run of a driver that starts in `state` and whose calls of the engine
/// return `outcomes`, one after the other: the state it ends in and what it
/// did on the way. The run ends when the outcomes are used up or the attempt
/// has ended, whichever comes first.
pub open spec fn run<I, T, C>(state: HandshakeState<I, C>, outcomes: Seq<StepOutcome<T, C>>) -> (
    HandshakeState<I, C>,
    Tally,
)
    decreases outcomes.len(),
{
    if outcomes.len() == 0 || state.terminal() {
        (state, Tally { begins: 0, resumes: 0, suspensions: 0 })
    } else {
        let (end, rest) = run(state_after::<I, T, C>(outcomes[0]), outcomes.drop_first());
        (
            end,
            Tally {
                begins: rest.begins + if state is Initial {
                    1nat
                } else {
                    0nat
                },
                resumes: rest.resumes + if state is InProgress {
                    1nat
                } else {
                    0nat
                },
                suspensions: rest.suspensions + if outcomes[0] is WouldBlock {
                    1nat
                } else {
                    0nat
                },
            },
        )
    }
}

/// Whether the engine stops midway `blocks` times and then returns for good:
/// all outcomes but the last are "would block", and the last is not.
pub open spec fn blocks_then_ends<T, C>(outcomes: Seq<StepOutcome<T, C>>, blocks: nat) -> bool {
    &&& outcomes.len() == blocks + 1
    &&& forall|i: int| 0 <= i < blocks ==> (#[trigger] outcomes[i]) is WouldBlock
    &&& !(outcomes[blocks as int] is WouldBlock)
}

impl<I, C> HandshakeState<I, C> {
    /// Whether the attempt has ended, in success or in failure.
    pub open spec fn terminal(self) -> bool {
        self is Completed || self is Failed
    }

    /// The call of the engine that is due in this state; none once the attempt has ended.
    pub open spec fn call(self) -> Option<Invocation<I, C>> {
        match self {
            HandshakeState::Initial(input) => Some(Invocation::Begin(input)),
            HandshakeState::InProgress(continuation) => Some(Invocation::Resume(continuation)),
            HandshakeState::Completed => None,
            HandshakeState::Failed => None,
        }
    }

    /// A fresh attempt, which owns what the engine's first call needs.
    pub fn new(input: I) -> (r: Self)
        ensures
            r == HandshakeState::<I, C>::Initial(input),
    {
        HandshakeState::Initial(input)
    }

    /// Whether the attempt has ended, in success or in failure.
    pub fn is_terminal(&self) -> (r: bool)
        ensures
            r == self.terminal(),
    {
        match self {
            HandshakeState::Completed => true,
            HandshakeState::Failed => true,
            _ => false,
        }
    }

    /// Gives up the state for the call of the engine that is due: the entry
    /// point for a fresh attempt, the retained continuation for one that was
    /// parked. An attempt that has ended has no call left.
    pub fn invocation(self) -> (r: Option<Invocation<I, C>>)
        ensures
            r == self.call(),
    {
        match self {
            HandshakeState::Initial(input) => Some(Invocation::Begin(input)),
            HandshakeState::InProgress(continuation) => Some(Invocation::Resume(continuation)),
            HandshakeState::Completed => None,
            HandshakeState::Failed => None,
        }
    }
}

/// Takes in what the engine returned and decides how the attempt goes on:
/// the new state, and what to report to whoever polls the driver.
///
/// `waiting` is the direction that the shim has on record after the call.
pub fn advance<I, T, C>(outcome: StepOutcome<T, C>, waiting: Option<Direction>) -> (r: (
    HandshakeState<I, C>,
    Progress<T>,
))
    ensures
        r.0 == state_after::<I, T, C>(outcome),
        r.1 == progress_after(outcome, waiting),
{
    match outcome {
        StepOutcome::Established(session) => (HandshakeState::Completed, Progress::Ready(session)),
        StepOutcome::WouldBlock(continuation) => (
            HandshakeState::InProgress(continuation),
            Progress::Suspend(interest(waiting)),
        ),
        StepOutcome::Failure { transport, diagnostic } => (
            HandshakeState::Failed,
            Progress::Failed(handshake_failure(transport, diagnostic)),
        ),
    }
}

/// The error that a failed handshake is reported with.
pub fn handshake_failure(transport: Option<IoErrorKind>, diagnostic: String) -> (r: Error)
    ensures
        r == failure_error(transport, diagnostic),
        !(r is WouldBlock),
        r != Error::Io(IoErrorKind::WouldBlock),
{
    match transport {
        Some(kind) => {
            if kind.is_fatal() {
                Error::HandshakeIo(kind, diagnostic)
            } else {
                Error::Handshake(diagnostic)
            }
        },
        None => Error::Handshake(diagnostic),
    }
}

/// The entry point is called at most once per attempt, whatever the engine
/// returns and however often the computation is parked; an attempt that is
/// already under way never calls it again.
pub proof fn lemma_entry_called_at_most_once<I, T, C>(
    state: HandshakeState<I, C>,
    outcomes: Seq<StepOutcome<T, C>>,
)
    ensures
        run(state, outcomes).1.begins <= 1,
        !(state is Initial) ==> run(state, outcomes).1.begins == 0,
        state is Initial && outcomes.len() > 0 ==> run(state, outcomes).1.begins == 1,
    decreases outcomes.len(),
{
    if outcomes.len() == 0 || state.terminal() {
    } else {
        lemma_entry_called_at_most_once(state_after::<I, T, C>(outcomes[0]), outcomes.drop_first());
    }
}

/// The continuation that the engine hands back when it would block is the
/// one that the driver resumes next: it is kept as it is, and the attempt is
/// not started over.
pub proof fn lemma_continuation_is_retained<I, T, C>(continuation: C)
    ensures
        state_after::<I, T, C>(StepOutcome::WouldBlock(continuation)).call() == Some(
            Invocation::<I, C>::Resume(continuation),
        ),
{
}

/// An attempt under way, whose engine would block `blocks` times before it
/// returns for good, is parked exactly `blocks` times and then ends: completed
/// if the engine established a session, failed otherwise. Every call but a
/// fresh attempt's first resumes a continuation.
pub proof fn lemma_run_ends_after_blocks<I, T, C>(
    state: HandshakeState<I, C>,
    outcomes: Seq<StepOutcome<T, C>>,
    blocks: nat,
)
    requires
        !state.terminal(),
        blocks_then_ends(outcomes, blocks),
    ensures
        run(state, outcomes).0 == state_after::<I, T, C>(outcomes[blocks as int]),
        run(state, outcomes).0.terminal(),
        run(state, outcomes).1.suspensions == blocks,
        run(state, outcomes).1.begins + run(state, outcomes).1.resumes == blocks + 1,
        run(state, outcomes).1.begins == (if state is Initial {
            1nat
        } else {
            0nat
        }),
    decreases blocks,
{
    let next = state_after::<I, T, C>(outcomes[0]);
    let rest = outcomes.drop_first();
    if blocks == 0 {
        assert(next.terminal());
        assert(run(next, rest).0 == next);
    } else {
        assert(outcomes[0] is WouldBlock);
        assert forall|i: int| 0 <= i < blocks - 1 implies (#[trigger] rest[i]) is WouldBlock by {
            assert(rest[i] == outcomes[i + 1]);
        }
        assert(rest[blocks - 1] == outcomes[blocks as int]);
        lemma_run_ends_after_blocks(next, rest, (blocks - 1) as nat);
    }
}

/// A fresh attempt whose engine would block any number of times and then
/// establishes the session completes: the driver is parked once per "would
/// block", calls the entry point once, and resumes the retained continuation
/// every other time.
pub proof fn lemma_completes_after_would_blocks<I, T, C>(
    input: I,
    outcomes: Seq<StepOutcome<T, C>>,
    blocks: nat,
)
    requires
        blocks_then_ends(outcomes, blocks),
        outcomes[blocks as int] is Established,
    ensures
        run(HandshakeState::<I, C>::Initial(input), outcomes).0 is Completed,
        run(HandshakeState::<I, C>::Initial(input), outcomes).1 == (Tally {
            begins: 1,
            resumes: blocks,
            suspensions: blocks,
        }),
{
    lemma_run_ends_after_blocks(HandshakeState::<I, C>::Initial(input), outcomes, blocks);
}

/// A failure of the engine ends the attempt at once: the driver reports an
/// error of the handshake phase that wraps the engine's diagnostic, never a
/// suspension, and has no call left to make. Where a fatal transport error
/// was behind the failure, the error gives its kind.
pub proof fn lemma_failure_is_reported<I, T, C>(
    transport: Option<IoErrorKind>,
    diagnostic: String,
    waiting: Option<Direction>,
)
    ensures
        ({
            let outcome = StepOutcome::<T, C>::Failure { transport, diagnostic };
            &&& state_after::<I, T, C>(outcome) is Failed
            &&& state_after::<I, T, C>(outcome).call() is None
            &&& progress_after(outcome, waiting) is Failed
            &&& !(progress_after(outcome, waiting)->Failed_0 is WouldBlock)
            &&& progress_after(outcome, waiting)->Failed_0.in_handshake_phase()
            &&& progress_after(outcome, waiting)->Failed_0.io_message() == diagnostic@
            &&& (transport matches Some(kind) && kind.fatal()) ==> progress_after(outcome, waiting)
                == Progress::<T>::Failed(Error::HandshakeIo(transport->Some_0, diagnostic))
        }),
{
}

} // verus!
