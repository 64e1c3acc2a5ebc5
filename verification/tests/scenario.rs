use tls_connector::handshake::{advance, HandshakeState, Invocation, StepOutcome};
use tls_connector::progress::Progress;
use tls_connector::shim::{Interest, Shim, SyncResult, TransportPoll};
use tls_connector::stream::read_progress;

/// A transport that gives scripted answers and records what was written.
struct FakeTransport {
    answers: Vec<TransportPoll>,
    next: usize,
    written: Vec<u8>,
}

/// The shim around the fake transport, as the engine sees it.
struct Wrapped {
    shim: Shim,
    transport: FakeTransport,
}

impl Wrapped {
    fn write(&mut self, bytes: &[u8]) -> SyncResult {
        let answer = self.transport.answers[self.transport.next];
        self.transport.next += 1;
        if let TransportPoll::Ready(n) = answer {
            self.transport.written.extend_from_slice(&bytes[..n]);
        }
        self.shim.try_write(bytes.len(), answer)
    }

    fn read(&mut self, capacity: usize) -> SyncResult {
        let answer = self.transport.answers[self.transport.next];
        self.transport.next += 1;
        self.shim.try_read(capacity, answer)
    }
}

/// A toy engine: its handshake sends a five-byte greeting and then waits for
/// a five-byte reply. Its progress lives in the value itself.
struct Engine {
    stream: Wrapped,
    sent: usize,
    received: usize,
    entry_calls: u32,
}

const GREETING: &[u8] = b"hello";

fn handshake_step(mut engine: Engine) -> StepOutcome<Engine, Engine> {
    while engine.sent < GREETING.len() {
        match engine.stream.write(&GREETING[engine.sent..]) {
            SyncResult::Done(n) => engine.sent += n,
            SyncResult::WouldBlock => return StepOutcome::WouldBlock(engine),
            SyncResult::Failed(kind) => {
                return StepOutcome::Failure { transport: Some(kind), diagnostic: String::new() }
            }
        }
    }
    while engine.received < 5 {
        match engine.stream.read(5 - engine.received) {
            SyncResult::Done(n) => engine.received += n,
            SyncResult::WouldBlock => return StepOutcome::WouldBlock(engine),
            SyncResult::Failed(kind) => {
                return StepOutcome::Failure { transport: Some(kind), diagnostic: String::new() }
            }
        }
    }
    StepOutcome::Established(engine)
}

fn begin(stream: Wrapped) -> StepOutcome<Engine, Engine> {
    handshake_step(Engine { stream, sent: 0, received: 0, entry_calls: 1 })
}

#[test]
fn handshake_with_one_write_block_and_one_read_block_takes_two_suspensions() {
    let transport = FakeTransport {
        answers: vec![
            TransportPoll::NotReady,
            TransportPoll::Ready(5),
            TransportPoll::NotReady,
            TransportPoll::Ready(5),
            TransportPoll::Ready(3),
        ],
        next: 0,
        written: Vec::new(),
    };
    let mut state: HandshakeState<Wrapped, Engine> =
        HandshakeState::new(Wrapped { shim: Shim::new(), transport });
    let mut waited_for = Vec::new();
    let mut polls = 0;
    let mut session = loop {
        polls += 1;
        let outcome = match state.invocation() {
            Some(Invocation::Begin(stream)) => begin(stream),
            Some(Invocation::Resume(engine)) => handshake_step(engine),
            None => panic!("polled after the attempt ended"),
        };
        let waiting = match &outcome {
            StepOutcome::Established(engine) => engine.stream.shim.waiting(),
            StepOutcome::WouldBlock(engine) => engine.stream.shim.waiting(),
            StepOutcome::Failure { .. } => None,
        };
        let (next, progress) = advance(outcome, waiting);
        state = next;
        match progress {
            Progress::Ready(session) => break session,
            Progress::Suspend(interest) => waited_for.push(interest),
            Progress::Failed(error) => panic!("the handshake failed: {:?}", error),
        }
    };
    assert!(matches!(state, HandshakeState::Completed));
    assert_eq!(waited_for, vec![Interest::Writable, Interest::Readable]);
    assert_eq!(polls, 3);
    assert_eq!(session.entry_calls, 1);
    assert_eq!(session.stream.transport.written, GREETING);

    let told = session.stream.read(16);
    assert!(matches!(read_progress(told, session.stream.shim.waiting()), Progress::Ready(3)));
}

#[test]
fn handshake_resumes_a_partial_write_with_the_rest() {
    let transport = FakeTransport {
        answers: vec![
            TransportPoll::Ready(2),
            TransportPoll::NotReady,
            TransportPoll::Ready(3),
            TransportPoll::Ready(5),
        ],
        next: 0,
        written: Vec::new(),
    };
    let mut state: HandshakeState<Wrapped, Engine> =
        HandshakeState::new(Wrapped { shim: Shim::new(), transport });
    let mut suspensions = 0;
    let session = loop {
        let outcome = match state.invocation() {
            Some(Invocation::Begin(stream)) => begin(stream),
            Some(Invocation::Resume(engine)) => handshake_step(engine),
            None => panic!("polled after the attempt ended"),
        };
        let waiting = match &outcome {
            StepOutcome::WouldBlock(engine) => engine.stream.shim.waiting(),
            _ => None,
        };
        let (next, progress) = advance(outcome, waiting);
        state = next;
        match progress {
            Progress::Ready(session) => break session,
            Progress::Suspend(interest) => {
                assert_eq!(interest, Interest::Writable);
                suspensions += 1;
            }
            Progress::Failed(error) => panic!("the handshake failed: {:?}", error),
        }
    };
    assert_eq!(suspensions, 1);
    assert_eq!(session.stream.transport.written, b"hello");
}
