use vstd::prelude::*;

verus! {

/// Why a transfer ended without success.
#[derive(Debug, Clone, Copy, PartialEq, Eq, Structural)]
pub enum Failure {
    /// A local file or the terminal could not be used.
    Io,
    /// The remote resource could not be fetched.
    Network,
    /// The container's password check failed.
    BadPassword,
    /// The stream broke off, was corrupt, or could not be written.
    Transfer,
    /// The finished output could not be moved into place.
    Persist,
}

/// Where a transfer stands.
#[derive(Debug, Clone, Copy, PartialEq, Eq, Structural)]
pub enum Phase {
    AcquiringPassword,
    DerivingKey,
    Transferring,
    Committing,
    Succeeded,
    Failed(Failure),
}

/// What key derivation, started on the stream and the password, ended with.
#[derive(Debug, Clone, Copy, PartialEq, Eq, Structural)]
pub enum KeyOutcome {
    /// The engine is ready to produce output.
    Accepted,
    /// The engine reports that the password is wrong.
    BadPassword,
    /// The engine failed otherwise (unreadable input, not a container).
    Failed,
}

/// What the driver of a transfer observed.
#[derive(Debug, Clone, Copy, PartialEq, Eq, Structural)]
pub enum Event {
    /// The password was read and the source opened.
    Prepared,
    /// The password could not be read.
    PasswordFailed,
    /// The source could not be opened; `remote` tells a fetch from a file.
    SourceFailed { remote: bool },
    /// Both branches of the derivation step finished: the engine's start and
    /// the creation of the pending output (`output_ready`).
    Derived { key: KeyOutcome, output_ready: bool },
    /// A chunk of this many bytes was produced and written to the pending output.
    Chunk(u64),
    /// Producing or writing a chunk failed.
    ChunkFailed,
    /// The engine has no more output.
    EndOfStream,
    /// The pending output was moved into place.
    Committed,
    /// Moving the pending output into place failed.
    CommitFailed,
}

/// What the driver is to do next.
#[derive(Debug, Clone, Copy, PartialEq, Eq, Structural)]
pub enum Action {
    /// Start the engine on stream and password, and create the pending output,
    /// side by side; report both as one `Derived`.
    Derive,
    /// Pull the next chunk and write it through.
    Pull,
    /// Move the pending output to the destination.
    Commit,
    /// Drop the pending output, leaving the destination untouched.
    Abandon,
    /// The transfer is over; report its outcome.
    Finish,
    /// The event does not belong to this phase; nothing changes.
    Ignore,
}

/// The state of one transfer: its phase and the bytes written so far.
#[derive(Debug, Clone, Copy, PartialEq, Eq, Structural)]
pub struct Transfer {
    pub phase: Phase,
    pub written: u64,
}

pub open spec fn is_terminal(p: Phase) -> bool {
    p is Succeeded || p is Failed
}

/// One step of the transfer state machine.
pub open spec fn next(t: Transfer, ev: Event) -> (Transfer, Action) {
    let fail = |f: Failure, a: Action| (Transfer { phase: Phase::Failed(f), ..t }, a);
    match t.phase {
        Phase::AcquiringPassword => match ev {
            Event::Prepared => (Transfer { phase: Phase::DerivingKey, ..t }, Action::Derive),
            Event::PasswordFailed => fail(Failure::Io, Action::Finish),
            Event::SourceFailed { remote } => fail(
                if remote { Failure::Network } else { Failure::Io },
                Action::Finish,
            ),
            _ => (t, Action::Ignore),
        },
        Phase::DerivingKey => match ev {
            Event::Derived { key, output_ready } => match key {
                KeyOutcome::BadPassword => fail(Failure::BadPassword, Action::Abandon),
                KeyOutcome::Failed => fail(Failure::Transfer, Action::Abandon),
                KeyOutcome::Accepted => if output_ready {
                    (Transfer { phase: Phase::Transferring, ..t }, Action::Pull)
                } else {
                    fail(Failure::Io, Action::Abandon)
                },
            },
            _ => (t, Action::Ignore),
        },
        Phase::Transferring => match ev {
            Event::Chunk(n) => (
                Transfer {
                    written: if t.written + n > u64::MAX { u64::MAX } else { (t.written + n) as u64 },
                    ..t
                },
                Action::Pull,
            ),
            Event::ChunkFailed => fail(Failure::Transfer, Action::Abandon),
            Event::EndOfStream => (Transfer { phase: Phase::Committing, ..t }, Action::Commit),
            _ => (t, Action::Ignore),
        },
        Phase::Committing => match ev {
            Event::Committed => (Transfer { phase: Phase::Succeeded, ..t }, Action::Finish),
            Event::CommitFailed => fail(Failure::Persist, Action::Finish),
            _ => (t, Action::Ignore),
        },
        Phase::Succeeded => (t, Action::Finish),
        Phase::Failed(_) => (t, Action::Finish),
    }
}

/// The state after a sequence of events, and the actions issued on the way.
pub open spec fn run(t: Transfer, evs: Seq<Event>) -> (Transfer, Seq<Action>)
    decreases evs.len(),
{
    if evs.len() == 0 {
        (t, Seq::empty())
    } else {
        let (t1, a) = next(t, evs[0]);
        let (t2, rest) = run(t1, evs.drop_first());
        (t2, seq![a] + rest)
    }
}

impl Transfer {
    /// A transfer that has not started: the password comes first.
    pub fn new() -> (r: Transfer)
        ensures
            r.phase == Phase::AcquiringPassword,
            r.written == 0,
    {
        Transfer { phase: Phase::AcquiringPassword, written: 0 }
    }

    /// Takes one event and says what to do next.
    pub fn step(&mut self, ev: Event) -> (a: Action)
        ensures
            (*final(self), a) == next(*old(self), ev),
    {
        match self.phase {
            Phase::AcquiringPassword => match ev {
                Event::Prepared => {
                    self.phase = Phase::DerivingKey;
                    Action::Derive
                },
                Event::PasswordFailed => {
                    self.phase = Phase::Failed(Failure::Io);
                    Action::Finish
                },
                Event::SourceFailed { remote } => {
                    self.phase = Phase::Failed(if remote { Failure::Network } else { Failure::Io });
                    Action::Finish
                },
                _ => Action::Ignore,
            },
            Phase::DerivingKey => match ev {
                Event::Derived { key, output_ready } => match key {
                    KeyOutcome::BadPassword => {
                        self.phase = Phase::Failed(Failure::BadPassword);
                        Action::Abandon
                    },
                    KeyOutcome::Failed => {
                        self.phase = Phase::Failed(Failure::Transfer);
                        Action::Abandon
                    },
                    KeyOutcome::Accepted => {
                        if output_ready {
                            self.phase = Phase::Transferring;
                            Action::Pull
                        } else {
                            self.phase = Phase::Failed(Failure::Io);
                            Action::Abandon
                        }
                    },
                },
                _ => Action::Ignore,
            },
            Phase::Transferring => match ev {
                Event::Chunk(n) => {
                    self.written = self.written.saturating_add(n);
                    Action::Pull
                },
                Event::ChunkFailed => {
                    self.phase = Phase::Failed(Failure::Transfer);
                    Action::Abandon
                },
                Event::EndOfStream => {
                    self.phase = Phase::Committing;
                    Action::Commit
                },
                _ => Action::Ignore,
            },
            Phase::Committing => match ev {
                Event::Committed => {
                    self.phase = Phase::Succeeded;
                    Action::Finish
                },
                Event::CommitFailed => {
                    self.phase = Phase::Failed(Failure::Persist);
                    Action::Finish
                },
                _ => Action::Ignore,
            },
            Phase::Succeeded => Action::Finish,
            Phase::Failed(_) => Action::Finish,
        }
    }

    /// The outcome once the transfer is over: `Ok` on success, the failure
    /// otherwise; `None` while it is still running.
    pub fn outcome(&self) -> (r: Option<Result<(), Failure>>)
        ensures
            r == (match self.phase {
                Phase::Succeeded => Some(Ok(())),
                Phase::Failed(f) => Some(Err(f)),
                _ => None::<Result<(), Failure>>,
            }),
    {
        match self.phase {
            Phase::Succeeded => Some(Ok(())),
            Phase::Failed(f) => Some(Err(f)),
            _ => None,
        }
    }
}

/// What `enc` makes of its input before asking for anything else.
#[derive(Debug, Clone, Copy, PartialEq, Eq, Structural)]
pub enum InputCheck {
    /// The input is a directory or some other non-file: an error.
    NotAFile,
    /// The input is an empty file: nothing to encrypt, no output, success.
    Empty,
    /// A file with this many bytes: encrypt it.
    Proceed(u64),
}

/// Sorts the input of `enc` by its metadata.
pub fn check_input(is_file: bool, len: u64) -> (r: InputCheck)
    ensures
        !is_file ==> r == InputCheck::NotAFile,
        is_file && len == 0 ==> r == InputCheck::Empty,
        is_file && len > 0 ==> r == InputCheck::Proceed(len),
{
    if !is_file {
        InputCheck::NotAFile
    } else if len == 0 {
        InputCheck::Empty
    } else {
        InputCheck::Proceed(len)
    }
}

/// Once a transfer has succeeded or failed, no event changes it and every
/// further action is `Finish`.
pub proof fn lemma_terminal_is_final(t: Transfer, evs: Seq<Event>)
    requires
        is_terminal(t.phase),
    ensures
        run(t, evs).0 == t,
        forall|i: int| 0 <= i < evs.len() ==> run(t, evs).1[i] == Action::Finish,
        run(t, evs).1.len() == evs.len(),
    decreases evs.len(),
{
    if evs.len() > 0 {
        lemma_terminal_is_final(t, evs.drop_first());
        let rest = run(t, evs.drop_first()).1;
        assert forall|i: int| 0 <= i < evs.len() implies run(t, evs).1[i] == Action::Finish by {
            if i > 0 {
                assert(run(t, evs).1[i] == rest[i - 1]);
            }
        }
    }
}

/// A first step that ends the transfer, without committing, is followed by
/// no commit: the run stays where that step left it.
pub proof fn lemma_terminal_step_never_commits(t: Transfer, evs: Seq<Event>)
    requires
        evs.len() > 0,
        is_terminal(next(t, evs[0]).0.phase),
        next(t, evs[0]).1 != Action::Commit,
    ensures
        run(t, evs).0 == next(t, evs[0]).0,
        !run(t, evs).1.contains(Action::Commit),
{
    let t1 = next(t, evs[0]).0;
    lemma_terminal_is_final(t1, evs.drop_first());
    let acts = run(t, evs).1;
    if acts.contains(Action::Commit) {
        let i = choose|i: int| 0 <= i < acts.len() && acts[i] == Action::Commit;
        assert(acts[i] == run(t1, evs.drop_first()).1[i - 1]);
    }
}

/// A wrong password ends the transfer as `Failed(BadPassword)`: the pending
/// output is abandoned and never committed, whatever comes afterwards.
pub proof fn lemma_bad_password_never_commits(t: Transfer, evs: Seq<Event>)
    requires
        t.phase == Phase::DerivingKey,
        evs.len() > 0,
        evs[0] matches Event::Derived { key: KeyOutcome::BadPassword, .. },
    ensures
        run(t, evs).0.phase == Phase::Failed(Failure::BadPassword),
        run(t, evs).1[0] == Action::Abandon,
        !run(t, evs).1.contains(Action::Commit),
{
    lemma_terminal_step_never_commits(t, evs);
}

/// Whenever the engine does not accept the stream and password (a wrong
/// password, or input that is no container at all), the transfer fails and
/// nothing is committed, whatever comes afterwards.
pub proof fn lemma_rejected_input_never_commits(t: Transfer, evs: Seq<Event>)
    requires
        t.phase == Phase::DerivingKey,
        evs.len() > 0,
        evs[0] matches Event::Derived { key, .. } && key != KeyOutcome::Accepted,
    ensures
        run(t, evs).0.phase is Failed,
        !run(t, evs).1.contains(Action::Commit),
{
    lemma_terminal_step_never_commits(t, evs);
}

/// A transfer that breaks off mid-stream (a read, decrypt or write error)
/// ends as `Failed(Transfer)` and never commits: the destination is untouched.
pub proof fn lemma_interrupted_transfer_never_commits(t: Transfer, evs: Seq<Event>)
    requires
        t.phase == Phase::Transferring,
        evs.len() > 0,
        evs[0] == Event::ChunkFailed,
    ensures
        run(t, evs).0.phase == Phase::Failed(Failure::Transfer),
        run(t, evs).1[0] == Action::Abandon,
        !run(t, evs).1.contains(Action::Commit),
{
    lemma_terminal_step_never_commits(t, evs);
}

/// A transfer that had not reached the commit reaches success only by
/// committing: the destination is written by the rename or not at all.
pub proof fn lemma_success_goes_through_commit(t: Transfer, evs: Seq<Event>)
    requires
        !is_terminal(t.phase),
        t.phase != Phase::Committing,
        run(t, evs).0.phase == Phase::Succeeded,
    ensures
        run(t, evs).1.contains(Action::Commit),
    decreases evs.len(),
{
    if evs.len() == 0 {
    } else {
        let (t1, a) = next(t, evs[0]);
        let acts = run(t, evs).1;
        if a == Action::Commit {
            assert(acts[0] == Action::Commit);
        } else if is_terminal(t1.phase) {
            lemma_terminal_is_final(t1, evs.drop_first());
        } else {
            lemma_success_goes_through_commit(t1, evs.drop_first());
            let i = choose|i: int|
                0 <= i < run(t1, evs.drop_first()).1.len() && run(t1, evs.drop_first()).1[i]
                    == Action::Commit;
            assert(acts[i + 1] == Action::Commit);
        }
    }
}

} // verus!
