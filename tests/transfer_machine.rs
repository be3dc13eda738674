use ssec_cli::transfer::{check_input, Action, Event, Failure, InputCheck, KeyOutcome, Phase, Transfer};

fn drive(events: &[Event]) -> (Transfer, Vec<Action>) {
    let mut t = Transfer::new();
    let actions = events.iter().map(|&e| t.step(e)).collect();
    (t, actions)
}

const ACCEPTED: Event = Event::Derived { key: KeyOutcome::Accepted, output_ready: true };

#[test]
fn successful_transfer() {
    let (t, a) = drive(&[Event::Prepared, ACCEPTED, Event::Chunk(100), Event::Chunk(28), Event::EndOfStream, Event::Committed]);
    assert_eq!(a, vec![Action::Derive, Action::Pull, Action::Pull, Action::Pull, Action::Commit, Action::Finish]);
    assert_eq!(t.phase, Phase::Succeeded);
    assert_eq!(t.written, 128);
    assert_eq!(t.outcome(), Some(Ok(())));
}

#[test]
fn wrong_password_abandons_and_never_commits() {
    let bad = Event::Derived { key: KeyOutcome::BadPassword, output_ready: true };
    let (t, a) = drive(&[Event::Prepared, bad, Event::Chunk(5), Event::EndOfStream, Event::Committed]);
    assert_eq!(a, vec![Action::Derive, Action::Abandon, Action::Finish, Action::Finish, Action::Finish]);
    assert_eq!(t.outcome(), Some(Err(Failure::BadPassword)));
}

#[test]
fn wrong_password_wins_over_missing_output() {
    let bad = Event::Derived { key: KeyOutcome::BadPassword, output_ready: false };
    let (t, _) = drive(&[Event::Prepared, bad]);
    assert_eq!(t.phase, Phase::Failed(Failure::BadPassword));
}

#[test]
fn interrupted_stream_abandons_output() {
    let (t, a) = drive(&[Event::Prepared, ACCEPTED, Event::Chunk(10), Event::ChunkFailed, Event::EndOfStream]);
    assert_eq!(a, vec![Action::Derive, Action::Pull, Action::Pull, Action::Abandon, Action::Finish]);
    assert_eq!(t.outcome(), Some(Err(Failure::Transfer)));
    assert!(!a.contains(&Action::Commit));
}

#[test]
fn engine_and_output_failures() {
    let (t, _) = drive(&[Event::Prepared, Event::Derived { key: KeyOutcome::Failed, output_ready: true }]);
    assert_eq!(t.outcome(), Some(Err(Failure::Transfer)));
    let (t, a) = drive(&[Event::Prepared, Event::Derived { key: KeyOutcome::Accepted, output_ready: false }]);
    assert_eq!(t.outcome(), Some(Err(Failure::Io)));
    assert_eq!(a[1], Action::Abandon);
}

#[test]
fn password_and_source_failures() {
    assert_eq!(drive(&[Event::PasswordFailed]).0.outcome(), Some(Err(Failure::Io)));
    assert_eq!(drive(&[Event::SourceFailed { remote: false }]).0.outcome(), Some(Err(Failure::Io)));
    assert_eq!(drive(&[Event::SourceFailed { remote: true }]).0.outcome(), Some(Err(Failure::Network)));
}

#[test]
fn commit_failure_is_a_persist_error() {
    let (t, _) = drive(&[Event::Prepared, ACCEPTED, Event::EndOfStream, Event::CommitFailed]);
    assert_eq!(t.outcome(), Some(Err(Failure::Persist)));
}

#[test]
fn events_out_of_place_are_ignored() {
    let (t, a) = drive(&[Event::Chunk(3), Event::Prepared, Event::EndOfStream, Event::Prepared]);
    assert_eq!(a, vec![Action::Ignore, Action::Derive, Action::Ignore, Action::Ignore]);
    assert_eq!(t.phase, Phase::DerivingKey);
    assert_eq!(t.outcome(), None);
}

#[test]
fn written_count_saturates() {
    let (t, _) = drive(&[Event::Prepared, ACCEPTED, Event::Chunk(u64::MAX), Event::Chunk(1)]);
    assert_eq!(t.written, u64::MAX);
}

#[test]
fn empty_input_is_success_without_output() {
    assert_eq!(check_input(true, 0), InputCheck::Empty);
}

#[test]
fn input_checks() {
    assert_eq!(check_input(false, 0), InputCheck::NotAFile);
    assert_eq!(check_input(false, 12), InputCheck::NotAFile);
    assert_eq!(check_input(true, 100000), InputCheck::Proceed(100000));
}
