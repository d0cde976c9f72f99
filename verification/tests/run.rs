use commit_bench::commit::{BaseCommit, CommitRecord, Identity};
use commit_bench::config::{Backend, Config, COMMIT_REF};
use commit_bench::failure::FailureKind;
use commit_bench::oid::ObjectId;
use commit_bench::run::{Action, Event, Run, Stage};

fn tree() -> ObjectId {
    ObjectId::from_bytes([0x4b; 20])
}

fn root_base() -> BaseCommit {
    BaseCommit::new(
        tree(),
        vec![],
        Identity::new(b"Ann".to_vec(), b"ann@example.com".to_vec(), 1600000000, 7200),
        Identity::new(b"Cy".to_vec(), b"cy@example.com".to_vec(), 1600000060, -3600),
    )
}

fn merge_base() -> BaseCommit {
    BaseCommit::new(
        tree(),
        vec![ObjectId::from_bytes([1; 20]), ObjectId::from_bytes([2; 20])],
        Identity::new(b"Ann".to_vec(), b"ann@example.com".to_vec(), 1600000000, 7200),
        Identity::new(b"Cy".to_vec(), b"cy@example.com".to_vec(), 1600000060, -3600),
    )
}

fn config(backend: Backend, count: usize) -> Config {
    Config::new(backend, String::from(COMMIT_REF), count)
}

fn record_of(action: Option<Action>) -> CommitRecord {
    match action {
        Some(Action::Write { record }) => record,
        other => panic!("no commit was handed out: {:?}", other),
    }
}

fn failure_kind(action: &Option<Action>) -> Option<FailureKind> {
    match action {
        Some(Action::Fail { failure }) => Some(failure.kind),
        _ => None,
    }
}

/// Runs to the end against a store that takes every write, with the clock
/// reading `start + k` at the commit with index `k`.
fn run_to_end(config: Config, base: BaseCommit, start: u128) -> (Run, Vec<CommitRecord>, Action) {
    let (run, first) = Run::start(config);
    assert!(matches!(first, Action::Open { .. }));
    let (run, action) = run.step_at(Event::Opened, None);
    assert!(matches!(action, Some(Action::Resolve { .. })));
    let mut records = Vec::new();
    let (mut run, mut action) = run.step_at(Event::Resolved { base }, Some(start));
    loop {
        match action {
            Some(Action::Write { record }) => {
                records.push(record);
                let clock = Some(start + records.len() as u128);
                let next = run.step_at(Event::Written, clock);
                run = next.0;
                action = next.1;
            }
            Some(last) => return (run, records, last),
            None => panic!("the run did not answer"),
        }
    }
}

#[test]
fn three_commits_on_a_root_commit() {
    let (run, first) = Run::start(config(Backend::Gix, 3));
    match first {
        Action::Open { backend } => assert_eq!(backend, Backend::Gix),
        other => panic!("unexpected first action: {:?}", other),
    }
    let (run, action) = run.step(Event::Opened);
    match action {
        Some(Action::Resolve { id }) => assert_eq!(
            id.bytes,
            [
                0x8d, 0x83, 0x13, 0x9a, 0xb7, 0xfd, 0x7b, 0xdb, 0x56, 0x94, 0x17, 0xdc, 0x17,
                0x49, 0x4f, 0x97, 0x30, 0xb1, 0xb6, 0xec
            ]
        ),
        other => panic!("unexpected action: {:?}", other),
    }
    let mut records = Vec::new();
    let (mut run, mut action) = run.step(Event::Resolved { base: root_base() });
    for _ in 0..3 {
        records.push(record_of(action));
        let next = run.step(Event::Written);
        run = next.0;
        action = next.1;
    }
    assert!(matches!(action, Some(Action::Finish)));
    assert_eq!(run.stage(), Stage::Finished);
    assert_eq!(run.issued(), 3);
    assert_eq!(run.written(), 3);
    assert_eq!(records.len(), 3);
    for (i, record) in records.iter().enumerate() {
        assert_eq!(record.tree.bytes, [0x4b; 20]);
        assert!(record.parents.is_empty());
        assert_eq!(record.author.name, b"Ann".to_vec());
        assert_eq!(record.committer.name, b"Cy".to_vec());
        let prefix = format!("gix-commit-test-{}-", i);
        let millis = record.message.strip_prefix(prefix.as_str()).unwrap();
        assert!(!millis.is_empty());
        assert!(millis.chars().all(|c| c.is_ascii_digit()));
    }
}

#[test]
fn every_commit_copies_tree_and_parents_for_both_backends() {
    for backend in [Backend::Gix, Backend::Git2] {
        let (run, records, last) = run_to_end(config(backend, 5), merge_base(), 1000);
        assert!(matches!(last, Action::Finish));
        assert_eq!(run.stage(), Stage::Finished);
        assert_eq!(records.len(), 5);
        for (i, record) in records.iter().enumerate() {
            assert_eq!(record.tree.bytes, [0x4b; 20]);
            assert_eq!(record.parents.len(), 2);
            assert_eq!(record.parents[0].bytes, [1; 20]);
            assert_eq!(record.parents[1].bytes, [2; 20]);
            assert_eq!(record.author.email, b"ann@example.com".to_vec());
            assert_eq!(record.author.seconds, 1600000000);
            assert_eq!(record.author.offset, 7200);
            assert_eq!(record.committer.email, b"cy@example.com".to_vec());
            assert_eq!(record.committer.seconds, 1600000060);
            assert_eq!(record.committer.offset, -3600);
            assert_eq!(record.message, format!("gix-commit-test-{}-{}", i, 1000 + i));
        }
    }
}

#[test]
fn backends_hand_out_the_same_commits() {
    let (_, with_gix, _) = run_to_end(config(Backend::Gix, 4), merge_base(), 77);
    let (_, with_git2, _) = run_to_end(config(Backend::Git2, 4), merge_base(), 77);
    assert_eq!(with_gix.len(), with_git2.len());
    for (a, b) in with_gix.iter().zip(with_git2.iter()) {
        assert!(a.tree.same(&b.tree));
        assert_eq!(a.parents.len(), b.parents.len());
        for (p, q) in a.parents.iter().zip(b.parents.iter()) {
            assert!(p.same(q));
        }
        assert_eq!(a.author.name, b.author.name);
        assert_eq!(a.author.email, b.author.email);
        assert_eq!(a.author.seconds, b.author.seconds);
        assert_eq!(a.author.offset, b.author.offset);
        assert_eq!(a.committer.name, b.committer.name);
        assert_eq!(a.committer.email, b.committer.email);
        assert_eq!(a.committer.seconds, b.committer.seconds);
        assert_eq!(a.committer.offset, b.committer.offset);
        assert_eq!(a.message, b.message);
    }
}

#[test]
fn messages_differ_even_when_the_clock_stands_still() {
    let (run, _) = Run::start(config(Backend::Gix, 30));
    let (run, _) = run.step_at(Event::Opened, None);
    let mut messages = Vec::new();
    let (mut run, mut action) = run.step_at(Event::Resolved { base: root_base() }, Some(5));
    while let Some(Action::Write { record }) = action {
        messages.push(record.message);
        let next = run.step_at(Event::Written, Some(5));
        run = next.0;
        action = next.1;
    }
    assert_eq!(run.stage(), Stage::Finished);
    assert_eq!(messages.len(), 30);
    for i in 0..messages.len() {
        for j in 0..i {
            assert_ne!(messages[i], messages[j]);
        }
    }
}

#[test]
fn built_in_count_is_written_in_full() {
    let (run, records, last) = run_to_end(Config::from_flag(true), root_base(), 0);
    assert!(matches!(last, Action::Finish));
    assert_eq!(last.exit_status(), Some(0));
    assert_eq!(records.len(), 10000);
    assert_eq!(run.written(), 10000);
    assert_eq!(records[9999].message, "gix-commit-test-9999-9999");
}

#[test]
fn no_repository_means_no_write() {
    for backend in [Backend::Gix, Backend::Git2] {
        let (run, _) = Run::start(config(backend, 3));
        let (run, action) = run.step(Event::OpenFailed { cause: String::from("not a repository") });
        match &action {
            Some(Action::Fail { failure }) => {
                assert_eq!(failure.kind, FailureKind::RepositoryOpen);
                assert_eq!(failure.cause, "not a repository");
                assert_eq!(failure.report(), "cannot open repository: not a repository");
            }
            other => panic!("unexpected action: {:?}", other),
        }
        assert_eq!(action.unwrap().exit_status(), Some(1));
        assert_eq!(run.stage(), Stage::Failed);
        assert_eq!(run.issued(), 0);
        assert_eq!(run.written(), 0);
        let (run, action) = run.step(Event::Written);
        assert!(action.is_none());
        assert_eq!(run.issued(), 0);
    }
}

#[test]
fn missing_base_means_no_write() {
    for backend in [Backend::Gix, Backend::Git2] {
        let (run, _) = Run::start(config(backend, 3));
        let (run, action) = run.step(Event::Opened);
        assert!(matches!(action, Some(Action::Resolve { .. })));
        assert_eq!(run.stage(), Stage::Resolving);
        let (run, action) = run.step(Event::ResolveFailed { cause: String::from("object not found") });
        match &action {
            Some(Action::Fail { failure }) => {
                assert_eq!(failure.kind, FailureKind::ObjectNotFound);
                assert_eq!(failure.cause, "object not found");
            }
            other => panic!("unexpected action: {:?}", other),
        }
        assert_eq!(action.unwrap().exit_status(), Some(1));
        assert_eq!(run.stage(), Stage::Failed);
        assert_eq!(run.issued(), 0);
        assert_eq!(run.written(), 0);
    }
}

#[test]
fn invalid_identifier_fails_after_the_repository_opens() {
    for backend in [Backend::Gix, Backend::Git2] {
        let (run, first) = Run::start(Config::new(backend, String::from("not-hex"), 3));
        assert!(matches!(first, Action::Open { .. }));
        let (run, action) = run.step(Event::Opened);
        match &action {
            Some(Action::Fail { failure }) => {
                assert_eq!(failure.kind, FailureKind::InvalidIdentifier);
                assert_eq!(failure.cause, "not-hex");
            }
            other => panic!("unexpected action: {:?}", other),
        }
        assert_eq!(run.stage(), Stage::Failed);
        assert_eq!(run.issued(), 0);
    }
}

#[test]
fn short_identifier_is_resolved_by_git2_only() {
    let (run, _) = Run::start(Config::new(Backend::Git2, String::from("8d83"), 1));
    let (run, action) = run.step(Event::Opened);
    match action {
        Some(Action::Resolve { id }) => {
            let mut expected = [0u8; 20];
            expected[0] = 0x8d;
            expected[1] = 0x83;
            assert_eq!(id.bytes, expected);
        }
        other => panic!("unexpected action: {:?}", other),
    }
    assert_eq!(run.stage(), Stage::Resolving);
    let (run, _) = Run::start(Config::new(Backend::Gix, String::from("8d83"), 1));
    let (run, action) = run.step(Event::Opened);
    assert_eq!(failure_kind(&action), Some(FailureKind::InvalidIdentifier));
    assert_eq!(run.stage(), Stage::Failed);
}

#[test]
fn refused_write_ends_the_run_and_keeps_what_was_written() {
    let (run, _) = Run::start(config(Backend::Git2, 5));
    let (run, _) = run.step_at(Event::Opened, None);
    let (run, action) = run.step_at(Event::Resolved { base: root_base() }, Some(1));
    assert_eq!(record_of(action).message, "gix-commit-test-0-1");
    let (run, action) = run.step_at(Event::Written, Some(2));
    assert_eq!(record_of(action).message, "gix-commit-test-1-2");
    let (run, action) = run.step_at(Event::Written, Some(3));
    assert_eq!(record_of(action).message, "gix-commit-test-2-3");
    assert_eq!(run.stage(), Stage::Writing);
    assert_eq!(run.issued(), 3);
    assert_eq!(run.written(), 2);
    let (run, action) = run.step_at(Event::WriteFailed { cause: String::from("disk full") }, Some(4));
    match &action {
        Some(Action::Fail { failure }) => {
            assert_eq!(failure.kind, FailureKind::Write);
            assert_eq!(failure.cause, "disk full");
        }
        other => panic!("unexpected action: {:?}", other),
    }
    assert_eq!(action.unwrap().exit_status(), Some(1));
    assert_eq!(run.stage(), Stage::Failed);
    assert_eq!(run.issued(), 3);
    assert_eq!(run.written(), 2);
    let (run, action) = run.step_at(Event::Written, Some(5));
    assert!(action.is_none());
    assert_eq!(run.written(), 2);
}

#[test]
fn unreadable_clock_ends_the_run() {
    let (run, _) = Run::start(config(Backend::Gix, 2));
    let (run, _) = run.step_at(Event::Opened, None);
    let (run, action) = run.step_at(Event::Resolved { base: root_base() }, None);
    match &action {
        Some(Action::Fail { failure }) => {
            assert_eq!(failure.kind, FailureKind::Clock);
            assert_eq!(failure.cause, "system time is before the epoch");
        }
        other => panic!("unexpected action: {:?}", other),
    }
    assert_eq!(run.stage(), Stage::Failed);
    assert_eq!(run.issued(), 0);

    let (run, _) = Run::start(config(Backend::Gix, 2));
    let (run, _) = run.step_at(Event::Opened, None);
    let (run, action) = run.step_at(Event::Resolved { base: root_base() }, Some(9));
    assert_eq!(record_of(action).message, "gix-commit-test-0-9");
    let (run, action) = run.step_at(Event::Written, None);
    assert_eq!(failure_kind(&action), Some(FailureKind::Clock));
    assert_eq!(run.stage(), Stage::Failed);
    assert_eq!(run.issued(), 1);
    assert_eq!(run.written(), 1);
}

#[test]
fn last_write_needs_no_clock() {
    let (run, _) = Run::start(config(Backend::Gix, 1));
    let (run, _) = run.step_at(Event::Opened, None);
    assert!(run.reads_clock(&Event::Resolved { base: root_base() }));
    assert!(!run.reads_clock(&Event::ResolveFailed { cause: String::new() }));
    let (run, action) = run.step_at(Event::Resolved { base: root_base() }, Some(3));
    assert_eq!(record_of(action).message, "gix-commit-test-0-3");
    assert!(!run.reads_clock(&Event::Written));
    let (run, action) = run.step_at(Event::Written, None);
    assert!(matches!(action, Some(Action::Finish)));
    assert_eq!(run.stage(), Stage::Finished);
    assert_eq!(run.written(), 1);
}

#[test]
fn nothing_to_write_finishes_at_once() {
    let (run, _) = Run::start(config(Backend::Git2, 0));
    assert_eq!(run.count(), 0);
    let (run, _) = run.step(Event::Opened);
    assert!(!run.reads_clock(&Event::Resolved { base: root_base() }));
    let (run, action) = run.step(Event::Resolved { base: root_base() });
    assert!(matches!(action, Some(Action::Finish)));
    assert_eq!(action.unwrap().exit_status(), Some(0));
    assert_eq!(run.stage(), Stage::Finished);
    assert_eq!(run.issued(), 0);
    assert_eq!(run.written(), 0);
}

#[test]
fn events_out_of_turn_change_nothing() {
    let (run, _) = Run::start(config(Backend::Gix, 2));
    let (run, action) = run.step(Event::Written);
    assert!(action.is_none());
    assert_eq!(run.stage(), Stage::Opening);
    let (run, action) = run.step(Event::Resolved { base: root_base() });
    assert!(action.is_none());
    assert_eq!(run.stage(), Stage::Opening);
    let (run, action) = run.step(Event::WriteFailed { cause: String::new() });
    assert!(action.is_none());
    let (run, _) = run.step(Event::Opened);
    let (run, action) = run.step(Event::Opened);
    assert!(action.is_none());
    assert_eq!(run.stage(), Stage::Resolving);
    let (run, action) = run.step(Event::OpenFailed { cause: String::new() });
    assert!(action.is_none());
    let (run, action) = run.step_at(Event::Resolved { base: root_base() }, Some(1));
    assert!(matches!(action, Some(Action::Write { .. })));
    let (run, action) = run.step(Event::Resolved { base: merge_base() });
    assert!(action.is_none());
    assert_eq!(run.stage(), Stage::Writing);
    assert_eq!(run.issued(), 1);
    let (run, action) = run.step_at(Event::Written, Some(2));
    let record = record_of(action);
    assert!(record.parents.is_empty());
    let (run, action) = run.step(Event::Written);
    assert!(matches!(action, Some(Action::Finish)));
    let (run, action) = run.step(Event::Written);
    assert!(action.is_none());
    assert_eq!(run.stage(), Stage::Finished);
    assert_eq!(run.written(), 2);
}

#[test]
fn exit_status_is_set_only_at_the_end() {
    assert_eq!(Action::Finish.exit_status(), Some(0));
    assert_eq!(Action::Open { backend: Backend::Gix }.exit_status(), None);
    assert_eq!(Action::Resolve { id: tree() }.exit_status(), None);
    let record = root_base().synthesize(String::from("m"));
    assert_eq!(Action::Write { record }.exit_status(), None);
}
