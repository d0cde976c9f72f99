//! A run, step by step. The library decides and the caller acts: the run hands
//! out an action, the caller performs it on the repository and reports what
//! happened as an event, and the run answers with the next action. The only
//! thing that a run reads for itself is the clock, for the commit messages.

use crate::commit::{synthesized, BaseCommit, BaseView, CommitRecord, RecordView};
use crate::config::{Backend, Config, ConfigView};
use crate::failure::{Failure, FailureKind, FailureView};
use crate::message::{clock_failure, clock_failure_view, format_message, message_text, now_millis};
use crate::oid::{accepts, hex_bytes, invalid_identifier, ObjectId};
use vstd::prelude::*;

verus! {

/// Where a run stands.
#[derive(Clone, Copy, Debug, PartialEq, Eq, Structural)]
pub enum Stage {
    /// The repository is being opened.
    Opening,
    /// The base commit is being looked up.
    Resolving,
    /// A commit has been handed out to be written.
    Writing,
    /// Every commit has been written.
    Finished,
    /// A step failed; nothing more is done.
    Failed,
}

/// What the caller reports back.
#[derive(Debug)]
pub enum Event {
    /// The repository is open.
    Opened,
    /// No repository could be opened.
    OpenFailed { cause: String },
    /// The base commit was found.
    Resolved { base: BaseCommit },
    /// The base identifier names no commit in the store.
    ResolveFailed { cause: String },
    /// The store has taken the commit.
    Written,
    /// The store refused the commit.
    WriteFailed { cause: String },
}

/// An event as a mathematical value.
pub enum EventView {
    Opened,
    OpenFailed { cause: Seq<char> },
    Resolved { base: BaseView },
    ResolveFailed { cause: Seq<char> },
    Written,
    WriteFailed { cause: Seq<char> },
}

impl View for Event {
    type V = EventView;

    open spec fn view(&self) -> EventView {
        match *self {
            Event::Opened => EventView::Opened,
            Event::OpenFailed { cause } => EventView::OpenFailed { cause: cause@ },
            Event::Resolved { base } => EventView::Resolved { base: base@ },
            Event::ResolveFailed { cause } => EventView::ResolveFailed { cause: cause@ },
            Event::Written => EventView::Written,
            Event::WriteFailed { cause } => EventView::WriteFailed { cause: cause@ },
        }
    }
}

/// What the caller is to do next.
#[derive(Debug)]
pub enum Action {
    /// Open the repository with this backend.
    Open { backend: Backend },
    /// Look up the commit with this identifier.
    Resolve { id: ObjectId },
    /// Write this commit to the object store.
    Write { record: CommitRecord },
    /// Stop: the run succeeded.
    Finish,
    /// Stop: the run failed.
    Fail { failure: Failure },
}

/// An action as a mathematical value.
pub enum ActionView {
    Open { backend: Backend },
    Resolve { id: Seq<u8> },
    Write { record: RecordView },
    Finish,
    Fail { failure: FailureView },
}

impl View for Action {
    type V = ActionView;

    open spec fn view(&self) -> ActionView {
        match *self {
            Action::Open { backend } => ActionView::Open { backend },
            Action::Resolve { id } => ActionView::Resolve { id: id@ },
            Action::Write { record } => ActionView::Write { record: record@ },
            Action::Finish => ActionView::Finish,
            Action::Fail { failure } => ActionView::Fail { failure: failure@ },
        }
    }
}

/// The view of an action that may be absent.
pub open spec fn action_view(action: Option<Action>) -> Option<ActionView> {
    match action {
        Some(a) => Some(a@),
        None => None,
    }
}

/// A reading of the clock as a mathematical value.
pub open spec fn clock_view(clock: Option<u128>) -> Option<nat> {
    match clock {
        Some(millis) => Some(millis as nat),
        None => None,
    }
}

/// A run as a mathematical value.
pub struct RunView {
    pub config: ConfigView,
    pub stage: Stage,
    /// The base commit, once it has been found.
    pub base: Option<BaseView>,
    /// The number of commits handed out to be written.
    pub issued: nat,
    /// The number of commits that the store has taken.
    pub written: nat,
}

/// A run after a step, and the action that the step answers with; no action
/// where the event was not one that the run was waiting for.
pub struct StepView {
    pub run: RunView,
    pub action: Option<ActionView>,
}

/// A fresh run, and its first action: to open the repository.
pub open spec fn spec_start(config: ConfigView) -> StepView {
    StepView {
        run: RunView { config, stage: Stage::Opening, base: None, issued: 0, written: 0 },
        action: Some(ActionView::Open { backend: config.backend }),
    }
}

/// A run that ends in failure.
pub open spec fn spec_fail(run: RunView, failure: FailureView) -> StepView {
    StepView {
        run: RunView { stage: Stage::Failed, ..run },
        action: Some(ActionView::Fail { failure }),
    }
}

/// What a run does once its base commit is known and every commit handed out
/// so far has been written: it finishes where all commits are out, and else
/// hands out the next one, whose message holds its index and the reading of
/// the clock. Where the clock cannot be read, the run fails.
pub open spec fn spec_proceed(run: RunView, clock: Option<nat>) -> StepView {
    if run.issued >= run.config.count {
        StepView { run: RunView { stage: Stage::Finished, ..run }, action: Some(ActionView::Finish) }
    } else {
        match clock {
            Some(millis) => StepView {
                run: RunView { stage: Stage::Writing, issued: run.issued + 1, ..run },
                action: Some(
                    ActionView::Write {
                        record: synthesized(run.base->0, message_text(run.issued, millis)),
                    },
                ),
            },
            None => spec_fail(run, clock_failure_view()),
        }
    }
}

/// A run that knows its base commit and has nothing out to be written:
/// `issued` commits were handed out, and the store has taken them all.
pub open spec fn ready(config: ConfigView, base: BaseView, issued: nat) -> RunView {
    RunView { config, stage: Stage::Writing, base: Some(base), issued, written: issued }
}

/// Whether `event` answers the action that a run in `stage` handed out last.
pub open spec fn expects(stage: Stage, event: EventView) -> bool {
    match stage {
        Stage::Opening => event is Opened || event is OpenFailed,
        Stage::Resolving => event is Resolved || event is ResolveFailed,
        Stage::Writing => event is Written || event is WriteFailed,
        Stage::Finished => false,
        Stage::Failed => false,
    }
}

/// Whether the step for `event` reads the clock: it does where a commit is to
/// be handed out.
pub open spec fn reads_clock(run: RunView, event: EventView) -> bool {
    match run.stage {
        Stage::Resolving => event is Resolved && run.issued < run.config.count,
        Stage::Writing => event is Written && run.issued < run.config.count,
        _ => false,
    }
}

/// One step of a run: the run after `event`, and the action it answers with.
/// `clock` is the reading of the clock at this step; it matters only where
/// the step reads the clock.
pub open spec fn spec_step(run: RunView, event: EventView, clock: Option<nat>) -> StepView {
    match run.stage {
        Stage::Opening => match event {
            EventView::Opened => if accepts(run.config.backend, run.config.base) {
                StepView {
                    run: RunView { stage: Stage::Resolving, ..run },
                    action: Some(ActionView::Resolve { id: hex_bytes(run.config.base) }),
                }
            } else {
                spec_fail(run, invalid_identifier(run.config.base))
            },
            EventView::OpenFailed { cause } => spec_fail(
                run,
                FailureView { kind: FailureKind::RepositoryOpen, cause },
            ),
            _ => StepView { run, action: None },
        },
        Stage::Resolving => match event {
            EventView::Resolved { base } => spec_proceed(
                RunView { base: Some(base), ..run },
                clock,
            ),
            EventView::ResolveFailed { cause } => spec_fail(
                run,
                FailureView { kind: FailureKind::ObjectNotFound, cause },
            ),
            _ => StepView { run, action: None },
        },
        Stage::Writing => match event {
            EventView::Written => spec_proceed(
                RunView { written: run.written + 1, ..run },
                clock,
            ),
            EventView::WriteFailed { cause } => spec_fail(
                run,
                FailureView { kind: FailureKind::Write, cause },
            ),
            _ => StepView { run, action: None },
        },
        Stage::Finished => StepView { run, action: None },
        Stage::Failed => StepView { run, action: None },
    }
}

/// The exit status that an action stands for: zero for a run that succeeded,
/// one for a run that failed, none while the run goes on.
pub open spec fn spec_exit_status(action: ActionView) -> Option<u8> {
    match action {
        ActionView::Finish => Some(0u8),
        ActionView::Fail { .. } => Some(1u8),
        _ => None,
    }
}

impl Action {
    /// The exit status that this action stands for.
    pub fn exit_status(&self) -> (status: Option<u8>)
        ensures
            status == spec_exit_status(self@),
    {
        match self {
            Action::Finish => Some(0),
            Action::Fail { .. } => Some(1),
            _ => None,
        }
    }
}

/// A run in progress.
#[derive(Debug)]
pub struct Run {
    config: Config,
    stage: Stage,
    base: Option<BaseCommit>,
    issued: usize,
    written: usize,
}

impl View for Run {
    type V = RunView;

    closed spec fn view(&self) -> RunView {
        RunView {
            config: self.config@,
            stage: self.stage,
            base: match self.base {
                Some(b) => Some(b@),
                None => None,
            },
            issued: self.issued as nat,
            written: self.written as nat,
        }
    }
}

impl Run {
    #[verifier::type_invariant]
    spec fn well_formed(&self) -> bool {
        &&& self.written <= self.issued <= self.config.count
        &&& self.stage == Stage::Writing ==> self.base is Some && self.issued == self.written + 1
        &&& (self.stage == Stage::Opening || self.stage == Stage::Resolving) ==> self.issued == 0
    }

    /// A fresh run, and its first action.
    pub fn start(config: Config) -> (r: (Run, Action))
        ensures
            r.0@ == spec_start(config@).run,
            Some(r.1@) == spec_start(config@).action,
    {
        let backend = config.backend;
        (
            Run { config, stage: Stage::Opening, base: None, issued: 0, written: 0 },
            Action::Open { backend },
        )
    }

    /// Where the run stands.
    pub fn stage(&self) -> (stage: Stage)
        ensures
            stage == self@.stage,
    {
        self.stage
    }

    /// The number of commits to write.
    pub fn count(&self) -> (count: usize)
        ensures
            count == self@.config.count,
    {
        self.config.count
    }

    /// The number of commits handed out to be written so far.
    pub fn issued(&self) -> (issued: usize)
        ensures
            issued == self@.issued,
    {
        self.issued
    }

    /// The number of commits that the store has taken so far.
    pub fn written(&self) -> (written: usize)
        ensures
            written == self@.written,
    {
        self.written
    }

    /// Whether the step for `event` would read the clock.
    pub fn reads_clock(&self, event: &Event) -> (b: bool)
        ensures
            b == reads_clock(self@, event@),
    {
        match self.stage {
            Stage::Resolving => match event {
                Event::Resolved { .. } => self.issued < self.config.count,
                _ => false,
            },
            Stage::Writing => match event {
                Event::Written => self.issued < self.config.count,
                _ => false,
            },
            _ => false,
        }
    }

    /// The step of a run that fails.
    fn fail(self, failure: Failure) -> (r: (Run, Option<Action>))
        ensures
            r.0@ == spec_fail(self@, failure@).run,
            action_view(r.1) == spec_fail(self@, failure@).action,
    {
        proof {
            use_type_invariant(&self);
        }
        (
            Run {
                config: self.config,
                stage: Stage::Failed,
                base: self.base,
                issued: self.issued,
                written: self.written,
            },
            Some(Action::Fail { failure }),
        )
    }

    /// The step of a run that knows its base commit and has nothing out to
    /// be written.
    fn proceed(
        config: Config,
        base: BaseCommit,
        issued: usize,
        written: usize,
        clock: Option<u128>,
    ) -> (r: (Run, Option<Action>))
        requires
            written == issued,
            issued <= config.count,
        ensures
            r.0@ == spec_proceed(ready(config@, base@, issued as nat), clock_view(clock)).run,
            action_view(r.1) == spec_proceed(
                ready(config@, base@, issued as nat),
                clock_view(clock),
            ).action,
    {
        if issued >= config.count {
            (Run { config, stage: Stage::Finished, base: Some(base), issued, written }, Some(Action::Finish))
        } else {
            match clock {
                Some(millis) => {
                    let record = base.synthesize(format_message(issued, millis));
                    (
                        Run { config, stage: Stage::Writing, base: Some(base), issued: issued + 1, written },
                        Some(Action::Write { record }),
                    )
                },
                None => (
                    Run { config, stage: Stage::Failed, base: Some(base), issued, written },
                    Some(Action::Fail { failure: clock_failure() }),
                ),
            }
        }
    }

    /// One step of the run, with the reading of the clock given: the run
    /// after `event`, and the action that answers it. An event that the run
    /// was not waiting for changes nothing and is answered with no action.
    pub fn step_at(self, event: Event, clock: Option<u128>) -> (r: (Run, Option<Action>))
        ensures
            r.0@ == spec_step(self@, event@, clock_view(clock)).run,
            action_view(r.1) == spec_step(self@, event@, clock_view(clock)).action,
    {
        proof {
            use_type_invariant(&self);
        }
        match self.stage {
            Stage::Opening => match event {
                Event::Opened => match ObjectId::parse(self.config.backend, self.config.base.as_str()) {
                    Ok(id) => (
                        Run {
                            config: self.config,
                            stage: Stage::Resolving,
                            base: self.base,
                            issued: self.issued,
                            written: self.written,
                        },
                        Some(Action::Resolve { id }),
                    ),
                    Err(failure) => self.fail(failure),
                },
                Event::OpenFailed { cause } => self.fail(
                    Failure::new(FailureKind::RepositoryOpen, cause),
                ),
                _ => (self, None),
            },
            Stage::Resolving => match event {
                Event::Resolved { base } => Run::proceed(
                    self.config,
                    base,
                    self.issued,
                    self.written,
                    clock,
                ),
                Event::ResolveFailed { cause } => self.fail(
                    Failure::new(FailureKind::ObjectNotFound, cause),
                ),
                _ => (self, None),
            },
            Stage::Writing => match event {
                Event::Written => match self.base {
                    Some(base) => Run::proceed(
                        self.config,
                        base,
                        self.issued,
                        self.written + 1,
                        clock,
                    ),
                    None => (self, None),
                },
                Event::WriteFailed { cause } => self.fail(Failure::new(FailureKind::Write, cause)),
                _ => (self, None),
            },
            Stage::Finished => (self, None),
            Stage::Failed => (self, None),
        }
    }

    /// One step of the run: the run after `event`, and the action that
    /// answers it. The clock is read where the step hands out a commit, and
    /// only there; the step is the one that `step_at` takes for that reading.
    pub fn step(self, event: Event) -> (r: (Run, Option<Action>))
        ensures
            exists|clock: Option<nat>|
                {
                    &&& r.0@ == (#[trigger] spec_step(self@, event@, clock)).run
                    &&& action_view(r.1) == spec_step(self@, event@, clock).action
                },
            !reads_clock(self@, event@) ==> {
                &&& r.0@ == spec_step(self@, event@, None).run
                &&& action_view(r.1) == spec_step(self@, event@, None).action
            },
    {
        let clock = if self.reads_clock(&event) {
            now_millis()
        } else {
            None
        };
        let ghost before = self@;
        let ghost happened = event@;
        let r = self.step_at(event, clock);
        assert(r.0@ == spec_step(before, happened, clock_view(clock)).run);
        r
    }
}

} // verus!
