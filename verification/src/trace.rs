//! What holds of every run, whatever the repository and the clock answer.
//!
//! A run is followed here as a mathematical value: a fresh run is stepped
//! through a sequence of inputs, each an event together with the reading of
//! the clock at that step, and the commits that it hands out are collected.

use crate::commit::{synthesized, BaseView, RecordView};
use crate::config::ConfigView;
use crate::failure::{FailureKind, FailureView};
use crate::message::{lemma_messages_distinct, message_text};
use crate::oid::{accepts, invalid_identifier};
use crate::run::{
    spec_exit_status, spec_start, spec_step, ActionView, EventView, RunView, Stage, StepView,
};
use vstd::prelude::*;

verus! {

/// What one step is given: the event that the caller reports, and the reading
/// of the clock at that step (`None` where the clock cannot be read).
pub struct Input {
    pub event: EventView,
    pub clock: Option<nat>,
}

/// The step that `run` takes on `input`.
pub open spec fn step_on(run: RunView, input: Input) -> StepView {
    spec_step(run, input.event, input.clock)
}

/// The run that a fresh run with `config` has become after `inputs`.
pub open spec fn run_after(config: ConfigView, inputs: Seq<Input>) -> RunView
    decreases inputs.len(),
{
    if inputs.len() == 0 {
        spec_start(config).run
    } else {
        step_on(run_after(config, inputs.drop_last()), inputs.last()).run
    }
}

/// The commits that a fresh run with `config` has handed out to be written
/// in the course of `inputs`, in order.
pub open spec fn writes_of(config: ConfigView, inputs: Seq<Input>) -> Seq<RecordView>
    decreases inputs.len(),
{
    if inputs.len() == 0 {
        Seq::empty()
    } else {
        let before = writes_of(config, inputs.drop_last());
        match step_on(run_after(config, inputs.drop_last()), inputs.last()).action {
            Some(ActionView::Write { record }) => before.push(record),
            _ => before,
        }
    }
}

/// Whether `record` is the commit with index `k` of a run modelled on `base`:
/// a copy of `base` whose message is the one for `k` at some time.
pub open spec fn is_commit_of(record: RecordView, base: BaseView, k: nat) -> bool {
    exists|millis: nat| record == synthesized(base, #[trigger] message_text(k, millis))
}

/// What holds between a run and the commits it has handed out.
pub open spec fn consistent(config: ConfigView, run: RunView, writes: Seq<RecordView>) -> bool {
    &&& run.config == config
    &&& writes.len() == run.issued
    &&& run.written <= run.issued <= config.count
    &&& run.stage == Stage::Writing ==> run.issued == run.written + 1
    &&& run.stage == Stage::Finished ==> run.written == config.count
    &&& (run.stage == Stage::Opening || run.stage == Stage::Resolving) ==> run.base is None
    &&& (run.stage == Stage::Writing || run.stage == Stage::Finished || run.issued > 0)
        ==> run.base is Some
    &&& run.base is None ==> run.issued == 0
    &&& forall|k: int|
        0 <= k < writes.len() ==> is_commit_of(#[trigger] writes[k], run.base->0, k as nat)
}

/// Every run is consistent with the commits it has handed out: there are as
/// many of them as the run counts, never more than it was asked for, and the
/// one with index `k` is a copy of the base commit with the message for `k`.
pub proof fn lemma_run_consistent(config: ConfigView, inputs: Seq<Input>)
    ensures
        consistent(config, run_after(config, inputs), writes_of(config, inputs)),
    decreases inputs.len(),
{
    if inputs.len() > 0 {
        let earlier = inputs.drop_last();
        lemma_run_consistent(config, earlier);
        let run = run_after(config, earlier);
        let before = writes_of(config, earlier);
        let step = step_on(run, inputs.last());
        let writes = writes_of(config, inputs);
        assert forall|k: int| 0 <= k < writes.len() implies is_commit_of(
            #[trigger] writes[k],
            step.run.base->0,
            k as nat,
        ) by {
            if k < before.len() {
                assert(writes[k] == before[k]);
                assert(is_commit_of(before[k], run.base->0, k as nat));
                assert(step.run.base == run.base);
            } else {
                let millis = inputs.last().clock->0;
                assert(writes[k] == synthesized(step.run.base->0, message_text(k as nat, millis)));
            }
        }
    }
}

/// A run that has finished has handed out exactly as many commits as it was
/// asked for, and the store has taken every one of them.
pub proof fn lemma_finished_run_wrote_all(config: ConfigView, inputs: Seq<Input>)
    requires
        run_after(config, inputs).stage == Stage::Finished,
    ensures
        writes_of(config, inputs).len() == config.count,
        run_after(config, inputs).written == config.count,
{
    lemma_run_consistent(config, inputs);
}

/// Every commit that a run hands out has the tree, the parents, the author
/// and the committer of the base commit, whichever backend does the work.
pub proof fn lemma_writes_copy_base(config: ConfigView, inputs: Seq<Input>, k: int)
    requires
        0 <= k < writes_of(config, inputs).len(),
    ensures
        run_after(config, inputs).base is Some,
        writes_of(config, inputs)[k].tree == run_after(config, inputs).base->0.tree,
        writes_of(config, inputs)[k].parents == run_after(config, inputs).base->0.parents,
        writes_of(config, inputs)[k].author == run_after(config, inputs).base->0.author,
        writes_of(config, inputs)[k].committer == run_after(config, inputs).base->0.committer,
{
    lemma_run_consistent(config, inputs);
    let base = run_after(config, inputs).base->0;
    assert(is_commit_of(writes_of(config, inputs)[k], base, k as nat));
}

/// No two commits that a run hands out are the same: their messages differ,
/// whatever the clock read.
pub proof fn lemma_writes_distinct(config: ConfigView, inputs: Seq<Input>, j: int, k: int)
    requires
        0 <= j < writes_of(config, inputs).len(),
        0 <= k < writes_of(config, inputs).len(),
        j != k,
    ensures
        writes_of(config, inputs)[j].message != writes_of(config, inputs)[k].message,
        writes_of(config, inputs)[j] != writes_of(config, inputs)[k],
{
    lemma_run_consistent(config, inputs);
    let writes = writes_of(config, inputs);
    let base = run_after(config, inputs).base->0;
    assert(is_commit_of(writes[j], base, j as nat));
    assert(is_commit_of(writes[k], base, k as nat));
    let mj = choose|millis: nat| writes[j] == synthesized(base, #[trigger] message_text(j as nat, millis));
    let mk = choose|millis: nat| writes[k] == synthesized(base, #[trigger] message_text(k as nat, millis));
    lemma_messages_distinct(j as nat, mj, k as nat, mk);
}

/// A run that is over, finished or failed, stays as it is and hands out
/// nothing more: a failure part of the way leaves what was written before it
/// and gives up the rest.
pub proof fn lemma_over_is_final(config: ConfigView, inputs: Seq<Input>, n: int)
    requires
        0 <= n <= inputs.len(),
        run_after(config, inputs.take(n)).stage == Stage::Failed || run_after(
            config,
            inputs.take(n),
        ).stage == Stage::Finished,
    ensures
        run_after(config, inputs) == run_after(config, inputs.take(n)),
        writes_of(config, inputs) == writes_of(config, inputs.take(n)),
    decreases inputs.len(),
{
    if n == inputs.len() {
        assert(inputs.take(n) =~= inputs);
    } else {
        let earlier = inputs.drop_last();
        assert(earlier.take(n) =~= inputs.take(n));
        lemma_over_is_final(config, earlier, n);
    }
}

/// Where no repository can be opened, the run fails with a non-zero exit
/// status and hands out no commit at all.
pub proof fn lemma_no_write_without_repository(config: ConfigView, inputs: Seq<Input>)
    requires
        inputs.len() > 0,
        inputs[0].event is OpenFailed,
    ensures
        run_after(config, inputs).stage == Stage::Failed,
        writes_of(config, inputs) == Seq::<RecordView>::empty(),
        step_on(spec_start(config).run, inputs[0]).action == Some(
            ActionView::Fail {
                failure: FailureView {
                    kind: FailureKind::RepositoryOpen,
                    cause: inputs[0].event->OpenFailed_cause,
                },
            },
        ),
        spec_exit_status(step_on(spec_start(config).run, inputs[0]).action->0) == Some(1u8),
{
    let first = inputs.take(1);
    assert(first.drop_last() =~= Seq::<Input>::empty());
    assert(first.last() == inputs[0]);
    assert(run_after(config, first.drop_last()) == spec_start(config).run);
    assert(writes_of(config, first.drop_last()) == Seq::<RecordView>::empty());
    lemma_over_is_final(config, inputs, 1);
}

/// Where the text of the base identifier is not one that the backend takes,
/// the run fails once the repository is open, with a non-zero exit status,
/// and hands out no commit at all.
pub proof fn lemma_no_write_without_identifier(config: ConfigView, inputs: Seq<Input>)
    requires
        inputs.len() > 0,
        inputs[0].event is Opened,
        !accepts(config.backend, config.base),
    ensures
        run_after(config, inputs).stage == Stage::Failed,
        writes_of(config, inputs) == Seq::<RecordView>::empty(),
        step_on(spec_start(config).run, inputs[0]).action == Some(
            ActionView::Fail { failure: invalid_identifier(config.base) },
        ),
        spec_exit_status(step_on(spec_start(config).run, inputs[0]).action->0) == Some(1u8),
{
    let first = inputs.take(1);
    assert(first.drop_last() =~= Seq::<Input>::empty());
    assert(first.last() == inputs[0]);
    assert(run_after(config, first.drop_last()) == spec_start(config).run);
    assert(writes_of(config, first.drop_last()) == Seq::<RecordView>::empty());
    lemma_over_is_final(config, inputs, 1);
}

/// Where the base identifier names no commit in the store, the run fails
/// with a non-zero exit status and hands out no commit at all.
pub proof fn lemma_no_write_without_base(config: ConfigView, inputs: Seq<Input>)
    requires
        inputs.len() > 1,
        inputs[0].event is Opened,
        inputs[1].event is ResolveFailed,
    ensures
        run_after(config, inputs).stage == Stage::Failed,
        writes_of(config, inputs) == Seq::<RecordView>::empty(),
        accepts(config.backend, config.base) ==> {
            &&& step_on(run_after(config, inputs.take(1)), inputs[1]).action == Some(
                ActionView::Fail {
                    failure: FailureView {
                        kind: FailureKind::ObjectNotFound,
                        cause: inputs[1].event->ResolveFailed_cause,
                    },
                },
            )
            &&& spec_exit_status(step_on(run_after(config, inputs.take(1)), inputs[1]).action->0)
                == Some(1u8)
        },
{
    if accepts(config.backend, config.base) {
        let first = inputs.take(1);
        assert(first.drop_last() =~= Seq::<Input>::empty());
        assert(first.last() == inputs[0]);
        assert(run_after(config, first.drop_last()) == spec_start(config).run);
        assert(writes_of(config, first.drop_last()) == Seq::<RecordView>::empty());
        assert(run_after(config, first).stage == Stage::Resolving);
        assert(writes_of(config, first) == Seq::<RecordView>::empty());
        let second = inputs.take(2);
        assert(second.drop_last() =~= first);
        assert(second.last() == inputs[1]);
        assert(run_after(config, second).stage == Stage::Failed);
        assert(writes_of(config, second) == Seq::<RecordView>::empty());
        lemma_over_is_final(config, inputs, 2);
    } else {
        lemma_no_write_without_identifier(config, inputs);
    }
}

/// Whether two runs are given the same work, by whichever backend: the same
/// base identifier, taken by both backends or by neither, and the same number
/// of commits.
pub open spec fn same_work(a: ConfigView, b: ConfigView) -> bool {
    &&& a.base == b.base
    &&& a.count == b.count
    &&& accepts(a.backend, a.base) == accepts(b.backend, b.base)
}

/// The backend makes no difference to what is written: two runs that are
/// given the same work, and to which the repository and the clock answer the
/// same way, stand at the same stage, have the same base commit and hand out
/// the same commits.
pub proof fn lemma_backend_independent(a: ConfigView, b: ConfigView, inputs: Seq<Input>)
    requires
        same_work(a, b),
    ensures
        run_after(a, inputs).stage == run_after(b, inputs).stage,
        run_after(a, inputs).base == run_after(b, inputs).base,
        run_after(a, inputs).issued == run_after(b, inputs).issued,
        run_after(a, inputs).written == run_after(b, inputs).written,
        run_after(a, inputs).config == a,
        run_after(b, inputs).config == b,
        writes_of(a, inputs) == writes_of(b, inputs),
    decreases inputs.len(),
{
    if inputs.len() > 0 {
        lemma_backend_independent(a, b, inputs.drop_last());
    }
}

/// Whether `inputs` is the course of a run on which nothing goes wrong: the
/// repository opens, the base commit is found to be `base`, every write is
/// taken, and the clock can always be read.
pub open spec fn is_success(inputs: Seq<Input>, base: BaseView) -> bool {
    &&& inputs.len() >= 2
    &&& inputs[0].event is Opened
    &&& inputs[1].event == (EventView::Resolved { base })
    &&& forall|k: int| 2 <= k < inputs.len() ==> (#[trigger] inputs[k]).event is Written
    &&& forall|k: int| 0 <= k < inputs.len() ==> (#[trigger] inputs[k]).clock is Some
}

/// While nothing goes wrong, a run keeps writing: after the repository has
/// opened, the base commit has been found and `n - 2` writes have been
/// taken, that many commits are written and the next one is out, until all
/// are written and the run has finished.
pub proof fn lemma_success_progress(config: ConfigView, inputs: Seq<Input>, base: BaseView, n: int)
    requires
        accepts(config.backend, config.base),
        is_success(inputs, base),
        2 <= n <= inputs.len(),
        n <= config.count + 2,
    ensures
        run_after(config, inputs.take(n)).written == n - 2,
        run_after(config, inputs.take(n)).base == Some(base),
        run_after(config, inputs.take(n)).config == config,
        n < config.count + 2 ==> {
            &&& run_after(config, inputs.take(n)).stage == Stage::Writing
            &&& run_after(config, inputs.take(n)).issued == n - 1
        },
        n == config.count + 2 ==> {
            &&& run_after(config, inputs.take(n)).stage == Stage::Finished
            &&& run_after(config, inputs.take(n)).issued == config.count
        },
    decreases n,
{
    let upto = inputs.take(n);
    assert(upto.last() == inputs[n - 1]);
    if n == 2 {
        let first = inputs.take(1);
        assert(upto.drop_last() =~= first);
        assert(first.drop_last() =~= Seq::<Input>::empty());
        assert(first.last() == inputs[0]);
        assert(run_after(config, first.drop_last()) == spec_start(config).run);
        assert(run_after(config, first).stage == Stage::Resolving);
    } else {
        assert(upto.drop_last() =~= inputs.take(n - 1));
        lemma_success_progress(config, inputs, base, n - 1);
    }
}

/// A run on which nothing goes wrong finishes once every write has been
/// taken, with a zero exit status, having handed out exactly as many commits
/// as it was asked for.
pub proof fn lemma_success_finishes(config: ConfigView, inputs: Seq<Input>, base: BaseView)
    requires
        accepts(config.backend, config.base),
        is_success(inputs, base),
        inputs.len() == config.count + 2,
    ensures
        run_after(config, inputs).stage == Stage::Finished,
        run_after(config, inputs).written == config.count,
        writes_of(config, inputs).len() == config.count,
        step_on(run_after(config, inputs.drop_last()), inputs.last()).action == Some(
            ActionView::Finish,
        ),
        spec_exit_status(ActionView::Finish) == Some(0u8),
{
    let n = inputs.len() as int;
    assert(inputs.take(n) =~= inputs);
    lemma_success_progress(config, inputs, base, n);
    lemma_run_consistent(config, inputs);
    if n == 2 {
        let first = inputs.take(1);
        assert(inputs.drop_last() =~= first);
        assert(first.drop_last() =~= Seq::<Input>::empty());
        assert(first.last() == inputs[0]);
        assert(run_after(config, first.drop_last()) == spec_start(config).run);
    } else {
        assert(inputs.drop_last() =~= inputs.take(n - 1));
        lemma_success_progress(config, inputs, base, n - 1);
    }
}

} // verus!
