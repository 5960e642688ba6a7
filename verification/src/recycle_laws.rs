//! Laws of the Recycle Bin engine: what holds of every batch, whatever the
//! platform replies.

use crate::hresult::{succeeded, FILE_NOT_FOUND, S_FALSE, S_OK};
use crate::recycle_bin::{
    batch_wf, failed, ignores_not_found, in_phase, initial, lemma_advance_keeps_wf, spec_advance,
    spec_run, spec_step, BatchModel, PhaseModel, RecycleOptions, ReplyModel,
};
use crate::recycle_error::ErrorModel;
use crate::recycle_model::{
    lemma_call_keeps_outcome, spec_answer, spec_driven, spec_in_step, spec_outcome_from,
    spec_path_outcome, spec_recycle, PathOutcome, PlatformModel,
};
use vstd::prelude::*;

verus! {

/// Whatever the replies, a batch stays well formed, keeps its paths and
/// options, and asks to execute only once every path is dealt with and at
/// least one of them is queued.
pub proof fn lemma_run_keeps_wf(batch: BatchModel, replies: Seq<ReplyModel>)
    requires
        batch_wf(batch),
    ensures
        batch_wf(spec_run(batch, replies)),
        spec_run(batch, replies).paths == batch.paths,
        spec_run(batch, replies).options == batch.options,
        spec_run(batch, replies).with_sink == batch.with_sink,
        spec_step(spec_run(batch, replies)) is Execute ==> {
            &&& spec_run(batch, replies).cursor == batch.paths.len()
            &&& spec_run(batch, replies).queued.len() > 0
        },
    decreases replies.len(),
{
    if replies.len() > 0 {
        lemma_advance_keeps_wf(batch, replies[0]);
        lemma_run_keeps_wf(spec_advance(batch, replies[0]), replies.drop_first());
    }
}

/// A finished batch stays as it is, whatever is replied to it.
pub proof fn lemma_finished_is_final(batch: BatchModel, replies: Seq<ReplyModel>)
    requires
        batch.phase is Finished,
    ensures
        spec_run(batch, replies) == batch,
    decreases replies.len(),
{
    if replies.len() > 0 {
        lemma_finished_is_final(batch, replies.drop_first());
    }
}

/// Initializing the session is idempotent for the engine: whether the
/// platform reports that it initialized the session now (`S_OK`) or that the
/// session of this thread had been initialized before (`S_FALSE`), the batch
/// goes on in the same way, and so it does on every other success status.
pub proof fn lemma_session_initialized_before_is_no_error(batch: BatchModel, status: i32)
    requires
        batch.phase is OpeningSession,
        succeeded(status),
    ensures
        spec_advance(batch, ReplyModel::Status(S_FALSE)) == spec_advance(
            batch,
            ReplyModel::Status(S_OK),
        ),
        spec_advance(batch, ReplyModel::Status(status)) == in_phase(
            batch,
            PhaseModel::CreatingOperation,
        ),
{
}

/// The states of a batch that has no path to deal with.
pub open spec fn idle(batch: BatchModel) -> bool {
    &&& batch.paths.len() == 0
    &&& batch.queued.len() == 0
    &&& match batch.phase {
        PhaseModel::OpeningSession | PhaseModel::CreatingOperation | PhaseModel::SettingFlags
        | PhaseModel::Finished(Ok(_)) => true,
        PhaseModel::Finished(Err(error)) => error is Win32,
        _ => false,
    }
}

/// A batch that has no path to deal with stays so.
pub proof fn lemma_idle_stays_idle(batch: BatchModel, replies: Seq<ReplyModel>)
    requires
        idle(batch),
    ensures
        idle(spec_run(batch, replies)),
    decreases replies.len(),
{
    if replies.len() > 0 {
        lemma_idle_stays_idle(spec_advance(batch, replies[0]), replies.drop_first());
    }
}

/// A batch without paths never asks to execute, queues nothing, and can
/// fail only with the status of a platform call, whatever the options and
/// the replies.
pub proof fn lemma_empty_batch_never_executes(
    options: RecycleOptions,
    with_sink: bool,
    replies: Seq<ReplyModel>,
)
    ensures
        !(spec_step(spec_run(initial(Seq::empty(), options, with_sink), replies)) is Execute),
        spec_run(initial(Seq::empty(), options, with_sink), replies).queued.len() == 0,
        match spec_run(initial(Seq::empty(), options, with_sink), replies).phase {
            PhaseModel::Finished(Err(error)) => error is Win32,
            _ => true,
        },
{
    lemma_idle_stays_idle(initial(Seq::empty(), options, with_sink), replies);
}

/// A batch without paths succeeds as soon as the session, the operation and
/// its flags are set up, whatever the options.
pub proof fn lemma_empty_batch_is_no_op(
    options: RecycleOptions,
    with_sink: bool,
    platform: PlatformModel,
)
    requires
        succeeded(platform.session),
        succeeded(platform.created),
        succeeded(platform.flagged),
    ensures
        spec_recycle(Seq::empty(), options, with_sink, platform) == Ok::<(), ErrorModel>(()),
{
}

/// Where every path from the `handled`th on is passed over and nothing is
/// queued, the batch succeeds.
proof fn lemma_rest_skipped(
    paths: Seq<Seq<char>>,
    options: RecycleOptions,
    with_sink: bool,
    platform: PlatformModel,
    handled: int,
    queued: Seq<usize>,
)
    requires
        0 <= handled <= paths.len(),
        queued.len() == 0,
        forall|i: int|
            handled <= i < paths.len() ==> spec_path_outcome(#[trigger] paths[i], options, platform)
                is Skipped,
    ensures
        spec_outcome_from(paths, options, with_sink, platform, handled, queued) == Ok::<
            (),
            ErrorModel,
        >(()),
    decreases paths.len() - handled,
{
    if handled < paths.len() {
        lemma_rest_skipped(paths, options, with_sink, platform, handled + 1, queued);
    }
}

/// Where paths that do not exist are skipped, a batch of which the shell
/// finds no path succeeds.
pub proof fn lemma_all_ignored_is_no_op(
    paths: Seq<Seq<char>>,
    options: RecycleOptions,
    with_sink: bool,
    platform: PlatformModel,
)
    requires
        succeeded(platform.session),
        succeeded(platform.created),
        succeeded(platform.flagged),
        ignores_not_found(options),
        forall|i: int|
            0 <= i < paths.len() ==> match (platform.resolve)(#[trigger] paths[i]) {
                Ok(absolute) => (platform.parse)(absolute) == FILE_NOT_FOUND,
                Err(_) => false,
            },
    ensures
        spec_recycle(paths, options, with_sink, platform) == Ok::<(), ErrorModel>(()),
{
    assert forall|i: int| 0 <= i < paths.len() implies spec_path_outcome(
        #[trigger] paths[i],
        options,
        platform,
    ) is Skipped by {}
    lemma_rest_skipped(paths, options, with_sink, platform, 0, Seq::empty());
}

/// Where no path of a batch comes to be queued, the batch never asks to
/// execute, however many calls the driver makes: neither an empty batch nor
/// one whose paths are all passed over reaches the platform's execution.
pub proof fn lemma_nothing_queued_never_executes(
    batch: BatchModel,
    platform: PlatformModel,
    calls: nat,
)
    requires
        batch_wf(batch),
        spec_in_step(batch, platform),
        batch.queued.len() == 0,
        forall|i: int|
            0 <= i < batch.paths.len() ==> !(spec_path_outcome(
                #[trigger] batch.paths[i],
                batch.options,
                platform,
            ) is Queued),
    ensures
        spec_driven(batch, platform, calls).queued.len() == 0,
        !(spec_step(spec_driven(batch, platform, calls)) is Execute),
    decreases calls,
{
    if calls > 0 {
        if !(batch.phase is Finished) {
            lemma_call_keeps_outcome(batch, platform);
        }
        lemma_nothing_queued_never_executes(
            spec_advance(batch, spec_answer(batch, platform)),
            platform,
            (calls - 1) as nat,
        );
    }
}

/// Where paths that do not exist are not skipped, a path for which the
/// shell finds nothing ends the batch at once with `NotFound` and that path:
/// nothing further is queued, and whatever is replied afterwards, the batch
/// stays as it is and never asks to execute.
pub proof fn lemma_not_found_aborts(batch: BatchModel, replies: Seq<ReplyModel>)
    requires
        batch_wf(batch),
        batch.phase is Parsing,
        !ignores_not_found(batch.options),
    ensures
        spec_advance(batch, ReplyModel::Status(FILE_NOT_FOUND)) == failed(
            batch,
            ErrorModel::NotFound(batch.paths[batch.cursor]),
        ),
        spec_run(spec_advance(batch, ReplyModel::Status(FILE_NOT_FOUND)), replies) == failed(
            batch,
            ErrorModel::NotFound(batch.paths[batch.cursor]),
        ),
        !(spec_step(spec_run(spec_advance(batch, ReplyModel::Status(FILE_NOT_FOUND)), replies))
            is Execute),
{
    lemma_finished_is_final(spec_advance(batch, ReplyModel::Status(FILE_NOT_FOUND)), replies);
}

/// The first path that fails decides the outcome, whatever was queued
/// before it.
proof fn lemma_first_failure_from(
    paths: Seq<Seq<char>>,
    options: RecycleOptions,
    with_sink: bool,
    platform: PlatformModel,
    handled: int,
    queued: Seq<usize>,
    failing: int,
)
    requires
        0 <= handled <= failing < paths.len(),
        forall|i: int|
            handled <= i < failing ==> !(spec_path_outcome(#[trigger] paths[i], options, platform)
                is Failed),
        spec_path_outcome(paths[failing], options, platform) is Failed,
    ensures
        spec_outcome_from(paths, options, with_sink, platform, handled, queued) == Err::<
            (),
            ErrorModel,
        >(spec_path_outcome(paths[failing], options, platform)->Failed_0),
    decreases failing - handled,
{
    if handled < failing {
        match spec_path_outcome(paths[handled], options, platform) {
            PathOutcome::Queued => {
                lemma_first_failure_from(
                    paths,
                    options,
                    with_sink,
                    platform,
                    handled + 1,
                    queued.push(handled as usize),
                    failing,
                );
            },
            _ => {
                lemma_first_failure_from(
                    paths,
                    options,
                    with_sink,
                    platform,
                    handled + 1,
                    queued,
                    failing,
                );
            },
        }
    }
}

/// The first path that fails ends the batch with its error, be it that the
/// path cannot be resolved, that the shell refuses to parse it, or that it
/// does not exist: the paths before it were queued, and none is removed.
pub proof fn lemma_first_failure_aborts(
    paths: Seq<Seq<char>>,
    options: RecycleOptions,
    with_sink: bool,
    platform: PlatformModel,
    failing: int,
)
    requires
        succeeded(platform.session),
        succeeded(platform.created),
        succeeded(platform.flagged),
        0 <= failing < paths.len(),
        forall|i: int|
            0 <= i < failing ==> !(spec_path_outcome(#[trigger] paths[i], options, platform)
                is Failed),
        spec_path_outcome(paths[failing], options, platform) is Failed,
    ensures
        spec_recycle(paths, options, with_sink, platform) == Err::<(), ErrorModel>(
            spec_path_outcome(paths[failing], options, platform)->Failed_0,
        ),
{
    lemma_first_failure_from(paths, options, with_sink, platform, 0, Seq::empty(), failing);
}

/// Where paths that do not exist are not skipped, a batch whose first
/// failing path does not exist fails with `NotFound` and that path, as does
/// recycling again, one by one, what was recycled before.
pub proof fn lemma_not_found_is_reported(
    paths: Seq<Seq<char>>,
    options: RecycleOptions,
    with_sink: bool,
    platform: PlatformModel,
    missing: int,
)
    requires
        succeeded(platform.session),
        succeeded(platform.created),
        succeeded(platform.flagged),
        !ignores_not_found(options),
        0 <= missing < paths.len(),
        forall|i: int|
            0 <= i < missing ==> !(spec_path_outcome(#[trigger] paths[i], options, platform)
                is Failed),
        match (platform.resolve)(paths[missing]) {
            Ok(absolute) => (platform.parse)(absolute) == FILE_NOT_FOUND,
            Err(_) => false,
        },
    ensures
        spec_recycle(paths, options, with_sink, platform) == Err::<(), ErrorModel>(
            ErrorModel::NotFound(paths[missing]),
        ),
{
    lemma_first_failure_aborts(paths, options, with_sink, platform, missing);
}

/// A batch ends in success only in two ways: nothing was queued, or the
/// last of the queued paths has just been found gone, after all those before
/// it.
pub proof fn lemma_success_is_verified(batch: BatchModel, reply: ReplyModel)
    requires
        batch_wf(batch),
        !(batch.phase is Finished),
        spec_advance(batch, reply).phase == PhaseModel::Finished(Ok(())),
    ensures
        batch.queued.len() == 0 || {
            &&& batch.phase is Verifying
            &&& reply == ReplyModel::Exists(false)
            &&& batch.cursor == batch.queued.len() - 1
        },
{
}

/// Where what is left of a batch succeeds, no path fails, and every path
/// that is queued, before or from now on, is gone afterwards.
proof fn lemma_success_from(
    paths: Seq<Seq<char>>,
    options: RecycleOptions,
    with_sink: bool,
    platform: PlatformModel,
    handled: int,
    queued: Seq<usize>,
)
    requires
        0 <= handled <= paths.len() <= usize::MAX,
        spec_outcome_from(paths, options, with_sink, platform, handled, queued) == Ok::<
            (),
            ErrorModel,
        >(()),
    ensures
        forall|j: int|
            0 <= j < queued.len() ==> !(platform.remains)(#[trigger] paths[queued[j] as int]),
        forall|i: int|
            handled <= i < paths.len() ==> match spec_path_outcome(
                #[trigger] paths[i],
                options,
                platform,
            ) {
                PathOutcome::Queued => !(platform.remains)(paths[i]),
                PathOutcome::Skipped => true,
                PathOutcome::Failed(_) => false,
            },
    decreases paths.len() - handled,
{
    if handled < paths.len() {
        match spec_path_outcome(paths[handled], options, platform) {
            PathOutcome::Queued => {
                let longer = queued.push(handled as usize);
                lemma_success_from(paths, options, with_sink, platform, handled + 1, longer);
                assert(!(platform.remains)(paths[longer[queued.len() as int] as int]));
                assert forall|j: int| 0 <= j < queued.len() implies !(platform.remains)(
                    #[trigger] paths[queued[j] as int],
                ) by {
                    assert(!(platform.remains)(paths[longer[j] as int]));
                }
            },
            PathOutcome::Skipped => {
                lemma_success_from(paths, options, with_sink, platform, handled + 1, queued);
            },
            PathOutcome::Failed(_) => {},
        }
    }
}

/// A batch succeeds only if none of its paths failed and every path that
/// was queued is gone afterwards: what the platform claims of its own
/// success is never taken for it.
pub proof fn lemma_success_means_gone(
    paths: Seq<Seq<char>>,
    options: RecycleOptions,
    with_sink: bool,
    platform: PlatformModel,
)
    requires
        paths.len() <= usize::MAX,
        spec_recycle(paths, options, with_sink, platform) == Ok::<(), ErrorModel>(()),
    ensures
        forall|i: int|
            0 <= i < paths.len() ==> match spec_path_outcome(
                #[trigger] paths[i],
                options,
                platform,
            ) {
                PathOutcome::Queued => !(platform.remains)(paths[i]),
                PathOutcome::Skipped => true,
                PathOutcome::Failed(_) => false,
            },
{
    lemma_success_from(paths, options, with_sink, platform, 0, Seq::empty());
}

} // verus!
