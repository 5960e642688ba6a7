//! What a batch comes to, given how the platform answers.
//!
//! The engine decides call by call. Here the outcome of a whole batch is
//! stated at once, over a model of the platform's answers, and the engine is
//! proved to reach exactly that outcome when a driver makes each call as it
//! is asked for.

use crate::hresult::{succeeded, CANCELLED, COPYENGINE_E_USER_CANCELLED, FILE_NOT_FOUND};
use crate::recycle_bin::{
    batch_wf, ignores_not_found, initial, lemma_advance_keeps_wf, spec_advance, BatchModel,
    PhaseModel, RecycleOptions, ReplyModel,
};
use crate::recycle_error::{CauseModel, ErrorModel};
use vstd::prelude::*;

verus! {

/// How the platform answers the calls of a batch.
pub struct PlatformModel {
    /// The status of initializing the session.
    pub session: i32,
    /// The status of creating the file operation.
    pub created: i32,
    /// The status of setting the operation flags.
    pub flagged: i32,
    /// The absolute path of a path, or the message of the I/O error.
    pub resolve: spec_fn(Seq<char>) -> Result<Seq<char>, Seq<char>>,
    /// The status of parsing an absolute path into a shell item.
    pub parse: spec_fn(Seq<char>) -> i32,
    /// The status of marking the item of a path for deletion.
    pub queue: spec_fn(Seq<char>) -> i32,
    /// The status of attaching the progress sink.
    pub attached: i32,
    /// The status of performing the operations.
    pub executed: i32,
    /// Whether any operation was aborted, or the status with which asking
    /// failed.
    pub aborted: Result<bool, i32>,
    /// Whether a path still exists once the operations were performed.
    pub remains: spec_fn(Seq<char>) -> bool,
}

/// What becomes of one path while the batch is put together.
pub enum PathOutcome {
    /// The path is marked for deletion.
    Queued,
    /// The path does not exist and is passed over.
    Skipped,
    /// The path ends the batch with this error.
    Failed(ErrorModel),
}

/// What becomes of a path: it fails as invalid where it cannot be made
/// absolute or the shell refuses to parse it; where the shell finds nothing
/// under it, it is passed over if the options say so and fails as not found
/// if they do not; and else it is queued, unless queuing itself fails.
pub open spec fn spec_path_outcome(
    path: Seq<char>,
    options: RecycleOptions,
    platform: PlatformModel,
) -> PathOutcome {
    match (platform.resolve)(path) {
        Err(message) => PathOutcome::Failed(
            ErrorModel::InvalidPath(path, CauseModel::Io(message)),
        ),
        Ok(absolute) => {
            let parsed = (platform.parse)(absolute);
            let queued = (platform.queue)(path);
            if succeeded(parsed) {
                if succeeded(queued) {
                    PathOutcome::Queued
                } else {
                    PathOutcome::Failed(ErrorModel::Win32(queued))
                }
            } else if parsed == FILE_NOT_FOUND {
                if ignores_not_found(options) {
                    PathOutcome::Skipped
                } else {
                    PathOutcome::Failed(ErrorModel::NotFound(path))
                }
            } else {
                PathOutcome::Failed(ErrorModel::InvalidPath(path, CauseModel::Platform(parsed)))
            }
        },
    }
}

/// Whether one of the queued paths, from the `from`th on, is still there
/// once the operations were performed.
pub open spec fn spec_any_remains(
    paths: Seq<Seq<char>>,
    queued: Seq<usize>,
    from: int,
    platform: PlatformModel,
) -> bool {
    exists|i: int| from <= i < queued.len() && (platform.remains)(#[trigger] paths[queued[i] as int])
}

/// The outcome of the verification: `Unknown` where a queued path is still
/// there, whatever the platform reported, and success where none is.
pub open spec fn spec_verified(
    paths: Seq<Seq<char>>,
    queued: Seq<usize>,
    from: int,
    platform: PlatformModel,
) -> Result<(), ErrorModel> {
    if spec_any_remains(paths, queued, from, platform) {
        Err(ErrorModel::Unknown)
    } else {
        Ok(())
    }
}

/// The outcome once the operations were performed without a failing
/// status: canceled where any operation was aborted, and else what the
/// verification finds.
pub open spec fn spec_after_execution(
    paths: Seq<Seq<char>>,
    queued: Seq<usize>,
    platform: PlatformModel,
) -> Result<(), ErrorModel> {
    match platform.aborted {
        Err(status) => Err(ErrorModel::Win32(status)),
        Ok(true) => Err(ErrorModel::Canceled),
        Ok(false) => spec_verified(paths, queued, 0, platform),
    }
}

/// The outcome of performing the operations.
pub open spec fn spec_execution(
    paths: Seq<Seq<char>>,
    queued: Seq<usize>,
    platform: PlatformModel,
) -> Result<(), ErrorModel> {
    if succeeded(platform.executed) {
        spec_after_execution(paths, queued, platform)
    } else if platform.executed == CANCELLED || platform.executed == COPYENGINE_E_USER_CANCELLED {
        Err(ErrorModel::Canceled)
    } else {
        Err(ErrorModel::Win32(platform.executed))
    }
}

/// The outcome once every path is dealt with: success at once where nothing
/// was queued, and else the outcome of performing the operations, after the
/// sink was attached if there is one.
pub open spec fn spec_queue_outcome(
    paths: Seq<Seq<char>>,
    with_sink: bool,
    queued: Seq<usize>,
    platform: PlatformModel,
) -> Result<(), ErrorModel> {
    if queued.len() == 0 {
        Ok(())
    } else if with_sink && !succeeded(platform.attached) {
        Err(ErrorModel::Win32(platform.attached))
    } else {
        spec_execution(paths, queued, platform)
    }
}

/// The outcome of a batch of which `handled` paths are dealt with and
/// `queued` holds those of them that are marked for deletion: the first path
/// that fails ends the batch with its error.
pub open spec fn spec_outcome_from(
    paths: Seq<Seq<char>>,
    options: RecycleOptions,
    with_sink: bool,
    platform: PlatformModel,
    handled: int,
    queued: Seq<usize>,
) -> Result<(), ErrorModel>
    decreases paths.len() - handled,
{
    if handled < 0 || handled >= paths.len() {
        spec_queue_outcome(paths, with_sink, queued, platform)
    } else {
        match spec_path_outcome(paths[handled], options, platform) {
            PathOutcome::Failed(error) => Err(error),
            PathOutcome::Queued => spec_outcome_from(
                paths,
                options,
                with_sink,
                platform,
                handled + 1,
                queued.push(handled as usize),
            ),
            PathOutcome::Skipped => spec_outcome_from(
                paths,
                options,
                with_sink,
                platform,
                handled + 1,
                queued,
            ),
        }
    }
}

/// The outcome of recycling `paths`: the status of the first step of the
/// set-up that fails; else the error of the first path that fails, before
/// anything is removed; else success without executing anything where nothing
/// is queued; else the outcome of performing the operations and verifying
/// that every queued path is gone.
pub open spec fn spec_recycle(
    paths: Seq<Seq<char>>,
    options: RecycleOptions,
    with_sink: bool,
    platform: PlatformModel,
) -> Result<(), ErrorModel> {
    if !succeeded(platform.session) {
        Err(ErrorModel::Win32(platform.session))
    } else if !succeeded(platform.created) {
        Err(ErrorModel::Win32(platform.created))
    } else if !succeeded(platform.flagged) {
        Err(ErrorModel::Win32(platform.flagged))
    } else {
        spec_outcome_from(paths, options, with_sink, platform, 0, Seq::empty())
    }
}

/// The platform's reply to the call that a batch asks for.
pub open spec fn spec_answer(batch: BatchModel, platform: PlatformModel) -> ReplyModel {
    match batch.phase {
        PhaseModel::OpeningSession => ReplyModel::Status(platform.session),
        PhaseModel::CreatingOperation => ReplyModel::Status(platform.created),
        PhaseModel::SettingFlags => ReplyModel::Status(platform.flagged),
        PhaseModel::Resolving => ReplyModel::Resolved((platform.resolve)(batch.paths[batch.cursor])),
        PhaseModel::Parsing(absolute) => ReplyModel::Status((platform.parse)(absolute)),
        PhaseModel::Queuing => ReplyModel::Status((platform.queue)(batch.paths[batch.cursor])),
        PhaseModel::Attaching => ReplyModel::Status(platform.attached),
        PhaseModel::Executing => ReplyModel::Status(platform.executed),
        PhaseModel::CheckingAborted => ReplyModel::Aborted(platform.aborted),
        PhaseModel::Verifying => ReplyModel::Exists(
            (platform.remains)(batch.paths[batch.queued[batch.cursor] as int]),
        ),
        PhaseModel::Finished(_) => ReplyModel::Exists(false),
    }
}

/// The batch after a driver has made the next `calls` calls against the
/// platform.
pub open spec fn spec_driven(batch: BatchModel, platform: PlatformModel, calls: nat) -> BatchModel
    decreases calls,
{
    if calls == 0 {
        batch
    } else {
        spec_driven(
            spec_advance(batch, spec_answer(batch, platform)),
            platform,
            (calls - 1) as nat,
        )
    }
}

/// An upper bound of the calls that a batch still asks for: three for each
/// path that is left, three to attach, execute and ask for aborted
/// operations, and one for each path to verify.
pub open spec fn spec_calls_left(batch: BatchModel) -> int {
    let paths = batch.paths.len() as int;
    match batch.phase {
        PhaseModel::OpeningSession => 4 * paths + 6,
        PhaseModel::CreatingOperation => 4 * paths + 5,
        PhaseModel::SettingFlags => 4 * paths + 4,
        PhaseModel::Resolving => 3 * (paths - batch.cursor) + paths + 3,
        PhaseModel::Parsing(_) => 3 * (paths - batch.cursor) + paths + 2,
        PhaseModel::Queuing => 3 * (paths - batch.cursor) + paths + 1,
        PhaseModel::Attaching => paths + 3,
        PhaseModel::Executing => paths + 2,
        PhaseModel::CheckingAborted => paths + 1,
        PhaseModel::Verifying => batch.queued.len() - batch.cursor,
        PhaseModel::Finished(_) => 0,
    }
}

/// The outcome that a batch is bound for, from where it stands.
pub open spec fn spec_bound_for(batch: BatchModel, platform: PlatformModel) -> Result<
    (),
    ErrorModel,
> {
    let paths = batch.paths;
    let options = batch.options;
    let with_sink = batch.with_sink;
    match batch.phase {
        PhaseModel::OpeningSession => spec_recycle(paths, options, with_sink, platform),
        PhaseModel::CreatingOperation => if !succeeded(platform.created) {
            Err(ErrorModel::Win32(platform.created))
        } else if !succeeded(platform.flagged) {
            Err(ErrorModel::Win32(platform.flagged))
        } else {
            spec_outcome_from(paths, options, with_sink, platform, 0, Seq::empty())
        },
        PhaseModel::SettingFlags => if !succeeded(platform.flagged) {
            Err(ErrorModel::Win32(platform.flagged))
        } else {
            spec_outcome_from(paths, options, with_sink, platform, 0, Seq::empty())
        },
        PhaseModel::Resolving | PhaseModel::Parsing(_) | PhaseModel::Queuing => spec_outcome_from(
            paths,
            options,
            with_sink,
            platform,
            batch.cursor,
            batch.queued,
        ),
        PhaseModel::Attaching => spec_queue_outcome(paths, with_sink, batch.queued, platform),
        PhaseModel::Executing => spec_execution(paths, batch.queued, platform),
        PhaseModel::CheckingAborted => spec_after_execution(paths, batch.queued, platform),
        PhaseModel::Verifying => spec_verified(paths, batch.queued, batch.cursor, platform),
        PhaseModel::Finished(result) => result,
    }
}

/// What ties a batch in the middle of a path to the platform's answers for
/// that path: the absolute path that it holds is the one that the platform
/// gave, and a path that is being queued was parsed with success.
pub open spec fn spec_in_step(batch: BatchModel, platform: PlatformModel) -> bool {
    match batch.phase {
        PhaseModel::Parsing(absolute) => (platform.resolve)(batch.paths[batch.cursor]) == Ok::<
            Seq<char>,
            Seq<char>,
        >(absolute),
        PhaseModel::Queuing => match (platform.resolve)(batch.paths[batch.cursor]) {
            Ok(absolute) => succeeded((platform.parse)(absolute)),
            Err(_) => false,
        },
        _ => true,
    }
}

/// One call on, a batch is bound for the same outcome and has fewer calls
/// left.
pub proof fn lemma_call_keeps_outcome(batch: BatchModel, platform: PlatformModel)
    requires
        batch_wf(batch),
        spec_in_step(batch, platform),
        !(batch.phase is Finished),
    ensures
        batch_wf(spec_advance(batch, spec_answer(batch, platform))),
        spec_in_step(spec_advance(batch, spec_answer(batch, platform)), platform),
        spec_bound_for(spec_advance(batch, spec_answer(batch, platform)), platform)
            == spec_bound_for(batch, platform),
        spec_calls_left(spec_advance(batch, spec_answer(batch, platform))) < spec_calls_left(
            batch,
        ),
{
    lemma_advance_keeps_wf(batch, spec_answer(batch, platform));
    if batch.phase is SettingFlags {
        assert(batch.queued =~= Seq::<usize>::empty());
    }
}

/// Where a batch has gone through all the calls that it could still ask
/// for, it is finished, with the outcome that it was bound for.
pub proof fn lemma_driven_to_outcome(batch: BatchModel, platform: PlatformModel, calls: nat)
    requires
        batch_wf(batch),
        spec_in_step(batch, platform),
        calls >= spec_calls_left(batch),
    ensures
        spec_driven(batch, platform, calls).phase == PhaseModel::Finished(
            spec_bound_for(batch, platform),
        ),
    decreases calls,
{
    if batch.phase is Finished {
        if calls > 0 {
            lemma_driven_to_outcome(batch, platform, (calls - 1) as nat);
        }
    } else {
        lemma_call_keeps_outcome(batch, platform);
        lemma_driven_to_outcome(
            spec_advance(batch, spec_answer(batch, platform)),
            platform,
            (calls - 1) as nat,
        );
    }
}

/// A driver that makes each call as the batch asks for it ends with the
/// outcome of recycling the paths, after four calls for each path and six
/// more at most, and stays there.
pub proof fn lemma_recycle_outcome(
    paths: Seq<Seq<char>>,
    options: RecycleOptions,
    with_sink: bool,
    platform: PlatformModel,
    calls: nat,
)
    requires
        paths.len() <= usize::MAX,
        calls >= 4 * paths.len() + 6,
    ensures
        spec_driven(initial(paths, options, with_sink), platform, calls).phase
            == PhaseModel::Finished(spec_recycle(paths, options, with_sink, platform)),
{
    lemma_driven_to_outcome(initial(paths, options, with_sink), platform, calls);
}

} // verus!
