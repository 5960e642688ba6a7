//! The Recycle Bin engine.
//!
//! Sending a batch of paths to the Recycle Bin takes a series of calls into
//! the host shell, and the shell does not report reliably what it did. The
//! engine holds every decision of that series and leaves the calls to a
//! driver: [`RecycleBatch::step`] names the call to make, and
//! [`RecycleBatch::advance`] takes what the call gave back and decides what
//! follows. A batch ends with [`Step::Finish`], which holds the result of the
//! whole operation.
//!
//! By default the shell may show its progress and confirmation dialogs and
//! the operation joins Explorer's undo history, as if the user had deleted
//! the items in Explorer. With [`RECYCLE_DANGEROUSLY_IN_BACKGROUND`] no dialog
//! appears, and the shell deletes for good whatever it cannot recycle.

use crate::hresult::{succeeded, CANCELLED, COPYENGINE_E_USER_CANCELLED, FILE_NOT_FOUND};
use crate::recycle_error::{
    result_model, CauseModel, ErrorModel, InvalidPathCause, RecycleError,
};
use vstd::prelude::*;

verus! {

/// Flags that control how a batch is recycled.
pub type RecycleOptions = u8;

/// Show the progress dialog and the like, and add to the undo history, the
/// same as if deleting from Explorer.
pub const RECYCLE_NORMAL: RecycleOptions = 0x0;

/// Hide all dialogs and let the shell permanently delete anything it cannot
/// recycle.
pub const RECYCLE_DANGEROUSLY_IN_BACKGROUND: RecycleOptions = 0x1;

/// Skip paths that do not exist instead of failing with
/// [`RecycleError::NotFound`].
pub const RECYCLE_IGNORE_NOT_FOUND: RecycleOptions = 0x2;

/// Session model: one apartment for this thread, which the shell's file
/// operation requires.
pub const COINIT_APARTMENTTHREADED: i32 = 0x2;

/// Session model: without the obsolete data-exchange support.
pub const COINIT_DISABLE_OLE1DDE: i32 = 0x4;

/// The model with which the session of a thread is initialized:
/// `COINIT_APARTMENTTHREADED | COINIT_DISABLE_OLE1DDE`. Initializing again
/// with this model is no error; with another one it is.
pub const SESSION_MODEL: i32 = 0x6;

/// Operation flag: show no progress dialog.
pub const FOF_SILENT: u32 = 0x4;

/// Operation flag: answer every confirmation with "yes".
pub const FOF_NOCONFIRMATION: u32 = 0x10;

/// Operation flag: show no dialog when an error occurs.
pub const FOF_NOERRORUI: u32 = 0x400;

/// Operation flag: send deleted items to the Recycle Bin.
pub const FOFX_RECYCLEONDELETE: u32 = 0x0008_0000;

/// Operation flag: add the operation to Explorer's undo history.
pub const FOFX_ADDUNDORECORD: u32 = 0x2000_0000;

/// The operation flags of a batch without dialogs:
/// `FOF_SILENT | FOF_NOERRORUI | FOF_NOCONFIRMATION | FOFX_RECYCLEONDELETE`.
pub const BACKGROUND_FLAGS: u32 = 0x0008_0414;

/// The operation flags of a batch as Explorer would run it:
/// `FOFX_ADDUNDORECORD | FOFX_RECYCLEONDELETE`.
pub const NORMAL_FLAGS: u32 = 0x2008_0000;

/// Whether the options ask for a batch without dialogs.
pub open spec fn in_background(options: RecycleOptions) -> bool {
    options & RECYCLE_DANGEROUSLY_IN_BACKGROUND == RECYCLE_DANGEROUSLY_IN_BACKGROUND
}

/// Whether the options ask to skip paths that do not exist.
pub open spec fn ignores_not_found(options: RecycleOptions) -> bool {
    options & RECYCLE_IGNORE_NOT_FOUND == RECYCLE_IGNORE_NOT_FOUND
}

/// The operation flags that the options select.
pub open spec fn spec_operation_flags(options: RecycleOptions) -> u32 {
    if in_background(options) {
        BACKGROUND_FLAGS
    } else {
        NORMAL_FLAGS
    }
}

/// The operation flags to set on the shell's file operation.
pub fn operation_flags(options: RecycleOptions) -> (flags: u32)
    ensures
        flags == spec_operation_flags(options),
{
    if options & RECYCLE_DANGEROUSLY_IN_BACKGROUND == RECYCLE_DANGEROUSLY_IN_BACKGROUND {
        assert(FOF_SILENT | FOF_NOERRORUI | FOF_NOCONFIRMATION | FOFX_RECYCLEONDELETE
            == BACKGROUND_FLAGS) by (bit_vector);
        FOF_SILENT | FOF_NOERRORUI | FOF_NOCONFIRMATION | FOFX_RECYCLEONDELETE
    } else {
        assert(FOFX_ADDUNDORECORD | FOFX_RECYCLEONDELETE == NORMAL_FLAGS) by (bit_vector);
        FOFX_ADDUNDORECORD | FOFX_RECYCLEONDELETE
    }
}

/// The call that the driver is to make next.
#[derive(Debug, PartialEq, Eq)]
pub enum Step {
    /// Initialize the platform session of this thread with this model.
    /// Answered by [`Reply::Status`].
    InitializeSession(i32),
    /// Create the shell's file operation. Answered by [`Reply::Status`].
    CreateOperation,
    /// Set these operation flags. Answered by [`Reply::Status`].
    SetOperationFlags(u32),
    /// Make this path absolute. Answered by [`Reply::Resolved`].
    ResolvePath(String),
    /// Parse this absolute path into a shell item. Answered by
    /// [`Reply::Status`].
    CreateShellItem(String),
    /// Mark the shell item just created for deletion. Answered by
    /// [`Reply::Status`].
    QueueDeletion,
    /// Attach the progress sink. Answered by [`Reply::Status`].
    AttachSink,
    /// Perform the queued operations. Answered by [`Reply::Status`].
    Execute,
    /// Ask whether any operation was aborted. Answered by
    /// [`Reply::Aborted`].
    QueryAborted,
    /// Look whether this path still exists. Answered by [`Reply::Exists`].
    CheckExists(String),
    /// Nothing is left to do: this is the result of the batch.
    Finish(Result<(), RecycleError>),
}

/// What a call gave back.
#[derive(Debug, PartialEq, Eq)]
pub enum Reply {
    /// The status of a platform call.
    Status(i32),
    /// The absolute path, or the message of the I/O error.
    Resolved(Result<String, String>),
    /// Whether any operation was aborted, or the status with which asking
    /// failed.
    Aborted(Result<bool, i32>),
    /// Whether the path exists; `false` too where that cannot be told.
    Exists(bool),
}

/// Where a batch stands: the call whose reply it awaits.
enum Phase {
    OpeningSession,
    CreatingOperation,
    SettingFlags,
    Resolving,
    Parsing(String),
    Queuing,
    Attaching,
    Executing,
    CheckingAborted,
    Verifying,
    Finished(Result<(), RecycleError>),
}

/// A [`Step`] as mathematical values.
pub enum StepModel {
    InitializeSession(i32),
    CreateOperation,
    SetOperationFlags(u32),
    ResolvePath(Seq<char>),
    CreateShellItem(Seq<char>),
    QueueDeletion,
    AttachSink,
    Execute,
    QueryAborted,
    CheckExists(Seq<char>),
    Finish(Result<(), ErrorModel>),
}

/// A [`Reply`] as mathematical values.
pub enum ReplyModel {
    Status(i32),
    Resolved(Result<Seq<char>, Seq<char>>),
    Aborted(Result<bool, i32>),
    Exists(bool),
}

/// A [`Phase`] as mathematical values.
pub enum PhaseModel {
    OpeningSession,
    CreatingOperation,
    SettingFlags,
    Resolving,
    Parsing(Seq<char>),
    Queuing,
    Attaching,
    Executing,
    CheckingAborted,
    Verifying,
    Finished(Result<(), ErrorModel>),
}

/// A batch as mathematical values.
pub struct BatchModel {
    /// The paths to recycle, as the caller gave them.
    pub paths: Seq<Seq<char>>,
    /// The caller's options.
    pub options: RecycleOptions,
    /// Whether a progress sink is to be attached.
    pub with_sink: bool,
    /// The call whose reply is awaited.
    pub phase: PhaseModel,
    /// While paths are queued: how many of `paths` are dealt with. While the
    /// outcome is verified: how many of `queued` were found gone.
    pub cursor: int,
    /// The indices in `paths` of the paths marked for deletion.
    pub queued: Seq<usize>,
}

impl View for Step {
    type V = StepModel;

    open spec fn view(&self) -> StepModel {
        match self {
            Step::InitializeSession(model) => StepModel::InitializeSession(*model),
            Step::CreateOperation => StepModel::CreateOperation,
            Step::SetOperationFlags(flags) => StepModel::SetOperationFlags(*flags),
            Step::ResolvePath(path) => StepModel::ResolvePath(path@),
            Step::CreateShellItem(path) => StepModel::CreateShellItem(path@),
            Step::QueueDeletion => StepModel::QueueDeletion,
            Step::AttachSink => StepModel::AttachSink,
            Step::Execute => StepModel::Execute,
            Step::QueryAborted => StepModel::QueryAborted,
            Step::CheckExists(path) => StepModel::CheckExists(path@),
            Step::Finish(result) => StepModel::Finish(result_model(*result)),
        }
    }
}

impl View for Reply {
    type V = ReplyModel;

    open spec fn view(&self) -> ReplyModel {
        match self {
            Reply::Status(status) => ReplyModel::Status(*status),
            Reply::Resolved(Ok(path)) => ReplyModel::Resolved(Ok(path@)),
            Reply::Resolved(Err(message)) => ReplyModel::Resolved(Err(message@)),
            Reply::Aborted(aborted) => ReplyModel::Aborted(*aborted),
            Reply::Exists(exists) => ReplyModel::Exists(*exists),
        }
    }
}

impl View for Phase {
    type V = PhaseModel;

    closed spec fn view(&self) -> PhaseModel {
        match self {
            Phase::OpeningSession => PhaseModel::OpeningSession,
            Phase::CreatingOperation => PhaseModel::CreatingOperation,
            Phase::SettingFlags => PhaseModel::SettingFlags,
            Phase::Resolving => PhaseModel::Resolving,
            Phase::Parsing(path) => PhaseModel::Parsing(path@),
            Phase::Queuing => PhaseModel::Queuing,
            Phase::Attaching => PhaseModel::Attaching,
            Phase::Executing => PhaseModel::Executing,
            Phase::CheckingAborted => PhaseModel::CheckingAborted,
            Phase::Verifying => PhaseModel::Verifying,
            Phase::Finished(result) => PhaseModel::Finished(result_model(*result)),
        }
    }
}

/// The batch in the given phase, all else unchanged.
pub open spec fn in_phase(batch: BatchModel, phase: PhaseModel) -> BatchModel {
    BatchModel { phase, ..batch }
}

/// The batch, ended with the given error.
pub open spec fn failed(batch: BatchModel, error: ErrorModel) -> BatchModel {
    in_phase(batch, PhaseModel::Finished(Err(error)))
}

/// The batch once `handled` of its paths are dealt with: it turns to the
/// next path if one is left; is done, without executing anything, if
/// nothing was queued; and else goes on to execute, after attaching the sink
/// if there is one.
pub open spec fn settled(batch: BatchModel, handled: int) -> BatchModel {
    let phase = if handled < batch.paths.len() {
        PhaseModel::Resolving
    } else if batch.queued.len() == 0 {
        PhaseModel::Finished(Ok(()))
    } else if batch.with_sink {
        PhaseModel::Attaching
    } else {
        PhaseModel::Executing
    };
    BatchModel { phase, cursor: handled, ..batch }
}

/// A batch before its first call.
pub open spec fn initial(paths: Seq<Seq<char>>, options: RecycleOptions, with_sink: bool)
    -> BatchModel {
    BatchModel {
        paths,
        options,
        with_sink,
        phase: PhaseModel::OpeningSession,
        cursor: 0,
        queued: Seq::empty(),
    }
}

/// What holds of every batch.
///
/// Nothing is queued before the operation exists. While paths are queued,
/// the queue holds, in order, indices of paths already dealt with. The batch
/// is executed only once every path is dealt with and at least one is queued.
pub open spec fn batch_wf(batch: BatchModel) -> bool {
    &&& 0 <= batch.cursor
    &&& batch.paths.len() <= usize::MAX
    &&& batch.queued.len() <= batch.paths.len()
    &&& forall|i: int| 0 <= i < batch.queued.len() ==> (#[trigger] batch.queued[i])
        < batch.paths.len()
    &&& forall|i: int, j: int|
        0 <= i < j < batch.queued.len() ==> (#[trigger] batch.queued[i]) < (
        #[trigger] batch.queued[j])
    &&& match batch.phase {
        PhaseModel::OpeningSession | PhaseModel::CreatingOperation | PhaseModel::SettingFlags => {
            batch.cursor == 0 && batch.queued.len() == 0
        },
        PhaseModel::Resolving | PhaseModel::Parsing(_) | PhaseModel::Queuing => {
            &&& batch.cursor < batch.paths.len()
            &&& batch.queued.len() <= batch.cursor
            &&& forall|i: int| 0 <= i < batch.queued.len() ==> (#[trigger] batch.queued[i])
                < batch.cursor
        },
        PhaseModel::Attaching => {
            batch.with_sink && batch.queued.len() > 0 && batch.cursor == batch.paths.len()
        },
        PhaseModel::Executing | PhaseModel::CheckingAborted => {
            batch.queued.len() > 0 && batch.cursor == batch.paths.len()
        },
        PhaseModel::Verifying => batch.cursor < batch.queued.len(),
        PhaseModel::Finished(_) => true,
    }
}

/// The call that a batch asks for.
pub open spec fn spec_step(batch: BatchModel) -> StepModel {
    match batch.phase {
        PhaseModel::OpeningSession => StepModel::InitializeSession(SESSION_MODEL),
        PhaseModel::CreatingOperation => StepModel::CreateOperation,
        PhaseModel::SettingFlags => StepModel::SetOperationFlags(
            spec_operation_flags(batch.options),
        ),
        PhaseModel::Resolving => StepModel::ResolvePath(batch.paths[batch.cursor]),
        PhaseModel::Parsing(absolute) => StepModel::CreateShellItem(absolute),
        PhaseModel::Queuing => StepModel::QueueDeletion,
        PhaseModel::Attaching => StepModel::AttachSink,
        PhaseModel::Executing => StepModel::Execute,
        PhaseModel::CheckingAborted => StepModel::QueryAborted,
        PhaseModel::Verifying => StepModel::CheckExists(
            batch.paths[batch.queued[batch.cursor] as int],
        ),
        PhaseModel::Finished(result) => StepModel::Finish(result),
    }
}

/// What a status decides for a batch that awaits one.
pub open spec fn after_status(batch: BatchModel, status: i32) -> BatchModel {
    match batch.phase {
        PhaseModel::OpeningSession => if succeeded(status) {
            in_phase(batch, PhaseModel::CreatingOperation)
        } else {
            failed(batch, ErrorModel::Win32(status))
        },
        PhaseModel::CreatingOperation => if succeeded(status) {
            in_phase(batch, PhaseModel::SettingFlags)
        } else {
            failed(batch, ErrorModel::Win32(status))
        },
        PhaseModel::SettingFlags => if succeeded(status) {
            settled(batch, 0)
        } else {
            failed(batch, ErrorModel::Win32(status))
        },
        PhaseModel::Parsing(_) => if succeeded(status) {
            in_phase(batch, PhaseModel::Queuing)
        } else if status == FILE_NOT_FOUND {
            if ignores_not_found(batch.options) {
                settled(batch, batch.cursor + 1)
            } else {
                failed(batch, ErrorModel::NotFound(batch.paths[batch.cursor]))
            }
        } else {
            failed(
                batch,
                ErrorModel::InvalidPath(batch.paths[batch.cursor], CauseModel::Platform(status)),
            )
        },
        PhaseModel::Queuing => if succeeded(status) {
            settled(
                BatchModel { queued: batch.queued.push(batch.cursor as usize), ..batch },
                batch.cursor + 1,
            )
        } else {
            failed(batch, ErrorModel::Win32(status))
        },
        PhaseModel::Attaching => if succeeded(status) {
            in_phase(batch, PhaseModel::Executing)
        } else {
            failed(batch, ErrorModel::Win32(status))
        },
        PhaseModel::Executing => if succeeded(status) {
            in_phase(batch, PhaseModel::CheckingAborted)
        } else if status == CANCELLED || status == COPYENGINE_E_USER_CANCELLED {
            failed(batch, ErrorModel::Canceled)
        } else {
            failed(batch, ErrorModel::Win32(status))
        },
        _ => batch,
    }
}

/// The batch after a reply. A reply of another kind than the awaited one
/// changes nothing, and neither does any reply to a batch that is finished.
pub open spec fn spec_advance(batch: BatchModel, reply: ReplyModel) -> BatchModel {
    match reply {
        ReplyModel::Status(status) => after_status(batch, status),
        ReplyModel::Resolved(resolved) => match batch.phase {
            PhaseModel::Resolving => match resolved {
                Ok(absolute) => in_phase(batch, PhaseModel::Parsing(absolute)),
                Err(message) => failed(
                    batch,
                    ErrorModel::InvalidPath(batch.paths[batch.cursor], CauseModel::Io(message)),
                ),
            },
            _ => batch,
        },
        ReplyModel::Aborted(aborted) => match batch.phase {
            PhaseModel::CheckingAborted => match aborted {
                Ok(true) => failed(batch, ErrorModel::Canceled),
                Ok(false) => BatchModel { phase: PhaseModel::Verifying, cursor: 0, ..batch },
                Err(status) => failed(batch, ErrorModel::Win32(status)),
            },
            _ => batch,
        },
        ReplyModel::Exists(exists) => match batch.phase {
            PhaseModel::Verifying => if exists {
                failed(batch, ErrorModel::Unknown)
            } else if batch.cursor + 1 < batch.queued.len() {
                BatchModel { cursor: batch.cursor + 1, ..batch }
            } else {
                in_phase(batch, PhaseModel::Finished(Ok(())))
            },
            _ => batch,
        },
    }
}

/// The batch after a series of replies.
pub open spec fn spec_run(batch: BatchModel, replies: Seq<ReplyModel>) -> BatchModel
    decreases replies.len(),
{
    if replies.len() == 0 {
        batch
    } else {
        spec_run(spec_advance(batch, replies[0]), replies.drop_first())
    }
}

/// A batch of paths on its way to the Recycle Bin.
pub struct RecycleBatch {
    paths: Vec<String>,
    options: RecycleOptions,
    with_sink: bool,
    phase: Phase,
    cursor: usize,
    queued: Vec<usize>,
}

impl View for RecycleBatch {
    type V = BatchModel;

    closed spec fn view(&self) -> BatchModel {
        BatchModel {
            paths: self.paths.deep_view(),
            options: self.options,
            with_sink: self.with_sink,
            phase: self.phase@,
            cursor: self.cursor as int,
            queued: self.queued@,
        }
    }
}

/// Starts a batch that sends `paths` to the Recycle Bin, in the order given.
/// Paths may be relative to the current directory.
///
/// The batch reports no item on its own: its result tells only whether the
/// whole of it went through. It fails with `NotFound` or `InvalidPath`, before
/// anything is removed, where a path does not exist (unless
/// [`RECYCLE_IGNORE_NOT_FOUND`] is set) or cannot be resolved or parsed; with
/// `Canceled` where the user canceled or declined, or the shell reported
/// aborted operations; with `Unknown` where the shell claimed success and a
/// path is still there; and with `Win32` where any other platform call failed.
pub fn recycle(paths: Vec<String>, options: RecycleOptions) -> (batch: RecycleBatch)
    ensures
        batch@ == initial(paths.deep_view(), options, false),
        batch_wf(batch@),
{
    let count: usize = paths.len();
    assert(paths.deep_view().len() == count);
    RecycleBatch {
        paths,
        options,
        with_sink: false,
        phase: Phase::OpeningSession,
        cursor: 0,
        queued: Vec::new(),
    }
}

/// Starts a batch as [`recycle`] does, with a progress sink attached before
/// it is executed, through which the driver reports every item to the
/// caller's callback.
pub fn recycle_with_callback(paths: Vec<String>, options: RecycleOptions) -> (batch: RecycleBatch)
    ensures
        batch@ == initial(paths.deep_view(), options, true),
        batch_wf(batch@),
{
    let count: usize = paths.len();
    assert(paths.deep_view().len() == count);
    RecycleBatch {
        paths,
        options,
        with_sink: true,
        phase: Phase::OpeningSession,
        cursor: 0,
        queued: Vec::new(),
    }
}

impl RecycleBatch {
    #[verifier::type_invariant]
    spec fn well_formed(&self) -> bool {
        batch_wf(self@)
    }

    /// The call to make next, or the result of the batch.
    pub fn step(&self) -> (step: Step)
        ensures
            step@ == spec_step(self@),
            batch_wf(self@),
    {
        proof {
            use_type_invariant(self);
        }
        match &self.phase {
            Phase::OpeningSession => {
                assert(COINIT_APARTMENTTHREADED | COINIT_DISABLE_OLE1DDE == SESSION_MODEL)
                    by (bit_vector);
                Step::InitializeSession(COINIT_APARTMENTTHREADED | COINIT_DISABLE_OLE1DDE)
            },
            Phase::CreatingOperation => Step::CreateOperation,
            Phase::SettingFlags => Step::SetOperationFlags(operation_flags(self.options)),
            Phase::Resolving => Step::ResolvePath(self.paths[self.cursor].clone()),
            Phase::Parsing(absolute) => Step::CreateShellItem(absolute.clone()),
            Phase::Queuing => Step::QueueDeletion,
            Phase::Attaching => Step::AttachSink,
            Phase::Executing => Step::Execute,
            Phase::CheckingAborted => Step::QueryAborted,
            Phase::Verifying => Step::CheckExists(self.paths[self.queued[self.cursor]].clone()),
            Phase::Finished(result) => match result {
                Ok(()) => Step::Finish(Ok(())),
                Err(error) => Step::Finish(Err(error.duplicate())),
            },
        }
    }

    /// Tells whether the batch is finished.
    pub fn is_finished(&self) -> (finished: bool)
        ensures
            finished == (self@.phase is Finished),
    {
        match &self.phase {
            Phase::Finished(_) => true,
            _ => false,
        }
    }

    /// The paths marked for deletion so far, in the order in which they were
    /// queued.
    pub fn queued_paths(&self) -> (queued: Vec<String>)
        ensures
            queued.deep_view() == Seq::new(
                self@.queued.len(),
                |i: int| self@.paths[self@.queued[i] as int],
            ),
    {
        proof {
            use_type_invariant(self);
        }
        let mut queued: Vec<String> = Vec::new();
        let mut i: usize = 0;
        while i < self.queued.len()
            invariant
                batch_wf(self@),
                i <= self.queued.len(),
                queued.len() == i,
                forall|k: int|
                    0 <= k < i ==> (#[trigger] queued[k])@ == self.paths[self.queued[k] as int]@,
            decreases self.queued.len() - i,
        {
            queued.push(self.paths[self.queued[i]].clone());
            i += 1;
        }
        queued
    }

    fn in_phase(self, phase: Phase) -> (next: RecycleBatch)
        requires
            batch_wf(in_phase(self@, phase@)),
        ensures
            next@ == in_phase(self@, phase@),
    {
        RecycleBatch {
            paths: self.paths,
            options: self.options,
            with_sink: self.with_sink,
            phase,
            cursor: self.cursor,
            queued: self.queued,
        }
    }

    fn failed(self, error: RecycleError) -> (next: RecycleBatch)
        ensures
            next@ == failed(self@, error@),
    {
        proof {
            use_type_invariant(&self);
        }
        self.in_phase(Phase::Finished(Err(error)))
    }

    fn settled(self, handled: usize) -> (next: RecycleBatch)
        requires
            batch_wf(settled(self@, handled as int)),
        ensures
            next@ == settled(self@, handled as int),
    {
        let phase = if handled < self.paths.len() {
            Phase::Resolving
        } else if self.queued.len() == 0 {
            Phase::Finished(Ok(()))
        } else if self.with_sink {
            Phase::Attaching
        } else {
            Phase::Executing
        };
        RecycleBatch {
            paths: self.paths,
            options: self.options,
            with_sink: self.with_sink,
            phase,
            cursor: handled,
            queued: self.queued,
        }
    }

    fn after_status(self, status: i32) -> (next: RecycleBatch)
        ensures
            next@ == after_status(self@, status),
    {
        proof {
            use_type_invariant(&self);
            lemma_advance_keeps_wf(self@, ReplyModel::Status(status));
        }
        match &self.phase {
            Phase::OpeningSession => if status >= 0 {
                self.in_phase(Phase::CreatingOperation)
            } else {
                self.failed(RecycleError::Win32(status))
            },
            Phase::CreatingOperation => if status >= 0 {
                self.in_phase(Phase::SettingFlags)
            } else {
                self.failed(RecycleError::Win32(status))
            },
            Phase::SettingFlags => if status >= 0 {
                self.settled(0)
            } else {
                self.failed(RecycleError::Win32(status))
            },
            Phase::Parsing(_) => if status >= 0 {
                self.in_phase(Phase::Queuing)
            } else if status == FILE_NOT_FOUND {
                if self.options & RECYCLE_IGNORE_NOT_FOUND == RECYCLE_IGNORE_NOT_FOUND {
                    let handled = self.cursor + 1;
                    self.settled(handled)
                } else {
                    let path = self.paths[self.cursor].clone();
                    self.failed(RecycleError::NotFound(path))
                }
            } else {
                let path = self.paths[self.cursor].clone();
                self.failed(RecycleError::InvalidPath(path, InvalidPathCause::Platform(status)))
            },
            Phase::Queuing => if status >= 0 {
                let handled = self.cursor + 1;
                let phase = if handled < self.paths.len() {
                    Phase::Resolving
                } else if self.with_sink {
                    Phase::Attaching
                } else {
                    Phase::Executing
                };
                let mut queued = self.queued;
                queued.push(self.cursor);
                RecycleBatch {
                    paths: self.paths,
                    options: self.options,
                    with_sink: self.with_sink,
                    phase,
                    cursor: handled,
                    queued,
                }
            } else {
                self.failed(RecycleError::Win32(status))
            },
            Phase::Attaching => if status >= 0 {
                self.in_phase(Phase::Executing)
            } else {
                self.failed(RecycleError::Win32(status))
            },
            Phase::Executing => if status >= 0 {
                self.in_phase(Phase::CheckingAborted)
            } else if status == CANCELLED || status == COPYENGINE_E_USER_CANCELLED {
                self.failed(RecycleError::Canceled)
            } else {
                self.failed(RecycleError::Win32(status))
            },
            _ => self,
        }
    }

    /// Takes the reply to the call that [`RecycleBatch::step`] asked for and
    /// decides what follows.
    pub fn advance(self, reply: Reply) -> (next: RecycleBatch)
        ensures
            next@ == spec_advance(self@, reply@),
            batch_wf(next@),
    {
        proof {
            use_type_invariant(&self);
            lemma_advance_keeps_wf(self@, reply@);
        }
        match reply {
            Reply::Status(status) => self.after_status(status),
            Reply::Resolved(resolved) => match &self.phase {
                Phase::Resolving => match resolved {
                    Ok(absolute) => self.in_phase(Phase::Parsing(absolute)),
                    Err(message) => {
                        let path = self.paths[self.cursor].clone();
                        self.failed(RecycleError::InvalidPath(path, InvalidPathCause::Io(message)))
                    },
                },
                _ => self,
            },
            Reply::Aborted(aborted) => match &self.phase {
                Phase::CheckingAborted => match aborted {
                    Ok(true) => self.failed(RecycleError::Canceled),
                    Ok(false) => RecycleBatch {
                        paths: self.paths,
                        options: self.options,
                        with_sink: self.with_sink,
                        phase: Phase::Verifying,
                        cursor: 0,
                        queued: self.queued,
                    },
                    Err(status) => self.failed(RecycleError::Win32(status)),
                },
                _ => self,
            },
            Reply::Exists(exists) => match &self.phase {
                Phase::Verifying => if exists {
                    self.failed(RecycleError::Unknown)
                } else if self.cursor + 1 < self.queued.len() {
                    RecycleBatch {
                        paths: self.paths,
                        options: self.options,
                        with_sink: self.with_sink,
                        phase: Phase::Verifying,
                        cursor: self.cursor + 1,
                        queued: self.queued,
                    }
                } else {
                    self.in_phase(Phase::Finished(Ok(())))
                },
                _ => self,
            },
        }
    }
}

/// Whatever the reply, a batch stays well formed.
pub proof fn lemma_advance_keeps_wf(batch: BatchModel, reply: ReplyModel)
    requires
        batch_wf(batch),
    ensures
        batch_wf(spec_advance(batch, reply)),
{
}

} // verus!
