// The engine is driven here by a shell that lives in memory: it keeps a set
// of existing items, answers every call that a batch asks for, and removes
// what was queued when the batch is executed.

use wsl_tools::hresult::{
    from_win32, CANCELLED, COPYENGINE_E_ACCESS_DENIED_SRC, COPYENGINE_E_USER_CANCELLED,
    ERROR_INVALID_PARAMETER, FILE_NOT_FOUND, RPC_E_CHANGED_MODE,
};
use wsl_tools::recycle_bin::{
    operation_flags, recycle, recycle_with_callback, RecycleBatch, RecycleOptions, Reply, Step,
    BACKGROUND_FLAGS, NORMAL_FLAGS, RECYCLE_DANGEROUSLY_IN_BACKGROUND, RECYCLE_IGNORE_NOT_FOUND,
    RECYCLE_NORMAL,
};
use wsl_tools::recycle_error::{InvalidPathCause, RecycleError};
use wsl_tools::recycle_progress_sink::{post_delete_item, ItemReport};

const CURRENT_DIR: &str = r"C:\Temp";

struct Shell {
    /// Absolute paths of the items that exist.
    existing: Vec<String>,
    /// Status with which executing answers.
    execute_status: i32,
    /// What the shell says when asked whether anything was aborted.
    aborted: bool,
    /// Whether executing removes the queued items, or only claims to.
    removes: bool,
    /// Status of the delete attempt that is reported for every item.
    item_status: i32,
    /// The flags that were set on the operation.
    flags: Option<u32>,
    /// Absolute paths marked for deletion.
    queue: Vec<String>,
    /// The item created last.
    item: Option<String>,
    /// How often the batch was executed.
    executions: u32,
    /// Whether a sink was attached.
    sink: bool,
    /// What the sink handed to the callback.
    reports: Vec<ItemReport>,
    /// Every step that the batch asked for.
    steps: Vec<String>,
}

impl Shell {
    fn new(existing: &[&str]) -> Shell {
        Shell {
            existing: existing.iter().map(|p| absolute(p).unwrap()).collect(),
            execute_status: 0,
            aborted: false,
            removes: true,
            item_status: 0,
            flags: None,
            queue: Vec::new(),
            item: None,
            executions: 0,
            sink: false,
            reports: Vec::new(),
            steps: Vec::new(),
        }
    }

    fn has(&self, path: &str) -> bool {
        match absolute(path) {
            Ok(full) => self.existing.contains(&full),
            Err(_) => false,
        }
    }

    fn answer(&mut self, step: Step) -> Reply {
        match step {
            Step::InitializeSession(model) => {
                assert_eq!(model, 0x2 | 0x4);
                Reply::Status(0)
            }
            Step::CreateOperation => Reply::Status(0),
            Step::SetOperationFlags(flags) => {
                self.flags = Some(flags);
                Reply::Status(0)
            }
            Step::ResolvePath(path) => Reply::Resolved(absolute(&path)),
            Step::CreateShellItem(full) => {
                if full.contains('?') || full.contains('<') || full.contains('>') {
                    Reply::Status(from_win32(ERROR_INVALID_PARAMETER))
                } else if self.existing.contains(&full) {
                    self.item = Some(full);
                    Reply::Status(0)
                } else {
                    Reply::Status(FILE_NOT_FOUND)
                }
            }
            Step::QueueDeletion => {
                let item = self.item.take().expect("an item was created");
                self.queue.push(item);
                Reply::Status(0)
            }
            Step::AttachSink => {
                self.sink = true;
                Reply::Status(0)
            }
            Step::Execute => {
                self.executions += 1;
                assert!(!self.queue.is_empty(), "an empty operation must not be executed");
                if self.execute_status < 0 {
                    return Reply::Status(self.execute_status);
                }
                for item in self.queue.clone() {
                    if self.removes && self.item_status >= 0 {
                        self.existing.retain(|p| *p != item);
                    }
                    if self.sink {
                        let report = post_delete_item(Ok(item), self.item_status, false);
                        self.reports.push(report);
                    }
                }
                Reply::Status(self.execute_status)
            }
            Step::QueryAborted => Reply::Aborted(Ok(self.aborted)),
            Step::CheckExists(path) => Reply::Exists(self.has(&path)),
            Step::Finish(_) => unreachable!("a finished batch asks for nothing"),
        }
    }

    fn run(&mut self, batch: RecycleBatch) -> Result<(), RecycleError> {
        let mut batch = batch;
        loop {
            let step = batch.step();
            self.steps.push(format!("{step:?}"));
            if let Step::Finish(result) = step {
                assert!(batch.is_finished());
                return result;
            }
            assert!(!batch.is_finished());
            let reply = self.answer(step);
            batch = batch.advance(reply);
        }
    }

    fn recycle(&mut self, paths: &[&str], options: RecycleOptions) -> Result<(), RecycleError> {
        self.run(recycle(owned(paths), options))
    }
}

fn owned(paths: &[&str]) -> Vec<String> {
    paths.iter().map(|p| p.to_string()).collect()
}

fn absolute(path: &str) -> Result<String, String> {
    if path.is_empty() {
        Err("cannot make an empty path absolute".to_string())
    } else if path.starts_with(r"C:\") || path.starts_with(r"\\") {
        Ok(path.to_string())
    } else {
        Ok(format!("{CURRENT_DIR}\\{path}"))
    }
}

#[test]
fn recycles_relative_paths() {
    let mut shell = Shell::new(&[
        r"C:\Temp\recycles_relative_paths\file.txt",
        r"C:\Temp\recycles_relative_paths.txt",
    ]);
    assert!(shell.has(r"recycles_relative_paths\file.txt"));
    assert!(shell.has("recycles_relative_paths.txt"));

    let result = shell.recycle(
        &[r"recycles_relative_paths\file.txt", "recycles_relative_paths.txt"],
        RECYCLE_NORMAL,
    );

    assert_eq!(result, Ok(()));
    assert!(!shell.has(r"recycles_relative_paths\file.txt"));
    assert!(!shell.has("recycles_relative_paths.txt"));
}

#[test]
fn recycles_absolute_paths() {
    let subdir = r"C:\Temp\recycles_absolute_paths";
    let curdir_file = r"C:\Temp\recycles_absolute_paths.txt";
    let mut shell = Shell::new(&[subdir, curdir_file]);
    assert!(shell.has(subdir));
    assert!(shell.has(curdir_file));

    let result = shell.recycle(&[subdir, curdir_file], RECYCLE_NORMAL);

    assert_eq!(result, Ok(()));
    assert!(!shell.has(subdir));
    assert!(!shell.has(curdir_file));
    assert_eq!(shell.executions, 1);
}

#[test]
fn supports_unicode() {
    let file = "C:\\Temp\\ユニコードを対応する.テスト";
    let mut shell = Shell::new(&[file]);
    assert!(shell.has(file));

    let result = shell.recycle(&[file], RECYCLE_NORMAL);

    assert_eq!(result, Ok(()));
    assert!(!shell.has(file));
}

#[test]
fn errors_if_not_found() {
    let file = "does-not-exist.txt";
    let mut shell = Shell::new(&[]);
    assert!(!shell.has(file));

    let err = shell.recycle(&[file], RECYCLE_NORMAL).expect_err("should not have succeeded");

    if let RecycleError::NotFound(str) = err {
        assert_eq!(str, file);
    } else {
        panic!("was expecting NotFound but got {err:?}");
    }
}

#[test]
fn errors_if_invalid_path() {
    // making an empty path absolute fails
    let mut shell = Shell::new(&[]);
    let err = shell
        .recycle(&[""], RECYCLE_NORMAL)
        .expect_err("empty string should not have succeeded");

    assert!(
        matches!(err, RecycleError::InvalidPath(_, InvalidPathCause::Io(_))),
        "was expecting InvalidPath(_, Io) for empty string but got {err:?}"
    );

    // the shell refuses to parse a path with invalid characters
    let err = shell
        .recycle(&["foo?"], RECYCLE_NORMAL)
        .expect_err("foo? should not have succeeded");

    match err {
        RecycleError::InvalidPath(ref path, InvalidPathCause::Platform(code)) => {
            assert_eq!(path, "foo?");
            assert_eq!(code, from_win32(ERROR_INVALID_PARAMETER));
        }
        _ => panic!("was expecting InvalidPath(_, Platform) for foo? but got {err:?}"),
    }
    assert_eq!(shell.executions, 0);
}

#[test]
fn invalid_characters_differ_from_empty_path() {
    let mut shell = Shell::new(&[]);
    let empty = shell.recycle(&[""], RECYCLE_NORMAL).unwrap_err();
    let invalid = shell.recycle(&["path/with/invalid<>chars"], RECYCLE_NORMAL).unwrap_err();
    assert_eq!(
        empty,
        RecycleError::InvalidPath(
            "".to_string(),
            InvalidPathCause::Io("cannot make an empty path absolute".to_string())
        )
    );
    assert_eq!(
        invalid,
        RecycleError::InvalidPath(
            "path/with/invalid<>chars".to_string(),
            InvalidPathCause::Platform(-2147024809)
        )
    );
    assert_ne!(empty, invalid);
}

#[test]
fn option_to_ignore_not_found() {
    let exists_1 = r"C:\Temp\option_to_ignore_not_found_1.test";
    let exists_2 = r"C:\Temp\option_to_ignore_not_found_2.test";
    let not_exist = r"C:\Temp\option_to_ignore_not_found_3.test";
    let mut shell = Shell::new(&[exists_1, exists_2]);

    assert!(shell.has(exists_1));
    assert!(shell.has(exists_2));
    assert!(!shell.has(not_exist));

    shell
        .recycle(&[exists_1, not_exist, exists_2], RECYCLE_IGNORE_NOT_FOUND)
        .expect("should not have failed due to option_to_ignore_not_found_3.test missing");

    assert!(
        !shell.has(exists_1) && !shell.has(exists_2),
        "the files that did exist should have been recycled"
    );
    assert_eq!(shell.queue, vec![exists_1.to_string(), exists_2.to_string()]);
}

#[test]
fn does_nothing_if_nothing_to_do() {
    // Check with empty paths
    let mut shell = Shell::new(&[]);
    shell
        .recycle(&[], RECYCLE_NORMAL)
        .expect("if paths is empty, it should not execute the operation");
    assert_eq!(shell.executions, 0);

    // Check with ignore not found and only nonexistent files
    let not_exist = r"C:\Temp\does_nothing_if_nothing_to_do.test";
    assert!(!shell.has(not_exist));
    shell
        .recycle(&[not_exist], RECYCLE_IGNORE_NOT_FOUND)
        .expect("if all of the paths were ignored, it should not execute the operation");
    assert_eq!(shell.executions, 0);
}

#[test]
fn empty_batch_is_a_no_op_whatever_the_options() {
    for options in 0..=255u8 {
        let mut shell = Shell::new(&[r"C:\Temp\kept.txt"]);
        assert_eq!(shell.recycle(&[], options), Ok(()));
        assert_eq!(shell.executions, 0);
        assert!(shell.has(r"C:\Temp\kept.txt"));
        assert_eq!(
            shell.steps,
            vec![
                "InitializeSession(6)".to_string(),
                "CreateOperation".to_string(),
                format!("SetOperationFlags({})", operation_flags(options)),
                "Finish(Ok(()))".to_string(),
            ]
        );
    }
}

#[test]
fn option_to_silently_nuke() {
    // an item in a location that has no recycle bin
    let file = r"\\wsl.localhost\Arch\tmp\IF_DIALOG_APPEARS_PRESS_NO_TEST_HAS_FAILED";
    let mut shell = Shell::new(&[file]);
    assert!(shell.has(file));

    let result = shell.recycle(&[file], RECYCLE_DANGEROUSLY_IN_BACKGROUND);

    assert_eq!(result, Ok(()));
    assert_eq!(shell.flags, Some(0x4 | 0x400 | 0x10 | 0x80000));
    assert!(!shell.has(file));
}

#[test]
fn options_can_be_combined() {
    let name = "IF_DIALOG_APPEARS_PRESS_NO_TEST_HAS_FAILED-2";
    let exists = format!(r"\\wsl.localhost\Arch\tmp\{name}");
    let not_exist = exists.replace(name, "DOES_NOT_EXIST");
    let mut shell = Shell::new(&[&exists]);

    assert!(shell.has(&exists));
    assert!(!shell.has(&not_exist));

    let result = shell.recycle(
        &[&exists, &not_exist],
        RECYCLE_DANGEROUSLY_IN_BACKGROUND | RECYCLE_IGNORE_NOT_FOUND,
    );

    assert_eq!(result, Ok(()));
    assert_eq!(shell.flags, Some(BACKGROUND_FLAGS));
    assert!(!shell.has(&exists));
}

#[test]
fn fires_callback() {
    let file = r"C:\Temp\fires_callback.test";
    let mut shell = Shell::new(&[file]);

    let result = shell.run(recycle_with_callback(owned(&[file]), RECYCLE_NORMAL));

    assert_eq!(result, Ok(()));
    assert!(shell.sink);
    assert_eq!(shell.reports.len(), 1);
    assert!(shell.reports[0].error.is_none());
    assert_eq!(file, shell.reports[0].path);
    assert!(!shell.has(file));
}

#[test]
fn no_sink_is_attached_without_a_callback() {
    let file = r"C:\Temp\quiet.test";
    let mut shell = Shell::new(&[file]);
    assert_eq!(shell.recycle(&[file], RECYCLE_NORMAL), Ok(()));
    assert!(!shell.sink);
    assert!(shell.reports.is_empty());
    assert_eq!(
        shell.steps,
        vec![
            "InitializeSession(6)".to_string(),
            "CreateOperation".to_string(),
            format!("SetOperationFlags({NORMAL_FLAGS})"),
            format!("ResolvePath({file:?})"),
            format!("CreateShellItem({file:?})"),
            "QueueDeletion".to_string(),
            "Execute".to_string(),
            "QueryAborted".to_string(),
            format!("CheckExists({file:?})"),
            "Finish(Ok(()))".to_string(),
        ]
    );
}

#[test]
fn not_found_aborts_before_anything_is_removed() {
    let existing = r"C:\Temp\stays.txt";
    let missing = r"C:\Temp\missing.txt";

    let mut shell = Shell::new(&[existing]);
    let err = shell.recycle(&[existing, missing], RECYCLE_NORMAL).unwrap_err();
    assert_eq!(err, RecycleError::NotFound(missing.to_string()));
    assert_eq!(shell.executions, 0);
    assert!(shell.has(existing));
    assert_eq!(shell.queue, vec![existing.to_string()]);

    let mut shell = Shell::new(&[existing]);
    let err = shell.recycle(&[missing, existing], RECYCLE_NORMAL).unwrap_err();
    assert_eq!(err, RecycleError::NotFound(missing.to_string()));
    assert_eq!(shell.executions, 0);
    assert!(shell.has(existing));
    assert!(shell.queue.is_empty());
}

#[test]
fn recycling_twice_reports_not_found() {
    let paths = [r"C:\Temp\a.txt", r"C:\Temp\dir", "relative.txt"];
    let mut shell = Shell::new(&paths);
    assert_eq!(shell.recycle(&paths, RECYCLE_NORMAL), Ok(()));
    for path in paths {
        assert!(!shell.has(path));
        assert_eq!(
            shell.recycle(&[path], RECYCLE_NORMAL),
            Err(RecycleError::NotFound(path.to_string()))
        );
    }
    assert_eq!(shell.executions, 1);
}

#[test]
fn silent_failure_is_unknown() {
    let file = r"\\wsl.localhost\Arch\root\owned-by-root";
    let mut shell = Shell::new(&[file]);
    shell.removes = false;
    let result = shell.run(recycle_with_callback(owned(&[file]), RECYCLE_NORMAL));
    assert_eq!(result, Err(RecycleError::Unknown));
    assert_eq!(shell.reports.len(), 1);
    assert_eq!(shell.reports[0].error, None);
    assert!(shell.has(file));
}

#[test]
fn second_of_two_still_there_is_unknown() {
    let first = r"C:\Temp\first";
    let second = r"C:\Temp\second";
    let mut batch = recycle(owned(&[first, second]), RECYCLE_NORMAL);
    for reply in [
        Reply::Status(0),
        Reply::Status(1),
        Reply::Status(0),
        Reply::Resolved(Ok(first.to_string())),
        Reply::Status(0),
        Reply::Status(0),
        Reply::Resolved(Ok(second.to_string())),
        Reply::Status(0),
        Reply::Status(0),
    ] {
        batch = batch.advance(reply);
    }
    assert_eq!(batch.step(), Step::Execute);
    assert_eq!(batch.queued_paths(), vec![first.to_string(), second.to_string()]);
    batch = batch.advance(Reply::Status(0));
    assert_eq!(batch.step(), Step::QueryAborted);
    batch = batch.advance(Reply::Aborted(Ok(false)));
    assert_eq!(batch.step(), Step::CheckExists(first.to_string()));
    batch = batch.advance(Reply::Exists(false));
    assert_eq!(batch.step(), Step::CheckExists(second.to_string()));
    batch = batch.advance(Reply::Exists(true));
    assert_eq!(batch.step(), Step::Finish(Err(RecycleError::Unknown)));
    batch = batch.advance(Reply::Exists(false));
    assert_eq!(batch.step(), Step::Finish(Err(RecycleError::Unknown)));
}

#[test]
fn canceled_by_the_user() {
    let file = r"C:\Temp\canceled.txt";
    for status in [CANCELLED, COPYENGINE_E_USER_CANCELLED] {
        let mut shell = Shell::new(&[file]);
        shell.execute_status = status;
        assert_eq!(shell.recycle(&[file], RECYCLE_NORMAL), Err(RecycleError::Canceled));
    }
}

#[test]
fn aborted_operations_are_canceled() {
    let file = r"C:\Temp\skipped.txt";
    let mut shell = Shell::new(&[file]);
    shell.aborted = true;
    shell.item_status = COPYENGINE_E_ACCESS_DENIED_SRC;
    let result = shell.run(recycle_with_callback(owned(&[file]), RECYCLE_NORMAL));
    assert_eq!(result, Err(RecycleError::Canceled));
    assert_eq!(
        shell.reports,
        vec![ItemReport { path: file.to_string(), error: Some(RecycleError::AccessDenied) }]
    );
}

#[test]
fn other_execute_failure_is_a_platform_error() {
    let file = r"C:\Temp\failed.txt";
    let mut shell = Shell::new(&[file]);
    shell.execute_status = -2147418113; // 0x8000FFFF, catastrophic failure
    assert_eq!(shell.recycle(&[file], RECYCLE_NORMAL), Err(RecycleError::Win32(-2147418113)));
    assert!(shell.has(file));
}

#[test]
fn failing_platform_calls_end_the_batch() {
    let file = r"C:\Temp\file.txt";
    let failure = -2147467259; // 0x80004005

    let batch = recycle(owned(&[file]), RECYCLE_NORMAL).advance(Reply::Status(failure));
    assert_eq!(batch.step(), Step::Finish(Err(RecycleError::Win32(failure))));

    let batch = recycle(owned(&[file]), RECYCLE_NORMAL)
        .advance(Reply::Status(0))
        .advance(Reply::Status(failure));
    assert_eq!(batch.step(), Step::Finish(Err(RecycleError::Win32(failure))));

    let batch = recycle(owned(&[file]), RECYCLE_NORMAL)
        .advance(Reply::Status(0))
        .advance(Reply::Status(0))
        .advance(Reply::Status(failure));
    assert_eq!(batch.step(), Step::Finish(Err(RecycleError::Win32(failure))));

    let queuing = || {
        recycle_with_callback(owned(&[file]), RECYCLE_NORMAL)
            .advance(Reply::Status(0))
            .advance(Reply::Status(0))
            .advance(Reply::Status(0))
            .advance(Reply::Resolved(Ok(file.to_string())))
            .advance(Reply::Status(0))
    };
    assert_eq!(queuing().step(), Step::QueueDeletion);
    let batch = queuing().advance(Reply::Status(failure));
    assert_eq!(batch.step(), Step::Finish(Err(RecycleError::Win32(failure))));

    let batch = queuing().advance(Reply::Status(0));
    assert_eq!(batch.step(), Step::AttachSink);
    let batch = batch.advance(Reply::Status(failure));
    assert_eq!(batch.step(), Step::Finish(Err(RecycleError::Win32(failure))));

    let batch = queuing()
        .advance(Reply::Status(0))
        .advance(Reply::Status(0))
        .advance(Reply::Status(0));
    assert_eq!(batch.step(), Step::QueryAborted);
    let batch = batch.advance(Reply::Aborted(Err(failure)));
    assert_eq!(batch.step(), Step::Finish(Err(RecycleError::Win32(failure))));
}

#[test]
fn session_of_another_model_is_an_error() {
    let batch = recycle(owned(&["a"]), RECYCLE_NORMAL).advance(Reply::Status(RPC_E_CHANGED_MODE));
    assert_eq!(batch.step(), Step::Finish(Err(RecycleError::Win32(RPC_E_CHANGED_MODE))));
    assert_eq!(RPC_E_CHANGED_MODE as u32, 0x8001_0106);
}

#[test]
fn session_initialized_before_is_no_error() {
    let first = recycle(owned(&["a"]), RECYCLE_NORMAL).advance(Reply::Status(0));
    let again = recycle(owned(&["a"]), RECYCLE_NORMAL).advance(Reply::Status(1));
    assert_eq!(first.step(), Step::CreateOperation);
    assert_eq!(again.step(), Step::CreateOperation);
}

#[test]
fn replies_of_another_kind_change_nothing() {
    let batch = recycle(owned(&["a"]), RECYCLE_NORMAL);
    let batch = batch.advance(Reply::Exists(true));
    assert_eq!(batch.step(), Step::InitializeSession(6));
    let batch = batch.advance(Reply::Resolved(Ok("x".to_string())));
    assert_eq!(batch.step(), Step::InitializeSession(6));
    let batch = batch.advance(Reply::Aborted(Ok(true)));
    assert_eq!(batch.step(), Step::InitializeSession(6));
    let batch = batch
        .advance(Reply::Status(0))
        .advance(Reply::Status(0))
        .advance(Reply::Status(0));
    assert_eq!(batch.step(), Step::ResolvePath("a".to_string()));
    let batch = batch.advance(Reply::Status(0));
    assert_eq!(batch.step(), Step::ResolvePath("a".to_string()));
}

#[test]
fn operation_flags_follow_the_options() {
    assert_eq!(operation_flags(RECYCLE_NORMAL), 0x2008_0000);
    assert_eq!(operation_flags(RECYCLE_IGNORE_NOT_FOUND), 0x2008_0000);
    assert_eq!(operation_flags(RECYCLE_DANGEROUSLY_IN_BACKGROUND), 0x0008_0414);
    assert_eq!(
        operation_flags(RECYCLE_DANGEROUSLY_IN_BACKGROUND | RECYCLE_IGNORE_NOT_FOUND),
        0x0008_0414
    );
}
