use std::collections::HashMap;

use file_swap::helper::{helper_args, interpret_outcome, HelperOutcome};
use file_swap::pipeline::{Action, Batch, Failure, RunResult, Stage, Task};

type Disk = HashMap<String, Vec<u8>>;

/// Paths whose copy, removal or helper rename is made to fail.
#[derive(Default)]
struct Faults<'a> {
    copy: &'a [&'a str],
    remove: &'a [&'a str],
    rename: &'a [&'a str],
}

/// Performs `action` on an in-memory disk; a failed helper run returns
/// `helper_stderr`.
fn perform(disk: &mut Disk, action: &Action, fail: &Faults, helper_stderr: &str) -> bool {
    match action {
        Action::Duplicate { source, dest } => {
            if fail.copy.contains(&source.as_str()) {
                disk.insert(dest.clone(), Vec::new());
                return false;
            }
            match disk.get(source).cloned() {
                Some(bytes) => {
                    disk.insert(dest.clone(), bytes);
                    true
                }
                None => false,
            }
        }
        Action::RemoveOriginal { path } => {
            if fail.remove.contains(&path.as_str()) {
                return false;
            }
            disk.remove(path).is_some()
        }
        Action::InvokeHelper { source, dest } => {
            let args = helper_args(source, dest);
            let outcome = if fail.rename.contains(&args[3].as_str()) {
                HelperOutcome::Exited {
                    success: false,
                    stdout: String::new(),
                    stderr: helper_stderr.to_string(),
                }
            } else {
                match disk.remove(&args[1]) {
                    Some(bytes) => {
                        disk.insert(args[3].clone(), bytes);
                        HelperOutcome::Exited { success: true, stdout: String::new(), stderr: String::new() }
                    }
                    None => HelperOutcome::Exited {
                        success: false,
                        stdout: String::new(),
                        stderr: "no such file".to_string(),
                    },
                }
            };
            interpret_outcome(outcome).is_ok()
        }
    }
}

fn run(disk: &mut Disk, files: Vec<&str>, fail: &Faults) -> Vec<(String, RunResult)> {
    let mut batch = Batch::new(files.into_iter().map(|s| s.to_string()).collect());
    let mut results = Vec::new();
    while let Some(action) = batch.next_action() {
        let ok = perform(disk, &action, fail, "access denied");
        if let Some(done) = batch.report(ok) {
            results.push(done);
        }
    }
    assert!(batch.is_finished());
    results
}

fn disk_of(files: &[(&str, &str)]) -> Disk {
    files.iter().map(|(p, c)| (p.to_string(), c.as_bytes().to_vec())).collect()
}

#[test]
fn task_steps_in_order() {
    let mut t = Task::new("f".to_string());
    assert_eq!(t.temp, "f.temp");
    assert!(matches!(t.action(), Some(Action::Duplicate { ref source, ref dest }) if source == "f" && dest == "f.temp"));
    t.advance(true);
    assert_eq!(t.stage, Stage::Duplicated);
    assert!(matches!(t.action(), Some(Action::RemoveOriginal { ref path }) if path == "f"));
    t.advance(true);
    assert_eq!(t.stage, Stage::OriginalRemoved);
    assert!(matches!(t.action(), Some(Action::InvokeHelper { ref source, ref dest }) if source == "f.temp" && dest == "f"));
    assert_eq!(t.result(), None);
    t.advance(true);
    assert_eq!(t.stage, Stage::Renamed);
    assert!(t.action().is_none());
    assert_eq!(t.result(), Some(RunResult::Success));
}

#[test]
fn task_failures_end_the_task() {
    let mut t = Task::new("f".to_string());
    t.advance(false);
    assert_eq!(t.result(), Some(RunResult::Failed(Failure::CopyFailed)));
    t.advance(true);
    assert_eq!(t.stage, Stage::Failed(Failure::CopyFailed));
    let mut u = Task::new("g".to_string());
    u.advance(true);
    u.advance(false);
    assert_eq!(u.result(), Some(RunResult::Failed(Failure::RemoveFailed)));
}

#[test]
fn successful_run_preserves_content() {
    let mut disk = disk_of(&[("/r/a.txt", "hello"), ("/r/b.bin", "\u{1}\u{2}")]);
    let before = disk.clone();
    let results = run(&mut disk, vec!["/r/a.txt", "/r/b.bin"], &Faults::default());
    assert_eq!(results.len(), 2);
    assert!(results.iter().all(|(_, r)| *r == RunResult::Success));
    assert_eq!(disk, before);
}

#[test]
fn scenario_program_binary_untouched() {
    let mut disk = disk_of(&[("/r/a.txt", "hello"), ("/r/tool", "binary")]);
    let results = run(&mut disk, vec!["/r/a.txt"], &Faults::default());
    assert_eq!(results, vec![("/r/a.txt".to_string(), RunResult::Success)]);
    assert_eq!(disk.get("/r/a.txt").unwrap(), b"hello");
    assert_eq!(disk.get("/r/tool").unwrap(), b"binary");
    assert!(!disk.contains_key("/r/tool.temp"));
    assert_eq!(disk.len(), 2);
}

#[test]
fn copy_failure_keeps_original() {
    let mut disk = disk_of(&[("/r/a", "data")]);
    let results = run(&mut disk, vec!["/r/a"], &Faults { copy: &["/r/a"], ..Faults::default() });
    assert_eq!(results, vec![("/r/a".to_string(), RunResult::Failed(Failure::CopyFailed))]);
    assert_eq!(disk.get("/r/a").unwrap(), b"data");
}

#[test]
fn remove_failure_keeps_original_and_duplicate() {
    let mut disk = disk_of(&[("/r/a", "data")]);
    let mut batch = Batch::new(vec!["/r/a".to_string()]);
    let a1 = batch.next_action().unwrap();
    assert!(perform(&mut disk, &a1, &Faults::default(), ""));
    assert_eq!(batch.report(true), None);
    assert!(matches!(batch.next_action(), Some(Action::RemoveOriginal { .. })));
    let done = batch.report(false);
    assert_eq!(done, Some(("/r/a".to_string(), RunResult::Failed(Failure::RemoveFailed))));
    assert_eq!(disk.get("/r/a").unwrap(), b"data");
    assert_eq!(disk.get("/r/a.temp").unwrap(), b"data");
    assert_eq!(batch.failed, 1);
    assert!(batch.next_action().is_none());
}

#[test]
fn scenario_helper_denied_then_continues() {
    let mut disk = disk_of(&[("/r/locked.dat", "secret"), ("/r/z.txt", "zzz")]);
    let results = run(&mut disk, vec!["/r/locked.dat", "/r/z.txt"], &Faults { rename: &["/r/locked.dat"], ..Faults::default() });
    assert_eq!(
        results,
        vec![
            ("/r/locked.dat".to_string(), RunResult::Failed(Failure::RenameFailed)),
            ("/r/z.txt".to_string(), RunResult::Success),
        ]
    );
    assert!(!disk.contains_key("/r/locked.dat"));
    assert_eq!(disk.get("/r/locked.dat.temp").unwrap(), b"secret");
    assert_eq!(disk.get("/r/z.txt").unwrap(), b"zzz");
    let denied = HelperOutcome::Exited {
        success: false,
        stdout: String::new(),
        stderr: "access denied".to_string(),
    };
    let err = interpret_outcome(denied).err().unwrap();
    assert!(err.detail().contains("access denied"));
}

#[test]
fn direct_rename_moves_bytes() {
    let mut disk = disk_of(&[("A", "bytes")]);
    let ok = perform(
        &mut disk,
        &Action::InvokeHelper { source: "A".to_string(), dest: "C".to_string() },
        &Faults::default(),
        "",
    );
    assert!(ok);
    assert_eq!(disk.get("C").unwrap(), b"bytes");
    assert!(!disk.contains_key("A"));
}

#[test]
fn batch_counts_and_empty_list() {
    let mut empty = Batch::new(Vec::new());
    assert!(empty.is_finished());
    assert!(empty.next_action().is_none());
    let mut disk = disk_of(&[("a", "1"), ("b", "2"), ("c", "3")]);
    let mut batch = Batch::new(vec!["a".to_string(), "b".to_string(), "c".to_string()]);
    while let Some(action) = batch.next_action() {
        let ok = perform(&mut disk, &action, &Faults { remove: &["b"], ..Faults::default() }, "x");
        batch.report(ok);
    }
    assert_eq!(batch.succeeded, 2);
    assert_eq!(batch.failed, 1);
    assert_eq!(batch.next, 3);
}
