use demoji::orchestrator::{
    backup_file_name, is_markdown, plan_single, select_mode, step, ConfigError, FileAction,
    FileError, FileEvent, FileOutcome, FileStage, Mode, RunReport, SingleAction,
};

/// Drives one file through the steps, answering each action as the flags say.
fn run_file(
    text: Option<&str>,
    backup_ok: bool,
    write_ok: bool,
    dry_run: bool,
    backup: bool,
    written: &mut Option<String>,
    copied: &mut bool,
) -> FileOutcome {
    let mut stage = FileStage::Reading;
    let mut event = match text {
        Some(t) => FileEvent::Loaded(t.to_string()),
        None => FileEvent::LoadFailed,
    };
    loop {
        assert!(stage.accepts(&event));
        let (next, action) = step(stage, event, dry_run, backup);
        stage = next;
        event = match action {
            FileAction::Finish(outcome) => return outcome,
            FileAction::CopyToBackup => {
                if backup_ok {
                    *copied = true;
                    FileEvent::BackupMade
                } else {
                    FileEvent::BackupFailed
                }
            }
            FileAction::Overwrite(t) => {
                if write_ok {
                    *written = Some(t);
                    FileEvent::Written
                } else {
                    FileEvent::WriteFailed
                }
            }
        };
    }
}

#[test]
fn recursive_on_a_file_is_a_config_error() {
    assert_eq!(select_mode(true, false), Err(ConfigError::NotADirectory));
}

#[test]
fn mode_selection() {
    assert_eq!(select_mode(true, true), Ok(Mode::Recursive));
    assert_eq!(select_mode(false, false), Ok(Mode::SingleFile));
    assert_eq!(select_mode(false, true), Ok(Mode::SingleFile));
}

#[test]
fn single_file_dry_run_only_previews() {
    match plan_single("Hi 👋", true, true) {
        SingleAction::Preview { original_len, cleaned_len } => {
            assert_eq!(original_len, 7);
            assert_eq!(cleaned_len, 3);
        }
        _ => panic!("dry run must only preview"),
    }
}

#[test]
fn single_file_saves_or_prints() {
    match plan_single("a🎉b", false, true) {
        SingleAction::Save(t) => assert_eq!(t, "ab"),
        _ => panic!("expected a save"),
    }
    match plan_single("a🎉b", false, false) {
        SingleAction::Print(t) => assert_eq!(t, "ab"),
        _ => panic!("expected a print"),
    }
}

#[test]
fn markdown_selection_is_exact() {
    assert!(is_markdown(Some("md")));
    assert!(!is_markdown(Some("MD")));
    assert!(!is_markdown(Some("markdown")));
    assert!(!is_markdown(Some("m")));
    assert!(!is_markdown(Some("")));
    assert!(!is_markdown(None));
}

#[test]
fn backup_name_appends_suffix() {
    assert_eq!(backup_file_name("notes.md"), "notes.md.bak");
}

#[test]
fn three_files_with_backup() {
    let files = ["one 😀", "two 🚀 x", "three"];
    let mut report = RunReport::new();
    for f in files {
        let mut written = None;
        let mut copied = false;
        let outcome = run_file(Some(f), true, true, false, true, &mut written, &mut copied);
        assert_eq!(outcome, FileOutcome::Rewritten);
        assert!(copied);
        let w = written.unwrap();
        assert!(!w.contains('😀') && !w.contains('🚀'));
        report.record(&outcome);
    }
    assert_eq!(report, RunReport { processed: 3, errors: 0 });
}

#[test]
fn one_unreadable_file_among_five() {
    let files = [Some("a 😀"), Some("b"), None, Some("c 🌍"), Some("d")];
    let mut report = RunReport::new();
    let mut rewritten = Vec::new();
    for f in files {
        let mut written = None;
        let mut copied = false;
        let outcome = run_file(f, true, true, false, false, &mut written, &mut copied);
        if let Some(w) = written {
            rewritten.push(w);
        }
        report.record(&outcome);
    }
    assert_eq!(report.processed, 4);
    assert_eq!(report.errors, 1);
    assert_eq!(rewritten, vec!["a ", "b", "c ", "d"]);
}

#[test]
fn dry_run_never_writes_or_copies() {
    let mut written = None;
    let mut copied = false;
    let outcome = run_file(Some("x 😀"), true, true, true, true, &mut written, &mut copied);
    assert_eq!(outcome, FileOutcome::Previewed { original_len: 6, cleaned_len: 2 });
    assert!(written.is_none());
    assert!(!copied);
}

#[test]
fn failed_backup_leaves_file_untouched() {
    let mut written = None;
    let mut copied = false;
    let outcome = run_file(Some("x 😀"), false, true, false, true, &mut written, &mut copied);
    assert_eq!(outcome, FileOutcome::Failed(FileError::Backup));
    assert!(written.is_none());
}

#[test]
fn failed_write_is_an_error() {
    let mut written = None;
    let mut copied = false;
    let outcome = run_file(Some("x"), true, false, false, false, &mut written, &mut copied);
    assert_eq!(outcome, FileOutcome::Failed(FileError::Write));
    let mut report = RunReport::new();
    report.record(&outcome);
    report.record(&FileOutcome::Previewed { original_len: 1, cleaned_len: 1 });
    assert_eq!(report, RunReport { processed: 1, errors: 1 });
}
