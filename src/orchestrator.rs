//! The decisions of a run: which mode an invocation selects, what single-file
//! mode does with a file's text, the steps of one in-place rewrite, and the
//! counters of a recursive run. Reading, copying and writing files is left to
//! the caller, which performs each action and reports back what happened.
use vstd::prelude::*;
use crate::transform::{byte_len, remove_emojis, stripped};

verus! {

/// How an invocation proceeds.
#[derive(Clone, Copy, Debug, PartialEq, Eq, Structural)]
pub enum Mode {
    /// One file is read and its stripped text previewed, saved or printed.
    SingleFile,
    /// Every markdown file under a directory is rewritten in place.
    Recursive,
}

/// An invocation that cannot start.
#[derive(Clone, Copy, Debug, PartialEq, Eq, Structural)]
pub enum ConfigError {
    /// Recursive mode was asked for on a path that is not a directory.
    NotADirectory,
}

/// Chooses the mode; recursive mode needs `path_is_dir`.
pub fn select_mode(recursive: bool, path_is_dir: bool) -> (r: Result<Mode, ConfigError>)
    ensures
        !recursive ==> r == Ok::<Mode, ConfigError>(Mode::SingleFile),
        recursive && path_is_dir ==> r == Ok::<Mode, ConfigError>(Mode::Recursive),
        recursive && !path_is_dir ==> r == Err::<Mode, ConfigError>(ConfigError::NotADirectory),
{
    if !recursive {
        Ok(Mode::SingleFile)
    } else if path_is_dir {
        Ok(Mode::Recursive)
    } else {
        Err(ConfigError::NotADirectory)
    }
}

/// What single-file mode does once the file's text is read.
pub enum SingleAction {
    /// Dry run: report the lengths in bytes, write nothing.
    Preview { original_len: usize, cleaned_len: usize },
    /// Write the stripped text to the alternate output path.
    Save(String),
    /// Write the stripped text to standard output.
    Print(String),
}

/// Plans single-file mode for a file holding `content`.
pub fn plan_single(content: &str, dry_run: bool, has_output: bool) -> (r: SingleAction)
    ensures
        dry_run ==> (r matches SingleAction::Preview { original_len, cleaned_len }
            && original_len == byte_len(content@) as usize
            && cleaned_len == byte_len(stripped(content@)) as usize),
        !dry_run && has_output ==> (r matches SingleAction::Save(t) && t@ == stripped(content@)),
        !dry_run && !has_output ==> (r matches SingleAction::Print(t) && t@ == stripped(content@)),
{
    let cleaned = remove_emojis(content);
    if dry_run {
        SingleAction::Preview { original_len: content.len(), cleaned_len: cleaned.as_str().len() }
    } else if has_output {
        SingleAction::Save(cleaned)
    } else {
        SingleAction::Print(cleaned)
    }
}

/// Whether a directory entry with file extension `ext` is rewritten: only the
/// exact, case-sensitive extension `md` is.
pub fn is_markdown(ext: Option<&str>) -> (r: bool)
    ensures
        r == (ext matches Some(e) && e@ == seq!['m', 'd']),
{
    match ext {
        None => false,
        Some(e) => {
            if e.unicode_len() != 2 {
                false
            } else {
                let first = e.get_char(0);
                let second = e.get_char(1);
                proof {
                    if first == 'm' && second == 'd' {
                        assert(e@ == seq!['m', 'd']);
                    }
                }
                first == 'm' && second == 'd'
            }
        },
    }
}

/// The name of the backup copy of the markdown file named `name`: the name
/// with `.bak` appended (`notes.md` gives `notes.md.bak`).
pub fn backup_file_name(name: &str) -> (r: String)
    ensures
        r@ == name@ + seq!['.', 'b', 'a', 'k'],
{
    let mut r = name.to_owned();
    r.append(".bak");
    proof {
        reveal_strlit(".bak");
    }
    r
}

/// Why one file of a recursive run failed.
#[derive(Clone, Copy, Debug, PartialEq, Eq, Structural)]
pub enum FileError {
    /// The file could not be read as text.
    Read,
    /// The backup copy could not be made; the file was left as it was.
    Backup,
    /// The stripped text could not be written over the file.
    Write,
}

/// How the rewrite of one file ended.
#[derive(Clone, Copy, Debug, PartialEq, Eq, Structural)]
pub enum FileOutcome {
    /// Dry run: the lengths in bytes before and after, nothing written.
    Previewed { original_len: usize, cleaned_len: usize },
    /// The file now holds its stripped text.
    Rewritten,
    /// The attempt failed at the given step.
    Failed(FileError),
}

/// What the caller reports after performing the last action.
pub enum FileEvent {
    /// The file was read; its text.
    Loaded(String),
    /// The file could not be read as text.
    LoadFailed,
    /// The backup copy exists.
    BackupMade,
    /// The backup copy could not be made.
    BackupFailed,
    /// The stripped text was written over the file.
    Written,
    /// The stripped text could not be written.
    WriteFailed,
}

/// What the caller is to do next.
pub enum FileAction {
    /// Copy the file, unchanged, to its backup path.
    CopyToBackup,
    /// Write this text over the file.
    Overwrite(String),
    /// Stop: the attempt ended so.
    Finish(FileOutcome),
}

/// Where the rewrite of one file stands.
pub enum FileStage {
    /// Waiting for the file's text.
    Reading,
    /// Waiting for the backup copy; the stripped text to write after it.
    BackingUp(String),
    /// Waiting for the write of the stripped text.
    Writing,
    /// Ended.
    Done,
}

impl FileStage {
    /// Whether `event` answers the action that led to this stage.
    pub open spec fn expects(&self, event: FileEvent) -> bool {
        match self {
            FileStage::Reading => event is Loaded || event is LoadFailed,
            FileStage::BackingUp(_) => event is BackupMade || event is BackupFailed,
            FileStage::Writing => event is Written || event is WriteFailed,
            FileStage::Done => false,
        }
    }

    /// Executable form of `expects`.
    pub fn accepts(&self, event: &FileEvent) -> (r: bool)
        ensures
            r == self.expects(*event),
    {
        match self {
            FileStage::Reading => matches!(event, FileEvent::Loaded(_) | FileEvent::LoadFailed),
            FileStage::BackingUp(_) => matches!(event, FileEvent::BackupMade | FileEvent::BackupFailed),
            FileStage::Writing => matches!(event, FileEvent::Written | FileEvent::WriteFailed),
            FileStage::Done => false,
        }
    }
}

/// One step of rewriting a file in place: from the stage and what the last
/// action gave, the next stage and action. Read, then strip; a dry run stops
/// there with the lengths; otherwise the backup, when asked for, is made and
/// confirmed before the file is overwritten, and a failed backup ends the
/// attempt with the file untouched.
pub fn step(stage: FileStage, event: FileEvent, dry_run: bool, backup: bool) -> (r: (
    FileStage,
    FileAction,
))
    requires
        stage.expects(event),
    ensures
        event matches FileEvent::Loaded(text) ==> {
            &&& dry_run ==> (r.1 matches FileAction::Finish(
                FileOutcome::Previewed { original_len, cleaned_len },
            ) && original_len == byte_len(text@) as usize && cleaned_len == byte_len(
                stripped(text@),
            ) as usize && r.0 is Done)
            &&& !dry_run && backup ==> (r.0 matches FileStage::BackingUp(t) && t@ == stripped(
                text@,
            ) && r.1 is CopyToBackup)
            &&& !dry_run && !backup ==> (r.1 matches FileAction::Overwrite(t) && t@ == stripped(
                text@,
            ) && r.0 is Writing)
        },
        event is LoadFailed ==> r.0 is Done && r.1 == FileAction::Finish(
            FileOutcome::Failed(FileError::Read),
        ),
        event is BackupMade ==> (stage matches FileStage::BackingUp(t) && r.0 is Writing
            && r.1 == FileAction::Overwrite(t)),
        event is BackupFailed ==> r.0 is Done && r.1 == FileAction::Finish(
            FileOutcome::Failed(FileError::Backup),
        ),
        event is Written ==> r.0 is Done && r.1 == FileAction::Finish(FileOutcome::Rewritten),
        event is WriteFailed ==> r.0 is Done && r.1 == FileAction::Finish(
            FileOutcome::Failed(FileError::Write),
        ),
{
    match event {
        FileEvent::Loaded(text) => {
            let cleaned = remove_emojis(text.as_str());
            if dry_run {
                let outcome = FileOutcome::Previewed {
                    original_len: text.as_str().len(),
                    cleaned_len: cleaned.as_str().len(),
                };
                (FileStage::Done, FileAction::Finish(outcome))
            } else if backup {
                (FileStage::BackingUp(cleaned), FileAction::CopyToBackup)
            } else {
                (FileStage::Writing, FileAction::Overwrite(cleaned))
            }
        },
        FileEvent::LoadFailed => (FileStage::Done, FileAction::Finish(FileOutcome::Failed(FileError::Read))),
        FileEvent::BackupMade => match stage {
            FileStage::BackingUp(cleaned) => (FileStage::Writing, FileAction::Overwrite(cleaned)),
            _ => (FileStage::Done, FileAction::Finish(FileOutcome::Failed(FileError::Backup))),
        },
        FileEvent::BackupFailed => (FileStage::Done, FileAction::Finish(FileOutcome::Failed(FileError::Backup))),
        FileEvent::Written => (FileStage::Done, FileAction::Finish(FileOutcome::Rewritten)),
        FileEvent::WriteFailed => (FileStage::Done, FileAction::Finish(FileOutcome::Failed(FileError::Write))),
    }
}

/// The counters of a recursive run.
#[derive(Clone, Copy, Debug, PartialEq, Eq, Structural)]
pub struct RunReport {
    /// Files whose attempt ended without error.
    pub processed: usize,
    /// Files whose attempt failed.
    pub errors: usize,
}

impl RunReport {
    /// A report with nothing counted.
    pub fn new() -> (r: RunReport)
        ensures
            r.processed == 0 && r.errors == 0,
    {
        RunReport { processed: 0, errors: 0 }
    }

    /// Counts one file's outcome: a failure as an error, anything else as
    /// processed.
    pub fn record(&mut self, outcome: &FileOutcome)
        requires
            old(self).processed < usize::MAX,
            old(self).errors < usize::MAX,
        ensures
            outcome is Failed ==> final(self).processed == old(self).processed
                && final(self).errors == old(self).errors + 1,
            !(outcome is Failed) ==> final(self).processed == old(self).processed + 1
                && final(self).errors == old(self).errors,
    {
        match outcome {
            FileOutcome::Failed(_) => self.errors = self.errors + 1,
            _ => self.processed = self.processed + 1,
        }
    }
}

} // verus!
