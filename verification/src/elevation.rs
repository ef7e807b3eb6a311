//! Making a file executable, one decision at a time.
//!
//! Changing a mode takes two trips to the file system: one to read the mode
//! as it now is, one to write the raised mode. The caller makes the trips and
//! reports each outcome as an [`Event`]; the file answers with the next
//! [`Action`].

use crate::mode::{elevated, lemma_elevated_from_plain};
use crate::sfile::SFileView;
use vstd::prelude::*;

verus! {

/// What the caller reports.
#[derive(Clone, Copy, Debug, PartialEq, Eq, Structural)]
pub enum Event {
    /// The file is to be made executable.
    Requested,
    /// The mode of the file as it now stands.
    ModeRead(u32),
    /// The mode handed out by `Action::WriteMode` now stands.
    ModeWritten,
    /// The mode could not be read or written.
    Failed,
}

/// What the caller is to do next.
#[derive(Clone, Copy, Debug, PartialEq, Eq, Structural)]
pub enum Action {
    /// Nothing is left to do: the file is executable.
    Finish,
    /// Read the file's mode and report it.
    ReadMode,
    /// Give the file this mode and report the outcome.
    WriteMode(u32),
    /// Give up and pass the failure on.
    Abort,
}

/// The file with its flag set.
pub open spec fn marked(file: SFileView) -> SFileView {
    SFileView { executable: true, ..file }
}

/// The file after `event`, and the answer to it.
pub open spec fn step(file: SFileView, event: Event) -> (SFileView, Action) {
    match event {
        Event::Requested => if file.executable {
            (file, Action::Finish)
        } else {
            (file, Action::ReadMode)
        },
        Event::ModeRead(mode) => (file, Action::WriteMode(elevated(mode))),
        Event::ModeWritten => (marked(file), Action::Finish),
        Event::Failed => (file, Action::Abort),
    }
}

/// A whole request on a file whose mode on disk is `disk`, with every trip
/// to the file system succeeding: the file and the mode on disk afterwards.
pub open spec fn completed(file: SFileView, disk: u32) -> (SFileView, u32) {
    let (asked, first) = step(file, Event::Requested);
    match first {
        Action::ReadMode => {
            let (read, second) = step(asked, Event::ModeRead(disk));
            match second {
                Action::WriteMode(mode) => (step(read, Event::ModeWritten).0, mode),
                _ => (read, disk),
            }
        },
        _ => (asked, disk),
    }
}

/// A request on an executable file touches nothing; on any other file it
/// raises the mode on disk and sets the flag.
pub proof fn lemma_completed(file: SFileView, disk: u32)
    ensures
        file.executable ==> completed(file, disk) == (file, disk),
        !file.executable ==> completed(file, disk) == (marked(file), elevated(disk)),
        completed(file, disk).0.executable,
{
}

/// A second request in succession changes neither the file nor the mode on
/// disk.
pub proof fn lemma_completed_twice(file: SFileView, disk: u32)
    ensures
        ({
            let once = completed(file, disk);
            completed(once.0, once.1) == once
        }),
{
}

/// No event takes the flag away, and none touches the interpreter line or
/// the body.
pub proof fn lemma_step_keeps(file: SFileView, event: Event)
    ensures
        file.executable ==> step(file, event).0.executable,
        step(file, event).0.shebang == file.shebang,
        step(file, event).0.contents == file.contents,
        step(file, event).0.well_formed() == file.well_formed(),
{
}

/// A failed trip leaves the file as it was.
pub proof fn lemma_failure_changes_nothing(file: SFileView)
    ensures
        step(file, Event::Failed) == (file, Action::Abort),
{
}

/// On a file that nobody could execute, a request leaves the flag set and
/// the execute bits on disk equal to the read bits that stood there.
pub proof fn lemma_completed_from_plain(file: SFileView, disk: u32)
    requires
        !file.executable,
        disk & 0o111u32 == 0u32,
    ensures
        completed(file, disk).0.executable,
        completed(file, disk).1 & 0o111u32 == (disk & 0o444u32) >> 2u32,
{
    lemma_elevated_from_plain(disk);
}

} // verus!
