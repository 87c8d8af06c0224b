//! Watching for a new game module on Windows: what to make of one answer to
//! a request for the changes in the build's directory.

use vstd::prelude::*;

verus! {

/// The name under which a change of the game module is reported. The length
/// that comes with a report is not to be relied on, and the module's name
/// arrives run together with what the buffer held before.
pub const GAME_LIB_REPORTED_NAME: &'static str = "af.dlladata.";

/// The kind of change that is watched for: a file was last written.
pub const FILE_NOTIFY_CHANGE_LAST_WRITE: i32 = 0x00000010;

/// The bytes of the buffer that the changes are read into.
pub const RESULTS_BUFFER_BYTES: usize = 1024;

/// What the watcher does with an answer.
#[derive(Clone, Copy, Debug, PartialEq, Eq, Structural)]
pub enum WatchAction {
    /// The request failed: report it and ask again.
    ReportFailure,
    /// The answer holds more than one entry, which the watcher cannot read:
    /// it gives up.
    Abort,
    /// The game module changed: tell the host, and ask again.
    SignalReload,
    /// Something else changed: ask again.
    Ignore,
}

/// What to make of an answer: whether the request succeeded, the offset of
/// the entry that follows the first, and the first entry's file name.
pub open spec fn watch_action_of(ok: bool, next_entry_offset: i32, file_name: Seq<char>)
    -> WatchAction {
    if !ok {
        WatchAction::ReportFailure
    } else if next_entry_offset != 0 {
        WatchAction::Abort
    } else if file_name == GAME_LIB_REPORTED_NAME@ {
        WatchAction::SignalReload
    } else {
        WatchAction::Ignore
    }
}

/// Decides what the watcher does with an answer to its request.
pub fn watch_for_updated_game_lib(ok: bool, next_entry_offset: i32, file_name: &String) -> (action:
    WatchAction)
    ensures
        action == watch_action_of(ok, next_entry_offset, file_name@),
{
    if !ok {
        WatchAction::ReportFailure
    } else if next_entry_offset != 0 {
        WatchAction::Abort
    } else {
        let wanted = String::from_str(GAME_LIB_REPORTED_NAME);
        if *file_name == wanted {
            WatchAction::SignalReload
        } else {
            WatchAction::Ignore
        }
    }
}

} // verus!
