//! The applier: what to hand to the change command, and what follows from
//! the way it ended.

use vstd::prelude::*;
use vstd::utf8::encode_utf8;
use crate::error::RunError;
use crate::memory::{update_cache, MemoryRecord};
use crate::notice::{send_wallpaper_changed_notification, Notice};
use crate::paths::path_file_name;
use crate::scanner::texts;

verus! {

/// The subcommand of the change command that sets an image.
pub const SUBCOMMAND: &'static str = "img";

/// The transition effect.
pub const TRANSITION_TYPE: &'static str = "any";

/// The transition step.
pub const TRANSITION_STEP: &'static str = "30";

/// The transition duration, in seconds.
pub const TRANSITION_DURATION: &'static str = "3";

/// The transition frame rate.
pub const TRANSITION_FPS: &'static str = "165";

/// How the change command ended.
#[derive(Debug, Clone, Copy, PartialEq, Eq)]
pub enum CommandOutcome {
    /// The command could not be started at all.
    NotStarted,
    /// The command ran and exited, with or without success.
    Exited { success: bool },
}

/// What a run has to do once the change command has ended.
#[derive(Debug, PartialEq, Eq)]
pub enum Applied {
    /// The command reported failure: nothing is recorded and nothing is
    /// announced, and the run ends without a failure of its own.
    Unchanged,
    /// The background changed: first `record` replaces the content of the
    /// memory file, then the notice is shown, or the run is aborted for want
    /// of a file name to show.
    Changed { record: Vec<u8>, notice: Result<Notice, RunError> },
}

/// The arguments of the change command for an image: the subcommand, the four
/// transition settings as flag and value, and the image path last.
pub open spec fn arguments_spec(selected_file: Seq<char>) -> Seq<Seq<char>> {
    seq![
        SUBCOMMAND@,
        "--transition-type"@,
        TRANSITION_TYPE@,
        "--transition-step"@,
        TRANSITION_STEP@,
        "--transition-duration"@,
        TRANSITION_DURATION@,
        "--transition-fps"@,
        TRANSITION_FPS@,
        selected_file,
    ]
}

/// Builds the argument list with which the change command is started.
pub fn wallpaper_changer_arguments(selected_file: &str) -> (arguments: Vec<String>)
    ensures
        texts(arguments@) == arguments_spec(selected_file@),
{
    let mut arguments: Vec<String> = Vec::new();
    arguments.push(SUBCOMMAND.to_owned());
    arguments.push("--transition-type".to_owned());
    arguments.push(TRANSITION_TYPE.to_owned());
    arguments.push("--transition-step".to_owned());
    arguments.push(TRANSITION_STEP.to_owned());
    arguments.push("--transition-duration".to_owned());
    arguments.push(TRANSITION_DURATION.to_owned());
    arguments.push("--transition-fps".to_owned());
    arguments.push(TRANSITION_FPS.to_owned());
    arguments.push(selected_file.to_owned());
    assert(texts(arguments@) =~= arguments_spec(selected_file@));
    arguments
}

/// Whether `notice` is what announcing `selected_file` yields: the notice
/// with the file's name as body and the file as icon, or the failure that
/// names the path where it has no file name.
pub open spec fn announces(notice: Result<Notice, RunError>, selected_file: Seq<char>) -> bool {
    match notice {
        Ok(built) => path_file_name(selected_file) matches Some(name) && built.describes(
            name,
            selected_file,
            false,
        ),
        Err(RunError::MissingFileName { path }) => path_file_name(selected_file) is None && path@
            == selected_file,
        Err(_) => false,
    }
}

/// Decides what follows from the end of the change command.
///
/// A command that could not be started is a failure that names the command.
/// One that exited without success leaves the memory exactly as it was and
/// announces nothing. Only after success is the selection recorded, and only
/// then is the change announced.
pub fn apply_new_wallpaper(
    record: &mut MemoryRecord,
    command: &str,
    outcome: CommandOutcome,
    selected_file: &str,
) -> (applied: Result<Applied, RunError>)
    ensures
        match outcome {
            CommandOutcome::NotStarted => *final(record) == *old(record) && (applied matches Err(
                RunError::CommandFailed { command: named },
            ) && named@ == command@),
            CommandOutcome::Exited { success: false } => *final(record) == *old(record) && applied
                == Ok::<Applied, RunError>(Applied::Unchanged),
            CommandOutcome::Exited { success: true } => final(record).holds(selected_file@) && (
            applied matches Ok(Applied::Changed { record: bytes, notice }) && bytes@ == encode_utf8(
                selected_file@,
            ) && announces(notice, selected_file@)),
        },
{
    match outcome {
        CommandOutcome::NotStarted => Err(RunError::CommandFailed { command: command.to_owned() }),
        CommandOutcome::Exited { success } => {
            if success {
                let bytes = update_cache(record, selected_file);
                let notice = send_wallpaper_changed_notification(selected_file);
                Ok(Applied::Changed { record: bytes, notice })
            } else {
                Ok(Applied::Unchanged)
            }
        },
    }
}

} // verus!
