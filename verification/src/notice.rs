//! The desktop notices that a run shows, as plain values.

use vstd::prelude::*;
use vstd::string::StringExecFns;
use crate::error::RunError;
use crate::paths::{file_name_of, path_file_name};

verus! {

/// The summary line of every notice.
pub const APP_NAME: &'static str = "Random Wallpaper";

/// How long an ordinary notice stays on screen, in milliseconds.
pub const EXPIRE_TIME: i32 = 3000;

/// The icon of the notice that reports an empty pool.
pub const WARNING_ICON: &'static str = "dialog-warning";

/// A desktop notice, ready to be handed to whatever displays it.
#[derive(Debug, PartialEq, Eq)]
pub struct Notice {
    /// The summary line.
    pub summary: String,
    /// The body text.
    pub body: String,
    /// The icon: a file path or an icon name.
    pub icon: String,
    /// The time on screen, in milliseconds.
    pub timeout: i32,
    /// Whether the notice stays until it is dismissed.
    pub resident: bool,
}

impl Notice {
    /// Whether this is the notice with the given body and icon: an ordinary one
    /// expires after `EXPIRE_TIME`, a sticky one stays as long as a timeout can
    /// say and is marked resident.
    pub open spec fn describes(self, body: Seq<char>, icon: Seq<char>, sticky: bool) -> bool {
        &&& self.summary@ == APP_NAME@
        &&& self.body@ == body
        &&& self.icon@ == icon
        &&& self.timeout == if sticky {
            i32::MAX
        } else {
            EXPIRE_TIME
        }
        &&& self.resident == sticky
    }
}

/// The body of the notice that reports an empty pool.
pub open spec fn no_candidates_text(directory: Seq<char>) -> Seq<char> {
    "No images found in "@ + directory
}

/// Builds a notice with this application's summary line.
pub fn send_notification(body: &str, icon: &str, sticky: bool) -> (notice: Notice)
    ensures
        notice.describes(body@, icon@, sticky),
{
    Notice {
        summary: APP_NAME.to_owned(),
        body: body.to_owned(),
        icon: icon.to_owned(),
        timeout: if sticky {
            i32::MAX
        } else {
            EXPIRE_TIME
        },
        resident: sticky,
    }
}

/// Builds the notice for an empty pool: a warning that names the directory
/// and stays on screen, so that it is not missed.
pub fn no_candidates_notice(directory: &str) -> (notice: Notice)
    ensures
        notice.describes(no_candidates_text(directory@), WARNING_ICON@, true),
{
    let body = String::from_str("No images found in ").concat(directory);
    send_notification(body.as_str(), WARNING_ICON, true)
}

/// Builds the notice for a changed background from the file's name and path:
/// the name is the body, the image itself the icon.
pub fn wallpaper_changed_notice(file_name: &str, selected_file: &str) -> (notice: Notice)
    ensures
        notice.describes(file_name@, selected_file@, false),
{
    send_notification(file_name, selected_file, false)
}

/// Extracts the file name of the chosen path. A path without one (the root,
/// or one that ends in `..`) is a failure that names the path.
pub fn get_file_name(selected_file: &str) -> (name: Result<String, RunError>)
    ensures
        match name {
            Ok(found) => path_file_name(selected_file@) == Some(found@),
            Err(RunError::MissingFileName { path }) => path_file_name(selected_file@) is None
                && path@ == selected_file@,
            Err(_) => false,
        },
{
    match file_name_of(selected_file) {
        Some(found) => Ok(found),
        None => Err(RunError::MissingFileName { path: selected_file.to_owned() }),
    }
}

/// Builds the notice for a changed background from the chosen path alone.
pub fn send_wallpaper_changed_notification(selected_file: &str) -> (notice: Result<
    Notice,
    RunError,
>)
    ensures
        match notice {
            Ok(built) => path_file_name(selected_file@) matches Some(name) && built.describes(
                name,
                selected_file@,
                false,
            ),
            Err(RunError::MissingFileName { path }) => path_file_name(selected_file@) is None
                && path@ == selected_file@,
            Err(_) => false,
        },
{
    match get_file_name(selected_file) {
        Ok(name) => Ok(wallpaper_changed_notice(name.as_str(), selected_file)),
        Err(error) => Err(error),
    }
}

} // verus!
