//! One run, up to the point where the change command is started.

use vstd::prelude::*;
use crate::applier::{arguments_spec, wallpaper_changer_arguments};
use crate::config::Configuration;
use crate::error::RunError;
use crate::memory::{get_previously_used_wallpaper, MemoryRecord};
use crate::notice::{no_candidates_notice, no_candidates_text, Notice, WARNING_ICON};
use crate::picker::{get_possible_wallpapers, lemma_pool_excludes_previous, pick_wallpaper, pool, Pick};
use crate::scanner::{images, texts, DirectoryListing};

verus! {

/// What a run that met no failure has decided.
#[derive(Debug, PartialEq, Eq)]
pub enum Selection {
    /// No image is left to choose from. The run shows the notice and ends
    /// normally.
    NoCandidates { notice: Notice },
    /// An image was chosen. The run starts the change command with these
    /// arguments.
    Selected { path: String, arguments: Vec<String> },
}

/// Decides what a run does with what it found: the state of the memory and
/// the listing of the wallpaper directory.
///
/// The memory is consulted first and the directory second, and a failure of
/// either ends the run. Otherwise the pool is the qualifying images without
/// the previous selection. An empty pool is reported; it is never answered by
/// repeating the previous image. From any other pool one member is drawn.
pub fn select_wallpaper(
    configuration: &Configuration,
    record: &MemoryRecord,
    listing: &DirectoryListing,
) -> (selection: Result<Selection, RunError>)
    ensures
        match (record.previous(), listing) {
            (None, _) => selection matches Err(RunError::MemoryUnreadable { cache_file })
                && cache_file@ == configuration.cache_file@,
            (Some(_), DirectoryListing::Unreadable) => selection matches Err(
                RunError::DirectoryUnreadable { directory },
            ) && directory@ == configuration.wallpaper_directory@,
            (Some(previous), DirectoryListing::Entries(entries)) => {
                let candidates = pool(images(entries@), previous);
                match selection {
                    Ok(Selection::NoCandidates { notice }) => candidates.len() == 0
                        && notice.describes(
                        no_candidates_text(configuration.wallpaper_directory@),
                        WARNING_ICON@,
                        true,
                    ),
                    Ok(Selection::Selected { path, arguments }) => candidates.contains(path@)
                        && path@ != previous && texts(arguments@) == arguments_spec(path@),
                    Err(_) => false,
                }
            },
        },
{
    let previous = match get_previously_used_wallpaper(configuration.cache_file.as_str(), record) {
        Ok(previous) => previous,
        Err(error) => {
            return Err(error);
        },
    };
    let possible = match get_possible_wallpapers(
        previous.as_str(),
        configuration.wallpaper_directory.as_str(),
        listing,
    ) {
        Ok(possible) => possible,
        Err(error) => {
            return Err(error);
        },
    };
    match pick_wallpaper(&possible) {
        Pick::NoCandidates => Ok(
            Selection::NoCandidates {
                notice: no_candidates_notice(configuration.wallpaper_directory.as_str()),
            },
        ),
        Pick::Chosen(path) => {
            proof {
                lemma_pool_excludes_previous(images(listing->Entries_0@), previous@);
            }
            let arguments = wallpaper_changer_arguments(path.as_str());
            Ok(Selection::Selected { path, arguments })
        },
    }
}

} // verus!
