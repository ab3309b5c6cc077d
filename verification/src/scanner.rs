//! The directory scanner: which entries of a listing qualify as images.

use vstd::prelude::*;
use crate::error::RunError;
use crate::paths::{extension, extension_of};

verus! {

/// One entry found directly inside the wallpaper directory.
#[derive(Debug, PartialEq, Eq)]
pub struct DirectoryEntry {
    /// The entry's full path.
    pub path: String,
    /// Whether the entry is a regular file.
    pub is_file: bool,
}

/// What opening the wallpaper directory gave.
#[derive(Debug, PartialEq, Eq)]
pub enum DirectoryListing {
    /// The directory does not exist or may not be read.
    Unreadable,
    /// The entries directly inside the directory, in the order they were met.
    Entries(Vec<DirectoryEntry>),
}

/// The characters of each string of a sequence.
pub open spec fn texts(strings: Seq<String>) -> Seq<Seq<char>> {
    strings.map_values(|text: String| text@)
}

/// Whether two texts hold the same characters.
pub fn same_text(left: &str, right: &str) -> (same: bool)
    ensures
        same == (left@ == right@),
{
    left.to_owned() == right.to_owned()
}

/// The allow-list of image extensions: lower case only.
pub open spec fn is_image_extension_spec(found: Option<Seq<char>>) -> bool {
    match found {
        Some(text) => text == "jpg"@ || text == "jpeg"@ || text == "png"@ || text == "gif"@
            || text == "bmp"@,
        None => false,
    }
}

/// Whether a path names an image, judged by its extension alone.
pub open spec fn is_image_spec(path: Seq<char>) -> bool {
    is_image_extension_spec(extension(path))
}

/// Whether an entry is a qualifying image: a regular file with an image extension.
pub open spec fn qualifies(entry: DirectoryEntry) -> bool {
    entry.is_file && is_image_spec(entry.path@)
}

/// The paths of the qualifying images of a listing, in listing order.
pub open spec fn images(entries: Seq<DirectoryEntry>) -> Seq<Seq<char>> {
    entries.filter(qualifying()).map_values(|entry: DirectoryEntry| entry.path@)
}

/// The test that an entry is a qualifying image.
pub open spec fn qualifying() -> spec_fn(DirectoryEntry) -> bool {
    |entry: DirectoryEntry| qualifies(entry)
}

/// Decides whether an extension, if there is one, is on the allow-list.
pub fn is_image_extension(found: Option<&str>) -> (image: bool)
    ensures
        image == is_image_extension_spec(
            match found {
                Some(text) => Some(text@),
                None => None,
            },
        ),
{
    match found {
        Some(text) => same_text(text, "jpg") || same_text(text, "jpeg") || same_text(text, "png")
            || same_text(text, "gif") || same_text(text, "bmp"),
        None => false,
    }
}

/// Decides whether a path names an image: its extension is one of `jpg`,
/// `jpeg`, `png`, `gif`, `bmp`, in exactly that spelling.
pub fn is_image(path: &str) -> (image: bool)
    ensures
        image == is_image_spec(path@),
{
    match extension_of(path) {
        Some(found) => is_image_extension(Some(found.as_str())),
        None => false,
    }
}

/// Lists the qualifying images of a directory: the regular files whose
/// extension is on the allow-list, in listing order. Entries of any other kind
/// are left out without complaint. A directory that could not be opened is a
/// failure that names the directory.
pub fn scan_directory(directory: &str, listing: &DirectoryListing) -> (scan: Result<
    Vec<String>,
    RunError,
>)
    ensures
        match (listing, scan) {
            (DirectoryListing::Unreadable, Err(RunError::DirectoryUnreadable { directory: named })) => {
                named@ == directory@
            },
            (DirectoryListing::Entries(entries), Ok(found)) => texts(found@) == images(entries@),
            _ => false,
        },
{
    match listing {
        DirectoryListing::Unreadable => Err(
            RunError::DirectoryUnreadable { directory: directory.to_owned() },
        ),
        DirectoryListing::Entries(entries) => {
            let mut found: Vec<String> = Vec::new();
            let mut index: usize = 0;
            while index < entries.len()
                invariant
                    index <= entries.len(),
                    texts(found@) == images(entries@.take(index as int)),
                decreases entries.len() - index,
            {
                let entry = &entries[index];
                let ghost seen = entries@.take(index as int);
                let ghost before = found@;
                if entry.is_file && is_image(entry.path.as_str()) {
                    found.push(entry.path.clone());
                }
                proof {
                    assert(entries@.take(index + 1) == seen.push(entries@[index as int]));
                    seen.lemma_filter_push(entries@[index as int], qualifying());
                    let kept = seen.filter(qualifying());
                    if qualifies(entries@[index as int]) {
                        assert(texts(found@) =~= texts(before).push(entries@[index as int].path@));
                        assert(kept.push(entries@[index as int]).map_values(
                            |entry: DirectoryEntry| entry.path@,
                        ) =~= kept.map_values(|entry: DirectoryEntry| entry.path@).push(
                            entries@[index as int].path@,
                        ));
                    }
                }
                index += 1;
            }
            proof {
                assert(entries@.take(index as int) == entries@);
            }
            Ok(found)
        },
    }
}

} // verus!
