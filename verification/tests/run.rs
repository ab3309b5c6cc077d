use random_wallpaper::config::Configuration;
use random_wallpaper::error::RunError;
use random_wallpaper::memory::MemoryRecord;
use random_wallpaper::notice::Notice;
use random_wallpaper::run::{select_wallpaper, Selection};
use random_wallpaper::scanner::{DirectoryEntry, DirectoryListing};

fn configuration() -> Configuration {
    Configuration {
        cache_file: "/home/u/.wallpaper".to_string(),
        wallpaper_directory: "/w".to_string(),
        change_command: "swww".to_string(),
    }
}

fn listing(paths: &[&str]) -> DirectoryListing {
    DirectoryListing::Entries(
        paths.iter().map(|path| DirectoryEntry { path: path.to_string(), is_file: true }).collect(),
    )
}

fn no_images_notice() -> Notice {
    Notice {
        summary: "Random Wallpaper".to_string(),
        body: "No images found in /w".to_string(),
        icon: "dialog-warning".to_string(),
        timeout: i32::MAX,
        resident: true,
    }
}

#[test]
fn run_with_an_unreadable_memory_fails_first() {
    let selection =
        select_wallpaper(&configuration(), &MemoryRecord::Unreadable, &DirectoryListing::Unreadable);
    assert_eq!(
        selection,
        Err(RunError::MemoryUnreadable { cache_file: "/home/u/.wallpaper".to_string() })
    );
}

#[test]
fn run_with_an_unreadable_directory_fails() {
    let selection =
        select_wallpaper(&configuration(), &MemoryRecord::Missing, &DirectoryListing::Unreadable);
    assert_eq!(selection, Err(RunError::DirectoryUnreadable { directory: "/w".to_string() }));
}

#[test]
fn run_in_an_empty_directory_reports_no_candidates() {
    let selection = select_wallpaper(&configuration(), &MemoryRecord::Missing, &listing(&[]));
    assert_eq!(selection, Ok(Selection::NoCandidates { notice: no_images_notice() }));
}

#[test]
fn run_without_images_reports_no_candidates() {
    let selection = select_wallpaper(
        &configuration(),
        &MemoryRecord::Missing,
        &listing(&["/w/a.txt", "/w/b", "/w/c.PNG"]),
    );
    assert_eq!(selection, Ok(Selection::NoCandidates { notice: no_images_notice() }));
}

#[test]
fn run_never_repeats_the_only_image() {
    let record = MemoryRecord::Stored("/w/only.png".to_string());
    let selection = select_wallpaper(&configuration(), &record, &listing(&["/w/only.png"]));
    assert_eq!(selection, Ok(Selection::NoCandidates { notice: no_images_notice() }));
}

#[test]
fn run_takes_the_only_image_without_a_memory() {
    let selection =
        select_wallpaper(&configuration(), &MemoryRecord::Missing, &listing(&["/w/only.png"]));
    match selection {
        Ok(Selection::Selected { path, arguments }) => {
            assert_eq!(path, "/w/only.png");
            assert_eq!(arguments.len(), 10);
            assert_eq!(arguments[0], "img");
            assert_eq!(arguments[9], "/w/only.png");
        }
        _ => panic!("the only image was not selected"),
    }
}

#[test]
fn run_of_two_images_alternates() {
    let images = listing(&["/w/a.png", "/w/b.png"]);
    let mut record = MemoryRecord::Stored("/w/a.png".to_string());
    for turn in 0..6 {
        let expected = if turn % 2 == 0 { "/w/b.png" } else { "/w/a.png" };
        match select_wallpaper(&configuration(), &record, &images) {
            Ok(Selection::Selected { path, .. }) => {
                assert_eq!(path, expected);
                record = MemoryRecord::Stored(path);
            }
            _ => panic!("one of two images was not selected"),
        }
    }
}

#[test]
fn run_never_selects_the_previous_image() {
    let images = listing(&["/w/a.png", "/w/b.jpg", "/w/c.gif", "/w/notes.txt"]);
    let record = MemoryRecord::Stored("/w/b.jpg".to_string());
    for _ in 0..200 {
        match select_wallpaper(&configuration(), &record, &images) {
            Ok(Selection::Selected { path, .. }) => {
                assert!(path == "/w/a.png" || path == "/w/c.gif");
            }
            _ => panic!("no image was selected from a pool of two"),
        }
    }
}
