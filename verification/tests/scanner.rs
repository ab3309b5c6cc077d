use random_wallpaper::error::RunError;
use random_wallpaper::scanner::{
    is_image, is_image_extension, same_text, scan_directory, DirectoryEntry, DirectoryListing,
};

fn entry(path: &str, is_file: bool) -> DirectoryEntry {
    DirectoryEntry { path: path.to_string(), is_file }
}

#[test]
fn lower_case_image_extensions_qualify() {
    assert!(is_image("/w/a.jpg"));
    assert!(is_image("/w/a.jpeg"));
    assert!(is_image("/w/a.png"));
    assert!(is_image("/w/a.gif"));
    assert!(is_image("/w/a.bmp"));
}

#[test]
fn wrong_or_missing_extensions_do_not_qualify() {
    assert!(!is_image("a.txt"));
    assert!(!is_image("b"));
    assert!(!is_image("c.PNG"));
    assert!(!is_image("/w/d.Jpg"));
    assert!(!is_image("/w/e.webp"));
    assert!(!is_image("/w/f.png.bak"));
}

#[test]
fn only_the_final_extension_counts() {
    assert!(is_image("/w/archive.tar.png"));
    assert!(!is_image("/w/picture.png.txt"));
    assert!(!is_image("/w.png/picture"));
}

#[test]
fn hidden_files_and_empty_paths_have_no_extension() {
    assert!(!is_image(""));
    assert!(!is_image(".png"));
    assert!(!is_image("/w/.jpg"));
    assert!(!is_image("/w/picture."));
    assert!(is_image("/w/.hidden.jpg"));
}

#[test]
fn extension_allow_list_is_exact() {
    assert!(is_image_extension(Some("jpg")));
    assert!(is_image_extension(Some("jpeg")));
    assert!(is_image_extension(Some("png")));
    assert!(is_image_extension(Some("gif")));
    assert!(is_image_extension(Some("bmp")));
    assert!(!is_image_extension(Some("JPG")));
    assert!(!is_image_extension(Some("pn")));
    assert!(!is_image_extension(Some("pngs")));
    assert!(!is_image_extension(Some("")));
    assert!(!is_image_extension(None));
}

#[test]
fn same_text_compares_characters() {
    assert!(same_text("", ""));
    assert!(same_text("sunset.png", "sunset.png"));
    assert!(!same_text("sunset.png", "sunset.pn"));
    assert!(!same_text("a", "A"));
}

#[test]
fn scan_keeps_regular_image_files_in_listing_order() {
    let listing = DirectoryListing::Entries(vec![
        entry("/w/z.png", true),
        entry("/w/notes.txt", true),
        entry("/w/folder.jpg", false),
        entry("/w/a.gif", true),
        entry("/w/README", true),
        entry("/w/c.PNG", true),
        entry("/w/m.bmp", true),
    ]);
    let scan = scan_directory("/w", &listing);
    assert_eq!(
        scan,
        Ok(vec!["/w/z.png".to_string(), "/w/a.gif".to_string(), "/w/m.bmp".to_string()])
    );
}

#[test]
fn scan_of_an_empty_directory_is_empty() {
    let listing = DirectoryListing::Entries(vec![]);
    assert_eq!(scan_directory("/w", &listing), Ok(vec![]));
}

#[test]
fn scan_of_an_unreadable_directory_fails_with_its_name() {
    let scan = scan_directory("/nowhere", &DirectoryListing::Unreadable);
    assert_eq!(scan, Err(RunError::DirectoryUnreadable { directory: "/nowhere".to_string() }));
}
