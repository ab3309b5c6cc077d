use random_wallpaper::error::RunError;

#[test]
fn message_of_an_unreadable_directory() {
    let error = RunError::DirectoryUnreadable { directory: "/w".to_string() };
    assert_eq!(error.message(), "Failed to open /w");
}

#[test]
fn message_of_an_unreadable_memory() {
    let error = RunError::MemoryUnreadable { cache_file: "/home/u/.wallpaper".to_string() };
    assert_eq!(error.message(), "Failed to read cache file /home/u/.wallpaper.");
}

#[test]
fn message_of_a_memory_that_cannot_be_created() {
    let error = RunError::MemoryCreateFailed { cache_file: "/home/u/.wallpaper".to_string() };
    assert_eq!(error.message(), "Failed to create cache file /home/u/.wallpaper.");
}

#[test]
fn message_of_a_memory_that_cannot_be_written() {
    let error = RunError::MemoryWriteFailed { cache_file: "/home/u/.wallpaper".to_string() };
    assert_eq!(error.message(), "Failed to update cache in /home/u/.wallpaper");
}

#[test]
fn message_of_a_command_that_did_not_start() {
    let error = RunError::CommandFailed { command: "swww".to_string() };
    assert_eq!(error.message(), "Failed to execute swww.");
}

#[test]
fn message_of_a_path_without_a_file_name() {
    let error = RunError::MissingFileName { path: "/w/..".to_string() };
    assert_eq!(error.message(), "Failed to get file name from /w/...");
}
