use random_wallpaper::error::RunError;
use random_wallpaper::notice::{
    get_file_name, no_candidates_notice, send_notification, send_wallpaper_changed_notification,
    wallpaper_changed_notice, Notice, APP_NAME, EXPIRE_TIME, WARNING_ICON,
};

#[test]
fn notice_constants() {
    assert_eq!(APP_NAME, "Random Wallpaper");
    assert_eq!(EXPIRE_TIME, 3000);
    assert_eq!(WARNING_ICON, "dialog-warning");
}

#[test]
fn ordinary_notice_expires() {
    let notice = send_notification("body text", "/w/icon.png", false);
    assert_eq!(
        notice,
        Notice {
            summary: "Random Wallpaper".to_string(),
            body: "body text".to_string(),
            icon: "/w/icon.png".to_string(),
            timeout: 3000,
            resident: false,
        }
    );
}

#[test]
fn sticky_notice_stays() {
    let notice = send_notification("body text", "dialog-warning", true);
    assert_eq!(
        notice,
        Notice {
            summary: "Random Wallpaper".to_string(),
            body: "body text".to_string(),
            icon: "dialog-warning".to_string(),
            timeout: i32::MAX,
            resident: true,
        }
    );
}

#[test]
fn no_candidates_notice_names_the_directory() {
    let notice = no_candidates_notice("/home/u/Pictures/wallpapers");
    assert_eq!(
        notice,
        Notice {
            summary: "Random Wallpaper".to_string(),
            body: "No images found in /home/u/Pictures/wallpapers".to_string(),
            icon: "dialog-warning".to_string(),
            timeout: 2147483647,
            resident: true,
        }
    );
}

#[test]
fn changed_notice_shows_name_and_image() {
    let notice = wallpaper_changed_notice("sunset.png", "/w/sunset.png");
    assert_eq!(
        notice,
        Notice {
            summary: "Random Wallpaper".to_string(),
            body: "sunset.png".to_string(),
            icon: "/w/sunset.png".to_string(),
            timeout: 3000,
            resident: false,
        }
    );
}

#[test]
fn file_name_is_the_last_component() {
    assert_eq!(get_file_name("/w/sunset.png"), Ok("sunset.png".to_string()));
    assert_eq!(get_file_name("sunset.png"), Ok("sunset.png".to_string()));
    assert_eq!(get_file_name("/w/nested/dir/"), Ok("dir".to_string()));
    assert_eq!(get_file_name("/w/no extension"), Ok("no extension".to_string()));
}

#[test]
fn path_without_a_file_name_is_a_failure() {
    assert_eq!(get_file_name("/"), Err(RunError::MissingFileName { path: "/".to_string() }));
    assert_eq!(
        get_file_name("/w/.."),
        Err(RunError::MissingFileName { path: "/w/..".to_string() })
    );
    assert_eq!(get_file_name(""), Err(RunError::MissingFileName { path: String::new() }));
}

#[test]
fn changed_notification_is_built_from_the_path() {
    assert_eq!(
        send_wallpaper_changed_notification("/w/sunset.png"),
        Ok(Notice {
            summary: "Random Wallpaper".to_string(),
            body: "sunset.png".to_string(),
            icon: "/w/sunset.png".to_string(),
            timeout: 3000,
            resident: false,
        })
    );
}

#[test]
fn changed_notification_needs_a_file_name() {
    assert_eq!(
        send_wallpaper_changed_notification("/w/.."),
        Err(RunError::MissingFileName { path: "/w/..".to_string() })
    );
}
