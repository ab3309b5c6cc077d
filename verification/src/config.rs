//! The configuration of a run: three values, each an optional override or a
//! fixed default, resolved once and never changed.

use vstd::prelude::*;
use heck::ToShoutySnakeCase;

verus! {

/// The default location of the memory file.
pub const DEFAULT_CACHE_FILE: &'static str = "~/.wallpaper";

/// The default wallpaper directory.
pub const DEFAULT_WALLPAPER_FOLDER: &'static str = "~/Pictures/wallpapers";

/// The default change command.
pub const DEFAULT_WALLPAPER_CHANGER: &'static str = "swww";

/// The settings that an environment variable can override.
#[derive(Debug, Clone, Copy, PartialEq, Eq)]
pub enum EnvVar {
    /// The location of the memory file.
    CacheFile,
    /// The directory that is scanned for images.
    WallpaperFolder,
    /// The name of the change command.
    WallpaperChanger,
}

/// The text that `heck::ToShoutySnakeCase::to_shouty_snake_case` makes of a text.
pub uninterp spec fn shouty_snake_case(text: Seq<char>) -> Seq<char>;

/// Calls `heck::ToShoutySnakeCase::to_shouty_snake_case` on a string slice.
///
/// Trusted: the result is that conversion of `text`, which depends on the
/// text alone.
#[verifier::external_body]
fn to_shouty_snake_case(text: &str) -> (shouted: String)
    ensures
        shouted@ == shouty_snake_case(text@),
{
    text.to_shouty_snake_case()
}

/// Whether `expanded` can be the tilde expansion of `path`. A path is left as
/// it is unless it is a lone `~` or starts with `~` and a separator; such a
/// path is either left as it is too (no home directory is known) or has the
/// `~` replaced, so that the rest of it ends the result.
pub open spec fn tilde_expansion(path: Seq<char>, expanded: Seq<char>) -> bool {
    ||| expanded == path
    ||| {
        &&& path.len() > 0
        &&& path[0] == '~'
        &&& path.len() > 1 ==> path[1] == '/' || path[1] == '\\'
        &&& expanded.len() >= path.len() - 1
        &&& expanded.skip(expanded.len() - (path.len() - 1)) == path.skip(1)
    }
}

/// Calls `shellexpand::tilde`.
///
/// Trusted: the result is the path unchanged, or, for a path that is `~` or
/// starts with `~` and a separator, the home directory followed by the rest of
/// the path. Which home directory, and whether one is found, is for the
/// machine to say.
#[verifier::external_body]
fn expand_tilde(path: &str) -> (expanded: String)
    ensures
        tilde_expansion(path@, expanded@),
{
    shellexpand::tilde(path).into_owned()
}

/// The value of a setting: the override where there is one, else the default.
pub open spec fn value_or_default(env_value: Option<String>, default: Seq<char>) -> Seq<char> {
    match env_value {
        Some(value) => value@,
        None => default,
    }
}

impl EnvVar {
    /// The name of the setting before it is put into the form of an
    /// environment variable.
    pub open spec fn label_spec(self) -> Seq<char> {
        match self {
            EnvVar::CacheFile => "RW_CacheFile"@,
            EnvVar::WallpaperFolder => "RW_WallpaperFolder"@,
            EnvVar::WallpaperChanger => "RW_WallpaperChanger"@,
        }
    }

    /// The setting's name with the application's prefix.
    pub fn label(&self) -> (text: &'static str)
        ensures
            text@ == self.label_spec(),
    {
        match self {
            EnvVar::CacheFile => "RW_CacheFile",
            EnvVar::WallpaperFolder => "RW_WallpaperFolder",
            EnvVar::WallpaperChanger => "RW_WallpaperChanger",
        }
    }

    /// The name of the environment variable that overrides the setting: its
    /// label in upper case with an underscore between the words.
    pub fn to_string(&self) -> (name: String)
        ensures
            name@ == shouty_snake_case(self.label_spec()),
    {
        to_shouty_snake_case(self.label())
    }
}

/// Resolves one setting from its override, if there is one, and its default.
pub fn get_value_from_env_var_or_default(env_value: Option<String>, default: &str) -> (value:
    String)
    ensures
        value@ == value_or_default(env_value, default@),
{
    match env_value {
        Some(value) => value,
        None => default.to_owned(),
    }
}

/// Resolves the location of the memory file, with a leading `~` expanded.
pub fn get_cache_file_path(env_value: Option<String>) -> (path: String)
    ensures
        tilde_expansion(value_or_default(env_value, DEFAULT_CACHE_FILE@), path@),
{
    let path = get_value_from_env_var_or_default(env_value, DEFAULT_CACHE_FILE);
    expand_tilde(path.as_str())
}

/// Resolves the wallpaper directory, with a leading `~` expanded.
pub fn get_wallpaper_directory_path(env_value: Option<String>) -> (path: String)
    ensures
        tilde_expansion(value_or_default(env_value, DEFAULT_WALLPAPER_FOLDER@), path@),
{
    let path = get_value_from_env_var_or_default(env_value, DEFAULT_WALLPAPER_FOLDER);
    expand_tilde(path.as_str())
}

/// The resolved configuration of one run.
#[derive(Debug, PartialEq, Eq)]
pub struct Configuration {
    /// Where the last selection is kept.
    pub cache_file: String,
    /// The directory that is scanned for images.
    pub wallpaper_directory: String,
    /// The command that applies an image.
    pub change_command: String,
}

impl Configuration {
    /// Resolves all three settings from their overrides. The two paths have a
    /// leading `~` expanded; the command name is taken as it stands.
    pub fn resolve(
        cache_file: Option<String>,
        wallpaper_folder: Option<String>,
        wallpaper_changer: Option<String>,
    ) -> (configuration: Configuration)
        ensures
            tilde_expansion(
                value_or_default(cache_file, DEFAULT_CACHE_FILE@),
                configuration.cache_file@,
            ),
            tilde_expansion(
                value_or_default(wallpaper_folder, DEFAULT_WALLPAPER_FOLDER@),
                configuration.wallpaper_directory@,
            ),
            configuration.change_command@ == value_or_default(
                wallpaper_changer,
                DEFAULT_WALLPAPER_CHANGER@,
            ),
    {
        Configuration {
            cache_file: get_cache_file_path(cache_file),
            wallpaper_directory: get_wallpaper_directory_path(wallpaper_folder),
            change_command: get_value_from_env_var_or_default(
                wallpaper_changer,
                DEFAULT_WALLPAPER_CHANGER,
            ),
        }
    }
}

/// A path that does not begin with `~` is never changed by the expansion.
pub proof fn lemma_plain_path_is_kept(path: Seq<char>, expanded: Seq<char>)
    requires
        tilde_expansion(path, expanded),
        path.len() == 0 || path[0] != '~',
    ensures
        expanded == path,
{
}

} // verus!
