//! The settings of the application and the rules for changing one of them.

use crate::text::{join3, str_eq};
use vstd::prelude::*;

verus! {

/// Where add-ons are kept, where the simulator looks for them, and whether a
/// newly installed add-on is enabled at once.
#[derive(Clone, Debug)]
pub struct AppSettings {
    pub addons_dir: String,
    pub community_dir: String,
    pub auto_enable: bool,
}

/// What an `AppSettings` holds, as plain values.
pub struct AppSettingsView {
    pub addons_dir: Seq<char>,
    pub community_dir: Seq<char>,
    pub auto_enable: bool,
}

impl View for AppSettings {
    type V = AppSettingsView;

    open spec fn view(&self) -> AppSettingsView {
        AppSettingsView {
            addons_dir: self.addons_dir@,
            community_dir: self.community_dir@,
            auto_enable: self.auto_enable,
        }
    }
}

/// What the file system holds at a path.
#[derive(Clone, Copy, Debug, PartialEq, Eq, Structural)]
pub enum PathKind {
    Missing,
    File,
    Directory,
}

/// Why a setting was not changed.
#[derive(Clone, Copy, Debug, PartialEq, Eq, Structural)]
pub enum SettingError {
    PathMissing,
    NotADirectory,
    InvalidAutoEnable,
    UnknownKey,
}

/// The text of a `SettingError` for the key and value that were refused.
pub open spec fn setting_error_text(error: SettingError, key: Seq<char>, value: Seq<char>) -> Seq<
    char,
> {
    match error {
        SettingError::PathMissing => "Path '"@ + value + "' does not exist"@,
        SettingError::NotADirectory => "Path '"@ + value + "' is not a directory"@,
        SettingError::InvalidAutoEnable => "Invalid value for auto_enable '"@ + value + "'"@,
        SettingError::UnknownKey => "Unknown setting key '"@ + key + "'"@,
    }
}

impl SettingError {
    /// The error as text, naming the key or the value that was refused.
    pub fn message(&self, key: &str, value: &str) -> (text: String)
        ensures
            text@ == setting_error_text(*self, key@, value@),
    {
        match self {
            SettingError::PathMissing => join3("Path '", value, "' does not exist"),
            SettingError::NotADirectory => join3("Path '", value, "' is not a directory"),
            SettingError::InvalidAutoEnable => join3("Invalid value for auto_enable '", value, "'"),
            SettingError::UnknownKey => join3("Unknown setting key '", key, "'"),
        }
    }
}

/// The directory that a path setting is changed to: `value`, where a
/// directory stands there.
pub open spec fn checked_directory(value: Seq<char>, kind: PathKind) -> Result<
    Seq<char>,
    SettingError,
> {
    match kind {
        PathKind::Missing => Err(SettingError::PathMissing),
        PathKind::File => Err(SettingError::NotADirectory),
        PathKind::Directory => Ok(value),
    }
}

/// The settings after `key` is set to `value`, or why they stay as they are.
/// The two directories must exist, `kind` being what the file system holds at
/// `value`; `auto_enable` takes `true` or `false`; there is no other key.
pub open spec fn updated_settings(
    settings: AppSettingsView,
    key: Seq<char>,
    value: Seq<char>,
    kind: PathKind,
) -> Result<AppSettingsView, SettingError> {
    if key == "addons_dir"@ {
        match checked_directory(value, kind) {
            Ok(dir) => Ok(AppSettingsView { addons_dir: dir, ..settings }),
            Err(e) => Err(e),
        }
    } else if key == "community_dir"@ {
        match checked_directory(value, kind) {
            Ok(dir) => Ok(AppSettingsView { community_dir: dir, ..settings }),
            Err(e) => Err(e),
        }
    } else if key == "auto_enable"@ {
        if value == "true"@ {
            Ok(AppSettingsView { auto_enable: true, ..settings })
        } else if value == "false"@ {
            Ok(AppSettingsView { auto_enable: false, ..settings })
        } else {
            Err(SettingError::InvalidAutoEnable)
        }
    } else {
        Err(SettingError::UnknownKey)
    }
}

/// Accepts `value` as a directory where the file system holds one there.
fn check_directory(value: &str, kind: PathKind) -> (r: Result<String, SettingError>)
    ensures
        match checked_directory(value@, kind) {
            Ok(dir) => r is Ok && r->Ok_0@ == dir,
            Err(e) => r == Err::<String, SettingError>(e),
        },
{
    match kind {
        PathKind::Missing => Err(SettingError::PathMissing),
        PathKind::File => Err(SettingError::NotADirectory),
        PathKind::Directory => Ok(value.to_owned()),
    }
}

impl AppSettings {
    /// Sets the setting named `key` to `value`. `kind` tells what the file
    /// system holds at `value`, and is looked at for the two directories only.
    /// A refused change leaves the settings as they were.
    pub fn update_setting(&mut self, key: &str, value: &str, kind: PathKind) -> (r: Result<
        (),
        SettingError,
    >)
        ensures
            match updated_settings(old(self)@, key@, value@, kind) {
                Ok(settings) => r is Ok && final(self)@ == settings,
                Err(e) => r == Err::<(), SettingError>(e) && final(self)@ == old(self)@,
            },
    {
        if str_eq(key, "addons_dir") {
            let dir = check_directory(value, kind)?;
            self.addons_dir = dir;
        } else if str_eq(key, "community_dir") {
            let dir = check_directory(value, kind)?;
            self.community_dir = dir;
        } else if str_eq(key, "auto_enable") {
            if str_eq(value, "true") {
                self.auto_enable = true;
            } else if str_eq(value, "false") {
                self.auto_enable = false;
            } else {
                return Err(SettingError::InvalidAutoEnable);
            }
        } else {
            return Err(SettingError::UnknownKey);
        }
        Ok(())
    }
}

} // verus!
