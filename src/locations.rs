//! Where the program keeps its data.
//!
//! On Linux user data lives under the user's data directory and shared data
//! under `/usr/share`; elsewhere both live beside the executable. Thumbnails
//! and downloaded wallpapers each have a directory under the user data.

use vstd::prelude::*;
use crate::naming::{join_path, joined};
use crate::os::OperatingSystem;

verus! {

/// The program's directory name.
pub const APP_DIR_NAME: &'static str = "wallpaper_changer";

/// The program's shared data directory on Linux.
pub const LINUX_APP_DATA_DIR: &'static str = "/usr/share/wallpaper_changer";

/// The directory of cached thumbnails, under the user data directory.
pub const THUMBNAILS_DIR_NAME: &'static str = "thumbnails";

/// The directory of downloaded wallpapers, under the user data directory.
pub const DOWNLOADS_DIR_NAME: &'static str = "wallpapers";

/// The program's data directory on `os`, given the executable's directory.
pub open spec fn app_data_dir_of(os: OperatingSystem, executable_dir: Seq<char>) -> Seq<char> {
    if os is Linux {
        LINUX_APP_DATA_DIR@
    } else {
        executable_dir
    }
}

/// The user's data directory on `os`, given the platform's per-user data
/// directory and the executable's directory; `None` on Linux when the
/// platform has no per-user data directory.
pub open spec fn user_data_dir_of(
    os: OperatingSystem,
    platform_data_dir: Option<String>,
    executable_dir: Seq<char>,
) -> Option<Seq<char>> {
    if os is Linux {
        match platform_data_dir {
            Some(d) => Some(joined(d@, APP_DIR_NAME@)),
            None => None,
        }
    } else {
        Some(app_data_dir_of(os, executable_dir))
    }
}

/// The program's data directory: `/usr/share/wallpaper_changer` on Linux,
/// the executable's directory elsewhere.
pub fn get_app_data_directory(os: OperatingSystem, executable_dir: &str) -> (r: String)
    ensures
        r@ == app_data_dir_of(os, executable_dir@),
{
    match os {
        OperatingSystem::Linux => String::from_str(LINUX_APP_DATA_DIR),
        _ => String::from_str(executable_dir),
    }
}

/// The user's data directory: on Linux `wallpaper_changer` under the
/// platform's per-user data directory (`None` if there is none), elsewhere
/// the program's data directory.
pub fn get_user_data_directory(
    os: OperatingSystem,
    platform_data_dir: Option<String>,
    executable_dir: &str,
) -> (r: Option<String>)
    ensures
        match user_data_dir_of(os, platform_data_dir, executable_dir@) {
            Some(d) => r matches Some(s) && s@ == d,
            None => r is None,
        },
{
    match os {
        OperatingSystem::Linux => match platform_data_dir {
            Some(d) => Some(join_path(d.as_str(), APP_DIR_NAME)),
            None => None,
        },
        _ => Some(get_app_data_directory(os, executable_dir)),
    }
}

/// The directory of cached thumbnails under `user_data_dir`.
pub fn get_thumbnails_directory(user_data_dir: &str) -> (r: String)
    ensures
        r@ == joined(user_data_dir@, THUMBNAILS_DIR_NAME@),
{
    join_path(user_data_dir, THUMBNAILS_DIR_NAME)
}

/// The directory of downloaded wallpapers under `user_data_dir`.
pub fn get_downloads_directory(user_data_dir: &str) -> (r: String)
    ensures
        r@ == joined(user_data_dir@, DOWNLOADS_DIR_NAME@),
{
    join_path(user_data_dir, DOWNLOADS_DIR_NAME)
}

} // verus!
