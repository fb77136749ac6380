//! Where the launcher finds the two programs it starts: the wallpaper
//! changer and the graphical front end.
//!
//! An installed bundle keeps both under `apps/` beside the launcher; a
//! development checkout has them at fixed paths of its build outputs.

use vstd::prelude::*;
use crate::naming::{join_path, joined};

verus! {

/// The directory of a bundle that holds both programs.
pub const BUNDLE_DIR: &'static str = "apps";

/// The directory, inside the bundle, of the front end's files.
pub const FRONT_END_DIR: &'static str = "bundle";

/// The executable name of the wallpaper changer on Linux.
pub const CHANGER_NAME: &'static str = "wallpaper_changer";

/// The executable name of the wallpaper changer on Windows.
pub const CHANGER_NAME_WINDOWS: &'static str = "wallpaper_changer.exe";

/// The executable name of the front end on Linux.
pub const FRONT_END_NAME: &'static str = "wallpaper_app";

/// The executable name of the front end on Windows.
pub const FRONT_END_NAME_WINDOWS: &'static str = "wallpaper_app.exe";

/// The changer's path in a development checkout on Linux.
pub const DEV_CHANGER: &'static str = "target/release/wallpaper_changer";

/// The front end's path in a development checkout on Linux.
pub const DEV_FRONT_END: &'static str = "wallpaper_app/build/linux/x64/release/bundle/wallpaper_app";

/// The changer's path in a development checkout on Windows.
pub const DEV_CHANGER_WINDOWS: &'static str = "target\\release\\wallpaper_changer.exe";

/// The front end's path in a development checkout on Windows.
pub const DEV_FRONT_END_WINDOWS: &'static str =
    "wallpaper_app\\build\\windows\\runner\\Release\\wallpaper_app.exe";

/// The paths of the changer and of the front end, given the launcher's
/// directory, whether a bundle directory is beside it, and whether the
/// platform is Windows.
pub open spec fn app_paths_of(exec_dir: Seq<char>, bundled: bool, windows: bool) -> (
    Seq<char>,
    Seq<char>,
) {
    if bundled {
        let apps = joined(exec_dir, BUNDLE_DIR@);
        let front = joined(apps, FRONT_END_DIR@);
        if windows {
            (joined(apps, CHANGER_NAME_WINDOWS@), joined(front, FRONT_END_NAME_WINDOWS@))
        } else {
            (joined(apps, CHANGER_NAME@), joined(front, FRONT_END_NAME@))
        }
    } else if windows {
        (DEV_CHANGER_WINDOWS@, DEV_FRONT_END_WINDOWS@)
    } else {
        (DEV_CHANGER@, DEV_FRONT_END@)
    }
}

/// The paths of the changer and of the front end: inside the bundle beside
/// the launcher at `exec_dir` when `bundled`, else the development build
/// outputs; with Windows executable names when `windows`.
pub fn get_app_paths(exec_dir: &str, bundled: bool, windows: bool) -> (r: (String, String))
    ensures
        (r.0@, r.1@) == app_paths_of(exec_dir@, bundled, windows),
{
    if bundled {
        let apps = join_path(exec_dir, BUNDLE_DIR);
        let front = join_path(apps.as_str(), FRONT_END_DIR);
        if windows {
            (
                join_path(apps.as_str(), CHANGER_NAME_WINDOWS),
                join_path(front.as_str(), FRONT_END_NAME_WINDOWS),
            )
        } else {
            (join_path(apps.as_str(), CHANGER_NAME), join_path(front.as_str(), FRONT_END_NAME))
        }
    } else if windows {
        (String::from_str(DEV_CHANGER_WINDOWS), String::from_str(DEV_FRONT_END_WINDOWS))
    } else {
        (String::from_str(DEV_CHANGER), String::from_str(DEV_FRONT_END))
    }
}

} // verus!
