use wallpaper_changer::locations::{
    get_app_data_directory, get_downloads_directory, get_thumbnails_directory, get_user_data_directory,
};
use wallpaper_changer::launcher::get_app_paths;
use wallpaper_changer::os::{get_operating_system, OperatingSystem};

#[test]
fn operating_system_by_target() {
    assert_eq!(get_operating_system("linux", "x86_64"), OperatingSystem::Linux);
    assert_eq!(get_operating_system("windows", "x86_64"), OperatingSystem::Windows);
    assert_eq!(get_operating_system("macos", "aarch64"), OperatingSystem::MacArm);
    assert_eq!(get_operating_system("macos", "x86_64"), OperatingSystem::MacIntel);
    assert_eq!(get_operating_system("macos", "riscv64"), OperatingSystem::Unknown);
    assert_eq!(get_operating_system("freebsd", "x86_64"), OperatingSystem::Unknown);
}

#[test]
fn app_data_directory_by_platform() {
    assert_eq!(get_app_data_directory(OperatingSystem::Linux, "/opt/bin"), "/usr/share/wallpaper_changer");
    assert_eq!(get_app_data_directory(OperatingSystem::Windows, "C:\\apps"), "C:\\apps");
    assert_eq!(get_app_data_directory(OperatingSystem::MacArm, "/Applications/x"), "/Applications/x");
}

#[test]
fn user_data_directory_by_platform() {
    assert_eq!(
        get_user_data_directory(OperatingSystem::Linux, Some("/home/u/.local/share".to_string()), "/opt/bin"),
        Some("/home/u/.local/share/wallpaper_changer".to_string())
    );
    assert_eq!(get_user_data_directory(OperatingSystem::Linux, None, "/opt/bin"), None);
    assert_eq!(
        get_user_data_directory(OperatingSystem::Windows, None, "C:\\apps"),
        Some("C:\\apps".to_string())
    );
}

#[test]
fn cache_directories_under_user_data() {
    assert_eq!(get_thumbnails_directory("/home/u/data"), "/home/u/data/thumbnails");
    assert_eq!(get_downloads_directory("/home/u/data/"), "/home/u/data/wallpapers");
}

#[test]
fn launcher_paths() {
    assert_eq!(
        get_app_paths("/opt/wc", true, false),
        ("/opt/wc/apps/wallpaper_changer".to_string(), "/opt/wc/apps/bundle/wallpaper_app".to_string())
    );
    assert_eq!(
        get_app_paths("C:\\wc\\", true, true),
        ("C:\\wc\\apps/wallpaper_changer.exe".to_string(), "C:\\wc\\apps/bundle/wallpaper_app.exe".to_string())
    );
    assert_eq!(
        get_app_paths("/opt/wc", false, false),
        (
            "target/release/wallpaper_changer".to_string(),
            "wallpaper_app/build/linux/x64/release/bundle/wallpaper_app".to_string()
        )
    );
    assert_eq!(get_app_paths("/x", false, true).0, "target\\release\\wallpaper_changer.exe");
}
