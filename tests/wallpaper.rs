use wallpaper_changer::os::OperatingSystem;
use wallpaper_changer::wallpaper::{
    attach_video, change, command_outcome, double_quotes, explorer, gnome, start_video, stop_video,
    video_command, WallpaperDispatcher, WallpaperError,
};

fn tools() -> (Option<String>, Option<String>) {
    (Some("/usr/bin/xwinwrap".to_string()), Some("/usr/bin/mpv".to_string()))
}

#[test]
fn second_video_replaces_first() {
    let mut d: WallpaperDispatcher<u32> = WallpaperDispatcher::new(OperatingSystem::Linux);
    let (w, p) = tools();
    let first = start_video(&mut d, "/v/a.mp4", true, w.clone(), p.clone());
    assert_eq!(first.released, None);
    assert!(first.command.is_ok());
    assert_eq!(attach_video(&mut d, 1), None);
    let second = start_video(&mut d, "/v/b.mp4", true, w, p);
    assert_eq!(second.released, Some(1));
    assert!(second.command.is_ok());
    assert_eq!(attach_video(&mut d, 2), None);
    assert!(d.has_video());
    assert_eq!(stop_video(&mut d), Some(2));
    assert!(!d.has_video());
}

#[test]
fn stop_with_nothing_running() {
    let mut d: WallpaperDispatcher<u32> = WallpaperDispatcher::new(OperatingSystem::Linux);
    assert_eq!(stop_video(&mut d), None);
    assert_eq!(stop_video(&mut d), None);
    assert!(!d.has_video());
}

#[test]
fn attach_hands_back_a_racing_handle() {
    let mut d: WallpaperDispatcher<u32> = WallpaperDispatcher::new(OperatingSystem::Linux);
    assert_eq!(attach_video(&mut d, 7), None);
    assert_eq!(attach_video(&mut d, 8), Some(7));
    assert_eq!(stop_video(&mut d), Some(8));
}

#[test]
fn missing_wallpaper_file_is_reported() {
    let mut d: WallpaperDispatcher<u32> = WallpaperDispatcher::new(OperatingSystem::Linux);
    attach_video(&mut d, 3);
    let step = change(&mut d, "/nonexistent/file.jpg", false);
    assert_eq!(step.released, None);
    assert!(matches!(step.command, Err(WallpaperError::FileNotFound(p)) if p == "/nonexistent/file.jpg"));
    assert!(d.has_video());
}

#[test]
fn unsupported_platforms_get_no_command() {
    for os in [OperatingSystem::MacIntel, OperatingSystem::MacArm, OperatingSystem::Unknown] {
        let mut d: WallpaperDispatcher<u32> = WallpaperDispatcher::new(os);
        let step = change(&mut d, "/img/a.jpg", true);
        assert!(matches!(step.command, Err(WallpaperError::Unsupported(p)) if p == os));
        let (w, p) = tools();
        let video = start_video(&mut d, "/v/a.mp4", true, w, p);
        assert!(matches!(video.command, Err(WallpaperError::Unsupported(q)) if q == os));
    }
    let mut win: WallpaperDispatcher<u32> = WallpaperDispatcher::new(OperatingSystem::Windows);
    let (w, p) = tools();
    let video = start_video(&mut win, "/v/a.mp4", true, w, p);
    assert!(matches!(video.command, Err(WallpaperError::Unsupported(OperatingSystem::Windows))));
}

#[test]
fn static_wallpaper_stops_video_first() {
    let mut d: WallpaperDispatcher<u32> = WallpaperDispatcher::new(OperatingSystem::Linux);
    attach_video(&mut d, 9);
    let step = change(&mut d, "/img/a.jpg", true);
    assert_eq!(step.released, Some(9));
    assert!(!d.has_video());
    let cmd = step.command.unwrap();
    assert_eq!(cmd.program, "gsettings");
    assert_eq!(cmd.args, vec!["set", "org.gnome.desktop.background", "picture-uri", "file:///img/a.jpg"]);
}

#[test]
fn unsupported_platform_still_stops_video() {
    let mut d: WallpaperDispatcher<u32> = WallpaperDispatcher::new(OperatingSystem::MacArm);
    attach_video(&mut d, 4);
    let step = change(&mut d, "/img/a.jpg", true);
    assert_eq!(step.released, Some(4));
    assert!(!d.has_video());
}

#[test]
fn gnome_command_shape() {
    let cmd = gnome("/home/u/p.png");
    assert_eq!(cmd.program, "gsettings");
    assert_eq!(cmd.args[3], "file:///home/u/p.png");
}

#[test]
fn windows_command_quotes_path() {
    assert_eq!(double_quotes("C:\\it's\\a.jpg"), "C:\\it''s\\a.jpg");
    assert_eq!(double_quotes("''"), "''''");
    let cmd = explorer("C:\\it's.jpg");
    assert_eq!(cmd.program, "powershell");
    assert_eq!(cmd.args[0], "-command");
    assert!(cmd.args[1].contains("SystemParametersInfo(0x0014, 0, 'C:\\it''s.jpg', 0x01 -bor 0x02)"));
    let mut d: WallpaperDispatcher<u32> = WallpaperDispatcher::new(OperatingSystem::Windows);
    let step = change(&mut d, "C:\\w.jpg", true);
    assert_eq!(step.command.unwrap().program, "powershell");
}

#[test]
fn video_command_shape() {
    let (w, p) = tools();
    let cmd = video_command(w, p, "/v/a.mp4").unwrap();
    assert_eq!(cmd.program, "/usr/bin/xwinwrap");
    assert_eq!(
        cmd.args,
        vec![
            "-ov", "-fs", "--", "/usr/bin/mpv", "--loop", "--no-audio", "--no-input-cursor",
            "--no-osd-bar", "--panscan=1", "--wid", "WID", "/v/a.mp4",
        ]
    );
}

#[test]
fn missing_helpers_are_named() {
    let r = video_command(None, None, "/v/a.mp4");
    assert!(matches!(r, Err(WallpaperError::MissingTool(t)) if t == "xwinwrap"));
    let r = video_command(Some("/usr/bin/xwinwrap".to_string()), None, "/v/a.mp4");
    assert!(matches!(r, Err(WallpaperError::MissingTool(t)) if t == "mpv"));
}

#[test]
fn missing_video_file_is_reported() {
    let mut d: WallpaperDispatcher<u32> = WallpaperDispatcher::new(OperatingSystem::Linux);
    attach_video(&mut d, 5);
    let (w, p) = tools();
    let step = start_video(&mut d, "/v/none.mp4", false, w, p);
    assert_eq!(step.released, None);
    assert!(matches!(step.command, Err(WallpaperError::FileNotFound(p)) if p == "/v/none.mp4"));
    assert!(d.has_video());
}

#[test]
fn command_failure_carries_status_and_output() {
    assert!(command_outcome(true, Some(0), String::new()).is_ok());
    let r = command_outcome(false, Some(1), "no such key".to_string());
    assert!(matches!(r, Err(WallpaperError::CommandFailed(Some(1), e)) if e == "no such key"));
}
