//! Setting the desktop wallpaper, and the one background video process.
//!
//! A [`WallpaperDispatcher`] decides, for the platform it was made for, which
//! command sets the wallpaper, and it owns the handle of the looping video
//! wallpaper, if one runs. Every operation that changes the background first
//! takes that handle out and hands it back to the caller to terminate, so
//! that at most one video process is retained at any time. The caller keeps
//! the dispatcher behind one lock and runs the commands it is given.

use vstd::prelude::*;
use crate::command::{push_text, CommandSpec};
use crate::os::OperatingSystem;

verus! {

/// Why the wallpaper could not be set.
#[derive(Debug, Clone)]
pub enum WallpaperError {
    /// The image or video file does not exist.
    FileNotFound(String),
    /// The operation is not available on this platform.
    Unsupported(OperatingSystem),
    /// A helper program could not be found on the executable search path.
    MissingTool(String),
    /// The command ran and reported failure: its exit code and its error output.
    CommandFailed(Option<i32>, String),
}

/// The owner of the video wallpaper process handle `H`.
pub struct WallpaperDispatcher<H> {
    platform: OperatingSystem,
    video: Option<H>,
}

/// What the caller is to do after a request: terminate `released`, if
/// present, then run the command, if one was given.
pub struct WallpaperStep<H> {
    pub released: Option<H>,
    pub command: Result<CommandSpec, WallpaperError>,
}

impl<H> WallpaperDispatcher<H> {
    /// The platform this dispatcher sets wallpapers on.
    pub closed spec fn platform_of(&self) -> OperatingSystem {
        self.platform
    }

    /// The handle of the running video wallpaper, if any.
    pub closed spec fn running(&self) -> Option<H> {
        self.video
    }

    /// A dispatcher for `platform`, with no video running.
    pub fn new(platform: OperatingSystem) -> (r: Self)
        ensures
            r.platform_of() == platform,
            r.running() is None,
    {
        WallpaperDispatcher { platform, video: None }
    }

    /// The platform this dispatcher sets wallpapers on.
    pub fn platform(&self) -> (r: OperatingSystem)
        ensures
            r == self.platform_of(),
    {
        self.platform
    }

    /// Whether a video wallpaper is running.
    pub fn has_video(&self) -> (r: bool)
        ensures
            r == self.running() is Some,
    {
        self.video.is_some()
    }
}

/// `s` with every single quote doubled, as PowerShell reads a quoted string.
pub open spec fn quote_doubled(s: Seq<char>) -> Seq<char>
    decreases s.len(),
{
    if s.len() == 0 {
        Seq::empty()
    } else {
        let c = s.last();
        quote_doubled(s.drop_last()) + if c == '\'' {
            "''"@
        } else {
            seq![c]
        }
    }
}

/// The GNOME settings command that makes `path` the desktop picture.
pub open spec fn gnome_command(path: Seq<char>) -> (Seq<char>, Seq<Seq<char>>) {
    (
        "gsettings"@,
        seq![
            "set"@,
            "org.gnome.desktop.background"@,
            "picture-uri"@,
            "file://"@ + path,
        ],
    )
}

/// The PowerShell command that makes `path` the desktop picture through the
/// user-preference API, saving it and broadcasting the change.
pub open spec fn explorer_command(path: Seq<char>) -> (Seq<char>, Seq<Seq<char>>) {
    (
        "powershell"@,
        seq!["-command"@, WINDOWS_SCRIPT_HEAD@ + quote_doubled(path) + WINDOWS_SCRIPT_TAIL@],
    )
}

/// The command that sets `path` as the static wallpaper on `platform`, or
/// `None` where the platform has none.
pub open spec fn static_command(platform: OperatingSystem, path: Seq<char>) -> Option<
    (Seq<char>, Seq<Seq<char>>),
> {
    match platform {
        OperatingSystem::Linux => Some(gnome_command(path)),
        OperatingSystem::Windows => Some(explorer_command(path)),
        _ => None,
    }
}

/// The PowerShell script up to the quoted wallpaper path.
pub const WINDOWS_SCRIPT_HEAD: &'static str = "Add-Type @\"
using System;
using System.Runtime.InteropServices;
public class Wallpaper {
    [DllImport(\"user32.dll\", CharSet = CharSet.Auto)]
    public static extern int SystemParametersInfo(int uAction, int uParam, string lpvParam, int fuWinIni);
}
\"@;
[Wallpaper]::SystemParametersInfo(0x0014, 0, '";

/// The PowerShell script after the quoted wallpaper path.
pub const WINDOWS_SCRIPT_TAIL: &'static str = "', 0x01 -bor 0x02)";

/// `s` with every single quote doubled.
pub fn double_quotes(s: &str) -> (r: String)
    ensures
        r@ == quote_doubled(s@),
{
    let n = s.unicode_len();
    let mut out = String::new();
    let mut i: usize = 0;
    while i < n
        invariant
            n == s@.len(),
            i <= n,
            out@ == quote_doubled(s@.subrange(0, i as int)),
        decreases n - i,
    {
        let c = s.get_char(i);
        assert(s@.subrange(0, i + 1).drop_last() =~= s@.subrange(0, i as int));
        if c == '\'' {
            out.append("''");
        } else {
            let one = s.substring_char(i, i + 1);
            assert(one@ =~= seq![c]);
            out.append(one);
        }
        i = i + 1;
    }
    assert(s@.subrange(0, n as int) =~= s@);
    out
}

/// The GNOME settings command that makes `path` the desktop picture.
pub fn gnome(path: &str) -> (r: CommandSpec)
    ensures
        r@ == gnome_command(path@),
{
    let mut args: Vec<String> = Vec::new();
    push_text(&mut args, "set");
    push_text(&mut args, "org.gnome.desktop.background");
    push_text(&mut args, "picture-uri");
    push_text(&mut args, String::from_str("file://").concat(path).as_str());
    let r = CommandSpec { program: String::from_str("gsettings"), args };
    assert(r@.1 =~= gnome_command(path@).1);
    r
}

/// The PowerShell command that makes `path` the desktop picture.
pub fn explorer(path: &str) -> (r: CommandSpec)
    ensures
        r@ == explorer_command(path@),
{
    let script = String::from_str(WINDOWS_SCRIPT_HEAD);
    let script = script.concat(double_quotes(path).as_str());
    let script = script.concat(WINDOWS_SCRIPT_TAIL);
    let mut args: Vec<String> = Vec::new();
    push_text(&mut args, "-command");
    push_text(&mut args, script.as_str());
    let r = CommandSpec { program: String::from_str("powershell"), args };
    assert(r@.1 =~= explorer_command(path@).1);
    r
}

/// The outcome of a finished command: success, or its exit code and error
/// output.
pub fn command_outcome(success: bool, code: Option<i32>, stderr: String) -> (r: Result<
    (),
    WallpaperError,
>)
    ensures
        success ==> r is Ok,
        !success ==> (r matches Err(WallpaperError::CommandFailed(c, e)) && c == code && e == stderr),
{
    if success {
        Ok(())
    } else {
        Err(WallpaperError::CommandFailed(code, stderr))
    }
}

/// Stopping hands back the retained handle, if any, and retains none.
pub open spec fn stop_video_post<H>(
    before: WallpaperDispatcher<H>,
    after: WallpaperDispatcher<H>,
    released: Option<H>,
) -> bool {
    &&& released == before.running()
    &&& after.running() is None
    &&& after.platform_of() == before.platform_of()
}

/// Attaching `child` retains it and hands back what was retained before.
pub open spec fn attach_video_post<H>(
    before: WallpaperDispatcher<H>,
    child: H,
    after: WallpaperDispatcher<H>,
    released: Option<H>,
) -> bool {
    &&& released == before.running()
    &&& after.running() == Some(child)
    &&& after.platform_of() == before.platform_of()
}

/// Takes the video wallpaper handle out, if one is retained, for the caller
/// to terminate. With no video running this returns `None` and changes
/// nothing.
pub fn stop_video<H>(dispatcher: &mut WallpaperDispatcher<H>) -> (r: Option<H>)
    ensures
        stop_video_post(*old(dispatcher), *final(dispatcher), r),
{
    dispatcher.video.take()
}

/// Retains `child` as the running video wallpaper. A handle that was
/// retained before is returned for the caller to terminate.
pub fn attach_video<H>(dispatcher: &mut WallpaperDispatcher<H>, child: H) -> (r: Option<H>)
    ensures
        attach_video_post(*old(dispatcher), child, *final(dispatcher), r),
{
    let previous = dispatcher.video.take();
    dispatcher.video = Some(child);
    previous
}

/// What a request to set `path` as the static wallpaper does: a missing
/// file is reported and nothing else happens; otherwise the video handle is
/// released and the platform's command is given, or `Unsupported`.
pub open spec fn change_post<H>(
    before: WallpaperDispatcher<H>,
    path: Seq<char>,
    path_exists: bool,
    after: WallpaperDispatcher<H>,
    r: WallpaperStep<H>,
) -> bool {
    if !path_exists {
        &&& after == before
        &&& r.released is None
        &&& r.command matches Err(WallpaperError::FileNotFound(p)) && p@ == path
    } else {
        &&& r.released == before.running()
        &&& after.running() is None
        &&& after.platform_of() == before.platform_of()
        &&& match static_command(before.platform_of(), path) {
            Some(c) => r.command matches Ok(cmd) && cmd@ == c,
            None => r.command matches Err(WallpaperError::Unsupported(p)) && p
                == before.platform_of(),
        }
    }
}

/// Sets `path` as the static wallpaper. `path_exists` tells whether the
/// file exists. A missing file gives `FileNotFound` and no command. Else
/// the running video, if any, is released first, whatever follows; then
/// Linux and Windows get their command and every other platform
/// `Unsupported`.
pub fn change<H>(dispatcher: &mut WallpaperDispatcher<H>, path: &str, path_exists: bool) -> (r:
    WallpaperStep<H>)
    ensures
        change_post(*old(dispatcher), path@, path_exists, *final(dispatcher), r),
{
    if !path_exists {
        return WallpaperStep {
            released: None,
            command: Err(WallpaperError::FileNotFound(String::from_str(path))),
        };
    }
    let released = stop_video(dispatcher);
    let command = match dispatcher.platform {
        OperatingSystem::Linux => Ok(gnome(path)),
        OperatingSystem::Windows => Ok(explorer(path)),
        _ => Err(WallpaperError::Unsupported(dispatcher.platform)),
    };
    WallpaperStep { released, command }
}

/// The helper that places a window behind the desktop icons.
pub const WINDOW_WRAPPER: &'static str = "xwinwrap";

/// The video player run inside it.
pub const VIDEO_PLAYER: &'static str = "mpv";

/// The command that plays `path` looped, muted, borderless and full-screen
/// behind the desktop icons, with the wrapper at `wrapper` and the player at
/// `player`.
pub open spec fn video_command_of(wrapper: Seq<char>, player: Seq<char>, path: Seq<char>) -> (
    Seq<char>,
    Seq<Seq<char>>,
) {
    (
        wrapper,
        seq![
            "-ov"@,
            "-fs"@,
            "--"@,
            player,
            "--loop"@,
            "--no-audio"@,
            "--no-input-cursor"@,
            "--no-osd-bar"@,
            "--panscan=1"@,
            "--wid"@,
            "WID"@,
            path,
        ],
    )
}

/// The video wallpaper command for `path`, given where the two helpers were
/// found. A helper that was not found is reported as missing, the wrapper
/// first.
pub fn video_command(wrapper: Option<String>, player: Option<String>, path: &str) -> (r: Result<
    CommandSpec,
    WallpaperError,
>)
    ensures
        wrapper is None ==> (r matches Err(WallpaperError::MissingTool(t)) && t@ == WINDOW_WRAPPER@),
        wrapper is Some && player is None ==> (r matches Err(WallpaperError::MissingTool(t)) && t@
            == VIDEO_PLAYER@),
        wrapper is Some && player is Some ==> (r matches Ok(c) && c@ == video_command_of(
            wrapper->0@,
            player->0@,
            path@,
        )),
{
    let wrapper = match wrapper {
        Some(w) => w,
        None => return Err(WallpaperError::MissingTool(String::from_str(WINDOW_WRAPPER))),
    };
    let player = match player {
        Some(p) => p,
        None => return Err(WallpaperError::MissingTool(String::from_str(VIDEO_PLAYER))),
    };
    let mut args: Vec<String> = Vec::new();
    push_text(&mut args, "-ov");
    push_text(&mut args, "-fs");
    push_text(&mut args, "--");
    push_text(&mut args, player.as_str());
    push_text(&mut args, "--loop");
    push_text(&mut args, "--no-audio");
    push_text(&mut args, "--no-input-cursor");
    push_text(&mut args, "--no-osd-bar");
    push_text(&mut args, "--panscan=1");
    push_text(&mut args, "--wid");
    push_text(&mut args, "WID");
    push_text(&mut args, path);
    let r = CommandSpec { program: wrapper, args };
    assert(r@.1 =~= video_command_of(r.program@, player@, path@).1);
    Ok(r)
}

/// What a request to play `path` as the video wallpaper does: a missing
/// file is reported and nothing else happens; otherwise the video handle is
/// released, and on Linux the video command is given (or the missing
/// helper reported), on any other platform `Unsupported`.
pub open spec fn start_video_post<H>(
    before: WallpaperDispatcher<H>,
    path: Seq<char>,
    path_exists: bool,
    wrapper: Option<String>,
    player: Option<String>,
    after: WallpaperDispatcher<H>,
    r: WallpaperStep<H>,
) -> bool {
    if !path_exists {
        &&& after == before
        &&& r.released is None
        &&& r.command matches Err(WallpaperError::FileNotFound(p)) && p@ == path
    } else {
        &&& r.released == before.running()
        &&& after.running() is None
        &&& after.platform_of() == before.platform_of()
        &&& if before.platform_of() is Linux {
            match (wrapper, player) {
                (Some(w), Some(p)) => r.command matches Ok(c) && c@ == video_command_of(
                    w@,
                    p@,
                    path,
                ),
                (None, _) => r.command matches Err(WallpaperError::MissingTool(t)) && t@
                    == WINDOW_WRAPPER@,
                (Some(_), None) => r.command matches Err(WallpaperError::MissingTool(t)) && t@
                    == VIDEO_PLAYER@,
            }
        } else {
            r.command matches Err(WallpaperError::Unsupported(p)) && p == before.platform_of()
        }
    }
}

/// Plays `path` as the video wallpaper. `path_exists` tells whether the
/// file exists; `wrapper` and `player` are where the two helpers were found
/// on the executable search path. A missing file gives `FileNotFound` and
/// no command. Else the running video, if any, is released first; then on
/// Linux the video command is given, to be spawned and handed back through
/// [`attach_video`], and every other platform gets `Unsupported`.
pub fn start_video<H>(
    dispatcher: &mut WallpaperDispatcher<H>,
    path: &str,
    path_exists: bool,
    wrapper: Option<String>,
    player: Option<String>,
) -> (r: WallpaperStep<H>)
    ensures
        start_video_post(*old(dispatcher), path@, path_exists, wrapper, player, *final(dispatcher), r),
{
    if !path_exists {
        return WallpaperStep {
            released: None,
            command: Err(WallpaperError::FileNotFound(String::from_str(path))),
        };
    }
    let released = stop_video(dispatcher);
    let command = match dispatcher.platform {
        OperatingSystem::Linux => video_command(wrapper, player, path),
        _ => Err(WallpaperError::Unsupported(dispatcher.platform)),
    };
    WallpaperStep { released, command }
}

/// Starting one video wallpaper and then another, with no stop between,
/// leaves only the second one retained: the first one's handle is handed
/// back for termination when the second start is requested, and nothing is
/// handed back when the second process is attached.
pub proof fn lemma_single_video_process<H>(
    d0: WallpaperDispatcher<H>,
    d1: WallpaperDispatcher<H>,
    d2: WallpaperDispatcher<H>,
    d3: WallpaperDispatcher<H>,
    d4: WallpaperDispatcher<H>,
    first_path: Seq<char>,
    second_path: Seq<char>,
    wrapper: Option<String>,
    player: Option<String>,
    s1: WallpaperStep<H>,
    s3: WallpaperStep<H>,
    a: H,
    b: H,
    back2: Option<H>,
    back4: Option<H>,
)
    requires
        start_video_post(d0, first_path, true, wrapper, player, d1, s1),
        attach_video_post(d1, a, d2, back2),
        start_video_post(d2, second_path, true, wrapper, player, d3, s3),
        attach_video_post(d3, b, d4, back4),
    ensures
        back2 is None,
        s3.released == Some(a),
        back4 is None,
        d4.running() == Some(b),
{
}

/// Stopping with no video running hands nothing back and leaves none
/// running.
pub proof fn lemma_stop_when_idle<H>(
    before: WallpaperDispatcher<H>,
    after: WallpaperDispatcher<H>,
    released: Option<H>,
)
    requires
        before.running() is None,
        stop_video_post(before, after, released),
    ensures
        released is None,
        after.running() is None,
{
}

} // verus!
