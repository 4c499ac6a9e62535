use video_thumbs::job::{Action, Event, Outcome, ThumbnailJob};
use video_thumbs::strategy::strategy_args;
use video_thumbs::tool::PackagedTool;

const KEY: &str = "c18d7f621047d41a0e1092dfc41d134ed6e88c8e98baa069c786360306eb51dc";
const JPEG: [u8; 4] = [0xff, 0xd8, 0xff, 0xe0];

fn entry() -> String {
    format!("/tmp/video_manage_thumbnails/{}.jpg", KEY)
}

/// A stand-in for the file system and the tool: whether the entry exists,
/// and the outcome of each successive run of the tool.
struct Stub {
    entry_exists: bool,
    runs: Vec<Outcome>,
    launched: Vec<Vec<String>>,
    written: bool,
}

impl Stub {
    fn new(entry_exists: bool, runs: Vec<Outcome>) -> Stub {
        Stub { entry_exists, runs, launched: Vec::new(), written: false }
    }

    fn drive(&mut self, job: &mut ThumbnailJob) -> Result<String, String> {
        for _ in 0..32 {
            let event = match job.action() {
                Action::CreateCacheDir { path } => {
                    assert_eq!(path, "/tmp/video_manage_thumbnails");
                    Event::DirCreated { error: None }
                }
                Action::ProbeEntry { path } => {
                    assert_eq!(path, entry());
                    Event::EntryProbed { exists: self.entry_exists }
                }
                Action::ReadEntry { path } => {
                    assert_eq!(path, entry());
                    if self.entry_exists || self.written {
                        Event::EntryRead { data: Ok(JPEG.to_vec()) }
                    } else {
                        Event::EntryRead { data: Err("No such file or directory".to_string()) }
                    }
                }
                Action::FindDevTool => Event::DevToolFound { path: Some("/bin/ffmpeg".to_string()) },
                Action::FindPackagedTool => panic!("the development copy was found"),
                Action::RunTool { program, args } => {
                    assert_eq!(program, "/bin/ffmpeg");
                    self.launched.push(args);
                    let outcome = self.runs.remove(0);
                    if let Outcome::Exited { success: true, .. } = outcome {
                        self.written = true;
                    }
                    Event::ToolRan { outcome }
                }
                Action::Finish { result } => return result,
            };
            job.advance(event);
        }
        panic!("the request did not finish");
    }
}

fn failed(stderr: &str) -> Outcome {
    Outcome::Exited { success: false, stderr: stderr.as_bytes().to_vec() }
}

fn ok_run() -> Outcome {
    Outcome::Exited { success: true, stderr: b"some warning".to_vec() }
}

fn job() -> ThumbnailJob {
    ThumbnailJob::new("/videos/clip.mp4".to_string(), "/tmp/video_manage_thumbnails".to_string())
}

#[test]
fn entry_path_uses_cache_key() {
    assert_eq!(job().entry_path(), entry());
}

#[test]
fn first_request_creates_entry_and_second_hits_cache() {
    let mut first = Stub::new(false, vec![ok_run()]);
    let a = first.drive(&mut job()).unwrap();
    assert_eq!(first.launched.len(), 1);
    assert_eq!(first.launched[0], strategy_args(0, "/videos/clip.mp4", &entry()));
    assert!(first.written);

    let mut second = Stub::new(true, vec![]);
    let b = second.drive(&mut job()).unwrap();
    assert!(second.launched.is_empty());
    assert_eq!(a, b);
    assert_eq!(b, "data:image/jpeg;base64,/9j/4A==");
}

#[test]
fn fourth_strategy_succeeds_after_three_failures() {
    let mut stub = Stub::new(false, vec![failed("e1"), failed("e2"), failed("e3"), ok_run()]);
    let r = stub.drive(&mut job());
    assert_eq!(r, Ok("data:image/jpeg;base64,/9j/4A==".to_string()));
    assert_eq!(stub.launched.len(), 4);
    for (k, args) in stub.launched.iter().enumerate() {
        assert_eq!(*args, strategy_args(k, "/videos/clip.mp4", &entry()));
    }
    assert!(stub.runs.is_empty());
}

#[test]
fn all_strategies_failing_reports_last_diagnostic() {
    let mut stub = Stub::new(
        false,
        vec![failed("e1"), failed("e2"), failed("e3"), failed("moov atom not found")],
    );
    let r = stub.drive(&mut job());
    assert_eq!(r, Err("FFmpeg 错误: moov atom not found".to_string()));
    assert_eq!(stub.launched.len(), 4);
}

#[test]
fn launch_failure_on_last_attempt_is_reported() {
    let mut stub = Stub::new(
        false,
        vec![
            failed("e1"),
            failed("e2"),
            failed("e3"),
            Outcome::LaunchFailed { reason: "permission denied".to_string() },
        ],
    );
    let r = stub.drive(&mut job());
    assert_eq!(r, Err("FFmpeg 执行失败: permission denied".to_string()));
}

#[test]
fn invalid_utf8_in_diagnostic_is_replaced() {
    let bad = Outcome::Exited { success: false, stderr: vec![b'x', 0xff, b'y'] };
    let mut stub = Stub::new(false, vec![failed("a"), failed("b"), failed("c"), bad]);
    let r = stub.drive(&mut job());
    assert_eq!(r, Err("FFmpeg 错误: x\u{fffd}y".to_string()));
}

#[test]
fn cache_dir_failure_ends_request() {
    let mut j = job();
    j.advance(Event::DirCreated { error: Some("read-only file system".to_string()) });
    assert_eq!(j.action(), Action::Finish { result: Err("read-only file system".to_string()) });
}

#[test]
fn missing_tool_ends_request() {
    let mut j = job();
    j.advance(Event::DirCreated { error: None });
    j.advance(Event::EntryProbed { exists: false });
    assert_eq!(j.action(), Action::FindDevTool);
    j.advance(Event::DevToolFound { path: None });
    assert_eq!(j.action(), Action::FindPackagedTool);
    j.advance(Event::PackagedToolFound {
        lookup: PackagedTool::Missing { reason: "No such file or directory".to_string() },
    });
    assert_eq!(
        j.action(),
        Action::Finish {
            result: Err("FFmpeg 未找到: No such file or directory. 请确保已将 ffmpeg 二进制文件放入 src-tauri/binaries/ 目录"
                .to_string()),
        }
    );
}

#[test]
fn packaged_tool_is_used_without_development_copy() {
    let mut j = job();
    j.advance(Event::DirCreated { error: None });
    j.advance(Event::EntryProbed { exists: false });
    j.advance(Event::DevToolFound { path: None });
    j.advance(Event::PackagedToolFound {
        lookup: PackagedTool::Found { path: "/app/binaries/ffmpeg".to_string() },
    });
    assert_eq!(
        j.action(),
        Action::RunTool {
            program: "/app/binaries/ffmpeg".to_string(),
            args: strategy_args(0, "/videos/clip.mp4", &entry()),
        }
    );
}

#[test]
fn development_tool_skips_packaged_lookup() {
    let mut j = job();
    j.advance(Event::DirCreated { error: None });
    j.advance(Event::EntryProbed { exists: false });
    j.advance(Event::DevToolFound { path: Some("/src/binaries/ffmpeg".to_string()) });
    assert_eq!(
        j.action(),
        Action::RunTool {
            program: "/src/binaries/ffmpeg".to_string(),
            args: strategy_args(0, "/videos/clip.mp4", &entry()),
        }
    );
}

#[test]
fn read_back_failure_is_reported() {
    let mut j = job();
    j.advance(Event::DirCreated { error: None });
    j.advance(Event::EntryProbed { exists: false });
    j.advance(Event::DevToolFound { path: Some("/bin/ffmpeg".to_string()) });
    j.advance(Event::ToolRan { outcome: ok_run() });
    assert_eq!(j.action(), Action::ReadEntry { path: entry() });
    j.advance(Event::EntryRead { data: Err("gone".to_string()) });
    assert_eq!(j.action(), Action::Finish { result: Err("gone".to_string()) });
}

#[test]
fn unrelated_event_changes_nothing() {
    let mut j = job();
    j.advance(Event::EntryProbed { exists: true });
    assert_eq!(
        j.action(),
        Action::CreateCacheDir { path: "/tmp/video_manage_thumbnails".to_string() }
    );
}

#[test]
fn tool_events_after_success_do_not_run_again() {
    let mut j = job();
    j.advance(Event::DirCreated { error: None });
    j.advance(Event::EntryProbed { exists: false });
    j.advance(Event::DevToolFound { path: Some("/bin/ffmpeg".to_string()) });
    j.advance(Event::ToolRan { outcome: ok_run() });
    j.advance(Event::ToolRan { outcome: failed("late") });
    assert_eq!(j.action(), Action::ReadEntry { path: entry() });
}
