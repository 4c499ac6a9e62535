//! Where the frame-extraction tool is found: a development tree is
//! preferred, then the application's packaged resources.

use vstd::prelude::*;

verus! {

/// The file name of the tool on the target platform.
pub open spec fn tool_file_name_of(windows: bool) -> Seq<char> {
    if windows {
        "ffmpeg-x86_64-pc-windows-msvc.exe"@
    } else {
        "ffmpeg-aarch64-apple-darwin"@
    }
}

/// The file name of the tool: the Windows build on Windows, the Apple
/// silicon build elsewhere.
pub fn tool_file_name(windows: bool) -> (r: &'static str)
    ensures
        r@ == tool_file_name_of(windows),
{
    if windows {
        "ffmpeg-x86_64-pc-windows-msvc.exe"
    } else {
        "ffmpeg-aarch64-apple-darwin"
    }
}

/// What looking for the tool among the packaged resources gave.
#[derive(Debug, PartialEq, Eq)]
pub enum PackagedTool {
    /// The tool exists at `path`.
    Found { path: String },
    /// The resource directory could not be determined.
    NoResourceDir { reason: String },
    /// The resource directory holds no such tool.
    Missing { reason: String },
}

pub enum PackagedToolView {
    Found { path: Seq<char> },
    NoResourceDir { reason: Seq<char> },
    Missing { reason: Seq<char> },
}

impl View for PackagedTool {
    type V = PackagedToolView;

    open spec fn view(&self) -> PackagedToolView {
        match self {
            PackagedTool::Found { path } => PackagedToolView::Found { path: path@ },
            PackagedTool::NoResourceDir { reason } => PackagedToolView::NoResourceDir {
                reason: reason@,
            },
            PackagedTool::Missing { reason } => PackagedToolView::Missing { reason: reason@ },
        }
    }
}

/// The tool's path, or the error to report, given what the packaged
/// resources gave.
pub open spec fn packaged_tool_of(p: PackagedToolView) -> Result<Seq<char>, Seq<char>> {
    match p {
        PackagedToolView::Found { path } => Ok(path),
        PackagedToolView::NoResourceDir { reason } => Err("无法获取资源目录: "@ + reason),
        PackagedToolView::Missing { reason } => Err(
            "FFmpeg 未找到: "@ + reason + ". 请确保已将 ffmpeg 二进制文件放入 src-tauri/binaries/ 目录"@,
        ),
    }
}

/// The packaged tool's path, or an error that says what went wrong and
/// where the tool is expected.
pub fn packaged_tool_path(packaged: PackagedTool) -> (r: Result<String, String>)
    ensures
        r matches Ok(p) ==> packaged_tool_of(packaged@) == Ok::<Seq<char>, Seq<char>>(p@),
        r matches Err(e) ==> packaged_tool_of(packaged@) == Err::<Seq<char>, Seq<char>>(e@),
{
    match packaged {
        PackagedTool::Found { path } => Ok(path),
        PackagedTool::NoResourceDir { reason } => Err(
            String::from_str("无法获取资源目录: ").concat(reason.as_str()),
        ),
        PackagedTool::Missing { reason } => Err(
            String::from_str("FFmpeg 未找到: ").concat(reason.as_str()).concat(
                ". 请确保已将 ffmpeg 二进制文件放入 src-tauri/binaries/ 目录",
            ),
        ),
    }
}

} // verus!
