//! Video serving rules: byte ranges of the HTTP `Range` header and the
//! answer to a streaming request; where thumbnails and stills are kept, and
//! the ffmpeg invocation that extracts them.

use vstd::prelude::*;
use vstd::utf8::{decode_utf8, valid_utf8};
use crate::ids::uuid_text;
use crate::outside::{io_error_is_not_found, lossy_text, uuid_to_string};
use crate::paths::{join_path, path_join};
use crate::text::{copy_string, decimal, push_decimal, push_str};
use crate::text::{after_sep, before_sep, chars_of, find_sep, has_prefix, parse_u64, parse_u64_spec, slice_to_vec, starts_with};

verus! {

/// The characters `bytes=`.
pub open spec fn bytes_prefix() -> Seq<char> {
    seq!['b', 'y', 't', 'e', 's', '=']
}

/// The text after `bytes=` when the header starts with it.
pub open spec fn range_spec_text(header: Seq<char>) -> Option<Seq<char>> {
    if has_prefix(header, bytes_prefix()) {
        Some(header.skip(6))
    } else {
        None
    }
}

/// The start of the range that a `Range` header value names: the number
/// before the first `-` after `bytes=`.
pub open spec fn range_start_spec(header: Seq<char>) -> Option<u64> {
    match range_spec_text(header) {
        Some(spec) => parse_u64_spec(before_sep(spec, '-')),
        None => None,
    }
}

/// The byte range `(start, end)`, both inclusive, that a `Range` header value
/// such as `bytes=0-1023` selects in a file of `file_size` bytes. A missing or
/// unreadable end means the last byte of the file. The range is refused unless
/// `start <= end < file_size`.
pub open spec fn parse_range_spec(header: Seq<char>, file_size: u64) -> Option<(u64, u64)> {
    match range_start_spec(header) {
        None => None,
        Some(start) => {
            let last = (file_size - 1) as u64;
            let end = match after_sep(range_spec_text(header)->0, '-') {
                Some(rest) => match parse_u64_spec(before_sep(rest, '-')) {
                    Some(e) => e,
                    None => last,
                },
                None => last,
            };
            if start <= end && end < file_size {
                Some((start, end))
            } else {
                None
            }
        },
    }
}

fn bytes_prefix_chars() -> (v: Vec<char>)
    ensures
        v@ == bytes_prefix(),
{
    let v = vec!['b', 'y', 't', 'e', 's', '='];
    assert(v@ =~= bytes_prefix());
    v
}

/// The start of the range a `Range` header value names, if it names one.
pub fn range_start(range_header: &str) -> (r: Option<u64>)
    ensures
        r == range_start_spec(range_header@),
{
    let h = chars_of(range_header);
    let prefix = bytes_prefix_chars();
    if !starts_with(&h, &prefix) {
        return None;
    }
    let spec = slice_to_vec(&h, 6, h.len());
    assert(spec@ =~= h@.skip(6));
    let i = find_sep(&spec, '-');
    let first = slice_to_vec(&spec, 0, i);
    assert(first@ =~= spec@.take(i as int));
    parse_u64(&first)
}

/// Parses an HTTP `Range` header value like `bytes=0-1023` against a file of
/// `file_size` bytes.
pub fn parse_range(range_header: &str, file_size: u64) -> (r: Option<(u64, u64)>)
    requires
        file_size > 0 || range_start_spec(range_header@) is None,
    ensures
        r == parse_range_spec(range_header@, file_size),
        r matches Some((start, end)) ==> start <= end && end < file_size,
{
    let h = chars_of(range_header);
    let prefix = bytes_prefix_chars();
    if !starts_with(&h, &prefix) {
        return None;
    }
    let spec = slice_to_vec(&h, 6, h.len());
    assert(spec@ =~= h@.skip(6));
    let i = find_sep(&spec, '-');
    let first = slice_to_vec(&spec, 0, i);
    assert(first@ =~= spec@.take(i as int));
    let start = match parse_u64(&first) {
        Some(v) => v,
        None => {
            return None;
        },
    };
    let last = file_size - 1;
    let end = if i < spec.len() {
        let rest = slice_to_vec(&spec, i + 1, spec.len());
        assert(rest@ =~= spec@.skip(i + 1));
        let j = find_sep(&rest, '-');
        let second = slice_to_vec(&rest, 0, j);
        assert(second@ =~= rest@.take(j as int));
        match parse_u64(&second) {
            Some(e) => e,
            None => last,
        }
    } else {
        last
    };
    if start <= end && end < file_size {
        Some((start, end))
    } else {
        None
    }
}

/// What a streaming request is answered with: the status, the first byte and
/// the number of bytes sent, and the `Content-Range` value of a partial
/// answer.
#[derive(Debug)]
pub struct StreamPlan {
    pub status: u16,
    pub start: u64,
    pub length: u64,
    pub content_range: Option<String>,
}

/// The answer to a streaming request for a file of `file_size` bytes, given
/// the range its `Range` header selects (see `parse_range`): the range with
/// status 206 and `bytes start-end/size`, or the whole file with status 200.
pub fn stream_plan(range: Option<(u64, u64)>, file_size: u64) -> (p: StreamPlan)
    requires
        range matches Some((start, end)) ==> start <= end && end < file_size,
    ensures
        match range {
            Some((start, end)) => p.status == 206 && p.start == start && p.length == end - start
                + 1 && (p.content_range matches Some(c) && c@ == "bytes "@ + decimal(start as nat)
                + "-"@ + decimal(end as nat) + "/"@ + decimal(file_size as nat)),
            None => p.status == 200 && p.start == 0 && p.length == file_size
                && p.content_range is None,
        },
        p.start + p.length <= file_size,
{
    match range {
        Some((start, end)) => {
            let mut c = String::new();
            push_str(&mut c, "bytes ");
            push_decimal(&mut c, start);
            push_str(&mut c, "-");
            push_decimal(&mut c, end);
            push_str(&mut c, "/");
            push_decimal(&mut c, file_size);
            StreamPlan { status: 206, start, length: end - start + 1, content_range: Some(c) }
        },
        None => StreamPlan { status: 200, start: 0, length: file_size, content_range: None },
    }
}

/// The largest upload the server accepts, in bytes: 500 MB.
pub const MAX_UPLOAD_SIZE: usize = 524288000;

/// The width, in pixels, of extracted thumbnails and stills.
pub const THUMBNAIL_WIDTH: u32 = 320;

/// Where the thumbnail of video `video_id` is kept:
/// `<data_dir>/work/thumbnails/<video_id>.jpg`.
pub fn thumbnail_path(data_dir: &str, video_id: u128) -> (p: String)
    ensures
        p@ == path_join(path_join(data_dir@, "work/thumbnails"@), uuid_text(video_id) + ".jpg"@),
{
    let dir = join_path(data_dir, "work/thumbnails");
    let mut name = uuid_to_string(video_id);
    push_str(&mut name, ".jpg");
    join_path(dir.as_str(), name.as_str())
}

/// The directory of the stills: `<data_dir>/work/stills`.
pub fn stills_dir(data_dir: &str) -> (p: String)
    ensures
        p@ == path_join(data_dir@, "work/stills"@),
{
    join_path(data_dir, "work/stills")
}

/// A number of seconds written with two decimals, as still file names carry
/// it.
pub open spec fn seconds_two_decimals(t: u64) -> Seq<char> {
    decimal(t as nat) + ".00"@
}

/// Where the still of video `video_id` at `timestamp` seconds is kept:
/// `<data_dir>/work/stills/<video_id>-<timestamp>.00.jpg`.
pub fn still_path(data_dir: &str, video_id: u128, timestamp: u64) -> (p: String)
    ensures
        p@ == path_join(
            path_join(data_dir@, "work/stills"@),
            uuid_text(video_id) + "-"@ + seconds_two_decimals(timestamp) + ".jpg"@,
        ),
{
    let dir = stills_dir(data_dir);
    let mut name = uuid_to_string(video_id);
    push_str(&mut name, "-");
    push_decimal(&mut name, timestamp);
    push_str(&mut name, ".00");
    push_str(&mut name, ".jpg");
    join_path(dir.as_str(), name.as_str())
}

/// The arguments of the ffmpeg run that writes the frame at `time_seconds`
/// of `video_path`, scaled to `width` pixels wide, to `output_path`.
pub open spec fn thumbnail_args_spec(
    video_path: Seq<char>,
    output_path: Seq<char>,
    time_seconds: u64,
    width: u32,
) -> Seq<Seq<char>> {
    seq![
        "-y"@,
        "-ss"@,
        decimal(time_seconds as nat) + ".000"@,
        "-i"@,
        video_path,
        "-vframes"@,
        "1"@,
        "-vf"@,
        "scale="@ + decimal(width as nat) + ":-1"@,
        "-q:v"@,
        "2"@,
        output_path,
    ]
}

/// The arguments of the ffmpeg run that extracts one frame.
pub fn thumbnail_args(video_path: &str, output_path: &str, time_seconds: u64, width: u32) -> (v: Vec<
    String,
>)
    ensures
        v@.map_values(|s: String| s@) == thumbnail_args_spec(
            video_path@,
            output_path@,
            time_seconds,
            width,
        ),
{
    let mut v: Vec<String> = Vec::new();
    v.push(copy_string("-y"));
    v.push(copy_string("-ss"));
    let mut t = String::new();
    push_decimal(&mut t, time_seconds);
    push_str(&mut t, ".000");
    v.push(t);
    v.push(copy_string("-i"));
    v.push(copy_string(video_path));
    v.push(copy_string("-vframes"));
    v.push(copy_string("1"));
    v.push(copy_string("-vf"));
    let mut sc = String::new();
    push_str(&mut sc, "scale=");
    push_decimal(&mut sc, width as u64);
    push_str(&mut sc, ":-1");
    v.push(sc);
    v.push(copy_string("-q:v"));
    v.push(copy_string("2"));
    v.push(copy_string(output_path));
    assert(v@.map_values(|s: String| s@) =~= thumbnail_args_spec(
        video_path@,
        output_path@,
        time_seconds,
        width,
    ));
    v
}

/// Errors of ffmpeg operations.
#[derive(Debug)]
pub enum FfmpegError {
    FfprobeNotFound,
    FfmpegNotFound,
    ProcessFailed(String),
    ParseError(String),
    Io(std::io::Error),
}

impl FfmpegError {
    /// The message of the error.
    pub fn message(&self) -> (s: String)
        ensures
            self is FfprobeNotFound ==> s@ == "ffprobe not found in PATH"@,
            self is FfmpegNotFound ==> s@ == "ffmpeg not found in PATH"@,
            self matches FfmpegError::ProcessFailed(m) ==> s@ == "process failed: "@ + m@,
            self matches FfmpegError::ParseError(m) ==> s@ == "failed to parse output: "@ + m@,
            self is Io ==> has_prefix(s@, "io error: "@),
    {
        let mut s = String::new();
        match self {
            FfmpegError::FfprobeNotFound => push_str(&mut s, "ffprobe not found in PATH"),
            FfmpegError::FfmpegNotFound => push_str(&mut s, "ffmpeg not found in PATH"),
            FfmpegError::ProcessFailed(m) => {
                push_str(&mut s, "process failed: ");
                push_str(&mut s, m.as_str());
            },
            FfmpegError::ParseError(m) => {
                push_str(&mut s, "failed to parse output: ");
                push_str(&mut s, m.as_str());
            },
            FfmpegError::Io(e) => {
                push_str(&mut s, "io error: ");
                let t = crate::outside::io_error_text(e);
                push_str(&mut s, t.as_str());
                assert(s@.take("io error: "@.len() as int) =~= "io error: "@);
            },
        }
        s
    }
}

/// The error for an ffmpeg run that could not be started, given whether the
/// program was not found.
pub fn start_failure(e: std::io::Error, not_found: bool) -> (r: FfmpegError)
    ensures
        not_found ==> r is FfmpegNotFound,
        !not_found ==> r == FfmpegError::Io(e),
{
    if not_found {
        FfmpegError::FfmpegNotFound
    } else {
        FfmpegError::Io(e)
    }
}

/// The error for an ffmpeg run that could not be started: a missing program
/// is `FfmpegNotFound`, any other failure is kept as `Io`. Which of the two
/// depends on the error's kind, which is not visible here.
pub fn start_error(e: std::io::Error) -> (r: FfmpegError)
    ensures
        r is FfmpegNotFound || r == FfmpegError::Io(e),
{
    let not_found = io_error_is_not_found(&e);
    start_failure(e, not_found)
}

/// The outcome of a finished ffmpeg run: success, or the failure with the
/// error output as text.
pub fn run_outcome(success: bool, stderr: &[u8]) -> (r: Result<(), FfmpegError>)
    ensures
        success ==> r is Ok,
        !success ==> (r matches Err(FfmpegError::ProcessFailed(m)) && (valid_utf8(stderr@)
            ==> m@ == decode_utf8(stderr@))),
{
    if success {
        Ok(())
    } else {
        Err(FfmpegError::ProcessFailed(lossy_text(stderr)))
    }
}

} // verus!
