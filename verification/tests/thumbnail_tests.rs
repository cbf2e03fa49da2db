//! Tests for thumbnail and still locations and the ffmpeg run that makes them.

use uuid::Uuid;
use yt_rs::media::{
    FfmpegError, THUMBNAIL_WIDTH, run_outcome, start_error, start_failure, still_path,
    stills_dir, thumbnail_args, thumbnail_path,
};

#[test]
fn test_thumbnail_path() {
    let id = Uuid::parse_str("550e8400-e29b-41d4-a716-446655440000").unwrap();
    let path = thumbnail_path("/data", id.as_u128());
    assert_eq!(path, "/data/work/thumbnails/550e8400-e29b-41d4-a716-446655440000.jpg");
}

#[test]
fn test_thumbnail_path_format() {
    let id = Uuid::parse_str("550e8400-e29b-41d4-a716-446655440000").unwrap();
    let path = thumbnail_path("/data", id.as_u128());

    assert_eq!(path, "/data/work/thumbnails/550e8400-e29b-41d4-a716-446655440000.jpg");
}

#[test]
fn test_thumbnail_path_uses_jpg_extension() {
    let id = Uuid::new_v4();
    let path = thumbnail_path("/var/app", id.as_u128());

    assert!(std::path::Path::new(&path).extension().map(|e| e == "jpg").unwrap_or(false));
}

#[test]
fn test_thumbnail_path_in_work_thumbnails_subdir() {
    let id = Uuid::new_v4();
    let path = thumbnail_path("/mydata", id.as_u128());

    assert!(std::path::Path::new(&path).starts_with("/mydata/work/thumbnails"));
}

#[test]
fn thumbnail_path_keeps_a_trailing_slash_single() {
    let id = Uuid::parse_str("00000000-0000-0000-0000-00000000000a").unwrap();
    assert_eq!(
        thumbnail_path("/data/", id.as_u128()),
        "/data/work/thumbnails/00000000-0000-0000-0000-00000000000a.jpg"
    );
    assert_eq!(
        thumbnail_path("", id.as_u128()),
        "work/thumbnails/00000000-0000-0000-0000-00000000000a.jpg"
    );
}

#[test]
fn still_path_carries_the_time_with_two_decimals() {
    let id = Uuid::parse_str("550e8400-e29b-41d4-a716-446655440000").unwrap();
    assert_eq!(stills_dir("./data"), "./data/work/stills");
    assert_eq!(
        still_path("./data", id.as_u128(), 30),
        "./data/work/stills/550e8400-e29b-41d4-a716-446655440000-30.00.jpg"
    );
    assert_eq!(
        still_path("/d", id.as_u128(), 0),
        "/d/work/stills/550e8400-e29b-41d4-a716-446655440000-0.00.jpg"
    );
}

#[test]
fn ffmpeg_arguments_extract_one_scaled_frame() {
    let args = thumbnail_args("/v/in.mp4", "/t/out.jpg", 12, THUMBNAIL_WIDTH);
    assert_eq!(
        args,
        vec![
            "-y", "-ss", "12.000", "-i", "/v/in.mp4", "-vframes", "1", "-vf", "scale=320:-1",
            "-q:v", "2", "/t/out.jpg",
        ]
    );
}

#[test]
fn ffmpeg_failures_carry_their_reason() {
    assert!(run_outcome(true, b"").is_ok());
    match run_outcome(false, b"No such file") {
        Err(FfmpegError::ProcessFailed(m)) => assert_eq!(m, "No such file"),
        other => panic!("unexpected {:?}", other),
    }
    let missing = std::io::Error::new(std::io::ErrorKind::NotFound, "no ffmpeg");
    assert!(matches!(start_error(missing), FfmpegError::FfmpegNotFound));
    let denied = std::io::Error::new(std::io::ErrorKind::PermissionDenied, "denied");
    assert!(matches!(start_error(denied), FfmpegError::Io(_)));
    let other = std::io::Error::new(std::io::ErrorKind::Other, "x");
    assert!(matches!(start_failure(other, true), FfmpegError::FfmpegNotFound));
}

#[test]
fn ffmpeg_error_messages() {
    assert_eq!(FfmpegError::FfprobeNotFound.message(), "ffprobe not found in PATH");
    assert_eq!(FfmpegError::FfmpegNotFound.message(), "ffmpeg not found in PATH");
    assert_eq!(FfmpegError::ProcessFailed("bad".to_string()).message(), "process failed: bad");
    assert_eq!(FfmpegError::ParseError("x".to_string()).message(), "failed to parse output: x");
    let io = FfmpegError::Io(std::io::Error::new(std::io::ErrorKind::Other, "disk"));
    assert_eq!(io.message(), "io error: disk");
}

#[test]
fn each_still_has_its_own_file() {
    let id = Uuid::parse_str("550e8400-e29b-41d4-a716-446655440000").unwrap().as_u128();
    assert_ne!(still_path("/d", id, 30), still_path("/d", id, 300));
    assert_ne!(still_path("/d", id, 3), still_path("/d", id, 30));
    assert_ne!(still_path("/d", id, 30), still_path("/d", id + 1, 30));
    assert_ne!(thumbnail_path("/d", id), thumbnail_path("/d", id + 1));
}
