//! Tests for the command line and the shutdown request.

use yt_rs::control::{Args, Command, Launch, ShutdownResponse, StopReply, launch, shutdown_url, stop_outcome};

#[test]
fn without_subcommand_the_server_starts_with_default_directories() {
    let args = Args { port: 3000, config_file: "./config.toml".to_string(), command: None };
    match launch(args) {
        Launch::Serve { port, config_file, data_dir, static_dir } => {
            assert_eq!(port, 3000);
            assert_eq!(config_file, "./config.toml");
            assert_eq!(data_dir, "./data");
            assert_eq!(static_dir, "./dist");
        }
        other => panic!("unexpected {:?}", other),
    }
}

#[test]
fn serve_and_stop_subcommands() {
    let args = Args {
        port: 8080,
        config_file: "c.toml".to_string(),
        command: Some(Command::Serve { data_dir: "/d".to_string(), static_dir: "/s".to_string() }),
    };
    match launch(args) {
        Launch::Serve { port, data_dir, static_dir, .. } => {
            assert_eq!(port, 8080);
            assert_eq!(data_dir, "/d");
            assert_eq!(static_dir, "/s");
        }
        other => panic!("unexpected {:?}", other),
    }
    let args = Args { port: 9, config_file: String::new(), command: Some(Command::Stop) };
    assert!(matches!(launch(args), Launch::Stop { port: 9 }));
}

#[test]
fn shutdown_request_and_its_answers() {
    assert_eq!(shutdown_url(3000), "http://localhost:3000/api/v1/shutdown");
    assert_eq!(ShutdownResponse::shutting_down().message, "Server shutting down");
    let ok = StopReply::Answered { success: true, status: "200 OK".to_string() };
    assert_eq!(stop_outcome(3000, &ok), Ok("Server shutdown initiated successfully.".to_string()));
    let bad = StopReply::Answered { success: false, status: "500 Internal Server Error".to_string() };
    assert_eq!(stop_outcome(3000, &bad), Err("Server returned error: 500 Internal Server Error".to_string()));
    let refused = StopReply::Failed { refused: true, error: "refused".to_string() };
    assert_eq!(
        stop_outcome(4000, &refused),
        Ok("No server running on port 4000 (connection refused).".to_string())
    );
    let other = StopReply::Failed { refused: false, error: "timeout".to_string() };
    assert_eq!(stop_outcome(4000, &other), Err("Failed to connect: timeout".to_string()));
}
