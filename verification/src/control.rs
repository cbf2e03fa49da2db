//! Starting and stopping the server: the command line, what it launches, and
//! the shutdown request with the answers to it.

use vstd::prelude::*;
use crate::text::{copy_string, decimal, push_decimal, push_str};

verus! {

/// The answer of the shutdown endpoint.
#[derive(Debug)]
pub struct ShutdownResponse {
    pub message: String,
}

impl ShutdownResponse {
    /// The answer given when a shutdown has been requested (status 200).
    pub fn shutting_down() -> (r: ShutdownResponse)
        ensures
            r.message@ == "Server shutting down"@,
    {
        ShutdownResponse { message: copy_string("Server shutting down") }
    }
}

/// Subcommands of the command line.
#[derive(Debug)]
pub enum Command {
    /// Start the server, keeping data in `data_dir` and serving the frontend
    /// from `static_dir`.
    Serve { data_dir: String, static_dir: String },
    /// Stop a running server.
    Stop,
}

/// The command line: the port to listen on (or to reach, for `stop`), the
/// configuration file, and the subcommand.
#[derive(Debug)]
pub struct Args {
    pub port: u16,
    pub config_file: String,
    pub command: Option<Command>,
}

/// What the command line launches.
#[derive(Debug)]
pub enum Launch {
    /// Serve on `port` with the given configuration file and directories.
    Serve { port: u16, config_file: String, data_dir: String, static_dir: String },
    /// Ask the server on `port` to stop.
    Stop { port: u16 },
}

/// What a command line launches: without a subcommand the server is started
/// with data in `./data` and the frontend from `./dist`.
pub fn launch(args: Args) -> (l: Launch)
    ensures
        match args.command {
            Some(Command::Stop) => l == Launch::Stop { port: args.port },
            Some(Command::Serve { data_dir, static_dir }) => (l matches Launch::Serve {
                port,
                config_file,
                data_dir: d,
                static_dir: s,
            } && port == args.port && config_file == args.config_file && d == data_dir && s
                == static_dir),
            None => (l matches Launch::Serve { port, config_file, data_dir: d, static_dir: s }
                && port == args.port && config_file == args.config_file && d@ == "./data"@ && s@
                == "./dist"@),
        },
{
    match args.command {
        Some(Command::Stop) => Launch::Stop { port: args.port },
        Some(Command::Serve { data_dir, static_dir }) => Launch::Serve {
            port: args.port,
            config_file: args.config_file,
            data_dir,
            static_dir,
        },
        None => Launch::Serve {
            port: args.port,
            config_file: args.config_file,
            data_dir: copy_string("./data"),
            static_dir: copy_string("./dist"),
        },
    }
}

/// The address of the shutdown endpoint of the server on `port`.
pub open spec fn shutdown_url_of(port: u16) -> Seq<char> {
    "http://localhost:"@ + decimal(port as nat) + "/api/v1/shutdown"@
}

/// The address of the shutdown endpoint of the server on `port`.
pub fn shutdown_url(port: u16) -> (s: String)
    ensures
        s@ == shutdown_url_of(port),
{
    let mut s = String::new();
    push_str(&mut s, "http://localhost:");
    push_decimal(&mut s, port as u64);
    push_str(&mut s, "/api/v1/shutdown");
    s
}

/// What came of the shutdown request.
#[derive(Debug)]
pub enum StopReply {
    /// The server answered with a status (written as text), successful or not.
    Answered { success: bool, status: String },
    /// The request failed; `refused` when no server accepted the connection.
    Failed { refused: bool, error: String },
}

/// The outcome of `stop` on `port`: the message printed when it succeeds,
/// or the error it fails with. A refused connection means no server runs,
/// which is success.
pub fn stop_outcome(port: u16, reply: &StopReply) -> (r: Result<String, String>)
    ensures
        match *reply {
            StopReply::Answered { success, status } => if success {
                (r matches Ok(m) && m@ == "Server shutdown initiated successfully."@)
            } else {
                (r matches Err(m) && m@ == "Server returned error: "@ + status@)
            },
            StopReply::Failed { refused, error } => if refused {
                (r matches Ok(m) && m@ == "No server running on port "@ + decimal(port as nat)
                    + " (connection refused)."@)
            } else {
                (r matches Err(m) && m@ == "Failed to connect: "@ + error@)
            },
        },
{
    match reply {
        StopReply::Answered { success, status } => {
            if *success {
                Ok(copy_string("Server shutdown initiated successfully."))
            } else {
                let mut m = String::new();
                push_str(&mut m, "Server returned error: ");
                push_str(&mut m, status.as_str());
                Err(m)
            }
        },
        StopReply::Failed { refused, error } => {
            let mut m = String::new();
            if *refused {
                push_str(&mut m, "No server running on port ");
                push_decimal(&mut m, port as u64);
                push_str(&mut m, " (connection refused).");
                Ok(m)
            } else {
                push_str(&mut m, "Failed to connect: ");
                push_str(&mut m, error.as_str());
                Err(m)
            }
        },
    }
}

} // verus!
