//! Configuration: the defaults of the configuration file, the vision model
//! connection, the server, and the version text.

use vstd::prelude::*;
use crate::text::{copy_string, decimal, opt_chars, push_decimal, push_str};

verus! {

/// Default Ollama host name.
pub fn default_ollama_host() -> (s: String)
    ensures
        s@ == "localhost"@,
{
    copy_string("localhost")
}

/// Default Ollama port.
pub fn default_ollama_port() -> (p: u16)
    ensures
        p == 11434,
{
    11434
}

/// Default vision model.
pub fn default_vision_model() -> (s: String)
    ensures
        s@ == "llama3.2-vision:11b"@,
{
    copy_string("llama3.2-vision:11b")
}

/// Default project name for workspace save and restore.
pub fn default_project_name() -> (s: String)
    ensures
        s@ == "default"@,
{
    copy_string("default")
}

/// Configuration of the GenerateDialog node's Ollama connection.
#[derive(Debug, Clone)]
pub struct GenerateDialogConfig {
    pub ollama_host: String,
    pub ollama_port: u16,
    pub vision_model: String,
    pub system_prompt: Option<String>,
}

impl Default for GenerateDialogConfig {
    fn default() -> (c: GenerateDialogConfig)
        ensures
            c.ollama_host@ == "localhost"@,
            c.ollama_port == 11434,
            c.vision_model@ == "llama3.2-vision:11b"@,
            c.system_prompt is None,
    {
        GenerateDialogConfig {
            ollama_host: default_ollama_host(),
            ollama_port: default_ollama_port(),
            vision_model: default_vision_model(),
            system_prompt: None,
        }
    }
}

/// Configuration of workspace management.
#[derive(Debug, Clone)]
pub struct WorkspaceConfig {
    pub default_project_name: String,
}

impl Default for WorkspaceConfig {
    fn default() -> (c: WorkspaceConfig)
        ensures
            c.default_project_name@ == "default"@,
    {
        WorkspaceConfig { default_project_name: default_project_name() }
    }
}

/// The application configuration.
#[derive(Debug, Clone)]
pub struct AppConfig {
    pub generate_dialog: GenerateDialogConfig,
    pub workspace: WorkspaceConfig,
}

impl Default for AppConfig {
    fn default() -> (c: AppConfig)
        ensures
            c.generate_dialog.ollama_host@ == "localhost"@,
            c.generate_dialog.ollama_port == 11434,
            c.generate_dialog.vision_model@ == "llama3.2-vision:11b"@,
            c.generate_dialog.system_prompt is None,
            c.workspace.default_project_name@ == "default"@,
    {
        AppConfig { generate_dialog: GenerateDialogConfig::default(), workspace: WorkspaceConfig::default() }
    }
}

/// The `[generate_dialog]` table of a configuration file, each key optional.
#[derive(Debug, Clone)]
pub struct GenerateDialogSection {
    pub ollama_host: Option<String>,
    pub ollama_port: Option<u16>,
    pub vision_model: Option<String>,
    pub system_prompt: Option<String>,
}

/// The `[workspace]` table of a configuration file, each key optional.
#[derive(Debug, Clone)]
pub struct WorkspaceSection {
    pub default_project_name: Option<String>,
}

/// A configuration file as written: each table and key optional.
#[derive(Debug, Clone)]
pub struct ConfigFile {
    pub generate_dialog: Option<GenerateDialogSection>,
    pub workspace: Option<WorkspaceSection>,
}

/// The value given, or else the default.
pub open spec fn given_or(o: Option<Seq<char>>, default: Seq<char>) -> Seq<char> {
    match o {
        Some(s) => s,
        None => default,
    }
}

impl AppConfig {
    /// The configuration that a configuration file describes: every table
    /// and key it leaves out takes its default (a missing system prompt stays
    /// absent).
    pub fn from_file(file: &ConfigFile) -> (c: AppConfig)
        ensures
            match file.generate_dialog {
                Some(g) => {
                    &&& c.generate_dialog.ollama_host@ == given_or(
                        opt_chars(g.ollama_host),
                        "localhost"@,
                    )
                    &&& c.generate_dialog.ollama_port == match g.ollama_port {
                        Some(p) => p,
                        None => 11434u16,
                    }
                    &&& c.generate_dialog.vision_model@ == given_or(
                        opt_chars(g.vision_model),
                        "llama3.2-vision:11b"@,
                    )
                    &&& opt_chars(c.generate_dialog.system_prompt) == opt_chars(g.system_prompt)
                },
                None => {
                    &&& c.generate_dialog.ollama_host@ == "localhost"@
                    &&& c.generate_dialog.ollama_port == 11434
                    &&& c.generate_dialog.vision_model@ == "llama3.2-vision:11b"@
                    &&& c.generate_dialog.system_prompt is None
                },
            },
            c.workspace.default_project_name@ == match file.workspace {
                Some(w) => given_or(opt_chars(w.default_project_name), "default"@),
                None => "default"@,
            },
    {
        let generate_dialog = match &file.generate_dialog {
            Some(g) => GenerateDialogConfig {
                ollama_host: match &g.ollama_host {
                    Some(h) => copy_string(h.as_str()),
                    None => default_ollama_host(),
                },
                ollama_port: match g.ollama_port {
                    Some(p) => p,
                    None => default_ollama_port(),
                },
                vision_model: match &g.vision_model {
                    Some(m) => copy_string(m.as_str()),
                    None => default_vision_model(),
                },
                system_prompt: crate::text::copy_opt_string(&g.system_prompt),
            },
            None => GenerateDialogConfig::default(),
        };
        let workspace = match &file.workspace {
            Some(w) => WorkspaceConfig {
                default_project_name: match &w.default_project_name {
                    Some(n) => copy_string(n.as_str()),
                    None => default_project_name(),
                },
            },
            None => WorkspaceConfig::default(),
        };
        AppConfig { generate_dialog, workspace }
    }
}

/// `http://host:port`.
pub open spec fn http_base_url(host: Seq<char>, port: u16) -> Seq<char> {
    "http://"@ + host + ":"@ + decimal(port as nat)
}

/// Writes `http://host:port`.
pub fn http_base(host: &str, port: u16) -> (s: String)
    ensures
        s@ == http_base_url(host@, port),
{
    let mut s = String::new();
    push_str(&mut s, "http://");
    push_str(&mut s, host);
    push_str(&mut s, ":");
    push_decimal(&mut s, port as u64);
    assert(s@ =~= http_base_url(host@, port));
    s
}

/// Configuration of the Ollama client.
#[derive(Debug, Clone)]
pub struct OllamaConfig {
    pub host: String,
    pub port: u16,
    pub model: String,
    pub system_prompt: Option<String>,
}

impl Default for OllamaConfig {
    fn default() -> (c: OllamaConfig)
        ensures
            c.host@ == "localhost"@,
            c.port == 11434,
            c.model@ == "llama3.2-vision:11b"@,
            c.system_prompt is None,
    {
        OllamaConfig {
            host: copy_string("localhost"),
            port: 11434,
            model: copy_string("llama3.2-vision:11b"),
            system_prompt: None,
        }
    }
}

impl OllamaConfig {
    /// The base URL of the Ollama API: `http://host:port`.
    pub fn base_url(&self) -> (s: String)
        ensures
            s@ == http_base_url(self.host@, self.port),
    {
        http_base(self.host.as_str(), self.port)
    }
}

/// Configuration of the server.
#[derive(Debug, Clone)]
pub struct ServerConfig {
    pub port: u16,
    pub static_dir: String,
}

impl ServerConfig {
    /// Creates a server configuration.
    pub fn new(port: u16, static_dir: String) -> (c: ServerConfig)
        ensures
            c.port == port,
            c.static_dir == static_dir,
    {
        ServerConfig { port, static_dir }
    }

    /// The address to listen on: all IPv4 interfaces, at the configured port.
    pub fn socket_addr(&self) -> (a: ([u8; 4], u16))
        ensures
            a.0@ == seq![0u8, 0u8, 0u8, 0u8],
            a.1 == self.port,
    {
        let a = [0u8, 0u8, 0u8, 0u8];
        assert(a@ =~= seq![0u8, 0u8, 0u8, 0u8]);
        (a, self.port)
    }
}

impl Default for ServerConfig {
    fn default() -> (c: ServerConfig)
        ensures
            c.port == 3000,
            c.static_dir@ == "./dist"@,
    {
        ServerConfig { port: 3000, static_dir: copy_string("./dist") }
    }
}

/// The version text of the command-line program.
pub open spec fn version_text(
    version: Seq<char>,
    build_host: Seq<char>,
    build_commit: Seq<char>,
    build_time: Seq<char>,
) -> Seq<char> {
    version + "\nCopyright (c) 2024 Software Wrighter\nLicense: MIT\nRepository: https://github.com/softwarewrighter/yt-rs\nBuild Host: "@
        + build_host + "\nBuild Commit: "@ + build_commit + "\nBuild Time: "@ + build_time
}

/// The version text of the command-line program, from the package version
/// and the build's host, commit and time.
pub fn version_string(version: &str, build_host: &str, build_commit: &str, build_time: &str) -> (s:
    String)
    ensures
        s@ == version_text(version@, build_host@, build_commit@, build_time@),
{
    let mut s = String::new();
    push_str(&mut s, version);
    push_str(
        &mut s,
        "\nCopyright (c) 2024 Software Wrighter\nLicense: MIT\nRepository: https://github.com/softwarewrighter/yt-rs\nBuild Host: ",
    );
    push_str(&mut s, build_host);
    push_str(&mut s, "\nBuild Commit: ");
    push_str(&mut s, build_commit);
    push_str(&mut s, "\nBuild Time: ");
    push_str(&mut s, build_time);
    assert(s@ =~= version_text(version@, build_host@, build_commit@, build_time@));
    s
}

} // verus!
