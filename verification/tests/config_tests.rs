//! Tests for configuration defaults and for reading a configuration file.

use yt_rs::config::{
    AppConfig, ConfigFile, GenerateDialogConfig, GenerateDialogSection, ServerConfig,
    WorkspaceConfig, WorkspaceSection, version_string,
};

/// Reads a TOML document into the tables and keys it holds, as the server
/// does before filling in defaults.
fn config_from_toml(text: &str) -> AppConfig {
    let table: toml::Table = toml::from_str(text).expect("valid TOML");
    let text_of = |t: &toml::Table, k: &str| t.get(k).and_then(|v| v.as_str()).map(|s| s.to_string());
    let generate_dialog = table.get("generate_dialog").and_then(|v| v.as_table()).map(|t| {
        GenerateDialogSection {
            ollama_host: text_of(t, "ollama_host"),
            ollama_port: t.get("ollama_port").and_then(|v| v.as_integer()).map(|p| p as u16),
            vision_model: text_of(t, "vision_model"),
            system_prompt: text_of(t, "system_prompt"),
        }
    });
    let workspace = table.get("workspace").and_then(|v| v.as_table()).map(|t| WorkspaceSection {
        default_project_name: text_of(t, "default_project_name"),
    });
    AppConfig::from_file(&ConfigFile { generate_dialog, workspace })
}

#[test]
fn test_config_default_values() {
    let config = AppConfig::default();

    assert_eq!(config.generate_dialog.ollama_host, "localhost");
    assert_eq!(config.generate_dialog.ollama_port, 11434);
    assert_eq!(config.generate_dialog.vision_model, "llama3.2-vision:11b");
    assert!(config.generate_dialog.system_prompt.is_none());
    assert_eq!(config.workspace.default_project_name, "default");
}

#[test]
fn test_generate_dialog_config_default() {
    let config = GenerateDialogConfig::default();

    assert_eq!(config.ollama_host, "localhost");
    assert_eq!(config.ollama_port, 11434);
    assert_eq!(config.vision_model, "llama3.2-vision:11b");
    assert!(config.system_prompt.is_none());
}

#[test]
fn test_workspace_config_default() {
    let config = WorkspaceConfig::default();

    assert_eq!(config.default_project_name, "default");
}

#[test]
fn test_config_load_valid_file() {
    let config = config_from_toml(
        r#"
[generate_dialog]
ollama_host = "big72"
ollama_port = 11434
vision_model = "llama3.2-vision:11b"

[workspace]
default_project_name = "my_project"
"#,
    );

    assert_eq!(config.generate_dialog.ollama_host, "big72");
    assert_eq!(config.workspace.default_project_name, "my_project");
}

#[test]
fn test_config_load_partial_file_uses_defaults() {
    let config = config_from_toml(
        r#"
[generate_dialog]
ollama_host = "custom_host"
"#,
    );

    assert_eq!(config.generate_dialog.ollama_host, "custom_host");
    assert_eq!(config.generate_dialog.ollama_port, 11434); // default
    assert_eq!(config.workspace.default_project_name, "default"); // default
}

#[test]
fn test_config_load_with_system_prompt() {
    let config = config_from_toml(
        r#"
[generate_dialog]
ollama_host = "localhost"
system_prompt = "You are analyzing video frames."
"#,
    );

    assert_eq!(
        config.generate_dialog.system_prompt,
        Some("You are analyzing video frames.".to_string())
    );
}

#[test]
fn empty_file_gives_the_defaults() {
    let config = config_from_toml("");
    assert_eq!(config.generate_dialog.ollama_host, "localhost");
    assert_eq!(config.generate_dialog.ollama_port, 11434);
    assert_eq!(config.generate_dialog.vision_model, "llama3.2-vision:11b");
    assert!(config.generate_dialog.system_prompt.is_none());
    assert_eq!(config.workspace.default_project_name, "default");
}

#[test]
fn empty_workspace_table_keeps_default_name() {
    let config = config_from_toml("[workspace]\n");
    assert_eq!(config.workspace.default_project_name, "default");
    let config = config_from_toml("[generate_dialog]\nollama_port = 9000\n");
    assert_eq!(config.generate_dialog.ollama_port, 9000);
    assert_eq!(config.generate_dialog.ollama_host, "localhost");
}

#[test]
fn server_config_binds_all_interfaces() {
    let config = ServerConfig::new(8080, "./dist".to_string());
    assert_eq!(config.port, 8080);
    assert_eq!(config.static_dir, "./dist");
    assert_eq!(config.socket_addr(), ([0, 0, 0, 0], 8080));
    let default = ServerConfig::default();
    assert_eq!(default.port, 3000);
}

#[test]
fn version_text_lists_the_build() {
    let text = version_string("0.1.0", "host1", "abc123", "2024-01-01");
    assert!(text.starts_with("0.1.0\nCopyright (c) 2024 Software Wrighter\nLicense: MIT\n"));
    assert!(text.ends_with("Build Host: host1\nBuild Commit: abc123\nBuild Time: 2024-01-01"));
}
