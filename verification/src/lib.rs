//! Verified core of the yt-rs node editor: the node graph and its queries,
//! the editor's state transitions and what it shows of each node, the
//! server's project cache and storage locations, the course of a dialog
//! generation with the vision model and its prompts, configuration defaults,
//! the command line, and the small text formats (paths, byte ranges,
//! numbers, identifiers, base64) the server relies on.

mod outside;

pub mod agent;
pub mod config;
pub mod control;
pub mod editor;
pub mod encoding;
pub mod generation;
pub mod graph;
pub mod ids;
pub mod laws;
pub mod media;
pub mod model;
pub mod panels;
pub mod paths;
pub mod project;
pub mod store;
pub mod text;
pub mod vision;
