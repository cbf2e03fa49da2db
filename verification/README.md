# yt-rs

A node editor for video processing workflows: videos are uploaded, stills
are sampled from them at an interval, selected and previewed, and a vision
model served by Ollama writes a narration for them.

The library under `src/` is written in Verus; each public function carries a
contract that Verus proves. `app/` is the server program around it (command
line, HTTP routes, file and network I/O, JSON), which Verus does not see.

## Layout

| Path | What it holds |
|------|---------------|
| `src/model.rs` | Node kinds, connectors, connections, still sampling |
| `src/graph.rs` | Queries that follow connections upstream |
| `src/project.rs` | Projects: adding and removing nodes and connections, resolving stills and videos |
| `src/editor.rs` | The editor's state and its actions |
| `src/panels.rs` | What the editor shows of a node: captions and dialog contents |
| `src/store.rs` | Storage locations, storage errors, the server's project cache |
| `src/media.rs` | Byte ranges for streaming, thumbnail and still locations, ffmpeg runs |
| `src/generation.rs` | The course of a dialog generation |
| `src/vision.rs`, `src/agent.rs` | Requests to the vision model, prompts and replies |
| `src/config.rs`, `src/control.rs` | Configuration with defaults, command line, shutdown |
| `src/text.rs`, `src/paths.rs`, `src/ids.rs`, `src/encoding.rs` | Text, paths, identifiers, base64 |
| `src/laws.rs` | Properties that span several operations |
| `src/outside.rs` | The calls into std and outside crates, with what they promise |
| `tests/` | Tests run against the compiled library |
| `app/` | The server program; `app/frontend/` is the editor that runs in the browser |

The canvas geometry of the editor (positions, sizes, zoom) is floating point
and is kept by the application, not by the library.

Random identifiers and the clock stay outside the library's proofs: the
constructors of nodes, connections, stills and projects take their
identifiers from the caller (a `FreshIds` supply, or a single value), which
the application draws at random; the current time is read through one
function of `src/outside.rs` that states only that its nanoseconds stay below
one billion.
