//! Tests for what the editor shows of nodes.

use uuid::Uuid;
use yt_rs::ids::FreshIds;
use yt_rs::model::{Connection, Node, NodeData, UploadStatus, VideoInputData};
use yt_rs::panels::{
    NodeCaption, clock_text, node_caption, sampler_after_interval_input, sampler_panel,
    sampler_video_duration, selector_after_index_input, selector_panel, still_image_url,
    still_panel, video_input_panel, viewer_panel, interval_from_input, video_input_after_delete,
    video_input_after_upload, video_input_uploading,
};

/// A fresh random identifier.
fn fresh_id() -> u128 {
    Uuid::new_v4().as_u128()
}

/// A supply of fresh random identifiers, more than any test takes.
fn fresh() -> FreshIds {
    FreshIds::new((0..4096).map(|_| fresh_id()).collect())
}

const ID: &str = "550e8400-e29b-41d4-a716-446655440000";

fn file_id() -> u128 {
    Uuid::parse_str(ID).unwrap().as_u128()
}

fn video_node(name: Option<&str>, id: Option<u128>, duration: Option<u64>) -> Node {
    let mut node = Node::new_video_input(&mut fresh());
    if let NodeData::VideoInput(ref mut d) = node.data {
        d.file_id = id;
        d.file_name = name.map(|s| s.to_string());
        d.duration_seconds = duration;
    }
    node
}

/// video -> sampler -> selector(index) -> preview
fn chain(index: usize) -> (Vec<Node>, Vec<Connection>) {
    let video = video_node(Some("trip.mp4"), Some(file_id()), Some(60));
    let mut sampler = Node::new_still_sampler(&mut fresh());
    if let NodeData::StillSampler(ref mut d) = sampler.data {
        d.generate_stills(60, &mut fresh());
    }
    let mut selector = Node::new_selector(&mut fresh());
    if let NodeData::Selector(ref mut d) = selector.data {
        d.selected_index = index;
    }
    let preview = Node::new_still_preview(&mut fresh());
    let conns = vec![
        Connection::new(fresh_id(), video.id, video.outputs[0].id, sampler.id, sampler.inputs[0].id),
        Connection::new(fresh_id(), sampler.id, sampler.outputs[0].id, selector.id, selector.inputs[0].id),
        Connection::new(fresh_id(), selector.id, selector.outputs[0].id, preview.id, preview.inputs[0].id),
    ];
    (vec![video, sampler, selector, preview], conns)
}

#[test]
fn captions_of_a_chain() {
    let (nodes, conns) = chain(1);
    match node_caption(&nodes, &conns, &nodes[0]) {
        NodeCaption::Video { source, name, duration_seconds } => {
            assert_eq!(source, nodes[0].id);
            assert_eq!(name, "trip.mp4");
            assert_eq!(duration_seconds, Some(60));
        }
        other => panic!("unexpected {:?}", other),
    }
    match node_caption(&nodes, &conns, &nodes[1]) {
        NodeCaption::Lines { first, second } => {
            assert_eq!(first, "30s interval");
            assert_eq!(second.as_deref(), Some("2 stills"));
        }
        other => panic!("unexpected {:?}", other),
    }
    match node_caption(&nodes, &conns, &nodes[2]) {
        NodeCaption::Lines { first, second } => {
            assert_eq!(first, "Index: 1");
            assert_eq!(second.as_deref(), Some("2 stills"));
        }
        other => panic!("unexpected {:?}", other),
    }
    match node_caption(&nodes, &conns, &nodes[3]) {
        NodeCaption::Still { time_text, image_url } => {
            assert_eq!(time_text, "30.0s");
            assert_eq!(image_url, format!("/api/v1/stills/{ID}/30.00"));
        }
        other => panic!("unexpected {:?}", other),
    }
}

#[test]
fn captions_of_unconnected_nodes() {
    let nodes = vec![Node::new_video_input(&mut fresh()), Node::new_still_sampler(&mut fresh()), Node::new_viewer(&mut fresh()), Node::new_selector(&mut fresh()), Node::new_still_preview(&mut fresh()), Node::new_text_view(&mut fresh())];
    let conns: Vec<Connection> = vec![];
    assert!(matches!(node_caption(&nodes, &conns, &nodes[0]), NodeCaption::Empty));
    match node_caption(&nodes, &conns, &nodes[1]) {
        NodeCaption::Lines { second, .. } => assert_eq!(second.as_deref(), Some("No video connected")),
        other => panic!("unexpected {:?}", other),
    }
    match node_caption(&nodes, &conns, &nodes[2]) {
        NodeCaption::Lines { first, second } => {
            assert_eq!(first, "No video connected");
            assert!(second.is_none());
        }
        other => panic!("unexpected {:?}", other),
    }
    match node_caption(&nodes, &conns, &nodes[3]) {
        NodeCaption::Lines { second, .. } => assert_eq!(second.as_deref(), Some("No input")),
        other => panic!("unexpected {:?}", other),
    }
    match node_caption(&nodes, &conns, &nodes[4]) {
        NodeCaption::Lines { first, .. } => assert_eq!(first, "No still connected"),
        other => panic!("unexpected {:?}", other),
    }
    assert!(matches!(node_caption(&nodes, &conns, &nodes[5]), NodeCaption::Empty));
}

#[test]
fn viewer_caption_names_an_unnamed_video_unknown() {
    let video = video_node(None, None, None);
    let viewer = Node::new_viewer(&mut fresh());
    let conns = vec![Connection::new(fresh_id(), video.id, video.outputs[0].id, viewer.id, viewer.inputs[0].id)];
    let nodes = vec![video, viewer];
    match node_caption(&nodes, &conns, &nodes[1]) {
        NodeCaption::Video { source, name, duration_seconds } => {
            assert_eq!(source, nodes[0].id);
            assert_eq!(name, "Unknown");
            assert!(duration_seconds.is_none());
        }
        other => panic!("unexpected {:?}", other),
    }
    // Without a loaded file the viewer has nothing to play.
    assert!(viewer_panel(&nodes, &conns, &nodes[1]).is_none());
}

#[test]
fn viewer_dialog_streams_the_video() {
    let video = video_node(Some("a.mp4"), Some(file_id()), Some(125));
    let viewer = Node::new_viewer(&mut fresh());
    let conns = vec![Connection::new(fresh_id(), video.id, video.outputs[0].id, viewer.id, viewer.inputs[0].id)];
    let nodes = vec![video, viewer];
    let panel = viewer_panel(&nodes, &conns, &nodes[1]).unwrap();
    assert_eq!(panel.source, nodes[0].id);
    assert_eq!(panel.name, "a.mp4");
    assert_eq!(panel.duration_seconds, Some(125));
    assert_eq!(panel.stream_url, format!("/api/v1/videos/{ID}/stream"));
    assert_eq!(clock_text(125), "2:05");
}

#[test]
fn video_input_dialog() {
    let empty = video_input_panel(&VideoInputData::default());
    assert_eq!(empty.video_name, "None");
    assert!(!empty.has_video);
    assert!(!empty.can_delete);
    assert_eq!(empty.load_label, "Load Video...");
    let uploading = video_input_panel(&VideoInputData {
        file_name: Some("big.mov".to_string()),
        upload_status: UploadStatus::Uploading,
        ..Default::default()
    });
    assert_eq!(uploading.video_name, "big.mov");
    assert!(uploading.has_video);
    assert!(uploading.uploading);
    assert!(!uploading.can_delete);
    assert_eq!(uploading.load_label, "Uploading...");
    let loaded = video_input_panel(&VideoInputData {
        file_name: Some("big.mov".to_string()),
        upload_status: UploadStatus::Complete,
        ..Default::default()
    });
    assert!(loaded.can_delete);
}

#[test]
fn sampler_interval_input() {
    let d = sampler_after_interval_input("10", Some(25), &mut fresh()).unwrap();
    assert_eq!(d.interval_seconds, 10);
    let ts: Vec<u64> = d.extracted_stills.iter().map(|s| s.timestamp_seconds).collect();
    assert_eq!(ts, vec![0, 10, 20]);
    assert_eq!(sampler_after_interval_input("0", None, &mut fresh()).unwrap().interval_seconds, 1);
    assert_eq!(sampler_after_interval_input("9999", None, &mut fresh()).unwrap().interval_seconds, 300);
    assert!(sampler_after_interval_input("9999", None, &mut fresh()).unwrap().extracted_stills.is_empty());
    assert!(sampler_after_interval_input("abc", Some(10), &mut fresh()).is_none());
    assert!(sampler_after_interval_input("-5", Some(10), &mut fresh()).is_none());
    assert!(sampler_after_interval_input("4294967296", None, &mut fresh()).is_none());
    assert_eq!(sampler_after_interval_input("4294967295", None, &mut fresh()).unwrap().interval_seconds, 300);
}

#[test]
fn sampler_dialog_asks_for_a_video() {
    let (nodes, conns) = chain(0);
    if let NodeData::StillSampler(d) = &nodes[1].data {
        let panel = sampler_panel(&nodes, &conns, &nodes[1], d);
        assert_eq!(panel.interval_seconds, 30);
        assert_eq!(panel.stills_extracted, 2);
        assert!(!panel.show_connect_hint);
        assert_eq!(sampler_video_duration(&nodes, &conns, &nodes[1]), Some(60));
        let panel = sampler_panel(&nodes, &[], &nodes[1], d);
        assert!(panel.show_connect_hint);
    } else {
        panic!("not a sampler");
    }
}

#[test]
fn selector_dialog() {
    let (nodes, conns) = chain(1);
    let panel = selector_panel(&nodes, &conns, &nodes[2], 1);
    assert_eq!(panel.count_text, "2");
    assert_eq!(panel.max_index, 1);
    assert!(panel.enabled);
    assert_eq!(panel.hint.as_deref(), Some("Selecting still 2 of 2"));
    assert!(selector_panel(&nodes, &conns, &nodes[2], 2).hint.is_none());
    let alone = selector_panel(&nodes, &[], &nodes[2], 0);
    assert_eq!(alone.count_text, "No input");
    assert_eq!(alone.max_index, 0);
    assert!(!alone.enabled);
    assert!(alone.hint.is_none());
    assert_eq!(selector_after_index_input("3").map(|d| d.selected_index), Some(3));
    assert!(selector_after_index_input("x").is_none());
}

#[test]
fn still_preview_dialog() {
    let (nodes, conns) = chain(1);
    let panel = still_panel(&nodes, &conns, &nodes[3]).unwrap();
    assert_eq!(panel.source, "trip.mp4");
    assert_eq!(panel.time_text, "0:30");
    assert_eq!(panel.image_url, still_image_url(file_id(), 30));
    let (nodes, conns) = chain(5);
    assert!(still_panel(&nodes, &conns, &nodes[3]).is_none());
}

#[test]
fn clock_texts() {
    assert_eq!(clock_text(0), "0:00");
    assert_eq!(clock_text(59), "0:59");
    assert_eq!(clock_text(60), "1:00");
    assert_eq!(clock_text(3599), "59:59");
    assert_eq!(clock_text(3600), "60:00");
}

#[test]
fn deleting_the_video_resets_the_node_data() {
    let d = video_input_after_delete();
    assert_eq!(d, VideoInputData::default());
    assert_eq!(d.upload_status, UploadStatus::NoUpload);
    assert!(d.file_name.is_none());
}

#[test]
fn choosing_a_file_starts_its_upload() {
    let d = video_input_uploading("clip.mp4");
    assert_eq!(d.file_name.as_deref(), Some("clip.mp4"));
    assert_eq!(d.upload_status, UploadStatus::Uploading);
    assert!(d.file_id.is_none() && d.file_path.is_none() && d.duration_seconds.is_none());
    // The dialog then disables both buttons.
    let p = video_input_panel(&d);
    assert!(p.uploading && !p.can_delete);
}

#[test]
fn a_finished_upload_fills_in_the_video() {
    let d = video_input_after_upload(Ok((42, "clip.mp4".to_string(), "videos/42.mp4".to_string(), Some(91))));
    assert_eq!(d.file_id, Some(42));
    assert_eq!(d.file_name.as_deref(), Some("clip.mp4"));
    assert_eq!(d.file_path.as_deref(), Some("videos/42.mp4"));
    assert_eq!(d.duration_seconds, Some(91));
    assert_eq!(d.upload_status, UploadStatus::Complete);
}

#[test]
fn a_failed_upload_keeps_only_the_error() {
    let d = video_input_after_upload(Err("Upload failed: 500".to_string()));
    assert_eq!(d.upload_status, UploadStatus::Error("Upload failed: 500".to_string()));
    assert!(d.file_id.is_none() && d.file_name.is_none() && d.file_path.is_none());
    assert!(d.duration_seconds.is_none());
}

#[test]
fn interval_input_is_read_and_clamped() {
    assert_eq!(interval_from_input("45"), Some(45));
    assert_eq!(interval_from_input("0"), Some(1));
    assert_eq!(interval_from_input("301"), Some(300));
    assert_eq!(interval_from_input("x"), None);
    assert_eq!(interval_from_input("4294967296"), None);
}

#[test]
fn resampled_stills_take_identifiers_last_first() {
    let mut ids = FreshIds::new(vec![1, 2, 3, 4]);
    let d = sampler_after_interval_input("10", Some(25), &mut ids).unwrap();
    let taken: Vec<u128> = d.extracted_stills.iter().map(|s| s.id).collect();
    assert_eq!(taken, vec![4, 3, 2]);
    assert_eq!(ids.len(), 1);
}
