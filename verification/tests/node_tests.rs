//! Tests for node kinds, connectors and still sampling. (Positions and
//! connector offsets are geometry that the application keeps.)

use uuid::Uuid;
use yt_rs::ids::FreshIds;
use yt_rs::model::{
    Connector, ConnectorType, Node, NodeData, SelectorData, StillPreviewData, StillSamplerData,
    UploadStatus, VideoInputData, ViewerData, still_count_of,
};

/// A fresh random identifier.
fn fresh_id() -> u128 {
    Uuid::new_v4().as_u128()
}

/// A supply of fresh random identifiers, more than any test takes.
fn fresh() -> FreshIds {
    FreshIds::new((0..4096).map(|_| fresh_id()).collect())
}

#[test]
fn test_connector_input() {
    let conn = Connector::input(fresh_id(), "test");
    assert_eq!(conn.name, "test");
    assert_eq!(conn.connector_type, ConnectorType::Input);
}

#[test]
fn test_connector_output() {
    let conn = Connector::output(fresh_id(), "out");
    assert_eq!(conn.name, "out");
    assert_eq!(conn.connector_type, ConnectorType::Output);
}

#[test]
fn test_video_input_node() {
    let node = Node::new_video_input(&mut fresh());
    assert!(node.inputs.is_empty());
    assert_eq!(node.outputs.len(), 1);
    assert!(matches!(node.data, NodeData::VideoInput(_)));
}

#[test]
fn test_still_sampler_node() {
    let node = Node::new_still_sampler(&mut fresh());
    assert_eq!(node.inputs.len(), 1);
    assert_eq!(node.outputs.len(), 1);
    assert_eq!(node.outputs[0].name, "stills_out");
    assert!(matches!(node.data, NodeData::StillSampler(_)));
}

#[test]
fn test_still_sampler_default_interval() {
    let data = StillSamplerData::default();
    assert_eq!(data.interval_seconds, 30);
}

#[test]
fn test_generate_stills() {
    let mut data = StillSamplerData::default();
    data.generate_stills(150, &mut fresh()); // 2.5 minutes
    // At 30s intervals: 0, 30, 60, 90, 120 = 5 stills
    assert_eq!(data.extracted_stills.len(), 5);
    assert_eq!(data.extracted_stills[0].timestamp_seconds, 0);
    assert_eq!(data.extracted_stills[1].timestamp_seconds, 30);
    assert_eq!(data.extracted_stills[4].timestamp_seconds, 120);
}

#[test]
fn test_generate_stills_5_min_video() {
    let mut data = StillSamplerData::default();
    data.generate_stills(300, &mut fresh()); // 5 minutes
    // At 30s intervals: 0, 30, 60, 90, 120, 150, 180, 210, 240, 270 = 10 stills
    assert_eq!(data.extracted_stills.len(), 10);
}

#[test]
fn test_node_data_type_name() {
    let video = NodeData::VideoInput(VideoInputData::default());
    let sampler = NodeData::StillSampler(StillSamplerData::default());
    assert_eq!(video.display_name(), "Video Input");
    assert_eq!(sampler.display_name(), "Still Sampler");
}

#[test]
fn test_upload_status_default() {
    let status = UploadStatus::default();
    assert!(matches!(status, UploadStatus::NoUpload));
}

#[test]
fn every_kind_has_its_display_name() {
    assert_eq!(NodeData::Viewer(ViewerData::default()).display_name(), "Viewer");
    assert_eq!(NodeData::Selector(SelectorData::default()).display_name(), "Selector");
    assert_eq!(NodeData::StillPreview(StillPreviewData::default()).display_name(), "Still Preview");
}

#[test]
fn generate_stills_replaces_earlier_stills() {
    let mut data = StillSamplerData { interval_seconds: 10, ..Default::default() };
    data.generate_stills(25, &mut fresh());
    let ts: Vec<u64> = data.extracted_stills.iter().map(|s| s.timestamp_seconds).collect();
    assert_eq!(ts, vec![0, 10, 20]);
    data.generate_stills(10, &mut fresh());
    let ts: Vec<u64> = data.extracted_stills.iter().map(|s| s.timestamp_seconds).collect();
    assert_eq!(ts, vec![0]);
    data.generate_stills(0, &mut fresh());
    assert!(data.extracted_stills.is_empty());
    assert!(data.extracted_stills.iter().all(|s| s.thumbnail_url.is_none()));
}

#[test]
fn sampler_node_kinds_have_their_connectors() {
    let viewer = Node::new_viewer(&mut fresh());
    assert_eq!(viewer.inputs.len(), 1);
    assert!(viewer.outputs.is_empty());
    let selector = Node::new_selector(&mut fresh());
    assert_eq!(selector.inputs.len(), 1);
    assert_eq!(selector.outputs.len(), 2);
    assert_eq!(selector.outputs[0].connector_type, ConnectorType::Output);
    let video = Node::new_video_input(&mut fresh());
    assert_eq!(video.outputs[0].name, "video_out");
    assert_ne!(video.id, viewer.id);
}

#[test]
fn still_count_matches_the_stills_generated() {
    assert_eq!(still_count_of(30, 60), 2);
    assert_eq!(still_count_of(30, 61), 3);
    assert_eq!(still_count_of(7, 0), 0);
    assert_eq!(still_count_of(0, 0), 0);
    let mut data = StillSamplerData::default();
    data.generate_stills(61, &mut fresh());
    assert_eq!(data.extracted_stills.len() as u64, still_count_of(30, 61));
}
