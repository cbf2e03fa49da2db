//! Tests for the StillPreview node kind.

use uuid::Uuid;
use yt_rs::ids::FreshIds;
use yt_rs::model::{ConnectorType, Node, NodeData, StillPreviewData};

/// A fresh random identifier.
fn fresh_id() -> u128 {
    Uuid::new_v4().as_u128()
}

/// A supply of fresh random identifiers, more than any test takes.
fn fresh() -> FreshIds {
    FreshIds::new((0..4096).map(|_| fresh_id()).collect())
}

#[test]
fn test_still_preview_data_default() {
    let data = StillPreviewData::default();
    // StillPreviewData is a marker type with no fields
    assert_eq!(data, StillPreviewData {});
}

#[test]
fn test_node_new_still_preview_creates_still_preview_node() {
    let node = Node::new_still_preview(&mut fresh());
    assert!(matches!(node.data, NodeData::StillPreview(_)));
}

#[test]
fn test_node_new_still_preview_has_one_input() {
    let node = Node::new_still_preview(&mut fresh());
    assert_eq!(node.inputs.len(), 1);
    assert_eq!(node.inputs[0].name, "still_in");
    assert!(matches!(
        node.inputs[0].connector_type,
        ConnectorType::Input
    ));
}

#[test]
fn test_node_new_still_preview_has_one_output() {
    let node = Node::new_still_preview(&mut fresh());
    assert_eq!(node.outputs.len(), 1);
    assert_eq!(node.outputs[0].name, "still_out");
    assert!(matches!(
        node.outputs[0].connector_type,
        ConnectorType::Output
    ));
}

#[test]
fn test_still_preview_type_name() {
    let data = NodeData::StillPreview(StillPreviewData::default());
    assert_eq!(data.display_name(), "Still Preview");
}
