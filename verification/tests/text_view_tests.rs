//! Tests for the TextView node kind.

use uuid::Uuid;
use yt_rs::ids::FreshIds;
use yt_rs::model::{ConnectorType, Node, NodeData, TextViewData};

/// A fresh random identifier.
fn fresh_id() -> u128 {
    Uuid::new_v4().as_u128()
}

/// A supply of fresh random identifiers, more than any test takes.
fn fresh() -> FreshIds {
    FreshIds::new((0..4096).map(|_| fresh_id()).collect())
}

#[test]
fn test_text_view_data_default() {
    let data = TextViewData::default();
    // TextViewData is a marker type with no fields
    let _ = data;
}

#[test]
fn test_node_new_text_view_creates_node() {
    let node = Node::new_text_view(&mut fresh());
    assert!(matches!(node.data, NodeData::TextView(_)));
}

#[test]
fn test_node_new_text_view_has_one_input() {
    let node = Node::new_text_view(&mut fresh());
    assert_eq!(node.inputs.len(), 1);
    assert_eq!(node.inputs[0].name, "text_in");
    assert!(matches!(
        node.inputs[0].connector_type,
        ConnectorType::Input
    ));
}

#[test]
fn test_node_new_text_view_has_no_outputs() {
    let node = Node::new_text_view(&mut fresh());
    assert!(node.outputs.is_empty());
}

#[test]
fn test_text_view_type_name() {
    let data = NodeData::TextView(TextViewData::default());
    assert_eq!(data.display_name(), "Text View");
}
