//! Tests for the GenerateDialog node kind and its data.

use uuid::Uuid;
use yt_rs::ids::FreshIds;
use yt_rs::model::{
    ClipDialog, ConnectorType, GenerateDialogData, GeneratedDialog, GenerationStatus, Node,
    NodeData,
};

/// A fresh random identifier.
fn fresh_id() -> u128 {
    Uuid::new_v4().as_u128()
}

/// A supply of fresh random identifiers, more than any test takes.
fn fresh() -> FreshIds {
    FreshIds::new((0..4096).map(|_| fresh_id()).collect())
}

#[test]
fn test_generation_status_default() {
    let status = GenerationStatus::default();
    assert!(matches!(status, GenerationStatus::Idle));
}

#[test]
fn test_generation_status_generating() {
    let status = GenerationStatus::Generating {
        current_still: 2,
        total_stills: 5,
    };
    if let GenerationStatus::Generating {
        current_still,
        total_stills,
    } = status
    {
        assert_eq!(current_still, 2);
        assert_eq!(total_stills, 5);
    } else {
        panic!("Expected Generating variant");
    }
}

#[test]
fn test_clip_dialog_default() {
    let clip = ClipDialog::default();
    assert_eq!(clip.timestamp_seconds, 0);
    assert_eq!(clip.dialog_text, "");
    assert!(!clip.is_interesting);
}

#[test]
fn test_generated_dialog_default() {
    let dialog = GeneratedDialog::default();
    assert_eq!(dialog.prolog, "");
    assert!(dialog.clips.is_empty());
    assert_eq!(dialog.epilog, "");
    assert_eq!(dialog.youtube_description, "");
}

#[test]
fn test_generate_dialog_data_default() {
    let data = GenerateDialogData::default();
    assert!(matches!(data.generation_status, GenerationStatus::Idle));
    assert!(data.generated_dialog.is_none());
}

#[test]
fn test_node_new_generate_dialog_creates_node() {
    let node = Node::new_generate_dialog(&mut fresh());
    assert!(matches!(node.data, NodeData::GenerateDialog(_)));
}

#[test]
fn test_node_new_generate_dialog_has_one_input() {
    let node = Node::new_generate_dialog(&mut fresh());
    assert_eq!(node.inputs.len(), 1);
    assert_eq!(node.inputs[0].name, "stills_in");
    assert!(matches!(
        node.inputs[0].connector_type,
        ConnectorType::Input
    ));
}

#[test]
fn test_node_new_generate_dialog_has_one_output() {
    let node = Node::new_generate_dialog(&mut fresh());
    assert_eq!(node.outputs.len(), 1);
    assert_eq!(node.outputs[0].name, "text_out");
    assert!(matches!(
        node.outputs[0].connector_type,
        ConnectorType::Output
    ));
}

#[test]
fn test_generate_dialog_type_name() {
    let data = NodeData::GenerateDialog(GenerateDialogData::default());
    assert_eq!(data.display_name(), "Generate Dialog");
}
