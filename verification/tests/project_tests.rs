//! Tests for projects: nodes, connections and their removal.

use uuid::Uuid;
use yt_rs::ids::FreshIds;
use yt_rs::model::{Connection, Node};
use yt_rs::project::{ClockReading, Project, Timestamp, now};

/// A fresh random identifier.
fn fresh_id() -> u128 {
    Uuid::new_v4().as_u128()
}

/// A supply of fresh random identifiers, more than any test takes.
fn fresh() -> FreshIds {
    FreshIds::new((0..4096).map(|_| fresh_id()).collect())
}

#[test]
fn test_project_new() {
    let project = Project::new("Test Project", fresh_id());
    assert_eq!(project.name, "Test Project");
    assert!(project.nodes.is_empty());
    assert!(project.connections.is_empty());
}

#[test]
fn test_project_default() {
    let project = Project::default();
    assert_eq!(project.name, "Untitled Project");
}

#[test]
fn test_add_node() {
    let mut project = Project::new("Test", fresh_id());
    let node = Node::new_video_input(&mut fresh());
    let node_id = node.id;

    project.add_node(node);

    assert_eq!(project.nodes.len(), 1);
    assert!(project.find_node(node_id).is_some());
}

#[test]
fn test_remove_node() {
    let mut project = Project::new("Test", fresh_id());
    let node = Node::new_video_input(&mut fresh());
    let node_id = node.id;

    project.add_node(node);
    let removed = project.remove_node(node_id);

    assert!(removed.is_some());
    assert!(project.nodes.is_empty());
}

#[test]
fn test_remove_node_cascades_connections() {
    let mut project = Project::new("Test", fresh_id());

    let video = Node::new_video_input(&mut fresh());
    let sampler = Node::new_still_sampler(&mut fresh());

    let video_id = video.id;
    let video_out = video.outputs[0].id;
    let sampler_in = sampler.inputs[0].id;
    let sampler_id = sampler.id;

    project.add_node(video);
    project.add_node(sampler);

    let connection = Connection::new(fresh_id(), video_id, video_out, sampler_id, sampler_in);
    project.add_connection(connection);

    assert_eq!(project.connections.len(), 1);

    // Remove video node should also remove connection
    project.remove_node(video_id);

    assert!(project.connections.is_empty());
}

#[test]
fn test_find_node_mut() {
    let mut project = Project::new("Test", fresh_id());
    let node = Node::new_video_input(&mut fresh());
    let node_id = node.id;

    project.add_node(node);

    if let Some(node) = project.find_node_mut(node_id) {
        node.z_index = 100;
    }

    let node = project.find_node(node_id).unwrap();
    assert_eq!(node.z_index, 100);
}

#[test]
fn test_remove_connection() {
    let mut project = Project::new("Test", fresh_id());
    let connection = Connection::new(fresh_id(), 
        Uuid::new_v4().as_u128(),
        Uuid::new_v4().as_u128(),
        Uuid::new_v4().as_u128(),
        Uuid::new_v4().as_u128(),
    );
    let conn_id = connection.id;

    project.add_connection(connection);
    assert_eq!(project.connections.len(), 1);

    let removed = project.remove_connection(conn_id);
    assert!(removed.is_some());
    assert!(project.connections.is_empty());
}

#[test]
fn removing_a_missing_node_changes_nothing() {
    let mut project = Project::new("Test", fresh_id());
    let a = Node::new_video_input(&mut fresh());
    let b = Node::new_viewer(&mut fresh());
    let (a_id, a_out, b_id, b_in) = (a.id, a.outputs[0].id, b.id, b.inputs[0].id);
    project.add_node(a);
    project.add_node(b);
    project.add_connection(Connection::new(fresh_id(), a_id, a_out, b_id, b_in));
    assert!(project.remove_node(12345).is_none());
    assert_eq!(project.nodes.len(), 2);
    assert_eq!(project.connections.len(), 1);
    assert!(project.remove_connection(999).is_none());
    // Removing the downstream node detaches the connection too.
    assert!(project.remove_node(b_id).is_some());
    assert!(project.connections.is_empty());
    assert_eq!(project.nodes.len(), 1);
}

#[test]
fn created_and_updated_times_start_equal() {
    let project = Project::new("Times", fresh_id());
    assert_eq!(project.created_at, project.updated_at);
    assert!(project.created_at.seconds > 1_600_000_000);
}

#[test]
fn a_new_project_keeps_the_given_identifier() {
    let project = Project::new("Named", 77);
    assert_eq!(project.id, 77);
    assert_eq!(project.created_at, project.updated_at);
    assert_eq!(Project::default().id, 0);
}

#[test]
fn clock_readings_become_timestamps() {
    assert_eq!(Timestamp::from_clock(ClockReading::After(5, 250)), Timestamp { seconds: 5, nanos: 250 });
    assert_eq!(Timestamp::from_clock(ClockReading::Before(5, 0)), Timestamp { seconds: -5, nanos: 0 });
    assert_eq!(
        Timestamp::from_clock(ClockReading::Before(5, 250)),
        Timestamp { seconds: -6, nanos: 999_999_750 }
    );
    assert_eq!(Timestamp::from_clock(ClockReading::After(u64::MAX, 1)).seconds, i64::MAX);
    assert_eq!(Timestamp::from_clock(ClockReading::Before(u64::MAX, 0)).seconds, i64::MIN);
}

#[test]
fn the_current_time_is_after_the_epoch() {
    let t = now();
    assert!(t.seconds > 0);
    assert!(t.nanos < 1_000_000_000);
}
