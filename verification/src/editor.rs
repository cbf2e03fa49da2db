//! The editor's state and its transitions: the reducer behind the canvas.
//!
//! Pan, zoom, node positions and the pointer positions of drags and pending
//! connections are floating point and are handled by the application; the
//! transitions here are everything else the editor decides.

use vstd::prelude::*;
use std::collections::HashMap;
use vstd::std_specs::iter::IteratorSpec;
use crate::model::{
    connectors_are, Connection, ConnectorType, GenerateDialogData, GenerationStatus, Node, NodeData,
    ProcessingStatus, SelectorData, StillPreviewData, TextViewData, UploadStatus, VideoInputData,
    ViewerData, ids_for, node_ids, sampled_at, still_count, still_ids,
};
use crate::ids::{FreshIds, drawn};
use crate::model::still_count_of;
use crate::project::touches;

verus! {

broadcast use vstd::std_specs::hash::group_hash_axioms;

/// A drag in progress: the node being dragged.
#[derive(Debug, Clone, Copy, PartialEq, Eq, Structural)]
pub struct DragState {
    pub node_id: u128,
}

/// A connection being drawn from an output connector.
#[derive(Debug, Clone, Copy, PartialEq, Eq, Structural)]
pub struct PendingConnection {
    pub from_node: u128,
    pub from_connector: u128,
}

/// The editor state: nodes and connections by identifier, selection, drag,
/// dialog and connection-drawing state.
#[derive(Debug, Clone, PartialEq)]
pub struct AppState {
    pub nodes: HashMap<u128, Node>,
    pub connections: HashMap<u128, Connection>,
    pub selected_node: Option<u128>,
    pub pending_connection: Option<PendingConnection>,
    pub dragging: Option<DragState>,
    pub just_dragged: bool,
    pub open_dialog: Option<u128>,
}

/// The editor state as a value.
#[verifier::ext_equal]
pub struct AppModel {
    pub nodes: Map<u128, Node>,
    pub connections: Map<u128, Connection>,
    pub selected_node: Option<u128>,
    pub pending_connection: Option<PendingConnection>,
    pub dragging: Option<DragState>,
    pub just_dragged: bool,
    pub open_dialog: Option<u128>,
}

impl View for AppState {
    type V = AppModel;

    open spec fn view(&self) -> AppModel {
        AppModel {
            nodes: self.nodes@,
            connections: self.connections@,
            selected_node: self.selected_node,
            pending_connection: self.pending_connection,
            dragging: self.dragging,
            just_dragged: self.just_dragged,
            open_dialog: self.open_dialog,
        }
    }
}

/// An editor action (the geometric ones are applied by the application).
#[derive(Debug)]
pub enum AppAction {
    /// Create a node of the kind of the given data, taking its identifiers
    /// from the given supply.
    CreateNode(NodeData, FreshIds),
    UpdateNodeData(u128, NodeData),
    DeleteNode(u128),
    SelectNode(Option<u128>),
    StartDrag(u128),
    EndDrag,
    ClearJustDragged,
    OpenDialog(u128),
    CloseDialog,
    StartConnection(u128, u128),
    /// Complete the pending connection at the given node and input
    /// connector; the connection and any stills sampled anew take their
    /// identifiers from the given supply.
    CompleteConnection(u128, u128, FreshIds),
    CancelConnection,
    DeleteConnection(u128),
}

/// Each node is held under its own identifier.
pub open spec fn nodes_keyed(nodes: Map<u128, Node>) -> bool {
    forall|k: u128| #[trigger] nodes.contains_key(k) ==> nodes[k].id == k
}

/// Each connection is held under its own identifier.
pub open spec fn connections_keyed(conns: Map<u128, Connection>) -> bool {
    forall|k: u128| #[trigger] conns.contains_key(k) ==> conns[k].id == k
}

/// The nodes with the data of node `id` replaced by `data`, if there is one.
pub open spec fn set_node_data(nodes: Map<u128, Node>, id: u128, data: NodeData) -> Map<u128, Node> {
    if nodes.contains_key(id) {
        nodes.insert(id, Node { data, ..nodes[id] })
    } else {
        nodes
    }
}

/// The connections that do not touch node `id`.
pub open spec fn detached(conns: Map<u128, Connection>, id: u128) -> Map<u128, Connection> {
    Map::new(|k: u128| conns.contains_key(k) && !touches(conns[k], id), |k: u128| conns[k])
}

/// `n` is a freshly made node of the kind of `data`, as the node constructors
/// make them: the kind's default data, its connectors, and z-index 0.
pub open spec fn is_new_node_of_kind(n: Node, data: NodeData) -> bool {
    &&& n.z_index == 0
    &&& match data {
        NodeData::VideoInput(_) => n.data == NodeData::VideoInput(VideoInputData {
            file_id: None,
            file_name: None,
            file_path: None,
            duration_seconds: None,
            upload_status: UploadStatus::NoUpload,
        }) && connectors_are(n.inputs@, seq![], ConnectorType::Input) && connectors_are(
            n.outputs@,
            seq!["video_out"@],
            ConnectorType::Output,
        ),
        NodeData::StillSampler(_) => n.data matches NodeData::StillSampler(d) && d.interval_seconds
            == 30 && d.extracted_stills@.len() == 0 && d.processing_status == ProcessingStatus::Idle
            && connectors_are(n.inputs@, seq!["video_in"@], ConnectorType::Input) && connectors_are(
            n.outputs@,
            seq!["stills_out"@],
            ConnectorType::Output,
        ),
        NodeData::Viewer(_) => n.data == NodeData::Viewer(ViewerData { thumbnail_path: None })
            && connectors_are(n.inputs@, seq!["video_in"@], ConnectorType::Input) && connectors_are(
            n.outputs@,
            seq![],
            ConnectorType::Output,
        ),
        NodeData::Selector(_) => n.data == NodeData::Selector(SelectorData { selected_index: 0 })
            && connectors_are(n.inputs@, seq!["stills_in"@], ConnectorType::Input)
            && connectors_are(n.outputs@, seq!["selected_out"@, "array_out"@], ConnectorType::Output),
        NodeData::StillPreview(_) => n.data == NodeData::StillPreview(StillPreviewData {})
            && connectors_are(n.inputs@, seq!["still_in"@], ConnectorType::Input) && connectors_are(
            n.outputs@,
            seq!["still_out"@],
            ConnectorType::Output,
        ),
        NodeData::GenerateDialog(_) => n.data == NodeData::GenerateDialog(GenerateDialogData {
            generation_status: GenerationStatus::Idle,
            generated_dialog: None,
        }) && connectors_are(n.inputs@, seq!["stills_in"@], ConnectorType::Input) && connectors_are(
            n.outputs@,
            seq!["text_out"@],
            ConnectorType::Output,
        ),
        NodeData::TextView(_) => n.data == NodeData::TextView(TextViewData {}) && connectors_are(
            n.inputs@,
            seq!["text_in"@],
            ConnectorType::Input,
        ) && connectors_are(n.outputs@, seq![], ConnectorType::Output),
    }
}

/// How many identifiers creating a node of the kind of `data` takes.
pub fn ids_for_kind(data: &NodeData) -> (n: usize)
    ensures
        n == ids_for(*data),
{
    match data {
        NodeData::VideoInput(_) => 2,
        NodeData::StillSampler(_) => 3,
        NodeData::Viewer(_) => 2,
        NodeData::Selector(_) => 4,
        NodeData::StillPreview(_) => 3,
        NodeData::GenerateDialog(_) => 3,
        NodeData::TextView(_) => 2,
    }
}

/// The duration of the video of the VideoInput node `from`, if it is one and
/// knows its duration.
pub open spec fn source_duration(nodes: Map<u128, Node>, from: u128) -> Option<u64> {
    if nodes.contains_key(from) {
        match nodes[from].data {
            NodeData::VideoInput(d) => d.duration_seconds,
            _ => None,
        }
    } else {
        None
    }
}

/// After connecting node `from` to node `to`: when `from` is a VideoInput
/// with a known duration and `to` is a StillSampler, the sampler's stills
/// are generated anew for that duration, taking their identifiers from
/// `pool`; otherwise nothing changes.
pub open spec fn resampled(
    before: Map<u128, Node>,
    after: Map<u128, Node>,
    from: u128,
    to: u128,
    pool: Seq<u128>,
) -> bool {
    match source_duration(before, from) {
        Some(dur) => if before.contains_key(to) {
            match before[to].data {
                NodeData::StillSampler(sd) => after == before.insert(to, after[to]) && after[to].id
                    == before[to].id && after[to].inputs == before[to].inputs && after[to].outputs
                    == before[to].outputs && after[to].z_index == before[to].z_index && (
                after[to].data matches NodeData::StillSampler(nd) && nd.interval_seconds
                    == sd.interval_seconds && nd.processing_status == sd.processing_status
                    && sampled_at(nd.extracted_stills@, sd.interval_seconds as nat, dur as nat)
                    && still_ids(nd.extracted_stills@) == drawn(
                    pool,
                    still_count(sd.interval_seconds as nat, dur as nat),
                )),
                _ => after == before,
            }
        } else {
            after == before
        },
        None => after == before,
    }
}

/// Still sampling after a connection ends: it terminates, since the sampler
/// has a positive interval or there is nothing to sample.
pub open spec fn sampling_terminates(nodes: Map<u128, Node>, from: u128, to: u128) -> bool {
    match source_duration(nodes, from) {
        Some(dur) => nodes.contains_key(to) ==> match nodes[to].data {
            NodeData::StillSampler(sd) => sd.interval_seconds > 0 || dur == 0,
            _ => true,
        },
        None => true,
    }
}

/// How many stills connecting node `from` to node `to` samples: those of a
/// StillSampler `to` with a positive interval fed by a VideoInput `from` of
/// known duration; none otherwise.
pub open spec fn stills_needed(nodes: Map<u128, Node>, from: u128, to: u128) -> nat {
    match source_duration(nodes, from) {
        Some(dur) => if nodes.contains_key(to) {
            match nodes[to].data {
                NodeData::StillSampler(sd) => if sd.interval_seconds > 0 {
                    still_count(sd.interval_seconds as nat, dur as nat)
                } else {
                    0
                },
                _ => 0,
            }
        } else {
            0
        },
        None => 0,
    }
}

impl AppModel {
    /// Each node and each connection is held under its own identifier.
    pub open spec fn wf(self) -> bool {
        nodes_keyed(self.nodes) && connections_keyed(self.connections)
    }

    /// `action` can be applied: it carries enough fresh identifiers for what
    /// it makes, and it does not run forever (completing a connection into a
    /// StillSampler whose interval is 0 from a video of positive duration
    /// would generate stills without end).
    pub open spec fn applicable(self, action: AppAction) -> bool {
        match action {
            AppAction::CreateNode(data, ids) => ids@.len() >= ids_for(data),
            AppAction::CompleteConnection(to_node, _, ids) => match self.pending_connection {
                Some(p) => sampling_terminates(self.nodes, p.from_node, to_node) && ids@.len() >= 1
                    + stills_needed(self.nodes, p.from_node, to_node),
                None => true,
            },
            _ => true,
        }
    }

    /// `after` is the state reached from `self` by `action`, and `created` the
    /// identifier of the node it created, if any. New identifiers come from
    /// the supply the action carries, last first.
    pub open spec fn next(self, action: AppAction, after: AppModel, created: Option<u128>) -> bool {
        match action {
            AppAction::CreateNode(data, ids) => exists|n: Node|
                is_new_node_of_kind(n, data) && node_ids(n) == drawn(ids@, ids_for(data)) && created
                    == Some(n.id) && after =~= (AppModel { nodes: self.nodes.insert(n.id, n), ..self }),
            AppAction::UpdateNodeData(id, data) => created is None && after =~= (AppModel {
                nodes: set_node_data(self.nodes, id, data),
                ..self
            }),
            AppAction::DeleteNode(id) => created is None && after =~= (AppModel {
                nodes: self.nodes.remove(id),
                connections: detached(self.connections, id),
                selected_node: if self.selected_node == Some(id) {
                    None
                } else {
                    self.selected_node
                },
                ..self
            }),
            AppAction::SelectNode(id) => created is None && after =~= (AppModel {
                selected_node: id,
                ..self
            }),
            AppAction::StartDrag(id) => created is None && after =~= (AppModel {
                dragging: Some(DragState { node_id: id }),
                selected_node: Some(id),
                ..self
            }),
            AppAction::EndDrag => created is None && after =~= (AppModel {
                dragging: None,
                just_dragged: true,
                ..self
            }),
            AppAction::ClearJustDragged => created is None && after =~= (AppModel {
                just_dragged: false,
                ..self
            }),
            AppAction::OpenDialog(id) => created is None && after =~= (AppModel {
                open_dialog: Some(id),
                dragging: None,
                ..self
            }),
            AppAction::CloseDialog => created is None && after =~= (AppModel {
                open_dialog: None,
                ..self
            }),
            AppAction::StartConnection(n, c) => created is None && after =~= (AppModel {
                pending_connection: Some(PendingConnection { from_node: n, from_connector: c }),
                ..self
            }),
            AppAction::CompleteConnection(to_node, to_conn, ids) => created is None && match self.pending_connection {
                None => after =~= self,
                Some(p) => after.connections =~= self.connections.insert(
                    ids@.last(),
                    Connection {
                        id: ids@.last(),
                        from_node: p.from_node,
                        from_connector: p.from_connector,
                        to_node,
                        to_connector: to_conn,
                    },
                ) && resampled(self.nodes, after.nodes, p.from_node, to_node, ids@.drop_last())
                    && after.pending_connection is None && after.selected_node
                    == self.selected_node && after.dragging == self.dragging
                    && after.just_dragged == self.just_dragged && after.open_dialog
                    == self.open_dialog,
            },
            AppAction::CancelConnection => created is None && after =~= (AppModel {
                pending_connection: None,
                ..self
            }),
            AppAction::DeleteConnection(id) => created is None && after =~= (AppModel {
                connections: self.connections.remove(id),
                ..self
            }),
        }
    }
}

impl Default for AppState {
    fn default() -> (s: AppState)
        ensures
            s@.nodes == Map::<u128, Node>::empty(),
            s@.connections == Map::<u128, Connection>::empty(),
            s@.selected_node is None,
            s@.pending_connection is None,
            s@.dragging is None,
            !s@.just_dragged,
            s@.open_dialog is None,
            s@.wf(),
    {
        AppState {
            nodes: HashMap::new(),
            connections: HashMap::new(),
            selected_node: None,
            pending_connection: None,
            dragging: None,
            just_dragged: false,
            open_dialog: None,
        }
    }
}

impl AppState {
    /// Whether each node and each connection is held under its own
    /// identifier.
    pub fn well_formed(&self) -> (b: bool)
        ensures
            b == self@.wf(),
    {
        let ghost m = self.nodes@;
        let ghost r = vstd::std_specs::hash::spec_hash_map_iter(&self.nodes).remaining();
        let ghost mut count: int = 0;
        for (k, n) in it: self.nodes.iter()
            invariant
                m == self.nodes@,
                it.seq() == r,
                count == it.index(),
                forall|j: int| 0 <= j < count ==> (*r[j].1).id == *r[j].0,
        {
            if n.id != *k {
                proof {
                    assert(m.contains_key(*r[count].0));
                    assert(m[*r[count].0] == *r[count].1);
                }
                return false;
            }
            proof {
                count = count + 1;
            }
        }
        proof {
            assert forall|k: u128| #[trigger] m.contains_key(k) implies m[k].id == k by {
                assert(r.contains((&k, &m[k])));
                let j = choose|j: int| 0 <= j < r.len() && r[j] == (&k, &m[k]);
            }
        }
        let ghost mc = self.connections@;
        let ghost rc = vstd::std_specs::hash::spec_hash_map_iter(&self.connections).remaining();
        let ghost mut count: int = 0;
        for (k, c) in it: self.connections.iter()
            invariant
                mc == self.connections@,
                nodes_keyed(self.nodes@),
                it.seq() == rc,
                count == it.index(),
                forall|j: int| 0 <= j < count ==> (*rc[j].1).id == *rc[j].0,
        {
            if c.id != *k {
                proof {
                    assert(mc.contains_key(*rc[count].0));
                    assert(mc[*rc[count].0] == *rc[count].1);
                }
                return false;
            }
            proof {
                count = count + 1;
            }
        }
        proof {
            assert forall|k: u128| #[trigger] mc.contains_key(k) implies mc[k].id == k by {
                assert(rc.contains((&k, &mc[k])));
                let j = choose|j: int| 0 <= j < rc.len() && rc[j] == (&k, &mc[k]);
            }
        }
        true
    }

    /// Whether `action` may be applied: it carries enough fresh identifiers,
    /// and completing a connection does not start still sampling that would
    /// never end (a StillSampler with a zero interval fed a video of positive
    /// duration).
    pub fn applicable(&self, action: &AppAction) -> (b: bool)
        ensures
            b == self@.applicable(*action),
    {
        match action {
            AppAction::CreateNode(data, ids) => ids.len() >= ids_for_kind(data),
            AppAction::CompleteConnection(to_node, _, ids) => match &self.pending_connection {
                Some(p) => {
                    if !self.sampling_ends(p.from_node, *to_node) {
                        return false;
                    }
                    let needed = self.stills_to_sample(p.from_node, *to_node);
                    ids.len() as u128 >= 1 + needed as u128
                },
                None => true,
            },
            _ => true,
        }
    }

    /// How many identifiers completing the pending connection at node
    /// `to_node` takes: one for the connection and one for each still it
    /// samples; none when no connection is pending.
    pub fn ids_for_completion(&self, to_node: u128) -> (n: u128)
        ensures
            n == match self@.pending_connection {
                Some(p) => 1 + stills_needed(self@.nodes, p.from_node, to_node),
                None => 0,
            },
    {
        match &self.pending_connection {
            Some(p) => 1 + self.stills_to_sample(p.from_node, to_node) as u128,
            None => 0,
        }
    }

    /// The duration of the video of the VideoInput node `from`, if known.
    fn duration_of(&self, from: u128) -> (d: Option<u64>)
        ensures
            d == source_duration(self@.nodes, from),
    {
        match self.nodes.get(&from) {
            Some(n) => match &n.data {
                NodeData::VideoInput(d) => d.duration_seconds,
                _ => None,
            },
            None => None,
        }
    }

    /// How many stills connecting node `from` to node `to` samples.
    fn stills_to_sample(&self, from: u128, to: u128) -> (c: u64)
        ensures
            c == stills_needed(self@.nodes, from, to),
    {
        match self.duration_of(from) {
            Some(dur) => match self.nodes.get(&to) {
                Some(n) => match &n.data {
                    NodeData::StillSampler(sd) => if sd.interval_seconds > 0 {
                        still_count_of(sd.interval_seconds, dur)
                    } else {
                        0
                    },
                    _ => 0,
                },
                None => 0,
            },
            None => 0,
        }
    }

    /// Whether still sampling after connecting `from` to `to` ends.
    fn sampling_ends(&self, from: u128, to: u128) -> (b: bool)
        ensures
            b == sampling_terminates(self@.nodes, from, to),
    {
        match self.duration_of(from) {
            Some(dur) => match self.nodes.get(&to) {
                Some(n) => match &n.data {
                    NodeData::StillSampler(sd) => sd.interval_seconds > 0 || dur == 0,
                    _ => true,
                },
                None => true,
            },
            None => true,
        }
    }

    /// Creates a node of the kind of `data` and stores it.
    fn create_node(&mut self, data: NodeData, ids: FreshIds) -> (id: u128)
        requires
            old(self)@.wf(),
            ids@.len() >= ids_for(data),
        ensures
            final(self)@.wf(),
            old(self)@.next(AppAction::CreateNode(data, ids), final(self)@, Some(id)),
    {
        let ghost pool = ids@;
        let mut ids = ids;
        let n = match data {
            NodeData::VideoInput(_) => Node::new_video_input(&mut ids),
            NodeData::StillSampler(_) => Node::new_still_sampler(&mut ids),
            NodeData::Viewer(_) => Node::new_viewer(&mut ids),
            NodeData::Selector(_) => Node::new_selector(&mut ids),
            NodeData::StillPreview(_) => Node::new_still_preview(&mut ids),
            NodeData::GenerateDialog(_) => Node::new_generate_dialog(&mut ids),
            NodeData::TextView(_) => Node::new_text_view(&mut ids),
        };
        let id = n.id;
        let ghost made = n;
        self.nodes.insert(id, n);
        assert(is_new_node_of_kind(made, data));
        assert(node_ids(made) == drawn(pool, ids_for(data)));
        id
    }

    /// Replaces the data of the node with identifier `id`, if there is one.
    fn update_node_data(&mut self, id: u128, data: NodeData)
        requires
            old(self)@.wf(),
        ensures
            final(self)@.wf(),
            final(self)@ =~= (AppModel {
                nodes: set_node_data(old(self).nodes@, id, data),
                ..old(self)@
            }),
    {
        match self.nodes.remove(&id) {
            Some(n) => {
                let updated = Node {
                    id: n.id,
                    data,
                    inputs: n.inputs,
                    outputs: n.outputs,
                    z_index: n.z_index,
                };
                self.nodes.insert(id, updated);
                assert(self.nodes@ =~= set_node_data(old(self).nodes@, id, data));
            },
            None => {
                assert(self.nodes@ =~= old(self).nodes@);
            },
        }
    }

    /// Removes the node with identifier `id`, every connection touching it,
    /// and the selection of it.
    fn delete_node(&mut self, id: u128)
        requires
            old(self)@.wf(),
        ensures
            final(self)@.wf(),
            old(self)@.next(AppAction::DeleteNode(id), final(self)@, None),
    {
        self.nodes.remove(&id);
        let mut kept: HashMap<u128, Connection> = HashMap::new();
        let ghost m = self.connections@;
        let ghost r = vstd::std_specs::hash::spec_hash_map_iter(&self.connections).remaining();
        let ghost mut count: int = 0;
        for (k, c) in it: self.connections.iter()
            invariant
                m == self.connections@,
                connections_keyed(m),
                it.seq() == r,
                count == it.index(),
                forall|key: u128| #[trigger]
                    kept@.contains_key(key) ==> m.contains_key(key) && !touches(m[key], id)
                        && kept@[key] == m[key],
                forall|j: int|
                    0 <= j < count && !touches(*r[j].1, id) ==> kept@.contains_key(*r[j].0),
        {
            proof {
                assert(m.contains_key(*r[count].0));
                assert(m[*r[count].0] == *r[count].1);
            }
            if !(c.from_node == id || c.to_node == id) {
                kept.insert(*k, *c);
            }
            proof {
                count = count + 1;
            }
        }
        proof {
            assert forall|key: u128| #[trigger]
                m.contains_key(key) && !touches(m[key], id) implies kept@.contains_key(key) by {
                assert(r.contains((&key, &m[key])));
                let j = choose|j: int| 0 <= j < r.len() && r[j] == (&key, &m[key]);
            }
            assert(kept@ =~= detached(m, id));
        }
        self.connections = kept;
        if self.selected_node == Some(id) {
            self.selected_node = None;
        }
    }

    /// Generates the stills of StillSampler `to` anew when it is now fed by a
    /// VideoInput `from` that knows its video's duration.
    fn update_stills_on_connection(&mut self, from: u128, to: u128, ids: &mut FreshIds)
        requires
            old(self)@.wf(),
            sampling_terminates(old(self).nodes@, from, to),
            old(ids)@.len() >= stills_needed(old(self).nodes@, from, to),
        ensures
            final(self)@.wf(),
            resampled(old(self).nodes@, final(self).nodes@, from, to, old(ids)@),
            final(self).connections@ == old(self).connections@,
            final(self).selected_node == old(self).selected_node,
            final(self).pending_connection == old(self).pending_connection,
            final(self).dragging == old(self).dragging,
            final(self).just_dragged == old(self).just_dragged,
            final(self).open_dialog == old(self).open_dialog,
    {
        let dur = match self.duration_of(from) {
            Some(d) => d,
            None => {
                return;
            },
        };
        let n = match self.nodes.remove(&to) {
            Some(n) => n,
            None => {
                assert(self.nodes@ =~= old(self).nodes@);
                return;
            },
        };
        let ghost before = old(self).nodes@[to];
        let Node { id, data, inputs, outputs, z_index } = n;
        let data = match data {
            NodeData::StillSampler(sd) => {
                let mut sd = sd;
                sd.generate_stills(dur, ids);
                NodeData::StillSampler(sd)
            },
            other => other,
        };
        self.nodes.insert(to, Node { id, data, inputs, outputs, z_index });
        proof {
            if before.data is StillSampler {
                assert(self.nodes@ =~= old(self).nodes@.insert(to, self.nodes@[to]));
            } else {
                assert(self.nodes@ =~= old(self).nodes@);
            }
        }
    }

    /// Completes the pending connection at input `to_conn` of node `to_node`.
    fn complete_connection(&mut self, to_node: u128, to_conn: u128, ids: FreshIds)
        requires
            old(self)@.wf(),
            old(self)@.applicable(AppAction::CompleteConnection(to_node, to_conn, ids)),
        ensures
            final(self)@.wf(),
            old(self)@.next(AppAction::CompleteConnection(to_node, to_conn, ids), final(self)@, None),
    {
        match self.pending_connection {
            Some(p) => {
                let mut ids = ids;
                self.pending_connection = None;
                let cid = ids.take();
                let c = Connection::new(cid, p.from_node, p.from_connector, to_node, to_conn);
                self.connections.insert(cid, c);
                self.update_stills_on_connection(p.from_node, to_node, &mut ids);
            },
            None => {},
        }
    }

    /// Removes the connection with identifier `id`, if there is one.
    fn delete_connection(&mut self, id: u128)
        requires
            old(self)@.wf(),
        ensures
            final(self)@.wf(),
            final(self)@ =~= (AppModel { connections: old(self).connections@.remove(id), ..old(self)@ }),
    {
        self.connections.remove(&id);
    }

    /// Applies an action. Returns the identifier of the node it created, if
    /// any, so that the caller can place that node on the canvas.
    pub fn apply(&mut self, action: AppAction) -> (created: Option<u128>)
        requires
            old(self)@.wf(),
            old(self)@.applicable(action),
        ensures
            final(self)@.wf(),
            old(self)@.next(action, final(self)@, created),
    {
        match action {
            AppAction::CreateNode(data, ids) => Some(self.create_node(data, ids)),
            AppAction::UpdateNodeData(id, data) => {
                self.update_node_data(id, data);
                None
            },
            AppAction::DeleteNode(id) => {
                self.delete_node(id);
                None
            },
            AppAction::SelectNode(id) => {
                self.selected_node = id;
                None
            },
            AppAction::StartDrag(id) => {
                self.dragging = Some(DragState { node_id: id });
                self.selected_node = Some(id);
                None
            },
            AppAction::EndDrag => {
                self.dragging = None;
                self.just_dragged = true;
                None
            },
            AppAction::ClearJustDragged => {
                self.just_dragged = false;
                None
            },
            AppAction::OpenDialog(id) => {
                self.open_dialog = Some(id);
                self.dragging = None;
                None
            },
            AppAction::CloseDialog => {
                self.open_dialog = None;
                None
            },
            AppAction::StartConnection(n, c) => {
                self.pending_connection = Some(PendingConnection { from_node: n, from_connector: c });
                None
            },
            AppAction::CompleteConnection(n, c, ids) => {
                self.complete_connection(n, c, ids);
                None
            },
            AppAction::CancelConnection => {
                self.pending_connection = None;
                None
            },
            AppAction::DeleteConnection(id) => {
                self.delete_connection(id);
                None
            },
        }
    }
}

} // verus!
