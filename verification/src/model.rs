//! The node editor's data: nodes of seven kinds, their connectors, the data
//! each kind carries, and the connections between connectors.
//!
//! Geometry (positions, sizes, connector offsets, bezier control points) is
//! floating point and is kept by the application; the graph here is what the
//! editor's logic reads.

use vstd::prelude::*;
use crate::ids::{FreshIds, drawn, left_after, lemma_draw_one};
use crate::text::push_str;

verus! {

/// The direction of a connector.
#[derive(Debug, Clone, Copy, PartialEq, Eq, Structural)]
pub enum ConnectorType {
    Input,
    Output,
}

/// A connector on a node: an input or output point for connections.
#[derive(Debug, Clone, PartialEq)]
pub struct Connector {
    pub id: u128,
    pub name: String,
    pub connector_type: ConnectorType,
}

impl Connector {
    /// Creates a connector with the given identifier.
    pub fn new(id: u128, name: &str, connector_type: ConnectorType) -> (c: Connector)
        ensures
            c.id == id,
            c.name@ == name@,
            c.connector_type == connector_type,
    {
        let mut n = String::new();
        push_str(&mut n, name);
        Connector { id, name: n, connector_type }
    }

    /// Creates an input connector (drawn on the left side of its node).
    pub fn input(id: u128, name: &str) -> (c: Connector)
        ensures
            c.id == id,
            c.name@ == name@,
            c.connector_type == ConnectorType::Input,
    {
        Connector::new(id, name, ConnectorType::Input)
    }

    /// Creates an output connector (drawn on the right side of its node).
    pub fn output(id: u128, name: &str) -> (c: Connector)
        ensures
            c.id == id,
            c.name@ == name@,
            c.connector_type == ConnectorType::Output,
    {
        Connector::new(id, name, ConnectorType::Output)
    }
}

/// Upload status of a video file. (The application keeps the progress
/// fraction of an upload in flight.)
#[derive(Debug, Clone, PartialEq)]
pub enum UploadStatus {
    NoUpload,
    Uploading,
    Complete,
    Error(String),
}

impl Default for UploadStatus {
    fn default() -> (s: UploadStatus)
        ensures
            s == UploadStatus::NoUpload,
    {
        UploadStatus::NoUpload
    }
}

/// Data of a VideoInput node. The duration is held in whole seconds, rounded
/// up: the form in which still sampling reads it (a still at a whole second
/// `t` lies before the end exactly when `t` is below the rounded-up
/// duration). Its exact, fractional value, which the editor displays, is
/// floating point and is kept by the application.
#[derive(Debug, Clone, PartialEq)]
pub struct VideoInputData {
    pub file_id: Option<u128>,
    pub file_name: Option<String>,
    pub file_path: Option<String>,
    pub duration_seconds: Option<u64>,
    pub upload_status: UploadStatus,
}

impl Default for VideoInputData {
    fn default() -> (d: VideoInputData)
        ensures
            d.file_id is None,
            d.file_name is None,
            d.file_path is None,
            d.duration_seconds is None,
            d.upload_status == UploadStatus::NoUpload,
    {
        VideoInputData {
            file_id: None,
            file_name: None,
            file_path: None,
            duration_seconds: None,
            upload_status: UploadStatus::NoUpload,
        }
    }
}

/// Processing status of still extraction. (The application keeps the
/// progress fraction of a run in flight.)
#[derive(Debug, Clone, PartialEq)]
pub enum ProcessingStatus {
    Idle,
    Processing,
    Complete,
    Error(String),
}

impl Default for ProcessingStatus {
    fn default() -> (s: ProcessingStatus)
        ensures
            s == ProcessingStatus::Idle,
    {
        ProcessingStatus::Idle
    }
}

/// An extracted still image, taken at a whole second of its video.
#[derive(Debug, Clone, PartialEq)]
pub struct Still {
    pub id: u128,
    pub timestamp_seconds: u64,
    pub thumbnail_url: Option<String>,
}

impl Still {
    /// Creates a still with the given identifier at the given timestamp.
    pub fn new(id: u128, timestamp_seconds: u64) -> (s: Still)
        ensures
            s.id == id,
            s.timestamp_seconds == timestamp_seconds,
            s.thumbnail_url is None,
    {
        Still { id, timestamp_seconds, thumbnail_url: None }
    }
}

/// Data of a StillSampler node.
#[derive(Debug, Clone, PartialEq)]
pub struct StillSamplerData {
    pub interval_seconds: u32,
    pub extracted_stills: Vec<Still>,
    pub processing_status: ProcessingStatus,
}

/// How many stills a video of `duration` seconds yields at one still every
/// `interval` seconds, starting at 0: the number of multiples of `interval`
/// below `duration`.
pub open spec fn still_count(interval: nat, duration: nat) -> nat {
    if duration == 0 {
        0
    } else {
        ((duration + interval - 1) / (interval as int)) as nat
    }
}

/// The stills hold exactly the timestamps `0, interval, 2 * interval, ...`
/// below `duration`, in that order, each without a thumbnail.
pub open spec fn sampled_at(stills: Seq<Still>, interval: nat, duration: nat) -> bool {
    &&& stills.len() == still_count(interval, duration)
    &&& forall|k: int|
        0 <= k < stills.len() ==> {
            &&& (#[trigger] stills[k]).timestamp_seconds == k * interval
            &&& stills[k].thumbnail_url is None
        }
}

/// The identifiers of the stills, in order.
pub open spec fn still_ids(stills: Seq<Still>) -> Seq<u128> {
    stills.map_values(|s: Still| s.id)
}

/// The number of stills a video of `duration` seconds yields at one still
/// every `interval` seconds.
pub fn still_count_of(interval: u32, duration: u64) -> (c: u64)
    requires
        interval > 0 || duration == 0,
    ensures
        c == still_count(interval as nat, duration as nat),
{
    if duration == 0 {
        return 0;
    }
    let n: u128 = duration as u128 + interval as u128 - 1;
    let q: u128 = n / (interval as u128);
    assert(q <= duration) by (nonlinear_arith)
        requires
            q == n / (interval as u128),
            n == duration + interval - 1,
            interval > 0,
            duration > 0,
    ;
    q as u64
}

impl Default for StillSamplerData {
    fn default() -> (d: StillSamplerData)
        ensures
            d.interval_seconds == 30,
            d.extracted_stills@.len() == 0,
            d.processing_status == ProcessingStatus::Idle,
    {
        StillSamplerData {
            interval_seconds: 30,
            extracted_stills: Vec::new(),
            processing_status: ProcessingStatus::Idle,
        }
    }
}

proof fn lemma_still_count(interval: nat, duration: nat, t: nat, k: nat)
    requires
        interval > 0,
        t == k * interval,
    ensures
        t < duration <==> k < still_count(interval, duration),
{
    let c = still_count(interval, duration);
    if duration > 0 {
        let n = duration + interval - 1;
        assert(c * interval <= n && n < c * interval + interval) by (nonlinear_arith)
            requires
                c == n / (interval as int),
                interval > 0,
                n >= 0,
        ;
        if k < c {
            assert(k * interval <= c * interval - interval) by (nonlinear_arith)
                requires
                    k <= c - 1,
                    interval > 0,
            ;
        } else {
            assert(c * interval <= k * interval) by (nonlinear_arith)
                requires
                    c <= k,
                    interval > 0,
            ;
        }
    }
}

impl StillSamplerData {
    /// Replaces the extracted stills with one still every `interval_seconds`
    /// seconds from 0 up to (not including) `duration_seconds`.
    /// Each new still takes its identifier from `ids`, in order.
    pub fn generate_stills(&mut self, duration_seconds: u64, ids: &mut FreshIds)
        requires
            old(self).interval_seconds > 0 || duration_seconds == 0,
            old(ids)@.len() >= still_count(old(self).interval_seconds as nat, duration_seconds as nat),
        ensures
            final(self).interval_seconds == old(self).interval_seconds,
            final(self).processing_status == old(self).processing_status,
            sampled_at(
                final(self).extracted_stills@,
                old(self).interval_seconds as nat,
                duration_seconds as nat,
            ),
            still_ids(final(self).extracted_stills@) == drawn(
                old(ids)@,
                still_count(old(self).interval_seconds as nat, duration_seconds as nat),
            ),
            final(ids)@ == left_after(
                old(ids)@,
                still_count(old(self).interval_seconds as nat, duration_seconds as nat),
            ),
    {
        self.extracted_stills.clear();
        if duration_seconds == 0 {
            assert(still_ids(self.extracted_stills@) =~= drawn(old(ids)@, 0));
            assert(ids@ =~= left_after(old(ids)@, 0));
            return;
        }
        let ghost pool = ids@;
        let ghost count = still_count(self.interval_seconds as nat, duration_seconds as nat);
        let interval = self.interval_seconds;
        let mut timestamp: u128 = 0;
        let ghost mut k: nat = 0;
        while timestamp < duration_seconds as u128
            invariant
                interval == self.interval_seconds,
                self.processing_status == old(self).processing_status,
                interval > 0,
                timestamp == k * interval,
                timestamp <= duration_seconds + interval,
                self.extracted_stills@.len() == k,
                forall|j: int|
                    0 <= j < k ==> {
                        &&& (#[trigger] self.extracted_stills@[j]).timestamp_seconds == j * interval
                        &&& self.extracted_stills@[j].thumbnail_url is None
                    },
                forall|j: nat| j < k ==> #[trigger] (j * interval) < duration_seconds,
                count == still_count(interval as nat, duration_seconds as nat),
                pool.len() >= count,
                k <= count,
                ids@ == left_after(pool, k),
                still_ids(self.extracted_stills@) == drawn(pool, k),
            decreases duration_seconds + interval - timestamp,
        {
            proof {
                lemma_still_count(interval as nat, duration_seconds as nat, timestamp as nat, k);
                lemma_draw_one(pool, k);
            }
            let id = ids.take();
            let ghost before = self.extracted_stills@;
            self.extracted_stills.push(Still::new(id, timestamp as u64));
            assert(still_ids(self.extracted_stills@) =~= still_ids(before).push(id));
            proof {
                assert forall|j: nat| j < k + 1 implies #[trigger] (j * interval) < duration_seconds by {
                    if j == k {
                    } else {
                        assert(j < k);
                    }
                }
                k = k + 1;
            }
            assert(k * interval == (k - 1) * interval + interval) by (nonlinear_arith)
                requires
                    k >= 1,
            ;
            timestamp = timestamp + interval as u128;
        }
        proof {
            lemma_still_count(interval as nat, duration_seconds as nat, timestamp as nat, k);
            if k > 0 {
                let j = (k - 1) as nat;
                assert(j * interval < duration_seconds);
                lemma_still_count(interval as nat, duration_seconds as nat, (j * interval) as nat, j);
            }
        }
    }
}

/// Data of a Viewer node: the path of its generated thumbnail, relative to
/// the data directory. (The application keeps the thumbnail's timestamp.)
#[derive(Debug, Clone, PartialEq)]
pub struct ViewerData {
    pub thumbnail_path: Option<String>,
}

impl Default for ViewerData {
    fn default() -> (d: ViewerData)
        ensures
            d.thumbnail_path is None,
    {
        ViewerData { thumbnail_path: None }
    }
}

/// Data of a Selector node: the 0-based index of the selected still.
#[derive(Debug, Clone, PartialEq)]
pub struct SelectorData {
    pub selected_index: usize,
}

impl Default for SelectorData {
    fn default() -> (d: SelectorData)
        ensures
            d.selected_index == 0,
    {
        SelectorData { selected_index: 0 }
    }
}

/// Data of a StillPreview node: none; the still is resolved from the graph.
#[derive(Debug, Clone, PartialEq, Eq)]
pub struct StillPreviewData {}

impl Default for StillPreviewData {
    fn default() -> (d: StillPreviewData) {
        StillPreviewData {}
    }
}

/// Progress of dialog generation.
#[derive(Debug, Clone, PartialEq)]
pub enum GenerationStatus {
    Idle,
    Generating { current_still: usize, total_stills: usize },
    Complete,
    Error(String),
}

impl Default for GenerationStatus {
    fn default() -> (s: GenerationStatus)
        ensures
            s == GenerationStatus::Idle,
    {
        GenerationStatus::Idle
    }
}

/// The text generated for one still.
#[derive(Debug, Clone, PartialEq)]
pub struct ClipDialog {
    pub timestamp_seconds: u64,
    pub dialog_text: String,
    pub is_interesting: bool,
}

impl Default for ClipDialog {
    fn default() -> (c: ClipDialog)
        ensures
            c.timestamp_seconds == 0,
            c.dialog_text@.len() == 0,
            !c.is_interesting,
    {
        ClipDialog { timestamp_seconds: 0, dialog_text: String::new(), is_interesting: false }
    }
}

/// A generated narration: introduction, one text per still, closing words,
/// and a description for the video page.
#[derive(Debug, Clone, PartialEq)]
pub struct GeneratedDialog {
    pub prolog: String,
    pub clips: Vec<ClipDialog>,
    pub epilog: String,
    pub youtube_description: String,
}

impl Default for GeneratedDialog {
    fn default() -> (d: GeneratedDialog)
        ensures
            d.prolog@.len() == 0,
            d.clips@.len() == 0,
            d.epilog@.len() == 0,
            d.youtube_description@.len() == 0,
    {
        GeneratedDialog {
            prolog: String::new(),
            clips: Vec::new(),
            epilog: String::new(),
            youtube_description: String::new(),
        }
    }
}

/// Data of a GenerateDialog node.
#[derive(Debug, Clone, PartialEq)]
pub struct GenerateDialogData {
    pub generation_status: GenerationStatus,
    pub generated_dialog: Option<GeneratedDialog>,
}

impl Default for GenerateDialogData {
    fn default() -> (d: GenerateDialogData)
        ensures
            d.generation_status == GenerationStatus::Idle,
            d.generated_dialog is None,
    {
        GenerateDialogData { generation_status: GenerationStatus::Idle, generated_dialog: None }
    }
}

/// Data of a TextView node: none; the text is resolved from the graph.
#[derive(Debug, Clone, PartialEq, Eq)]
pub struct TextViewData {}

impl Default for TextViewData {
    fn default() -> (d: TextViewData) {
        TextViewData {}
    }
}

/// The kind-specific data of a node.
#[derive(Debug, Clone, PartialEq)]
pub enum NodeData {
    VideoInput(VideoInputData),
    StillSampler(StillSamplerData),
    Viewer(ViewerData),
    Selector(SelectorData),
    StillPreview(StillPreviewData),
    GenerateDialog(GenerateDialogData),
    TextView(TextViewData),
}

/// The display name of each node kind.
pub open spec fn display_name_of(d: NodeData) -> Seq<char> {
    match d {
        NodeData::VideoInput(_) => "Video Input"@,
        NodeData::StillSampler(_) => "Still Sampler"@,
        NodeData::Viewer(_) => "Viewer"@,
        NodeData::Selector(_) => "Selector"@,
        NodeData::StillPreview(_) => "Still Preview"@,
        NodeData::GenerateDialog(_) => "Generate Dialog"@,
        NodeData::TextView(_) => "Text View"@,
    }
}

impl NodeData {
    /// Returns the display name for this node kind.
    pub fn display_name(&self) -> (s: &'static str)
        ensures
            s@ == display_name_of(*self),
    {
        match self {
            NodeData::VideoInput(_) => "Video Input",
            NodeData::StillSampler(_) => "Still Sampler",
            NodeData::Viewer(_) => "Viewer",
            NodeData::Selector(_) => "Selector",
            NodeData::StillPreview(_) => "Still Preview",
            NodeData::GenerateDialog(_) => "Generate Dialog",
            NodeData::TextView(_) => "Text View",
        }
    }
}

/// A node of the canvas. Connections refer to it and to its connectors by
/// identifier.
#[derive(Debug, Clone, PartialEq)]
pub struct Node {
    pub id: u128,
    pub data: NodeData,
    pub inputs: Vec<Connector>,
    pub outputs: Vec<Connector>,
    pub z_index: u32,
}

/// The identifiers of a node: its own, then its inputs', then its outputs'.
pub open spec fn node_ids(n: Node) -> Seq<u128> {
    seq![n.id] + n.inputs@.map_values(|c: Connector| c.id) + n.outputs@.map_values(
        |c: Connector| c.id,
    )
}

/// How many identifiers a freshly made node of the kind of `data` takes.
pub open spec fn ids_for(data: NodeData) -> nat {
    match data {
        NodeData::VideoInput(_) => 2,
        NodeData::StillSampler(_) => 3,
        NodeData::Viewer(_) => 2,
        NodeData::Selector(_) => 4,
        NodeData::StillPreview(_) => 3,
        NodeData::GenerateDialog(_) => 3,
        NodeData::TextView(_) => 2,
    }
}

/// The connectors have the given names, in order, and all the given direction.
pub open spec fn connectors_are(v: Seq<Connector>, names: Seq<Seq<char>>, t: ConnectorType) -> bool {
    &&& v.len() == names.len()
    &&& forall|i: int|
        0 <= i < v.len() ==> (#[trigger] v[i]).name@ == names[i] && v[i].connector_type == t
}

impl Node {
    /// Creates a VideoInput node: no inputs, one output `video_out`, with identifiers
    /// taken from `ids`: the node's first, then its connectors'.
    pub fn new_video_input(ids: &mut FreshIds) -> (n: Node)
        requires
            old(ids)@.len() >= 2,
        ensures
            n.data == NodeData::VideoInput(VideoInputData {
                file_id: None,
                file_name: None,
                file_path: None,
                duration_seconds: None,
                upload_status: UploadStatus::NoUpload,
            }),
            connectors_are(n.inputs@, seq![], ConnectorType::Input),
            connectors_are(n.outputs@, seq!["video_out"@], ConnectorType::Output),
            n.z_index == 0,
            node_ids(n) == drawn(old(ids)@, 2),
            final(ids)@ == left_after(old(ids)@, 2),
    {
        let id = ids.take();
        let mut inputs = Vec::new();
        let mut outputs = Vec::new();
        outputs.push(Connector::output(ids.take(), "video_out"));
        let n = Node { id, data: NodeData::VideoInput(VideoInputData::default()), inputs, outputs, z_index: 0 };
        assert(node_ids(n) =~= drawn(old(ids)@, 2));
        assert(ids@ =~= left_after(old(ids)@, 2));
        n
    }

    /// Creates a StillSampler node: input `video_in`, output `stills_out`, with identifiers
    /// taken from `ids`: the node's first, then its connectors'.
    pub fn new_still_sampler(ids: &mut FreshIds) -> (n: Node)
        requires
            old(ids)@.len() >= 3,
        ensures
            n.data matches NodeData::StillSampler(d) && d.interval_seconds == 30
                && d.extracted_stills@.len() == 0 && d.processing_status == ProcessingStatus::Idle,
            connectors_are(n.inputs@, seq!["video_in"@], ConnectorType::Input),
            connectors_are(n.outputs@, seq!["stills_out"@], ConnectorType::Output),
            n.z_index == 0,
            node_ids(n) == drawn(old(ids)@, 3),
            final(ids)@ == left_after(old(ids)@, 3),
    {
        let id = ids.take();
        let mut inputs = Vec::new();
        inputs.push(Connector::input(ids.take(), "video_in"));
        let mut outputs = Vec::new();
        outputs.push(Connector::output(ids.take(), "stills_out"));
        let n = Node { id, data: NodeData::StillSampler(StillSamplerData::default()), inputs, outputs, z_index: 0 };
        assert(node_ids(n) =~= drawn(old(ids)@, 3));
        assert(ids@ =~= left_after(old(ids)@, 3));
        n
    }

    /// Creates a Viewer node: input `video_in`, no outputs, with identifiers
    /// taken from `ids`: the node's first, then its connectors'.
    pub fn new_viewer(ids: &mut FreshIds) -> (n: Node)
        requires
            old(ids)@.len() >= 2,
        ensures
            n.data == NodeData::Viewer(ViewerData { thumbnail_path: None }),
            connectors_are(n.inputs@, seq!["video_in"@], ConnectorType::Input),
            connectors_are(n.outputs@, seq![], ConnectorType::Output),
            n.z_index == 0,
            node_ids(n) == drawn(old(ids)@, 2),
            final(ids)@ == left_after(old(ids)@, 2),
    {
        let id = ids.take();
        let mut inputs = Vec::new();
        inputs.push(Connector::input(ids.take(), "video_in"));
        let mut outputs = Vec::new();
        let n = Node { id, data: NodeData::Viewer(ViewerData::default()), inputs, outputs, z_index: 0 };
        assert(node_ids(n) =~= drawn(old(ids)@, 2));
        assert(ids@ =~= left_after(old(ids)@, 2));
        n
    }

    /// Creates a Selector node: input `stills_in`, outputs `selected_out` and
    /// `array_out`, with identifiers
    /// taken from `ids`: the node's first, then its connectors'.
    pub fn new_selector(ids: &mut FreshIds) -> (n: Node)
        requires
            old(ids)@.len() >= 4,
        ensures
            n.data == NodeData::Selector(SelectorData { selected_index: 0 }),
            connectors_are(n.inputs@, seq!["stills_in"@], ConnectorType::Input),
            connectors_are(n.outputs@, seq!["selected_out"@, "array_out"@], ConnectorType::Output),
            n.z_index == 0,
            node_ids(n) == drawn(old(ids)@, 4),
            final(ids)@ == left_after(old(ids)@, 4),
    {
        let id = ids.take();
        let mut inputs = Vec::new();
        inputs.push(Connector::input(ids.take(), "stills_in"));
        let mut outputs = Vec::new();
        outputs.push(Connector::output(ids.take(), "selected_out"));
        outputs.push(Connector::output(ids.take(), "array_out"));
        let n = Node { id, data: NodeData::Selector(SelectorData::default()), inputs, outputs, z_index: 0 };
        assert(node_ids(n) =~= drawn(old(ids)@, 4));
        assert(ids@ =~= left_after(old(ids)@, 4));
        n
    }

    /// Creates a StillPreview node: input `still_in`, output `still_out`, with identifiers
    /// taken from `ids`: the node's first, then its connectors'.
    pub fn new_still_preview(ids: &mut FreshIds) -> (n: Node)
        requires
            old(ids)@.len() >= 3,
        ensures
            n.data == NodeData::StillPreview(StillPreviewData {}),
            connectors_are(n.inputs@, seq!["still_in"@], ConnectorType::Input),
            connectors_are(n.outputs@, seq!["still_out"@], ConnectorType::Output),
            n.z_index == 0,
            node_ids(n) == drawn(old(ids)@, 3),
            final(ids)@ == left_after(old(ids)@, 3),
    {
        let id = ids.take();
        let mut inputs = Vec::new();
        inputs.push(Connector::input(ids.take(), "still_in"));
        let mut outputs = Vec::new();
        outputs.push(Connector::output(ids.take(), "still_out"));
        let n = Node { id, data: NodeData::StillPreview(StillPreviewData::default()), inputs, outputs, z_index: 0 };
        assert(node_ids(n) =~= drawn(old(ids)@, 3));
        assert(ids@ =~= left_after(old(ids)@, 3));
        n
    }

    /// Creates a GenerateDialog node: input `stills_in`, output `text_out`, with identifiers
    /// taken from `ids`: the node's first, then its connectors'.
    pub fn new_generate_dialog(ids: &mut FreshIds) -> (n: Node)
        requires
            old(ids)@.len() >= 3,
        ensures
            n.data == NodeData::GenerateDialog(GenerateDialogData {
                generation_status: GenerationStatus::Idle,
                generated_dialog: None,
            }),
            connectors_are(n.inputs@, seq!["stills_in"@], ConnectorType::Input),
            connectors_are(n.outputs@, seq!["text_out"@], ConnectorType::Output),
            n.z_index == 0,
            node_ids(n) == drawn(old(ids)@, 3),
            final(ids)@ == left_after(old(ids)@, 3),
    {
        let id = ids.take();
        let mut inputs = Vec::new();
        inputs.push(Connector::input(ids.take(), "stills_in"));
        let mut outputs = Vec::new();
        outputs.push(Connector::output(ids.take(), "text_out"));
        let n = Node { id, data: NodeData::GenerateDialog(GenerateDialogData::default()), inputs, outputs, z_index: 0 };
        assert(node_ids(n) =~= drawn(old(ids)@, 3));
        assert(ids@ =~= left_after(old(ids)@, 3));
        n
    }

    /// Creates a TextView node: input `text_in`, no outputs, with identifiers
    /// taken from `ids`: the node's first, then its connectors'.
    pub fn new_text_view(ids: &mut FreshIds) -> (n: Node)
        requires
            old(ids)@.len() >= 2,
        ensures
            n.data == NodeData::TextView(TextViewData {}),
            connectors_are(n.inputs@, seq!["text_in"@], ConnectorType::Input),
            connectors_are(n.outputs@, seq![], ConnectorType::Output),
            n.z_index == 0,
            node_ids(n) == drawn(old(ids)@, 2),
            final(ids)@ == left_after(old(ids)@, 2),
    {
        let id = ids.take();
        let mut inputs = Vec::new();
        inputs.push(Connector::input(ids.take(), "text_in"));
        let mut outputs = Vec::new();
        let n = Node { id, data: NodeData::TextView(TextViewData::default()), inputs, outputs, z_index: 0 };
        assert(node_ids(n) =~= drawn(old(ids)@, 2));
        assert(ids@ =~= left_after(old(ids)@, 2));
        n
    }
}

/// A connection from an output connector of one node to an input connector
/// of another. (The application keeps optional bezier control points.)
#[derive(Debug, Clone, Copy, PartialEq)]
pub struct Connection {
    pub id: u128,
    pub from_node: u128,
    pub from_connector: u128,
    pub to_node: u128,
    pub to_connector: u128,
}

impl Connection {
    /// Creates a connection with the given identifier between two connectors.
    pub fn new(id: u128, from_node: u128, from_connector: u128, to_node: u128, to_connector: u128) -> (c:
        Connection)
        ensures
            c.id == id,
            c.from_node == from_node,
            c.from_connector == from_connector,
            c.to_node == to_node,
            c.to_connector == to_connector,
    {
        Connection { id, from_node, from_connector, to_node, to_connector }
    }
}

} // verus!
