//! What the editor shows of a node: the caption under its title on the
//! canvas and the contents of its dialog, and how the dialog's inputs change
//! the node. The application draws them.

use vstd::prelude::*;
use crate::graph::{
    budget, find_connected_still_info, upstream_of_first, find_connected_video, find_stills_count, find_still_info,
    still_info, stills_upstream, upstream_of_first_input,
};
use crate::ids::uuid_text;
use crate::model::{
    Connection, Node, NodeData, ProcessingStatus, SelectorData, StillSamplerData, UploadStatus,
    VideoInputData, sampled_at, still_count, still_ids,
};
use crate::ids::{FreshIds, drawn, left_after};
use crate::outside::uuid_to_string;
use crate::text::{chars_of, copy_string, decimal, parse_u64, parse_u64_spec, push_decimal, push_str};

verus! {

/// What the canvas shows under a node's title.
#[derive(Debug)]
pub enum NodeCaption {
    /// Nothing.
    Empty,
    /// A video: the VideoInput node it comes from, its name and, when known,
    /// its duration in whole seconds (rounded up). The duration is written
    /// out by the application, from the exact value it keeps for that node.
    Video { source: u128, name: String, duration_seconds: Option<u64> },
    /// A line of text, and a second one below it.
    Lines { first: String, second: Option<String> },
    /// A still: its time and the address of its image.
    Still { time_text: String, image_url: String },
}

/// Mathematical model of a caption.
pub enum CaptionModel {
    Empty,
    Video(u128, Seq<char>, Option<u64>),
    Lines(Seq<char>, Option<Seq<char>>),
    Still(Seq<char>, Seq<char>),
}

impl View for NodeCaption {
    type V = CaptionModel;

    open spec fn view(&self) -> CaptionModel {
        match self {
            NodeCaption::Empty => CaptionModel::Empty,
            NodeCaption::Video { source, name, duration_seconds } => CaptionModel::Video(
                *source,
                name@,
                *duration_seconds,
            ),
            NodeCaption::Lines { first, second } => CaptionModel::Lines(
                first@,
                match second {
                    Some(s) => Some(s@),
                    None => None,
                },
            ),
            NodeCaption::Still { time_text, image_url } => CaptionModel::Still(
                time_text@,
                image_url@,
            ),
        }
    }
}

/// The address of the image of the still at `t` seconds of video `video_id`.
pub open spec fn still_url(video_id: u128, t: u64) -> Seq<char> {
    "/api/v1/stills/"@ + uuid_text(video_id) + "/"@ + decimal(t as nat) + ".00"@
}

/// How many stills reach `node` through its first input.
pub open spec fn stills_reaching(nodes: Seq<Node>, conns: Seq<Connection>, node: Node) -> nat {
    match stills_upstream(nodes, conns, node, budget(nodes)) {
        Some(s) => s.len(),
        None => 0,
    }
}

/// A count of stills, or `fallback` when there are none.
pub open spec fn stills_line(count: nat, fallback: Seq<char>) -> Seq<char> {
    if count > 0 {
        decimal(count) + " stills"@
    } else {
        fallback
    }
}

/// The name of a video as the editor shows it: `Unknown` when it has none.
pub open spec fn shown_name(d: VideoInputData) -> Seq<char> {
    match d.file_name {
        Some(n) => n@,
        None => "Unknown"@,
    }
}

/// The caption of `node` in the graph of `nodes` and `conns`.
pub open spec fn caption_of(nodes: Seq<Node>, conns: Seq<Connection>, node: Node) -> CaptionModel {
    match node.data {
        NodeData::VideoInput(v) => match v.file_name {
            Some(n) => CaptionModel::Video(node.id, n@, v.duration_seconds),
            None => CaptionModel::Empty,
        },
        NodeData::StillSampler(s) => CaptionModel::Lines(
            decimal(s.interval_seconds as nat) + "s interval"@,
            Some(stills_line(s.extracted_stills@.len(), "No video connected"@)),
        ),
        NodeData::Viewer(_) => match upstream_of_first_input(nodes, conns, node) {
            Some(up) => match up.data {
                NodeData::VideoInput(d) => CaptionModel::Video(
                    up.id,
                    shown_name(d),
                    d.duration_seconds,
                ),
                _ => CaptionModel::Lines("No video connected"@, None),
            },
            None => CaptionModel::Lines("No video connected"@, None),
        },
        NodeData::Selector(d) => CaptionModel::Lines(
            "Index: "@ + decimal(d.selected_index as nat),
            Some(stills_line(stills_reaching(nodes, conns, node), "No input"@)),
        ),
        NodeData::StillPreview(_) => match still_info(nodes, conns, node) {
            Some((id, t, _)) => CaptionModel::Still(decimal(t as nat) + ".0s"@, still_url(id, t)),
            None => CaptionModel::Lines("No still connected"@, None),
        },
        _ => CaptionModel::Empty,
    }
}

/// Writes the count of stills, or the fallback when there are none.
fn stills_line_text(count: usize, fallback: &str) -> (s: String)
    ensures
        s@ == stills_line(count as nat, fallback@),
{
    let mut s = String::new();
    if count > 0 {
        push_decimal(&mut s, count as u64);
        push_str(&mut s, " stills");
    } else {
        push_str(&mut s, fallback);
    }
    s
}

/// The address of the image of a still.
pub fn still_image_url(video_id: u128, t: u64) -> (s: String)
    ensures
        s@ == still_url(video_id, t),
{
    let mut s = String::new();
    push_str(&mut s, "/api/v1/stills/");
    let id = uuid_to_string(video_id);
    push_str(&mut s, id.as_str());
    push_str(&mut s, "/");
    push_decimal(&mut s, t);
    push_str(&mut s, ".00");
    s
}

/// The caption of `node`.
pub fn node_caption(nodes: &[Node], conns: &[Connection], node: &Node) -> (c: NodeCaption)
    ensures
        c@ == caption_of(nodes@, conns@, *node),
{
    match &node.data {
        NodeData::VideoInput(v) => match &v.file_name {
            Some(n) => NodeCaption::Video {
                source: node.id,
                name: copy_string(n.as_str()),
                duration_seconds: v.duration_seconds,
            },
            None => NodeCaption::Empty,
        },
        NodeData::StillSampler(s) => {
            let mut first = String::new();
            push_decimal(&mut first, s.interval_seconds as u64);
            push_str(&mut first, "s interval");
            NodeCaption::Lines {
                first,
                second: Some(stills_line_text(s.extracted_stills.len(), "No video connected")),
            }
        },
        NodeData::Viewer(_) => match upstream_of_first(nodes, conns, node) {
            Some(up) => match &up.data {
                NodeData::VideoInput(d) => {
                    let name = match &d.file_name {
                        Some(n) => copy_string(n.as_str()),
                        None => copy_string("Unknown"),
                    };
                    NodeCaption::Video { source: up.id, name, duration_seconds: d.duration_seconds }
                },
                _ => NodeCaption::Lines { first: copy_string("No video connected"), second: None },
            },
            None => NodeCaption::Lines { first: copy_string("No video connected"), second: None },
        },
        NodeData::Selector(d) => {
            let mut first = String::new();
            push_str(&mut first, "Index: ");
            push_decimal(&mut first, d.selected_index as u64);
            let count = find_stills_count(nodes, conns, node);
            NodeCaption::Lines { first, second: Some(stills_line_text(count, "No input")) }
        },
        NodeData::StillPreview(_) => match find_connected_still_info(nodes, conns, node) {
            Some((id, t)) => {
                let mut time_text = String::new();
                push_decimal(&mut time_text, t);
                push_str(&mut time_text, ".0s");
                NodeCaption::Still { time_text, image_url: still_image_url(id, t) }
            },
            None => NodeCaption::Lines { first: copy_string("No still connected"), second: None },
        },
        _ => NodeCaption::Empty,
    }
}

/// The contents of a VideoInput node's dialog.
#[derive(Debug)]
pub struct VideoInputPanel {
    /// The video's name, `None` when no video is loaded.
    pub video_name: String,
    /// A video is loaded: its duration is shown.
    pub has_video: bool,
    /// An upload is in progress.
    pub uploading: bool,
    /// The video can be removed.
    pub can_delete: bool,
    /// The label of the load button.
    pub load_label: String,
}

/// The dialog of a VideoInput node with data `d`.
pub fn video_input_panel(d: &VideoInputData) -> (p: VideoInputPanel)
    ensures
        p.video_name@ == match d.file_name {
            Some(n) => n@,
            None => "None"@,
        },
        p.has_video == d.file_name is Some,
        p.uploading == d.upload_status is Uploading,
        p.can_delete == (d.file_name is Some && !(d.upload_status is Uploading)),
        p.load_label@ == if d.upload_status is Uploading {
            "Uploading..."@
        } else {
            "Load Video..."@
        },
{
    let has_video = d.file_name.is_some();
    let uploading = match d.upload_status {
        UploadStatus::Uploading => true,
        _ => false,
    };
    let video_name = match &d.file_name {
        Some(n) => copy_string(n.as_str()),
        None => copy_string("None"),
    };
    let load_label = if uploading {
        copy_string("Uploading...")
    } else {
        copy_string("Load Video...")
    };
    VideoInputPanel {
        video_name,
        has_video,
        uploading,
        can_delete: has_video && !uploading,
        load_label,
    }
}

/// The data a VideoInput node takes when the dialog's Delete Video button is
/// pressed: no video, no upload.
pub fn video_input_after_delete() -> (d: VideoInputData)
    ensures
        d == (VideoInputData {
            file_id: None,
            file_name: None,
            file_path: None,
            duration_seconds: None,
            upload_status: UploadStatus::NoUpload,
        }),
{
    VideoInputData::default()
}

/// The data a VideoInput node takes when the file `name` is chosen in the
/// dialog: that name, uploading, nothing else known yet.
pub fn video_input_uploading(name: &str) -> (d: VideoInputData)
    ensures
        d.file_id is None,
        d.file_name matches Some(n) && n@ == name@,
        d.file_path is None,
        d.duration_seconds is None,
        d.upload_status == UploadStatus::Uploading,
{
    VideoInputData {
        file_id: None,
        file_name: Some(copy_string(name)),
        file_path: None,
        duration_seconds: None,
        upload_status: UploadStatus::Uploading,
    }
}

/// The data a VideoInput node takes when its upload ends: on success the
/// stored video's identifier, name, path and duration (whole seconds, rounded
/// up), upload complete; on failure nothing but the error's message.
pub fn video_input_after_upload(result: Result<(u128, String, String, Option<u64>), String>) -> (d:
    VideoInputData)
    ensures
        match result {
            Ok((id, name, path, duration)) => d == (VideoInputData {
                file_id: Some(id),
                file_name: Some(name),
                file_path: Some(path),
                duration_seconds: duration,
                upload_status: UploadStatus::Complete,
            }),
            Err(m) => d == (VideoInputData {
                file_id: None,
                file_name: None,
                file_path: None,
                duration_seconds: None,
                upload_status: UploadStatus::Error(m),
            }),
        },
{
    match result {
        Ok((id, name, path, duration)) => VideoInputData {
            file_id: Some(id),
            file_name: Some(name),
            file_path: Some(path),
            duration_seconds: duration,
            upload_status: UploadStatus::Complete,
        },
        Err(m) => VideoInputData {
            file_id: None,
            file_name: None,
            file_path: None,
            duration_seconds: None,
            upload_status: UploadStatus::Error(m),
        },
    }
}

/// The number a text field holds, as `str::parse::<u32>` reads it.
pub open spec fn parse_u32_spec(s: Seq<char>) -> Option<u32> {
    match parse_u64_spec(s) {
        Some(v) => if v <= u32::MAX {
            Some(v as u32)
        } else {
            None
        },
        None => None,
    }
}

/// The number a text field holds, as `str::parse::<usize>` reads it.
pub open spec fn parse_usize_spec(s: Seq<char>) -> Option<usize> {
    match parse_u64_spec(s) {
        Some(v) => if v <= usize::MAX {
            Some(v as usize)
        } else {
            None
        },
        None => None,
    }
}

/// A sampling interval brought into the range the dialog allows, 1 to 300
/// seconds.
pub open spec fn clamp_interval(v: u32) -> u32 {
    if v < 1 {
        1
    } else if v > 300 {
        300
    } else {
        v
    }
}

/// The duration of the video feeding a StillSampler `node`, if known.
pub fn sampler_video_duration(nodes: &[Node], conns: &[Connection], node: &Node) -> (r: Option<
    u64,
>)
    ensures
        r == match upstream_of_first_input(nodes@, conns@, *node) {
            Some(up) => match up.data {
                NodeData::VideoInput(d) => d.duration_seconds,
                _ => None,
            },
            None => None,
        },
{
    match find_connected_video(nodes, conns, node) {
        Some(d) => d.duration_seconds,
        None => None,
    }
}

/// The interval a StillSampler's interval field sets when it reads `text`:
/// `None` when the field does not hold a number, otherwise the number
/// brought into 1 to 300.
pub fn interval_from_input(text: &str) -> (r: Option<u32>)
    ensures
        r == match parse_u32_spec(text@) {
            Some(v) => Some(clamp_interval(v)),
            None => None,
        },
{
    let chars = chars_of(text);
    let v = match parse_u64(&chars) {
        Some(v) => v,
        None => {
            return None;
        },
    };
    if v > 4294967295u64 {
        return None;
    }
    let v: u32 = v as u32;
    if v < 1 {
        Some(1)
    } else if v > 300 {
        Some(300)
    } else {
        Some(v)
    }
}

/// How many stills a StillSampler samples when its interval field reads
/// `text` and a video of `video_duration` seconds, if any, feeds it.
pub open spec fn stills_after_input(text: Seq<char>, video_duration: Option<u64>) -> nat {
    match (parse_u32_spec(text), video_duration) {
        (Some(v), Some(dur)) => still_count(clamp_interval(v) as nat, dur as nat),
        _ => 0,
    }
}

/// The new data of a StillSampler whose interval field reads `text`, fed by
/// a video of `video_duration` seconds if any: `None` (no change) when the
/// field does not hold a number; otherwise the interval brought into 1 to 300
/// and, with a video, the stills sampled anew at that interval, each taking
/// its identifier from `ids`.
pub fn sampler_after_interval_input(
    text: &str,
    video_duration: Option<u64>,
    ids: &mut FreshIds,
) -> (r: Option<StillSamplerData>)
    requires
        old(ids)@.len() >= stills_after_input(text@, video_duration),
    ensures
        match parse_u32_spec(text@) {
            None => r is None,
            Some(v) => (r matches Some(d) && d.interval_seconds == clamp_interval(v)
                && d.processing_status == ProcessingStatus::Idle && match video_duration {
                Some(dur) => sampled_at(
                    d.extracted_stills@,
                    clamp_interval(v) as nat,
                    dur as nat,
                ) && still_ids(d.extracted_stills@) == drawn(
                    old(ids)@,
                    stills_after_input(text@, video_duration),
                ),
                None => d.extracted_stills@.len() == 0,
            }),
        },
        final(ids)@ == left_after(old(ids)@, stills_after_input(text@, video_duration)),
{
    let clamped = match interval_from_input(text) {
        Some(c) => c,
        None => {
            assert(ids@ =~= left_after(old(ids)@, 0));
            return None;
        },
    };
    let mut d = StillSamplerData {
        interval_seconds: clamped,
        extracted_stills: Vec::new(),
        processing_status: ProcessingStatus::Idle,
    };
    match video_duration {
        Some(dur) => d.generate_stills(dur, ids),
        None => {
            assert(ids@ =~= left_after(old(ids)@, 0));
        },
    }
    Some(d)
}

/// The contents of a StillSampler node's dialog.
#[derive(Debug)]
pub struct SamplerPanel {
    /// The sampling interval in seconds.
    pub interval_seconds: u32,
    /// How many stills have been sampled.
    pub stills_extracted: usize,
    /// No video with a known duration feeds the node: the dialog asks to
    /// connect one.
    pub show_connect_hint: bool,
}

/// The dialog of a StillSampler `node` with data `d`.
pub fn sampler_panel(nodes: &[Node], conns: &[Connection], node: &Node, d: &StillSamplerData) -> (p:
    SamplerPanel)
    ensures
        p.interval_seconds == d.interval_seconds,
        p.stills_extracted == d.extracted_stills@.len(),
        p.show_connect_hint == !(upstream_of_first_input(nodes@, conns@, *node) matches Some(up)
            && up.data matches NodeData::VideoInput(v) && v.duration_seconds is Some),
{
    let duration = sampler_video_duration(nodes, conns, node);
    SamplerPanel {
        interval_seconds: d.interval_seconds,
        stills_extracted: d.extracted_stills.len(),
        show_connect_hint: duration.is_none(),
    }
}

/// The contents of a Selector node's dialog.
#[derive(Debug)]
pub struct SelectorPanel {
    /// The number of stills reaching the node, or `No input`.
    pub count_text: String,
    /// The largest index the index field accepts.
    pub max_index: usize,
    /// The index field can be edited: stills reach the node.
    pub enabled: bool,
    /// `Selecting still i of n`, when the selected index is in range.
    pub hint: Option<String>,
}

/// The dialog of a Selector `node` that selects `selected_index`.
pub fn selector_panel(nodes: &[Node], conns: &[Connection], node: &Node, selected_index: usize) -> (p:
    SelectorPanel)
    ensures
        ({
            let n = stills_reaching(nodes@, conns@, *node);
            &&& p.count_text@ == if n > 0 {
                decimal(n)
            } else {
                "No input"@
            }
            &&& p.max_index == if n > 0 {
                n - 1
            } else {
                0
            }
            &&& p.enabled == (n > 0)
            &&& (n > 0 && selected_index < n) ==> (p.hint matches Some(h) && h@
                == "Selecting still "@ + decimal((selected_index + 1) as nat) + " of "@ + decimal(
                n,
            ))
            &&& !(n > 0 && selected_index < n) ==> p.hint is None
        }),
{
    let n = find_stills_count(nodes, conns, node);
    let mut count_text = String::new();
    if n > 0 {
        push_decimal(&mut count_text, n as u64);
    } else {
        push_str(&mut count_text, "No input");
    }
    let hint = if n > 0 && selected_index < n {
        let mut h = String::new();
        push_str(&mut h, "Selecting still ");
        push_decimal(&mut h, (selected_index + 1) as u64);
        push_str(&mut h, " of ");
        push_decimal(&mut h, n as u64);
        Some(h)
    } else {
        None
    };
    SelectorPanel {
        count_text,
        max_index: if n > 0 {
            n - 1
        } else {
            0
        },
        enabled: n > 0,
        hint,
    }
}

/// The new data of a Selector whose index field reads `text`: `None` (no
/// change) when the field does not hold a number.
pub fn selector_after_index_input(text: &str) -> (r: Option<SelectorData>)
    ensures
        match parse_usize_spec(text@) {
            Some(i) => r == Some(SelectorData { selected_index: i }),
            None => r is None,
        },
{
    let chars = chars_of(text);
    match parse_u64(&chars) {
        Some(v) => if v as u128 <= usize::MAX as u128 {
            Some(SelectorData { selected_index: v as usize })
        } else {
            None
        },
        None => None,
    }
}

/// Two decimal digits of a number below 100.
pub open spec fn two_digits(n: nat) -> Seq<char> {
    if n < 10 {
        "0"@ + decimal(n)
    } else {
        decimal(n)
    }
}

/// A time of `seconds` seconds as minutes and two-digit seconds, such as
/// `2:05`; the minutes are capped at the largest `u32`.
pub open spec fn clock(seconds: u64) -> Seq<char> {
    let m = seconds / 60;
    decimal(if m > u32::MAX { u32::MAX as nat } else { m as nat }) + ":"@ + two_digits(
        (seconds % 60) as nat,
    )
}

/// Writes a time as minutes and two-digit seconds.
pub fn clock_text(seconds: u64) -> (s: String)
    ensures
        s@ == clock(seconds),
{
    let m = seconds / 60;
    let m = if m > 4294967295u64 {
        4294967295u64
    } else {
        m
    };
    let r = seconds % 60;
    let mut s = String::new();
    push_decimal(&mut s, m);
    push_str(&mut s, ":");
    if r < 10 {
        push_str(&mut s, "0");
    }
    push_decimal(&mut s, r);
    s
}

/// The contents of a Viewer node's dialog, when a loaded video feeds it.
#[derive(Debug)]
pub struct ViewerPanel {
    /// The VideoInput node the video comes from (the application writes the
    /// duration from the exact value it keeps for that node).
    pub source: u128,
    /// The video's name (`Unknown` when it has none).
    pub name: String,
    /// The video's duration in whole seconds (rounded up), if known.
    pub duration_seconds: Option<u64>,
    /// The address the video is played from.
    pub stream_url: String,
}

/// The address from which video `id` is streamed.
pub open spec fn stream_url_of(id: u128) -> Seq<char> {
    "/api/v1/videos/"@ + uuid_text(id) + "/stream"@
}

/// The dialog of a Viewer `node`: `None` unless a VideoInput with a loaded
/// video feeds its first input.
pub fn viewer_panel(nodes: &[Node], conns: &[Connection], node: &Node) -> (r: Option<ViewerPanel>)
    ensures
        match upstream_of_first_input(nodes@, conns@, *node) {
            Some(up) => match up.data {
                NodeData::VideoInput(d) => match d.file_id {
                    Some(id) => (r matches Some(p) && p.source == up.id && p.name@ == shown_name(d)
                        && p.duration_seconds == d.duration_seconds && p.stream_url@
                        == stream_url_of(id)),
                    None => r is None,
                },
                _ => r is None,
            },
            None => r is None,
        },
{
    let up = match upstream_of_first(nodes, conns, node) {
        Some(up) => up,
        None => {
            return None;
        },
    };
    match &up.data {
        NodeData::VideoInput(d) => match d.file_id {
            Some(id) => {
                let name = match &d.file_name {
                    Some(n) => copy_string(n.as_str()),
                    None => copy_string("Unknown"),
                };
                let mut url = String::new();
                push_str(&mut url, "/api/v1/videos/");
                let t = uuid_to_string(id);
                push_str(&mut url, t.as_str());
                push_str(&mut url, "/stream");
                Some(
                    ViewerPanel {
                        source: up.id,
                        name,
                        duration_seconds: d.duration_seconds,
                        stream_url: url,
                    },
                )
            },
            None => None,
        },
        _ => None,
    }
}

/// The contents of a StillPreview node's dialog, when a still reaches it.
#[derive(Debug)]
pub struct StillPanel {
    /// The name of the video the still comes from.
    pub source: String,
    /// The still's time as minutes and seconds.
    pub time_text: String,
    /// The address of the still's image.
    pub image_url: String,
}

/// The dialog of a StillPreview `node`: `None` unless a Selector feeding it
/// selects a still of a loaded video.
pub fn still_panel(nodes: &[Node], conns: &[Connection], node: &Node) -> (r: Option<StillPanel>)
    ensures
        match still_info(nodes@, conns@, *node) {
            Some((id, t, name)) => (r matches Some(p) && p.source@ == name && p.time_text@ == clock(
                t,
            ) && p.image_url@ == still_url(id, t)),
            None => r is None,
        },
{
    match find_still_info(nodes, conns, node) {
        Some((id, t, name)) => Some(
            StillPanel { source: name, time_text: clock_text(t), image_url: still_image_url(id, t) },
        ),
        None => None,
    }
}

} // verus!
