//! Queries on the node graph: finding nodes and the connections into their
//! inputs, and following connections upstream to the stills, the selected
//! still and the video that feed a node.
//!
//! A walk upstream is bounded by a step budget (`fuel`); the public queries
//! give it the number of nodes, which is never exhausted when the graph has
//! no cycle.

use vstd::prelude::*;
use crate::model::{Connection, Node, NodeData, Still, VideoInputData};
use crate::text::push_str;

verus! {

/// `i` is the first position of a node with identifier `id`.
pub open spec fn is_first_node(nodes: Seq<Node>, id: u128, i: int) -> bool {
    &&& 0 <= i < nodes.len()
    &&& nodes[i].id == id
    &&& forall|j: int| 0 <= j < i ==> nodes[j].id != id
}

/// The position of the first node with identifier `id`.
pub open spec fn node_index(nodes: Seq<Node>, id: u128) -> Option<int> {
    if exists|i: int| is_first_node(nodes, id, i) {
        Some(choose|i: int| is_first_node(nodes, id, i))
    } else {
        None
    }
}

/// The first node with identifier `id`.
pub open spec fn lookup(nodes: Seq<Node>, id: u128) -> Option<Node> {
    match node_index(nodes, id) {
        Some(i) => Some(nodes[i]),
        None => None,
    }
}

/// Connection `c` ends at connector `to_connector` of node `to_node`.
pub open spec fn ends_at(c: Connection, to_node: u128, to_connector: u128) -> bool {
    c.to_node == to_node && c.to_connector == to_connector
}

/// `i` is the first position of a connection into the given input.
pub open spec fn is_first_incoming(
    conns: Seq<Connection>,
    to_node: u128,
    to_connector: u128,
    i: int,
) -> bool {
    &&& 0 <= i < conns.len()
    &&& ends_at(conns[i], to_node, to_connector)
    &&& forall|j: int| 0 <= j < i ==> !ends_at(conns[j], to_node, to_connector)
}

/// The first connection into connector `to_connector` of node `to_node`.
pub open spec fn incoming(conns: Seq<Connection>, to_node: u128, to_connector: u128) -> Option<
    Connection,
> {
    if exists|i: int| is_first_incoming(conns, to_node, to_connector, i) {
        Some(conns[choose|i: int| is_first_incoming(conns, to_node, to_connector, i)])
    } else {
        None
    }
}

/// The node feeding the given input connector of `node`.
pub open spec fn upstream_through(
    nodes: Seq<Node>,
    conns: Seq<Connection>,
    node: Node,
    connector: u128,
) -> Option<Node> {
    match incoming(conns, node.id, connector) {
        Some(c) => lookup(nodes, c.from_node),
        None => None,
    }
}

/// The node feeding the first input of `node`.
pub open spec fn upstream_of_first_input(
    nodes: Seq<Node>,
    conns: Seq<Connection>,
    node: Node,
) -> Option<Node> {
    if node.inputs@.len() == 0 {
        None
    } else {
        upstream_through(nodes, conns, node, node.inputs@[0].id)
    }
}

/// The stills that reach `node` through its first input: those of a
/// StillSampler directly upstream, or, through a chain of Selectors, those that
/// reach the nearest Selector.
pub open spec fn stills_upstream(
    nodes: Seq<Node>,
    conns: Seq<Connection>,
    node: Node,
    fuel: nat,
) -> Option<Seq<Still>>
    decreases fuel,
{
    match upstream_of_first_input(nodes, conns, node) {
        None => None,
        Some(src) => match src.data {
            NodeData::StillSampler(d) => Some(d.extracted_stills@),
            NodeData::Selector(_) => if fuel == 0 {
                None
            } else {
                stills_upstream(nodes, conns, src, (fuel - 1) as nat)
            },
            _ => None,
        },
    }
}

/// A VideoInput node, with a file when `need_file` holds.
pub open spec fn is_video_source(n: Node, need_file: bool) -> bool {
    n.data matches NodeData::VideoInput(d) && (!need_file || d.file_id is Some)
}

/// The VideoInput node that feeds `node`, searching its inputs from position
/// `i` on, in order. For each input that has a connection: a connection from
/// a missing node ends this search with nothing; a VideoInput ends it, with
/// that node if it qualifies (has a file, when `need_file`) and with nothing
/// otherwise; any other node is searched the same way upstream, and if that
/// finds nothing the next input is tried.
pub open spec fn video_upstream_from(
    nodes: Seq<Node>,
    conns: Seq<Connection>,
    node: Node,
    i: int,
    fuel: nat,
    need_file: bool,
) -> Option<Node>
    decreases fuel, node.inputs@.len() - i,
{
    if i < 0 || i >= node.inputs@.len() {
        None
    } else {
        match incoming(conns, node.id, node.inputs@[i].id) {
            None => video_upstream_from(nodes, conns, node, i + 1, fuel, need_file),
            Some(c) => match lookup(nodes, c.from_node) {
                None => None,
                Some(up) => if up.data is VideoInput {
                    if is_video_source(up, need_file) {
                        Some(up)
                    } else {
                        None
                    }
                } else {
                    let found = if fuel == 0 {
                        None
                    } else {
                        video_upstream_from(nodes, conns, up, 0, (fuel - 1) as nat, need_file)
                    };
                    match found {
                        Some(v) => Some(v),
                        None => video_upstream_from(nodes, conns, node, i + 1, fuel, need_file),
                    }
                },
            },
        }
    }
}

/// Finds the position of the first node with identifier `id`.
pub fn find_node_index(nodes: &[Node], id: u128) -> (r: Option<usize>)
    ensures
        match r {
            Some(i) => node_index(nodes@, id) == Some(i as int),
            None => node_index(nodes@, id) is None,
        },
{
    let mut i: usize = 0;
    while i < nodes.len()
        invariant
            i <= nodes@.len(),
            forall|j: int| 0 <= j < i ==> nodes@[j].id != id,
        decreases nodes@.len() - i,
    {
        if nodes[i].id == id {
            proof {
                assert(is_first_node(nodes@, id, i as int));
                let k = choose|k: int| is_first_node(nodes@, id, k);
                assert(k == i) by {
                    if k < i {
                        assert(nodes@[k].id != id);
                    } else if k > i {
                        assert(nodes@[i as int].id != id);
                    }
                }
            }
            return Some(i);
        }
        i = i + 1;
    }
    None
}

/// Finds the position of the first connection into the given input.
pub fn find_incoming_index(conns: &[Connection], to_node: u128, to_connector: u128) -> (r: Option<
    usize,
>)
    ensures
        match r {
            Some(i) => is_first_incoming(conns@, to_node, to_connector, i as int) && incoming(
                conns@,
                to_node,
                to_connector,
            ) == Some(conns@[i as int]),
            None => incoming(conns@, to_node, to_connector) is None,
        },
{
    let mut i: usize = 0;
    while i < conns.len()
        invariant
            i <= conns@.len(),
            forall|j: int| 0 <= j < i ==> !ends_at(conns@[j], to_node, to_connector),
        decreases conns@.len() - i,
    {
        if conns[i].to_node == to_node && conns[i].to_connector == to_connector {
            proof {
                assert(is_first_incoming(conns@, to_node, to_connector, i as int));
                let k = choose|k: int| is_first_incoming(conns@, to_node, to_connector, k);
                assert(k == i) by {
                    if k < i {
                        assert(!ends_at(conns@[k], to_node, to_connector));
                    } else if k > i {
                        assert(!ends_at(conns@[i as int], to_node, to_connector));
                    }
                }
            }
            return Some(i);
        }
        i = i + 1;
    }
    None
}

/// Finds the first node with identifier `id`.
pub fn find_node<'a>(nodes: &'a [Node], id: u128) -> (r: Option<&'a Node>)
    ensures
        match r {
            Some(n) => lookup(nodes@, id) == Some(*n),
            None => lookup(nodes@, id) is None,
        },
{
    match find_node_index(nodes, id) {
        Some(i) => Some(&nodes[i]),
        None => None,
    }
}

/// Finds the node that feeds connector `connector` of `node`.
pub fn upstream_through_connector<'a>(
    nodes: &'a [Node],
    conns: &[Connection],
    node: &Node,
    connector: u128,
) -> (r: Option<&'a Node>)
    ensures
        match r {
            Some(n) => upstream_through(nodes@, conns@, *node, connector) == Some(*n),
            None => upstream_through(nodes@, conns@, *node, connector) is None,
        },
{
    match find_incoming_index(conns, node.id, connector) {
        Some(ci) => find_node(nodes, conns[ci].from_node),
        None => None,
    }
}

/// Finds the node that feeds the first input of `node`.
pub fn upstream_of_first<'a>(nodes: &'a [Node], conns: &[Connection], node: &Node) -> (r: Option<
    &'a Node,
>)
    ensures
        match r {
            Some(n) => upstream_of_first_input(nodes@, conns@, *node) == Some(*n),
            None => upstream_of_first_input(nodes@, conns@, *node) is None,
        },
{
    if node.inputs.len() == 0 {
        return None;
    }
    upstream_through_connector(nodes, conns, node, node.inputs[0].id)
}

/// The stills reaching `node` through its first input, following Selectors
/// upstream for at most `fuel` steps.
pub fn stills_upstream_within<'a>(
    nodes: &'a [Node],
    conns: &[Connection],
    node: &Node,
    fuel: usize,
) -> (r: Option<&'a Vec<Still>>)
    ensures
        match r {
            Some(v) => stills_upstream(nodes@, conns@, *node, fuel as nat) == Some(v@),
            None => stills_upstream(nodes@, conns@, *node, fuel as nat) is None,
        },
    decreases fuel,
{
    match upstream_of_first(nodes, conns, node) {
        None => None,
        Some(src) => match &src.data {
            NodeData::StillSampler(d) => Some(&d.extracted_stills),
            NodeData::Selector(_) => {
                if fuel == 0 {
                    None
                } else {
                    stills_upstream_within(nodes, conns, src, fuel - 1)
                }
            },
            _ => None,
        },
    }
}

/// The VideoInput node feeding `node`, searching its inputs from position `i`
/// on (see `video_upstream_from`).
pub fn video_upstream_within<'a>(
    nodes: &'a [Node],
    conns: &[Connection],
    node: &Node,
    i: usize,
    fuel: usize,
    need_file: bool,
) -> (r: Option<&'a Node>)
    ensures
        match r {
            Some(v) => video_upstream_from(nodes@, conns@, *node, i as int, fuel as nat, need_file)
                == Some(*v),
            None => video_upstream_from(nodes@, conns@, *node, i as int, fuel as nat, need_file) is None,
        },
    decreases fuel, node.inputs@.len() - i,
{
    if i >= node.inputs.len() {
        return None;
    }
    match find_incoming_index(conns, node.id, node.inputs[i].id) {
        None => video_upstream_within(nodes, conns, node, i + 1, fuel, need_file),
        Some(ci) => match find_node(nodes, conns[ci].from_node) {
            None => None,
            Some(up) => {
                if let NodeData::VideoInput(d) = &up.data {
                    if !need_file || d.file_id.is_some() {
                        Some(up)
                    } else {
                        None
                    }
                } else {
                    let found = if fuel == 0 {
                        None
                    } else {
                        video_upstream_within(nodes, conns, up, 0, fuel - 1, need_file)
                    };
                    match found {
                        Some(v) => Some(v),
                        None => video_upstream_within(nodes, conns, node, i + 1, fuel, need_file),
                    }
                }
            },
        },
    }
}

/// The upstream search budget used by the public queries: the number of nodes.
pub open spec fn budget(nodes: Seq<Node>) -> nat {
    nodes.len()
}

/// The VideoInput data upstream of `node` (see `video_upstream_from`).
pub open spec fn video_source(
    nodes: Seq<Node>,
    conns: Seq<Connection>,
    node: Node,
    need_file: bool,
) -> Option<VideoInputData> {
    match video_upstream_from(nodes, conns, node, 0, budget(nodes), need_file) {
        Some(v) => match v.data {
            NodeData::VideoInput(d) => Some(d),
            _ => None,
        },
        None => None,
    }
}

/// Identifier and name of the video feeding `node`; a video without a name is
/// called `Unknown`.
pub open spec fn video_info(nodes: Seq<Node>, conns: Seq<Connection>, node: Node) -> Option<
    (u128, Seq<char>),
> {
    match video_source(nodes, conns, node, true) {
        Some(d) => match d.file_id {
            Some(id) => Some(
                (
                    id,
                    match d.file_name {
                        Some(n) => n@,
                        None => "Unknown"@,
                    },
                ),
            ),
            None => None,
        },
        None => None,
    }
}

/// The still that the Selector directly upstream of `node` selects, with the
/// Selector itself.
pub open spec fn selected_still(nodes: Seq<Node>, conns: Seq<Connection>, node: Node) -> Option<
    (Node, Still),
> {
    match upstream_of_first_input(nodes, conns, node) {
        Some(sel) => match sel.data {
            NodeData::Selector(d) => match stills_upstream(nodes, conns, sel, budget(nodes)) {
                Some(stills) => if d.selected_index < stills.len() {
                    Some((sel, stills[d.selected_index as int]))
                } else {
                    None
                },
                None => None,
            },
            _ => None,
        },
        None => None,
    }
}

/// Video identifier, still timestamp and video name of the still shown by a
/// StillPreview `node`.
pub open spec fn still_info(nodes: Seq<Node>, conns: Seq<Connection>, node: Node) -> Option<
    (u128, u64, Seq<char>),
> {
    match selected_still(nodes, conns, node) {
        Some((sel, still)) => match video_info(nodes, conns, sel) {
            Some((id, name)) => Some((id, still.timestamp_seconds, name)),
            None => None,
        },
        None => None,
    }
}

/// The VideoInput data feeding the first input of `node`.
pub fn find_connected_video<'a>(nodes: &'a [Node], conns: &[Connection], node: &Node) -> (r:
    Option<&'a VideoInputData>)
    ensures
        match r {
            Some(d) => upstream_of_first_input(nodes@, conns@, *node) matches Some(n) && n.data
                == NodeData::VideoInput(*d),
            None => !(upstream_of_first_input(nodes@, conns@, *node) matches Some(n)
                && n.data is VideoInput),
        },
{
    match upstream_of_first(nodes, conns, node) {
        Some(src) => match &src.data {
            NodeData::VideoInput(d) => Some(d),
            _ => None,
        },
        None => None,
    }
}

/// The stills that reach `node` (a Selector or a consumer of stills) through
/// its first input.
pub fn find_stills_from_selector<'a>(nodes: &'a [Node], conns: &[Connection], node: &Node) -> (r:
    Option<&'a Vec<Still>>)
    ensures
        match r {
            Some(v) => stills_upstream(nodes@, conns@, *node, budget(nodes@)) == Some(v@),
            None => stills_upstream(nodes@, conns@, *node, budget(nodes@)) is None,
        },
{
    stills_upstream_within(nodes, conns, node, nodes.len())
}

/// How many stills reach `node` through its first input (0 when none do).
pub fn find_stills_count(nodes: &[Node], conns: &[Connection], node: &Node) -> (n: usize)
    ensures
        n == match stills_upstream(nodes@, conns@, *node, budget(nodes@)) {
            Some(s) => s.len(),
            None => 0,
        },
{
    match find_stills_from_selector(nodes, conns, node) {
        Some(v) => v.len(),
        None => 0,
    }
}

/// The VideoInput data upstream of `node`, files or not.
pub fn find_video_source<'a>(nodes: &'a [Node], conns: &[Connection], node: &Node) -> (r: Option<
    &'a VideoInputData,
>)
    ensures
        match r {
            Some(d) => video_source(nodes@, conns@, *node, false) == Some(*d),
            None => video_source(nodes@, conns@, *node, false) is None,
        },
{
    match video_upstream_within(nodes, conns, node, 0, nodes.len(), false) {
        Some(v) => match &v.data {
            NodeData::VideoInput(d) => Some(d),
            _ => None,
        },
        None => None,
    }
}

/// Identifier and name of the video feeding `node`.
pub fn find_video_info_upstream(nodes: &[Node], conns: &[Connection], node: &Node) -> (r: Option<
    (u128, String),
>)
    ensures
        match r {
            Some((id, name)) => video_info(nodes@, conns@, *node) == Some((id, name@)),
            None => video_info(nodes@, conns@, *node) is None,
        },
{
    match video_upstream_within(nodes, conns, node, 0, nodes.len(), true) {
        Some(v) => match &v.data {
            NodeData::VideoInput(d) => match d.file_id {
                Some(id) => {
                    let mut name = String::new();
                    match &d.file_name {
                        Some(n) => push_str(&mut name, n.as_str()),
                        None => push_str(&mut name, "Unknown"),
                    }
                    Some((id, name))
                },
                None => None,
            },
            _ => None,
        },
        None => None,
    }
}

/// Identifier of the video feeding `node`.
pub fn find_video_id_upstream(nodes: &[Node], conns: &[Connection], node: &Node) -> (r: Option<
    u128,
>)
    ensures
        r == match video_info(nodes@, conns@, *node) {
            Some((id, _)) => Some(id),
            None => None::<u128>,
        },
{
    match video_upstream_within(nodes, conns, node, 0, nodes.len(), true) {
        Some(v) => match &v.data {
            NodeData::VideoInput(d) => d.file_id,
            _ => None,
        },
        None => None,
    }
}

/// The still selected by the Selector directly upstream of `node`.
pub fn find_selected_still<'a>(nodes: &'a [Node], conns: &[Connection], node: &Node) -> (r: Option<
    (&'a Node, &'a Still),
>)
    ensures
        match r {
            Some((sel, still)) => selected_still(nodes@, conns@, *node) == Some((*sel, *still)),
            None => selected_still(nodes@, conns@, *node) is None,
        },
{
    let sel = match upstream_of_first(nodes, conns, node) {
        Some(s) => s,
        None => {
            return None;
        },
    };
    let idx = match &sel.data {
        NodeData::Selector(d) => d.selected_index,
        _ => {
            return None;
        },
    };
    match find_stills_from_selector(nodes, conns, sel) {
        Some(stills) => {
            if idx < stills.len() {
                Some((sel, &stills[idx]))
            } else {
                None
            }
        },
        None => None,
    }
}

/// Video identifier, still timestamp and video name of the still that a
/// StillPreview `node` shows.
pub fn find_still_info(nodes: &[Node], conns: &[Connection], node: &Node) -> (r: Option<
    (u128, u64, String),
>)
    ensures
        match r {
            Some((id, t, name)) => still_info(nodes@, conns@, *node) == Some((id, t, name@)),
            None => still_info(nodes@, conns@, *node) is None,
        },
{
    match find_selected_still(nodes, conns, node) {
        Some((sel, still)) => match find_video_info_upstream(nodes, conns, sel) {
            Some((id, name)) => Some((id, still.timestamp_seconds, name)),
            None => None,
        },
        None => None,
    }
}

/// Video identifier and still timestamp of the still that a StillPreview
/// `node` shows.
pub fn find_connected_still_info(nodes: &[Node], conns: &[Connection], node: &Node) -> (r: Option<
    (u128, u64),
>)
    ensures
        r == match still_info(nodes@, conns@, *node) {
            Some((id, t, _)) => Some((id, t)),
            None => None::<(u128, u64)>,
        },
{
    match find_selected_still(nodes, conns, node) {
        Some((sel, still)) => match find_video_id_upstream(nodes, conns, sel) {
            Some(id) => Some((id, still.timestamp_seconds)),
            None => None,
        },
        None => None,
    }
}

} // verus!
