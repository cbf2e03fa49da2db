//! Properties of the library as a whole: what removing, adding and undoing do
//! to the node graph and the editor state; what the project cache gives back
//! of what was written to it; how a dialog generation proceeds.

use vstd::prelude::*;
use crate::editor::{AppAction, AppModel, detached};
use crate::model::{NodeData, still_count};
use crate::panels::{CaptionModel, caption_of};
use crate::vision::{description_prompt_text, highlight_line, interesting, join_lines};
use crate::model::ClipDialog;
use crate::graph::{
    budget, incoming, is_first_incoming, is_first_node, lookup, node_index, stills_upstream,
    upstream_of_first_input, video_upstream_from,
};
use crate::model::{Connection, Node};
use crate::project::{Project, connection_index, is_first_connection, keeps, touches, without_node};
use crate::generation::{DialogOutcome, DialogStage, GenerationModel};
use crate::vision::answered_clip;
use crate::ids::{hex_char, lemma_uuid_text_injective, uuid_nibble, uuid_text};
use crate::media::seconds_two_decimals;
use crate::paths::path_join;
use crate::store::json_file_name;
use crate::text::{decimal, lemma_decimal_injective};
use vstd::arithmetic::power::{lemma_pow_positive, pow};

verus! {

/// Removing a node's connections keeps exactly the connections that do not
/// touch it: none of those left touches the node, and every connection that
/// does not touch it is left.
pub proof fn law_remove_node_detaches(conns: Seq<Connection>, id: u128)
    ensures
        forall|i: int|
            0 <= i < without_node(conns, id).len() ==> !touches(
                #[trigger] without_node(conns, id)[i],
                id,
            ),
        forall|i: int|
            0 <= i < conns.len() && !touches(conns[i], id) ==> without_node(conns, id).contains(
                #[trigger] conns[i],
            ),
{
    assert forall|i: int| 0 <= i < without_node(conns, id).len() implies !touches(
        #[trigger] without_node(conns, id)[i],
        id,
    ) by {
        conns.lemma_filter_pred(keeps(id), i);
    }
    assert forall|i: int| 0 <= i < conns.len() && !touches(conns[i], id) implies without_node(
        conns,
        id,
    ).contains(#[trigger] conns[i]) by {
        conns.lemma_filter_contains(keeps(id), i);
    }
}

/// A node added under an identifier that no node has yet is what looking
/// that identifier up finds.
pub proof fn law_add_then_find(nodes: Seq<Node>, n: Node)
    requires
        lookup(nodes, n.id) is None,
    ensures
        lookup(nodes.push(n), n.id) == Some(n),
{
    let s = nodes.push(n);
    assert(forall|j: int| 0 <= j < nodes.len() ==> nodes[j].id != n.id) by {
        assert forall|j: int| 0 <= j < nodes.len() implies nodes[j].id != n.id by {
            if nodes[j].id == n.id {
                lemma_some_first(nodes, n.id, j);
            }
        }
    }
    assert(is_first_node(s, n.id, nodes.len() as int));
    let k = choose|k: int| is_first_node(s, n.id, k);
    assert(k == nodes.len()) by {
        if k < nodes.len() {
            assert(s[k] == nodes[k]);
        }
    }
}

proof fn lemma_some_first(nodes: Seq<Node>, id: u128, a: int)
    requires
        0 <= a < nodes.len(),
        nodes[a].id == id,
    ensures
        exists|k: int| is_first_node(nodes, id, k),
    decreases a,
{
    if exists|j: int| 0 <= j < a && nodes[j].id == id {
        let j = choose|j: int| 0 <= j < a && nodes[j].id == id;
        lemma_some_first(nodes, id, j);
    } else {
        assert(is_first_node(nodes, id, a));
    }
}

proof fn lemma_some_first_connection(conns: Seq<Connection>, id: u128, a: int)
    requires
        0 <= a < conns.len(),
        conns[a].id == id,
    ensures
        exists|k: int| is_first_connection(conns, id, k),
    decreases a,
{
    if exists|j: int| 0 <= j < a && conns[j].id == id {
        let j = choose|j: int| 0 <= j < a && conns[j].id == id;
        lemma_some_first_connection(conns, id, j);
    } else {
        assert(is_first_connection(conns, id, a));
    }
}

/// Removing a connection just added under a new identifier gives the
/// connections back as they were, and hands back the connection.
pub proof fn law_add_then_remove_connection(conns: Seq<Connection>, c: Connection)
    requires
        connection_index(conns, c.id) is None,
    ensures
        connection_index(conns.push(c), c.id) == Some(conns.len() as int),
        conns.push(c)[conns.len() as int] == c,
        conns.push(c).remove(conns.len() as int) == conns,
{
    let s = conns.push(c);
    assert forall|j: int| 0 <= j < conns.len() implies conns[j].id != c.id by {
        if conns[j].id == c.id {
            lemma_some_first_connection(conns, c.id, j);
        }
    }
    assert(is_first_connection(s, c.id, conns.len() as int));
    let k = choose|k: int| is_first_connection(s, c.id, k);
    assert(k == conns.len()) by {
        if k < conns.len() {
            assert(s[k] == conns[k]);
        }
    }
    assert(s.remove(conns.len() as int) =~= conns);
}

/// Deleting a node from the editor removes it, every connection touching it
/// and its selection; every other connection stays.
pub proof fn law_delete_node_forgets(m: AppModel, id: u128, after: AppModel)
    requires
        m.wf(),
        m.next(AppAction::DeleteNode(id), after, None),
    ensures
        !after.nodes.contains_key(id),
        forall|k: u128| #[trigger] after.connections.contains_key(k) ==> !touches(after.connections[k], id),
        forall|k: u128|
            #[trigger] m.connections.contains_key(k) && !touches(m.connections[k], id)
                ==> after.connections.contains_key(k) && after.connections[k] == m.connections[k],
        after.selected_node != Some(id),
{
}

/// Creating a node under a new identifier and then deleting it gives back
/// the nodes as they were; the connections lose only those touching that
/// identifier (none, when no connection refers to it).
pub proof fn law_create_then_delete(
    m: AppModel,
    action: AppAction,
    mid: AppModel,
    id: u128,
    after: AppModel,
)
    requires
        m.wf(),
        action is CreateNode,
        m.next(action, mid, Some(id)),
        !m.nodes.contains_key(id),
        mid.next(AppAction::DeleteNode(id), after, None),
    ensures
        after.nodes == m.nodes,
        after.connections == detached(m.connections, id),
        (forall|k: u128| #[trigger] m.connections.contains_key(k) ==> !touches(m.connections[k], id))
            ==> after.connections == m.connections,
{
    let data = action->CreateNode_0;
    let n = choose|n: Node|
        crate::editor::is_new_node_of_kind(n, data) && Some(id) == Some(n.id) && mid =~= (
        AppModel { nodes: m.nodes.insert(n.id, n), ..m });
    assert(after.nodes =~= m.nodes);
    if forall|k: u128| #[trigger] m.connections.contains_key(k) ==> !touches(m.connections[k], id) {
        assert(detached(m.connections, id) =~= m.connections);
    }
}

/// A project written to the cache under its identifier is what reading that
/// identifier gives back, and the other projects are left as they were.
pub proof fn law_cache_write_then_read(cache: Map<u128, Project>, p: Project, other: u128)
    ensures
        cache.insert(p.id, p).dom().contains(p.id),
        cache.insert(p.id, p)[p.id] == p,
        other != p.id ==> (cache.insert(p.id, p).dom().contains(other) == cache.dom().contains(
            other,
        ) && (cache.dom().contains(other) ==> cache.insert(p.id, p)[other] == cache[other])),
{
}

/// After a project is deleted from the cache, reading it finds nothing (and
/// a second delete answers 404); the other projects are left as they were.
pub proof fn law_cache_delete_then_read(cache: Map<u128, Project>, id: u128, other: u128)
    ensures
        !cache.remove(id).dom().contains(id),
        cache.remove(id).remove(id) == cache.remove(id),
        other != id ==> (cache.remove(id).dom().contains(other) == cache.dom().contains(other)
            && (cache.dom().contains(other) ==> cache.remove(id)[other] == cache[other])),
{
    assert(cache.remove(id).remove(id) =~= cache.remove(id));
}

/// Every step of a generation keeps its invariant.
pub proof fn law_generation_keeps_invariant(m: GenerationModel, outcome: DialogOutcome)
    requires
        m.wf(),
    ensures
        m.next(outcome).wf(),
{
}

/// Only a still step fails a generation: a failed introduction, closing or
/// description leaves its text empty and the generation goes on. A still
/// that cannot be had fails it with 500, a model that does not answer about
/// a still with 503.
pub proof fn law_generation_failures(m: GenerationModel, outcome: DialogOutcome)
    requires
        m.wf(),
    ensures
        (m.stage is Prolog || m.stage is Epilog || m.stage is Description) ==> !(m.next(
            outcome,
        ).stage is Failed),
        m.stage is Clips && outcome is StillUnavailable ==> m.next(outcome).stage
            == DialogStage::Failed(500),
        m.stage is Clips && outcome is ModelFailed ==> m.next(outcome).stage
            == DialogStage::Failed(503),
{
}

/// The number of steps a generation has left to ask for.
pub open spec fn steps_left(m: GenerationModel) -> int {
    match m.stage {
        DialogStage::Clips => m.timestamps.len() - m.clips.len() + 3,
        DialogStage::Prolog => 3,
        DialogStage::Epilog => 2,
        DialogStage::Description => 1,
        _ => 0,
    }
}

/// A generation comes to an end: every step that is asked for brings it
/// closer to being finished or failed.
pub proof fn law_generation_progresses(m: GenerationModel, outcome: DialogOutcome)
    requires
        m.wf(),
        !(m.stage is Finished),
        !(m.stage is Failed),
    ensures
        0 <= steps_left(m.next(outcome)) < steps_left(m),
{
}

/// A finished generation has one clip per requested timestamp, in the order
/// of the timestamps.
pub proof fn law_finished_clips_follow_timestamps(m: GenerationModel)
    requires
        m.wf(),
        m.stage is Finished,
    ensures
        m.clips.len() == m.timestamps.len(),
        forall|i: int| 0 <= i < m.clips.len() ==> #[trigger] m.clips[i].timestamp_seconds
            == m.timestamps[i],
{
}

/// With no timestamps only the closing words are asked for: the generation
/// is finished after that one step, with no introduction and no description.
pub proof fn law_generation_without_stills(context: Seq<char>, outcome: DialogOutcome)
    ensures
        GenerationModel::initial(Seq::empty(), context).stage is Epilog,
        GenerationModel::initial(Seq::empty(), context).next(outcome).stage is Finished,
        GenerationModel::initial(Seq::empty(), context).next(outcome).prolog.len() == 0,
        GenerationModel::initial(Seq::empty(), context).next(outcome).description.len() == 0,
{
}

/// The graph has no cycle, as witnessed by `rank`: every connection between
/// two nodes of the graph goes from a lower rank to a higher one, and every
/// node's rank is below the number of nodes.
pub open spec fn ranked_by(nodes: Seq<Node>, conns: Seq<Connection>, rank: spec_fn(u128) -> nat) -> bool {
    &&& forall|i: int| 0 <= i < nodes.len() ==> rank(#[trigger] nodes[i].id) < nodes.len()
    &&& forall|k: int|
        0 <= k < conns.len() && (#[trigger] lookup(nodes, conns[k].from_node)) is Some && lookup(
            nodes,
            conns[k].to_node,
        ) is Some ==> rank(conns[k].from_node) < rank(conns[k].to_node)
}

proof fn lemma_lookup_id(nodes: Seq<Node>, id: u128)
    requires
        lookup(nodes, id) is Some,
    ensures
        lookup(nodes, id)->0.id == id,
        exists|i: int| 0 <= i < nodes.len() && nodes[i] == lookup(nodes, id)->0,
{
    let i = choose|i: int| is_first_node(nodes, id, i);
    assert(nodes[i] == lookup(nodes, id)->0);
}

proof fn lemma_rank_below(nodes: Seq<Node>, conns: Seq<Connection>, rank: spec_fn(u128) -> nat, id: u128)
    requires
        ranked_by(nodes, conns, rank),
        lookup(nodes, id) is Some,
    ensures
        rank(id) < nodes.len(),
{
    lemma_lookup_id(nodes, id);
    let i = choose|i: int| 0 <= i < nodes.len() && nodes[i] == lookup(nodes, id)->0;
    assert(rank(nodes[i].id) < nodes.len());
}

/// The node feeding an input of `node` ranks below it.
proof fn lemma_feeder_ranks_lower(
    nodes: Seq<Node>,
    conns: Seq<Connection>,
    rank: spec_fn(u128) -> nat,
    node: Node,
    connector: u128,
)
    requires
        ranked_by(nodes, conns, rank),
        lookup(nodes, node.id) is Some,
        incoming(conns, node.id, connector) is Some,
        lookup(nodes, incoming(conns, node.id, connector)->0.from_node) is Some,
    ensures
        ({
            let up = lookup(nodes, incoming(conns, node.id, connector)->0.from_node)->0;
            &&& up.id == incoming(conns, node.id, connector)->0.from_node
            &&& lookup(nodes, up.id) is Some
            &&& rank(up.id) < rank(node.id)
        }),
{
    let k = choose|k: int| is_first_incoming(conns, node.id, connector, k);
    let c = conns[k];
    assert(incoming(conns, node.id, connector) == Some(c));
    lemma_lookup_id(nodes, c.from_node);
    assert(lookup(nodes, conns[k].from_node) is Some);
}

proof fn lemma_stills_fuel(
    nodes: Seq<Node>,
    conns: Seq<Connection>,
    rank: spec_fn(u128) -> nat,
    node: Node,
    f1: nat,
    f2: nat,
)
    requires
        ranked_by(nodes, conns, rank),
        lookup(nodes, node.id) is Some,
        rank(node.id) <= f1 <= f2,
    ensures
        stills_upstream(nodes, conns, node, f1) == stills_upstream(nodes, conns, node, f2),
    decreases f1,
{
    if node.inputs@.len() > 0 {
        let connector = node.inputs@[0].id;
        match incoming(conns, node.id, connector) {
            Some(c) => {
                if lookup(nodes, c.from_node) is Some {
                    lemma_feeder_ranks_lower(nodes, conns, rank, node, connector);
                    let src = lookup(nodes, c.from_node)->0;
                    assert(upstream_of_first_input(nodes, conns, node) == Some(src));
                    if src.data is Selector {
                        lemma_stills_fuel(nodes, conns, rank, src, (f1 - 1) as nat, (f2 - 1) as nat);
                    }
                }
            },
            None => {},
        }
    }
}

/// On a graph without cycles, the search for the stills reaching a node
/// through chains of Selectors is complete: searching with the budget of the
/// library's queries (the number of nodes) finds what any longer search finds.
pub proof fn law_stills_search_complete(
    nodes: Seq<Node>,
    conns: Seq<Connection>,
    rank: spec_fn(u128) -> nat,
    node: Node,
    fuel: nat,
)
    requires
        ranked_by(nodes, conns, rank),
        lookup(nodes, node.id) is Some,
        fuel >= budget(nodes),
    ensures
        stills_upstream(nodes, conns, node, budget(nodes)) == stills_upstream(
            nodes,
            conns,
            node,
            fuel,
        ),
{
    lemma_rank_below(nodes, conns, rank, node.id);
    lemma_stills_fuel(nodes, conns, rank, node, budget(nodes), fuel);
}

proof fn lemma_video_fuel(
    nodes: Seq<Node>,
    conns: Seq<Connection>,
    rank: spec_fn(u128) -> nat,
    node: Node,
    i: int,
    f1: nat,
    f2: nat,
    need_file: bool,
)
    requires
        ranked_by(nodes, conns, rank),
        lookup(nodes, node.id) is Some,
        rank(node.id) <= f1 <= f2,
    ensures
        video_upstream_from(nodes, conns, node, i, f1, need_file) == video_upstream_from(
            nodes,
            conns,
            node,
            i,
            f2,
            need_file,
        ),
    decreases f1, node.inputs@.len() - i,
{
    if 0 <= i < node.inputs@.len() {
        let connector = node.inputs@[i].id;
        match incoming(conns, node.id, connector) {
            None => {
                lemma_video_fuel(nodes, conns, rank, node, i + 1, f1, f2, need_file);
            },
            Some(c) => {
                if lookup(nodes, c.from_node) is Some {
                    lemma_feeder_ranks_lower(nodes, conns, rank, node, connector);
                    let up = lookup(nodes, c.from_node)->0;
                    if !(up.data is VideoInput) {
                        lemma_video_fuel(nodes, conns, rank, up, 0, (f1 - 1) as nat, (f2 - 1) as nat, need_file);
                        lemma_video_fuel(nodes, conns, rank, node, i + 1, f1, f2, need_file);
                    }
                }
            },
        }
    }
}

/// On a graph without cycles, the search for the video feeding a node is
/// complete: searching with the budget of the library's queries finds what
/// any longer search finds.
pub proof fn law_video_search_complete(
    nodes: Seq<Node>,
    conns: Seq<Connection>,
    rank: spec_fn(u128) -> nat,
    node: Node,
    fuel: nat,
    need_file: bool,
)
    requires
        ranked_by(nodes, conns, rank),
        lookup(nodes, node.id) is Some,
        fuel >= budget(nodes),
    ensures
        video_upstream_from(nodes, conns, node, 0, budget(nodes), need_file) == video_upstream_from(
            nodes,
            conns,
            node,
            0,
            fuel,
            need_file,
        ),
{
    lemma_rank_below(nodes, conns, rank, node.id);
    lemma_video_fuel(nodes, conns, rank, node, 0, budget(nodes), fuel, need_file);
}

/// Joining the same directory with two relative names that differ gives two
/// different paths.
proof fn lemma_join_cancel(d: Seq<char>, r1: Seq<char>, r2: Seq<char>)
    requires
        r1.len() > 0,
        r2.len() > 0,
        r1[0] != '/',
        r2[0] != '/',
        path_join(d, r1) == path_join(d, r2),
    ensures
        r1 == r2,
{
    let p = if d.len() == 0 || d.last() == '/' { d } else { d.push('/') };
    assert(path_join(d, r1) == p + r1);
    assert(path_join(d, r2) == p + r2);
    assert((p + r1).skip(p.len() as int) =~= r1);
    assert((p + r2).skip(p.len() as int) =~= r2);
}

/// The written form of an identifier does not begin with `/`.
proof fn lemma_uuid_text_start(a: u128)
    ensures
        uuid_text(a).len() == 36,
        uuid_text(a)[0] != '/',
{
    lemma_pow_positive(16, 31);
    let x = uuid_nibble(a, 0);
    assert(0 <= x < 16);
    assert(uuid_text(a)[0] == hex_char(x));
    assert((hex_char(x) as int) == if x < 10 { 48 + x } else { 87 + x });
}

/// Two texts that begin with the written forms of two different identifiers
/// differ.
proof fn lemma_uuid_prefix_differs(a: u128, b: u128, x: Seq<char>, y: Seq<char>)
    requires
        a != b,
    ensures
        uuid_text(a) + x != uuid_text(b) + y,
{
    lemma_uuid_text_start(a);
    lemma_uuid_text_start(b);
    if uuid_text(a) + x == uuid_text(b) + y {
        assert((uuid_text(a) + x).take(36) =~= uuid_text(a));
        assert((uuid_text(b) + y).take(36) =~= uuid_text(b));
        lemma_uuid_text_injective(a, b);
    }
}

/// Each project is kept in a document of its own: two different identifiers
/// give two different paths, whatever the base directory.
pub proof fn law_project_files_distinct(base: Seq<char>, a: u128, b: u128)
    requires
        a != b,
    ensures
        path_join(path_join(base, "projects"@), json_file_name(uuid_text(a))) != path_join(
            path_join(base, "projects"@),
            json_file_name(uuid_text(b)),
        ),
{
    lemma_uuid_text_start(a);
    lemma_uuid_text_start(b);
    lemma_uuid_prefix_differs(a, b, ".json"@, ".json"@);
    let d = path_join(base, "projects"@);
    if path_join(d, json_file_name(uuid_text(a))) == path_join(d, json_file_name(uuid_text(b))) {
        lemma_join_cancel(d, json_file_name(uuid_text(a)), json_file_name(uuid_text(b)));
    }
}

/// Each video is stored in a file of its own: two different identifiers give
/// two different paths, whatever the extensions.
pub proof fn law_video_files_distinct(dir: Seq<char>, a: u128, b: u128, x: Seq<char>, y: Seq<char>)
    requires
        a != b,
    ensures
        path_join(dir, uuid_text(a) + "."@ + x) != path_join(dir, uuid_text(b) + "."@ + y),
{
    lemma_uuid_text_start(a);
    lemma_uuid_text_start(b);
    assert(uuid_text(a) + "."@ + x == uuid_text(a) + ("."@ + x));
    assert(uuid_text(b) + "."@ + y == uuid_text(b) + ("."@ + y));
    lemma_uuid_prefix_differs(a, b, "."@ + x, "."@ + y);
    if path_join(dir, uuid_text(a) + "."@ + x) == path_join(dir, uuid_text(b) + "."@ + y) {
        lemma_join_cancel(dir, uuid_text(a) + "."@ + x, uuid_text(b) + "."@ + y);
    }
}

/// Each video has a thumbnail file of its own.
pub proof fn law_thumbnail_files_distinct(data_dir: Seq<char>, a: u128, b: u128)
    requires
        a != b,
    ensures
        path_join(path_join(data_dir, "work/thumbnails"@), uuid_text(a) + ".jpg"@) != path_join(
            path_join(data_dir, "work/thumbnails"@),
            uuid_text(b) + ".jpg"@,
        ),
{
    lemma_uuid_text_start(a);
    lemma_uuid_text_start(b);
    lemma_uuid_prefix_differs(a, b, ".jpg"@, ".jpg"@);
    let d = path_join(data_dir, "work/thumbnails"@);
    if path_join(d, uuid_text(a) + ".jpg"@) == path_join(d, uuid_text(b) + ".jpg"@) {
        lemma_join_cancel(d, uuid_text(a) + ".jpg"@, uuid_text(b) + ".jpg"@);
    }
}

/// Each still of each video has a file of its own: a still is found again
/// only under its own video and time.
pub proof fn law_still_files_distinct(data_dir: Seq<char>, a: u128, t1: u64, b: u128, t2: u64)
    requires
        a != b || t1 != t2,
    ensures
        path_join(
            path_join(data_dir, "work/stills"@),
            uuid_text(a) + "-"@ + seconds_two_decimals(t1) + ".jpg"@,
        ) != path_join(
            path_join(data_dir, "work/stills"@),
            uuid_text(b) + "-"@ + seconds_two_decimals(t2) + ".jpg"@,
        ),
{
    let d = path_join(data_dir, "work/stills"@);
    let x = "-"@ + seconds_two_decimals(t1) + ".jpg"@;
    let y = "-"@ + seconds_two_decimals(t2) + ".jpg"@;
    let r1 = uuid_text(a) + "-"@ + seconds_two_decimals(t1) + ".jpg"@;
    let r2 = uuid_text(b) + "-"@ + seconds_two_decimals(t2) + ".jpg"@;
    assert(r1 =~= uuid_text(a) + x);
    assert(r2 =~= uuid_text(b) + y);
    lemma_uuid_text_start(a);
    lemma_uuid_text_start(b);
    if path_join(d, r1) == path_join(d, r2) {
        lemma_join_cancel(d, r1, r2);
        if a != b {
            lemma_uuid_prefix_differs(a, b, x, y);
        } else {
            // Same video: the times must differ, and so must their texts.
            reveal_strlit("-");
            reveal_strlit(".00");
            reveal_strlit(".jpg");
            let tail = ".00"@ + ".jpg"@;
            assert(x =~= "-"@ + decimal(t1 as nat) + tail);
            assert(y =~= "-"@ + decimal(t2 as nat) + tail);
            assert(r1.skip(36) =~= x);
            assert(r2.skip(36) =~= y);
            assert(x == y);
            assert(x.len() == y.len());
            let n1 = decimal(t1 as nat);
            let n2 = decimal(t2 as nat);
            assert(n1.len() == n2.len());
            assert(x.subrange(1, 1 + n1.len() as int) =~= n1);
            assert(y.subrange(1, 1 + n2.len() as int) =~= n2);
            lemma_decimal_injective(t1 as nat, t2 as nat);
        }
    }
}

/// The state a generation reaches from `m` through the given outcomes, in
/// order.
pub open spec fn run_generation(m: GenerationModel, outcomes: Seq<DialogOutcome>) -> GenerationModel
    decreases outcomes.len(),
{
    if outcomes.len() == 0 {
        m
    } else {
        run_generation(m.next(outcomes[0]), outcomes.drop_first())
    }
}

/// The outcomes of a generation in which the model answers every step.
pub open spec fn all_answered(answers: Seq<String>) -> Seq<DialogOutcome> {
    answers.map_values(|a: String| DialogOutcome::Answer(a))
}

proof fn lemma_run_clips(m: GenerationModel, answers: Seq<String>, k: nat)
    requires
        m.wf(),
        m.stage is Clips,
        m.clips.len() == k,
        m.timestamps.len() >= k + 1,
        answers.len() == m.timestamps.len() + 3,
        forall|i: int|
            0 <= i < k ==> #[trigger] m.clips[i] == answered_clip(m.timestamps[i], answers[i]),
    ensures
        ({
            let n = m.timestamps.len();
            let r = run_generation(m, all_answered(answers.skip(k as int)));
            &&& r.stage is Finished
            &&& r.clips.len() == n
            &&& forall|i: int|
                0 <= i < n ==> #[trigger] r.clips[i] == answered_clip(m.timestamps[i], answers[i])
            &&& r.prolog == answers[n as int]@
            &&& r.epilog == answers[n + 1int]@
            &&& r.description == answers[n + 2int]@
            &&& r.timestamps == m.timestamps
        }),
    decreases m.timestamps.len() - k,
{
    let n = m.timestamps.len();
    let outs = all_answered(answers.skip(k as int));
    assert(outs[0] == DialogOutcome::Answer(answers[k as int]));
    assert(outs.drop_first() =~= all_answered(answers.skip(k + 1int)));
    let m1 = m.next(outs[0]);
    assert(m1.clips == m.clips.push(answered_clip(m.timestamps[k as int], answers[k as int])));
    if k + 1 < n {
        assert(m1.stage is Clips);
        lemma_run_clips(m1, answers, k + 1);
    } else {
        assert(m1.stage is Prolog);
        let rest = all_answered(answers.skip(k + 1int));
        assert(rest[0] == DialogOutcome::Answer(answers[n as int]));
        assert(rest.drop_first()[0] == DialogOutcome::Answer(answers[n + 1int]));
        assert(rest.drop_first().drop_first()[0] == DialogOutcome::Answer(answers[n + 2int]));
        let m2 = m1.next(rest[0]);
        let m3 = m2.next(rest.drop_first()[0]);
        let m4 = m3.next(rest.drop_first().drop_first()[0]);
        assert(m4.stage is Finished);
        lemma_run_finished(m4, rest.drop_first().drop_first().drop_first());
        assert(run_generation(m1, rest) == run_generation(m2, rest.drop_first()));
        assert(run_generation(m2, rest.drop_first()) == run_generation(
            m3,
            rest.drop_first().drop_first(),
        ));
        assert(run_generation(m3, rest.drop_first().drop_first()) == run_generation(
            m4,
            rest.drop_first().drop_first().drop_first(),
        ));
        assert forall|i: int| 0 <= i < n implies #[trigger] m4.clips[i] == answered_clip(
            m.timestamps[i],
            answers[i],
        ) by {
            if i < k {
                assert(m4.clips[i] == m.clips[i]);
            }
        }
    }
}

/// Once finished, a generation stays as it is.
proof fn lemma_run_finished(m: GenerationModel, outcomes: Seq<DialogOutcome>)
    requires
        m.stage is Finished,
    ensures
        run_generation(m, outcomes) == m,
    decreases outcomes.len(),
{
    if outcomes.len() > 0 {
        lemma_run_finished(m.next(outcomes[0]), outcomes.drop_first());
    }
}

/// When the model answers every step, a generation over `n` stills ends
/// after `n + 3` answers with one clip per still, made of the answers in
/// order, and the next three answers as introduction, closing words and
/// video description.
pub proof fn law_generation_with_all_answers(
    timestamps: Seq<u64>,
    context: Seq<char>,
    answers: Seq<String>,
)
    requires
        timestamps.len() > 0,
        answers.len() == timestamps.len() + 3,
    ensures
        ({
            let n = timestamps.len();
            let r = run_generation(
                GenerationModel::initial(timestamps, context),
                all_answered(answers),
            );
            &&& r.stage is Finished
            &&& r.clips.len() == n
            &&& forall|i: int|
                0 <= i < n ==> #[trigger] r.clips[i] == answered_clip(timestamps[i], answers[i])
            &&& r.prolog == answers[n as int]@
            &&& r.epilog == answers[n + 1int]@
            &&& r.description == answers[n + 2int]@
        }),
{
    let m = GenerationModel::initial(timestamps, context);
    assert(answers.skip(0) =~= answers);
    lemma_run_clips(m, answers, 0);
}

/// Completing a connection from a VideoInput whose video lasts `d` seconds
/// into a StillSampler with a positive interval leaves the sampler holding
/// exactly one still at every multiple of the interval below `d`, in order,
/// whatever stills it held before; its interval is kept.
pub proof fn law_connecting_a_video_resamples(
    m: AppModel,
    to_node: u128,
    to_conn: u128,
    ids: crate::ids::FreshIds,
    after: AppModel,
)
    requires
        m.pending_connection is Some,
        m.nodes.contains_key(m.pending_connection->0.from_node),
        m.nodes[m.pending_connection->0.from_node].data matches NodeData::VideoInput(v)
            && v.duration_seconds is Some,
        m.nodes.contains_key(to_node),
        m.nodes[to_node].data matches NodeData::StillSampler(sd) && sd.interval_seconds > 0,
        m.next(AppAction::CompleteConnection(to_node, to_conn, ids), after, None),
    ensures
        ({
            let d = m.nodes[m.pending_connection->0.from_node].data->VideoInput_0.duration_seconds->0;
            let sd = m.nodes[to_node].data->StillSampler_0;
            let i = sd.interval_seconds;
            &&& after.nodes.contains_key(to_node)
            &&& after.nodes[to_node].data matches NodeData::StillSampler(nd) && {
                let st = nd.extracted_stills@;
                &&& nd.interval_seconds == i
                &&& forall|k: int| 0 <= k < st.len() ==> #[trigger] st[k].timestamp_seconds == k * i
                &&& st.len() * i >= d
                &&& st.len() > 0 ==> (st.len() - 1) * i < d
            }
        }),
{
    let d = m.nodes[m.pending_connection->0.from_node].data->VideoInput_0.duration_seconds->0;
    let sd = m.nodes[to_node].data->StillSampler_0;
    let i = sd.interval_seconds;
    let nd = after.nodes[to_node].data->StillSampler_0;
    let c = still_count(i as nat, d as nat);
    assert(nd.extracted_stills@.len() == c);
    if d > 0 {
        let n = d + i - 1;
        assert(c * i <= n && n < c * i + i) by (nonlinear_arith)
            requires
                c == n / (i as int),
                i > 0,
                n >= 0,
        ;
        assert(c >= 1) by (nonlinear_arith)
            requires
                c * i > n - i,
                n >= i,
                i > 0,
        ;
        assert((c - 1) * i == c * i - i) by (nonlinear_arith);
    }
}

/// Selecting sets the selection to exactly what is selected, a node or none,
/// and changes nothing else.
pub proof fn law_select_sets_selection(
    m: AppModel,
    id: Option<u128>,
    after: AppModel,
    created: Option<u128>,
)
    requires
        m.next(AppAction::SelectNode(id), after, created),
    ensures
        after.selected_node == id,
        created is None,
        after.nodes == m.nodes,
        after.connections == m.connections,
        after.pending_connection == m.pending_connection,
        after.dragging == m.dragging,
        after.just_dragged == m.just_dragged,
        after.open_dialog == m.open_dialog,
{
}

/// A Viewer fed by a VideoInput shows that video: the video node, its
/// duration, and its file name (`Unknown` only when it has none). When the
/// video has a name, the Viewer's caption is the video node's own caption.
pub proof fn law_viewer_caption_names_its_video(
    nodes: Seq<Node>,
    conns: Seq<Connection>,
    node: Node,
    up: Node,
)
    requires
        node.data is Viewer,
        crate::graph::upstream_of_first_input(nodes, conns, node) == Some(up),
        up.data is VideoInput,
    ensures
        up.data->VideoInput_0.file_name matches Some(n) ==> caption_of(nodes, conns, node)
            == CaptionModel::Video(up.id, n@, up.data->VideoInput_0.duration_seconds),
        up.data->VideoInput_0.file_name is Some ==> caption_of(nodes, conns, node) == caption_of(
            nodes,
            conns,
            up,
        ),
        up.data->VideoInput_0.file_name is None ==> caption_of(nodes, conns, node)
            == CaptionModel::Video(up.id, "Unknown"@, up.data->VideoInput_0.duration_seconds),
{
}

/// After the introduction is asked for, the closing words are asked for next,
/// whatever the outcome: an answer is kept as the introduction, a failure
/// leaves it empty, and nothing else changes.
pub proof fn law_prolog_always_leads_to_epilog(m: GenerationModel, outcome: DialogOutcome)
    requires
        m.stage == DialogStage::Prolog,
    ensures
        m.next(outcome).stage == DialogStage::Epilog,
        outcome matches DialogOutcome::Answer(a) ==> m.next(outcome).prolog == a@,
        !(outcome is Answer) ==> m.next(outcome).prolog.len() == 0,
        m.next(outcome).clips == m.clips,
        m.next(outcome).epilog == m.epilog,
        m.next(outcome).description == m.description,
        m.next(outcome).timestamps == m.timestamps,
        m.next(outcome).context == m.context,
{
}

/// The description request lists only the first five interesting clips:
/// clips that come after five interesting ones do not change it.
pub proof fn law_description_ignores_later_clips(a: Seq<ClipDialog>, b: Seq<ClipDialog>)
    requires
        interesting(a).len() >= 5,
    ensures
        description_prompt_text(a + b) == description_prompt_text(a),
{
    Seq::filter_distributes_over_add(a, b, |c: ClipDialog| c.is_interesting);
    let ha = interesting(a);
    let hb = interesting(b);
    assert(interesting(a + b) == ha + hb);
    assert((ha + hb).take(5) =~= ha.take(5));
}

/// The description request lists the highlight lines of the interesting
/// clips in order, the first five of them when there are more.
pub proof fn law_description_lists_first_interesting(clips: Seq<ClipDialog>)
    requires
        interesting(clips).len() <= 5,
    ensures
        description_prompt_text(clips)
            == "Based on these video highlights, write a YouTube video description:\n"@ + join_lines(
            interesting(clips).map_values(|c: ClipDialog| highlight_line(c)),
        )
            + "\n\nInclude:\n- Opening hook (1 sentence)\n- What viewers will learn/see\n- Relevant hashtags\nKeep it under 200 words."@,
{
    assert(interesting(clips).take(interesting(clips).len() as int) =~= interesting(clips));
}

} // verus!
