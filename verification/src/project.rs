//! A project: a named node graph with its creation and modification times.

use vstd::prelude::*;
use crate::graph::{
    budget, find_node, find_node_index, find_selected_still, find_stills_from_selector,
    find_video_source, lookup, node_index, selected_still, stills_upstream, upstream_through,
    upstream_through_connector, video_source,
};
use crate::model::{Connection, Node, Still, VideoInputData};
use crate::outside::system_clock;
use crate::text::{copy_string, str_eq};

verus! {

/// An instant: whole seconds since the Unix epoch and the nanoseconds past
/// them.
#[derive(Debug, Clone, Copy, PartialEq, Eq, Structural)]
pub struct Timestamp {
    pub seconds: i64,
    pub nanos: u32,
}

/// Where the system clock stood when it was read: this many whole seconds
/// and nanoseconds after, or before, the Unix epoch.
#[derive(Debug, Clone, Copy, PartialEq, Eq, Structural)]
pub enum ClockReading {
    After(u64, u32),
    Before(u64, u32),
}

/// The instant a clock reading names, as whole seconds since the epoch
/// (rounded down, so negative before it) and nanoseconds past them; seconds
/// beyond the range of `i64` are held at its ends.
pub open spec fn timestamp_of(r: ClockReading) -> Timestamp {
    match r {
        ClockReading::After(s, n) => Timestamp {
            seconds: if s <= i64::MAX { s as i64 } else { i64::MAX },
            nanos: n,
        },
        ClockReading::Before(s, n) => if n == 0 {
            Timestamp { seconds: if s <= i64::MAX { -s as i64 } else { i64::MIN }, nanos: 0 }
        } else {
            Timestamp {
                seconds: if s < i64::MAX { (-s - 1) as i64 } else { i64::MIN },
                nanos: (1_000_000_000 - n) as u32,
            }
        },
    }
}

impl Timestamp {
    /// The instant a clock reading names.
    pub fn from_clock(r: ClockReading) -> (t: Timestamp)
        requires
            match r {
                ClockReading::After(_, n) => n < 1_000_000_000,
                ClockReading::Before(_, n) => n < 1_000_000_000,
            },
        ensures
            t == timestamp_of(r),
            t.nanos < 1_000_000_000,
    {
        match r {
            ClockReading::After(s, n) => Timestamp {
                seconds: if s <= 9223372036854775807u64 { s as i64 } else { i64::MAX },
                nanos: n,
            },
            ClockReading::Before(s, n) => if n == 0 {
                Timestamp {
                    seconds: if s <= 9223372036854775807u64 { -(s as i64) } else { i64::MIN },
                    nanos: 0,
                }
            } else {
                Timestamp {
                    seconds: if s < 9223372036854775807u64 { -(s as i64) - 1 } else { i64::MIN },
                    nanos: 1_000_000_000 - n,
                }
            },
        }
    }
}

/// The current time, read from the system clock.
pub fn now() -> (t: Timestamp)
    ensures
        t.nanos < 1_000_000_000,
{
    Timestamp::from_clock(system_clock())
}

/// A project containing the node graph of the canvas. (The application
/// keeps the canvas pan and zoom.)
#[derive(Debug, Clone, PartialEq)]
pub struct Project {
    pub id: u128,
    pub name: String,
    pub created_at: Timestamp,
    pub updated_at: Timestamp,
    pub nodes: Vec<Node>,
    pub connections: Vec<Connection>,
}

/// Connection `c` touches node `id`, at either end.
pub open spec fn touches(c: Connection, id: u128) -> bool {
    c.from_node == id || c.to_node == id
}

/// Connections that do not touch node `id`.
pub open spec fn keeps(id: u128) -> spec_fn(Connection) -> bool {
    |c: Connection| !touches(c, id)
}

/// The connections that do not touch node `id`, in their order.
pub open spec fn without_node(conns: Seq<Connection>, id: u128) -> Seq<Connection> {
    conns.filter(keeps(id))
}

/// `i` is the first position of a connection with identifier `id`.
pub open spec fn is_first_connection(conns: Seq<Connection>, id: u128, i: int) -> bool {
    &&& 0 <= i < conns.len()
    &&& conns[i].id == id
    &&& forall|j: int| 0 <= j < i ==> conns[j].id != id
}

/// The position of the first connection with identifier `id`.
pub open spec fn connection_index(conns: Seq<Connection>, id: u128) -> Option<int> {
    if exists|i: int| is_first_connection(conns, id, i) {
        Some(choose|i: int| is_first_connection(conns, id, i))
    } else {
        None
    }
}

/// `i` is the first position of an input connector named `name`.
pub open spec fn is_first_input_named(node: Node, name: Seq<char>, i: int) -> bool {
    &&& 0 <= i < node.inputs@.len()
    &&& node.inputs@[i].name@ == name
    &&& forall|j: int| 0 <= j < i ==> node.inputs@[j].name@ != name
}

/// The node feeding the first input named `input_name` of node `node_id`.
pub open spec fn upstream_node(
    nodes: Seq<Node>,
    conns: Seq<Connection>,
    node_id: u128,
    input_name: Seq<char>,
) -> Option<Node> {
    match lookup(nodes, node_id) {
        Some(n) => if exists|i: int| is_first_input_named(n, input_name, i) {
            let i = choose|i: int| is_first_input_named(n, input_name, i);
            upstream_through(nodes, conns, n, n.inputs@[i].id)
        } else {
            None
        },
        None => None,
    }
}

/// The stills that reach node `node_id`.
pub open spec fn resolved_stills(nodes: Seq<Node>, conns: Seq<Connection>, node_id: u128) -> Option<
    Seq<Still>,
> {
    match lookup(nodes, node_id) {
        Some(n) => stills_upstream(nodes, conns, n, budget(nodes)),
        None => None,
    }
}

/// The still that the Selector feeding node `node_id` selects.
pub open spec fn resolved_selected_still(
    nodes: Seq<Node>,
    conns: Seq<Connection>,
    node_id: u128,
) -> Option<Still> {
    match lookup(nodes, node_id) {
        Some(n) => match selected_still(nodes, conns, n) {
            Some((_, s)) => Some(s),
            None => None,
        },
        None => None,
    }
}

/// The data of the VideoInput feeding node `node_id`.
pub open spec fn resolved_video_source(
    nodes: Seq<Node>,
    conns: Seq<Connection>,
    node_id: u128,
) -> Option<VideoInputData> {
    match lookup(nodes, node_id) {
        Some(n) => video_source(nodes, conns, n, false),
        None => None,
    }
}

/// Copies the connections that do not touch node `id`.
pub(crate) fn connections_without(conns: &Vec<Connection>, id: u128) -> (r: Vec<Connection>)
    ensures
        r@ == without_node(conns@, id),
{
    let mut r: Vec<Connection> = Vec::new();
    let mut i: usize = 0;
    while i < conns.len()
        invariant
            i <= conns@.len(),
            r@ == without_node(conns@.take(i as int), id),
        decreases conns@.len() - i,
    {
        let c = &conns[i];
        assert(conns@.take(i + 1).drop_last() =~= conns@.take(i as int));
        reveal_with_fuel(Seq::filter, 1);
        if c.from_node != id && c.to_node != id {
            r.push(Connection {
                id: c.id,
                from_node: c.from_node,
                from_connector: c.from_connector,
                to_node: c.to_node,
                to_connector: c.to_connector,
            });
        }
        i = i + 1;
    }
    assert(conns@.take(conns@.len() as int) =~= conns@);
    r
}

pub(crate) fn find_connection_index(conns: &Vec<Connection>, id: u128) -> (r: Option<usize>)
    ensures
        match r {
            Some(i) => connection_index(conns@, id) == Some(i as int),
            None => connection_index(conns@, id) is None,
        },
{
    let mut i: usize = 0;
    while i < conns.len()
        invariant
            i <= conns@.len(),
            forall|j: int| 0 <= j < i ==> conns@[j].id != id,
        decreases conns@.len() - i,
    {
        if conns[i].id == id {
            proof {
                assert(is_first_connection(conns@, id, i as int));
                let k = choose|k: int| is_first_connection(conns@, id, k);
                assert(k == i) by {
                    if k < i {
                        assert(conns@[k].id != id);
                    } else if k > i {
                        assert(conns@[i as int].id != id);
                    }
                }
            }
            return Some(i);
        }
        i = i + 1;
    }
    None
}

impl Project {
    /// Creates an empty project with the given name and identifier, created
    /// and modified now.
    pub fn new(name: &str, id: u128) -> (p: Project)
        ensures
            p.id == id,
            p.name@ == name@,
            p.nodes@.len() == 0,
            p.connections@.len() == 0,
            p.created_at == p.updated_at,
            p.created_at.nanos < 1_000_000_000,
    {
        let t = now();
        Project {
            id,
            name: copy_string(name),
            created_at: t,
            updated_at: t,
            nodes: Vec::new(),
            connections: Vec::new(),
        }
    }

    /// Adds a node at the end of the project's nodes and marks the project
    /// as modified.
    pub fn add_node(&mut self, node: Node)
        ensures
            final(self).nodes@ == old(self).nodes@.push(node),
            final(self).connections@ == old(self).connections@,
            final(self).id == old(self).id,
            final(self).name == old(self).name,
            final(self).created_at == old(self).created_at,
    {
        self.nodes.push(node);
        self.updated_at = now();
    }

    /// Removes the first node with identifier `node_id`, and every connection
    /// to or from that identifier. Returns the removed node.
    pub fn remove_node(&mut self, node_id: u128) -> (r: Option<Node>)
        ensures
            final(self).connections@ == without_node(old(self).connections@, node_id),
            match node_index(old(self).nodes@, node_id) {
                Some(i) => r == Some(old(self).nodes@[i]) && final(self).nodes@ == old(
                    self,
                ).nodes@.remove(i),
                None => r is None && final(self).nodes@ == old(self).nodes@,
            },
            final(self).id == old(self).id,
            final(self).name == old(self).name,
            final(self).created_at == old(self).created_at,
            r is None ==> final(self).updated_at == old(self).updated_at,
    {
        self.connections = connections_without(&self.connections, node_id);
        match find_node_index(&self.nodes, node_id) {
            Some(i) => {
                self.updated_at = now();
                Some(self.nodes.remove(i))
            },
            None => None,
        }
    }

    /// Finds the first node with identifier `node_id`.
    pub fn find_node(&self, node_id: u128) -> (r: Option<&Node>)
        ensures
            match r {
                Some(n) => lookup(self.nodes@, node_id) == Some(*n),
                None => lookup(self.nodes@, node_id) is None,
            },
    {
        find_node(&self.nodes, node_id)
    }

    /// Finds the first node with identifier `node_id`, for changing it.
    pub fn find_node_mut(&mut self, node_id: u128) -> (r: Option<&mut Node>)
        ensures
            match node_index(old(self).nodes@, node_id) {
                Some(i) => r matches Some(n) && *n == old(self).nodes@[i] && final(self).nodes@
                    == old(self).nodes@.update(i, *final(n)),
                None => r is None && final(self).nodes@ == old(self).nodes@,
            },
            final(self).connections@ == old(self).connections@,
            final(self).id == old(self).id,
            final(self).name == old(self).name,
            final(self).created_at == old(self).created_at,
            final(self).updated_at == old(self).updated_at,
    {
        match find_node_index(&self.nodes, node_id) {
            Some(i) => Some(&mut self.nodes[i]),
            None => None,
        }
    }

    /// Adds a connection at the end of the project's connections and marks
    /// the project as modified.
    pub fn add_connection(&mut self, connection: Connection)
        ensures
            final(self).connections@ == old(self).connections@.push(connection),
            final(self).nodes@ == old(self).nodes@,
            final(self).id == old(self).id,
            final(self).name == old(self).name,
            final(self).created_at == old(self).created_at,
    {
        self.connections.push(connection);
        self.updated_at = now();
    }

    /// Removes the first connection with identifier `connection_id` and
    /// returns it.
    pub fn remove_connection(&mut self, connection_id: u128) -> (r: Option<Connection>)
        ensures
            match connection_index(old(self).connections@, connection_id) {
                Some(i) => r == Some(old(self).connections@[i]) && final(self).connections@ == old(
                    self,
                ).connections@.remove(i),
                None => r is None && final(self).connections@ == old(self).connections@,
            },
            final(self).nodes@ == old(self).nodes@,
            final(self).id == old(self).id,
            final(self).name == old(self).name,
            final(self).created_at == old(self).created_at,
            r is None ==> final(self).updated_at == old(self).updated_at,
    {
        match find_connection_index(&self.connections, connection_id) {
            Some(i) => {
                self.updated_at = now();
                Some(self.connections.remove(i))
            },
            None => None,
        }
    }

    /// The node feeding the first input named `input_name` of node `node_id`.
    pub fn find_upstream_node(&self, node_id: u128, input_name: &str) -> (r: Option<&Node>)
        ensures
            match r {
                Some(n) => upstream_node(self.nodes@, self.connections@, node_id, input_name@)
                    == Some(*n),
                None => upstream_node(self.nodes@, self.connections@, node_id, input_name@) is None,
            },
    {
        let node = match find_node(&self.nodes, node_id) {
            Some(n) => n,
            None => {
                return None;
            },
        };
        let mut i: usize = 0;
        while i < node.inputs.len()
            invariant
                lookup(self.nodes@, node_id) == Some(*node),
                i <= node.inputs@.len(),
                forall|j: int| 0 <= j < i ==> node.inputs@[j].name@ != input_name@,
            decreases node.inputs@.len() - i,
        {
            if str_eq(node.inputs[i].name.as_str(), input_name) {
                proof {
                    assert(is_first_input_named(*node, input_name@, i as int));
                    let k = choose|k: int| is_first_input_named(*node, input_name@, k);
                    assert(k == i) by {
                        if k < i {
                            assert(node.inputs@[k].name@ != input_name@);
                        } else if k > i {
                            assert(node.inputs@[i as int].name@ != input_name@);
                        }
                    }
                }
                return upstream_through_connector(
                    &self.nodes,
                    &self.connections,
                    node,
                    node.inputs[i].id,
                );
            }
            i = i + 1;
        }
        None
    }

    /// The stills that reach node `node_id` (from a StillSampler, possibly
    /// through a chain of Selectors).
    pub fn resolve_stills(&self, node_id: u128) -> (r: Option<&Vec<Still>>)
        ensures
            match r {
                Some(v) => resolved_stills(self.nodes@, self.connections@, node_id) == Some(v@),
                None => resolved_stills(self.nodes@, self.connections@, node_id) is None,
            },
    {
        match find_node(&self.nodes, node_id) {
            Some(n) => find_stills_from_selector(&self.nodes, &self.connections, n),
            None => None,
        }
    }

    /// The still that the Selector feeding node `node_id` selects; `None`
    /// when the selected index is out of range.
    pub fn resolve_selected_still(&self, node_id: u128) -> (r: Option<&Still>)
        ensures
            match r {
                Some(s) => resolved_selected_still(self.nodes@, self.connections@, node_id) == Some(
                    *s,
                ),
                None => resolved_selected_still(self.nodes@, self.connections@, node_id) is None,
            },
    {
        match find_node(&self.nodes, node_id) {
            Some(n) => match find_selected_still(&self.nodes, &self.connections, n) {
                Some((_, s)) => Some(s),
                None => None,
            },
            None => None,
        }
    }

    /// The data of the VideoInput node that feeds node `node_id`.
    pub fn resolve_video_source(&self, node_id: u128) -> (r: Option<&VideoInputData>)
        ensures
            match r {
                Some(d) => resolved_video_source(self.nodes@, self.connections@, node_id) == Some(
                    *d,
                ),
                None => resolved_video_source(self.nodes@, self.connections@, node_id) is None,
            },
    {
        match find_node(&self.nodes, node_id) {
            Some(n) => find_video_source(&self.nodes, &self.connections, n),
            None => None,
        }
    }
}

/// An untitled empty project. Its identifier is the nil UUID (0): a project
/// that is to be stored beside others is made with `Project::new` and a
/// fresh identifier.
impl Default for Project {
    fn default() -> (p: Project)
        ensures
            p.id == 0,
            p.name@ == "Untitled Project"@,
            p.nodes@.len() == 0,
            p.connections@.len() == 0,
            p.created_at == p.updated_at,
    {
        Project::new("Untitled Project", 0)
    }
}

} // verus!
