//! Screen layout management.
//!
//! Manages the logical arrangement of screens across multiple hosts: a
//! labelled graph in which each host names, for each of its edges, the
//! host that lies beyond it.

use vstd::prelude::*;

use crate::protocol::{ScreenEdge, ScreenInfo};
use crate::screen::{opposite_edge, spec_opposite_edge};
use crate::text::same_text;

verus! {

/// A screen in the layout, as plain values.
pub struct NodeView {
    pub host_id: Seq<char>,
    pub host_name: Seq<char>,
    pub width: u32,
    pub height: u32,
    /// The host beyond each edge that has one.
    pub neighbors: Map<ScreenEdge, Seq<char>>,
}

impl NodeView {
    /// The node without the neighbors that are `host_id`.
    pub open spec fn forgetting(self, host_id: Seq<char>) -> NodeView {
        NodeView {
            neighbors: Map::new(
                |edge: ScreenEdge| self.neighbors.contains_key(edge) && self.neighbors[edge] != host_id,
                |edge: ScreenEdge| self.neighbors[edge],
            ),
            ..self
        }
    }

    /// The node with `host_id` beyond `edge`.
    pub open spec fn facing(self, edge: ScreenEdge, host_id: Seq<char>) -> NodeView {
        NodeView { neighbors: self.neighbors.insert(edge, host_id), ..self }
    }
}

/// The neighbors that the four slots of a node hold, one slot per edge in
/// the order of the edges' codes.
pub open spec fn neighbor_map(slots: Seq<Option<String>>) -> Map<ScreenEdge, Seq<char>> {
    Map::new(
        |edge: ScreenEdge| slots[edge.spec_code() as int] is Some,
        |edge: ScreenEdge| slots[edge.spec_code() as int]->Some_0@,
    )
}

/// A screen in the layout.
#[derive(Debug)]
pub struct ScreenNode {
    /// Unique host identifier.
    pub host_id: String,
    /// Human-readable name.
    pub host_name: String,
    /// Screen dimensions.
    pub width: u32,
    pub height: u32,
    /// Neighboring hosts by edge, one slot per edge in the order of the
    /// edges' codes.
    pub neighbors: [Option<String>; 4],
}

impl View for ScreenNode {
    type V = NodeView;

    open spec fn view(&self) -> NodeView {
        NodeView {
            host_id: self.host_id@,
            host_name: self.host_name@,
            width: self.width,
            height: self.height,
            neighbors: neighbor_map(self.neighbors@),
        }
    }
}

impl ScreenNode {
    pub fn new(info: &ScreenInfo) -> (node: ScreenNode)
        ensures
            node@ == (NodeView {
                host_id: info.host_id@,
                host_name: info.host_name@,
                width: info.width,
                height: info.height,
                neighbors: Map::empty(),
            }),
    {
        let node = ScreenNode {
            host_id: info.host_id.clone(),
            host_name: info.host_name.clone(),
            width: info.width,
            height: info.height,
            neighbors: [None, None, None, None],
        };
        assert(node@.neighbors =~= Map::empty());
        node
    }

    pub fn set_neighbor(&mut self, edge: ScreenEdge, host_id: String)
        ensures
            final(self)@ == old(self)@.facing(edge, host_id@),
    {
        let slot: usize = edge.code() as usize;
        self.neighbors[slot] = Some(host_id);
        assert(self@.neighbors =~= old(self)@.neighbors.insert(edge, host_id@));
    }

    pub fn get_neighbor(&self, edge: ScreenEdge) -> (neighbor: Option<&String>)
        ensures
            match neighbor {
                Some(host_id) => self@.neighbors.contains_key(edge) && host_id@
                    == self@.neighbors[edge],
                None => !self@.neighbors.contains_key(edge),
            },
    {
        let slot: usize = edge.code() as usize;
        self.neighbors[slot].as_ref()
    }

    pub fn remove_neighbor(&mut self, edge: ScreenEdge)
        ensures
            final(self)@ == (NodeView {
                neighbors: old(self)@.neighbors.remove(edge),
                ..old(self)@
            }),
    {
        let slot: usize = edge.code() as usize;
        self.neighbors[slot] = None;
        assert(self@.neighbors =~= old(self)@.neighbors.remove(edge));
    }

    /// Drops every neighbor entry that points to `host_id`.
    pub fn forget_host(&mut self, host_id: &str)
        ensures
            final(self)@ == old(self)@.forgetting(host_id@),
    {
        let mut slot: usize = 0;
        while slot < 4
            invariant
                slot <= 4,
                self.host_id == old(self).host_id,
                self.host_name == old(self).host_name,
                self.width == old(self).width,
                self.height == old(self).height,
                forall|i: int|
                    0 <= i < slot ==> #[trigger] self.neighbors@[i] == (if old(self).neighbors@[i]
                        is Some && old(self).neighbors@[i]->Some_0@ == host_id@ {
                        None
                    } else {
                        old(self).neighbors@[i]
                    }),
                forall|i: int| slot <= i < 4 ==> #[trigger] self.neighbors@[i] == old(
                    self,
                ).neighbors@[i],
            decreases 4 - slot,
        {
            let points_there = match &self.neighbors[slot] {
                Some(id) => same_text(id.as_str(), host_id),
                None => false,
            };
            if points_there {
                self.neighbors[slot] = None;
            }
            slot += 1;
        }
        assert(self@.neighbors =~= old(self)@.forgetting(host_id@).neighbors);
    }
}

impl Clone for ScreenNode {
    fn clone(&self) -> (node: ScreenNode)
        ensures
            node@ == self@,
    {
        let node = ScreenNode {
            host_id: self.host_id.clone(),
            host_name: self.host_name.clone(),
            width: self.width,
            height: self.height,
            neighbors: [
                copy_slot(&self.neighbors[0]),
                copy_slot(&self.neighbors[1]),
                copy_slot(&self.neighbors[2]),
                copy_slot(&self.neighbors[3]),
            ],
        };
        assert(node@.neighbors =~= self@.neighbors);
        node
    }
}

fn copy_slot(slot: &Option<String>) -> (copy: Option<String>)
    ensures
        copy == *slot,
{
    match slot {
        Some(host_id) => Some(host_id.clone()),
        None => None,
    }
}

/// The layout as plain values: the screens by host identifier, and the
/// identifier of the local host.
pub struct LayoutView {
    pub screens: Map<Seq<char>, NodeView>,
    pub local_host_id: Option<Seq<char>>,
}

impl LayoutView {
    /// Every screen is filed under its own identifier.
    pub open spec fn wf(self) -> bool {
        forall|id: Seq<char>| #[trigger]
            self.screens.contains_key(id) ==> self.screens[id].host_id == id
    }

    pub open spec fn has(self, host_id: Seq<char>) -> bool {
        self.screens.contains_key(host_id)
    }

    /// The layout with `node` filed under its identifier, in place of any
    /// screen that was.
    pub open spec fn with_host(self, node: NodeView) -> LayoutView {
        LayoutView { screens: self.screens.insert(node.host_id, node), ..self }
    }

    /// The layout without the host, and without any neighbor entry that
    /// points to it.
    pub open spec fn without_host(self, host_id: Seq<char>) -> LayoutView {
        LayoutView {
            screens: Map::new(
                |id: Seq<char>| self.screens.contains_key(id) && id != host_id,
                |id: Seq<char>| self.screens[id].forgetting(host_id),
            ),
            ..self
        }
    }

    /// The layout in which `target` lies beyond `edge` of `host_id`, if
    /// `host_id` is in it.
    pub open spec fn linked(self, host_id: Seq<char>, edge: ScreenEdge, target: Seq<char>) -> LayoutView {
        if self.has(host_id) {
            LayoutView {
                screens: self.screens.insert(host_id, self.screens[host_id].facing(edge, target)),
                ..self
            }
        } else {
            self
        }
    }

    /// The layout in which `host_b` lies beyond `edge_a` of `host_a`, and
    /// `host_a` beyond `edge_b` of `host_b`; unchanged unless both hosts
    /// are in it.
    pub open spec fn connected(
        self,
        host_a: Seq<char>,
        edge_a: ScreenEdge,
        host_b: Seq<char>,
        edge_b: ScreenEdge,
    ) -> LayoutView {
        if self.has(host_a) && self.has(host_b) {
            self.linked(host_a, edge_a, host_b).linked(host_b, edge_b, host_a)
        } else {
            self
        }
    }

    /// Whether `host_id` is in the layout and names `target` as the host
    /// beyond its `edge`.
    pub open spec fn names(self, host_id: Seq<char>, edge: ScreenEdge, target: Seq<char>) -> bool {
        &&& self.has(host_id)
        &&& self.screens[host_id].neighbors.contains_key(edge)
        &&& self.screens[host_id].neighbors[edge] == target
    }

    /// Every link is two-way: where a host names another beyond an edge,
    /// that other host is in the layout and names the first beyond the
    /// opposite edge.
    pub open spec fn two_way(self) -> bool {
        forall|host_id: Seq<char>, edge: ScreenEdge, target: Seq<char>| #[trigger]
            self.names(host_id, edge, target) ==> self.names(
                target,
                spec_opposite_edge(edge),
                host_id,
            )
    }

    /// The layout in which `edge` of `host_id` leads nowhere.
    pub open spec fn unlinked(self, host_id: Seq<char>, edge: ScreenEdge) -> LayoutView {
        if self.has(host_id) {
            LayoutView {
                screens: self.screens.insert(
                    host_id,
                    NodeView {
                        neighbors: self.screens[host_id].neighbors.remove(edge),
                        ..self.screens[host_id]
                    },
                ),
                ..self
            }
        } else {
            self
        }
    }

    /// The layout in which `edge` of `host_id` leads nowhere, and the host
    /// that lay beyond it no longer names `host_id` back.
    pub open spec fn detached(self, host_id: Seq<char>, edge: ScreenEdge) -> LayoutView {
        if self.has(host_id) && self.screens[host_id].neighbors.contains_key(edge) {
            let target = self.screens[host_id].neighbors[edge];
            let cleared = self.unlinked(host_id, edge);
            if cleared.names(target, spec_opposite_edge(edge), host_id) {
                cleared.unlinked(target, spec_opposite_edge(edge))
            } else {
                cleared
            }
        } else {
            self
        }
    }

    /// The layout in which `host_b` lies beyond `edge` of `host_a` and
    /// `host_a` beyond the opposite edge of `host_b`, in place of whatever
    /// lay beyond those two edges; unchanged unless both hosts are in it.
    pub open spec fn joined(self, host_a: Seq<char>, edge: ScreenEdge, host_b: Seq<char>) -> LayoutView {
        if self.has(host_a) && self.has(host_b) {
            self.detached(host_a, edge).detached(host_b, spec_opposite_edge(edge)).linked(
                host_a,
                edge,
                host_b,
            ).linked(host_b, spec_opposite_edge(edge), host_a)
        } else {
            self
        }
    }

    /// The layout with `node` in place of any host of its identifier, and
    /// without any neighbor entry that pointed to that host.
    pub open spec fn with_host_anew(self, node: NodeView) -> LayoutView {
        self.without_host(node.host_id).with_host(node)
    }

    /// The layout in which no edge of `host_id` leads to `target`.
    pub open spec fn forgotten(self, host_id: Seq<char>, target: Seq<char>) -> LayoutView {
        if self.has(host_id) {
            LayoutView {
                screens: self.screens.insert(host_id, self.screens[host_id].forgetting(target)),
                ..self
            }
        } else {
            self
        }
    }

    /// The layout in which no edge of either host leads to the other.
    pub open spec fn disconnected(self, host_a: Seq<char>, host_b: Seq<char>) -> LayoutView {
        self.forgotten(host_a, host_b).forgotten(host_b, host_a)
    }

    /// The screen that lies beyond `edge` of `host_id`: the host must be in
    /// the layout, name a neighbor at that edge, and that neighbor be in
    /// the layout too.
    pub open spec fn neighbor(self, host_id: Seq<char>, edge: ScreenEdge) -> Option<NodeView> {
        if self.has(host_id) && self.screens[host_id].neighbors.contains_key(edge) && self.has(
            self.screens[host_id].neighbors[edge],
        ) {
            Some(self.screens[self.screens[host_id].neighbors[edge]])
        } else {
            None
        }
    }

    /// The layout with each of the hosts added in turn, a later one in
    /// place of an earlier one with the same identifier.
    pub open spec fn with_hosts(self, hosts: Seq<ScreenInfo>) -> LayoutView
        decreases hosts.len(),
    {
        if hosts.len() == 0 {
            self
        } else {
            self.with_hosts(hosts.drop_last()).with_host(fresh_node(hosts.last()))
        }
    }

    /// The layout with the first `links` pairs of successive hosts
    /// connected, each host's right edge to the left edge of the next.
    pub open spec fn chained(self, hosts: Seq<ScreenInfo>, links: nat) -> LayoutView
        decreases links,
    {
        if links == 0 {
            self
        } else {
            self.chained(hosts, (links - 1) as nat).connected(
                hosts[links - 1].host_id@,
                ScreenEdge::Right,
                hosts[links as int].host_id@,
                ScreenEdge::Left,
            )
        }
    }

    /// The layout with no screens but these hosts, side by side from left
    /// to right.
    pub open spec fn linear(self, hosts: Seq<ScreenInfo>) -> LayoutView {
        (LayoutView { screens: Map::empty(), ..self }).with_hosts(hosts).chained(
            hosts,
            if hosts.len() == 0 {
                0nat
            } else {
                (hosts.len() - 1) as nat
            },
        )
    }

    /// Whether the cursor that leaves `host_id` by `edge` arrives at the
    /// screen of `target`.
    pub open spec fn leads_to(self, host_id: Seq<char>, edge: ScreenEdge, target: Seq<char>) -> bool {
        self.neighbor(host_id, edge) matches Some(node) && node.host_id == target
    }

    /// The local host's screen.
    pub open spec fn local(self) -> Option<NodeView> {
        match self.local_host_id {
            Some(id) => if self.has(id) {
                Some(self.screens[id])
            } else {
                None
            },
            None => None,
        }
    }
}

/// A screen as it enters a layout: the host's geometry, no neighbors.
pub open spec fn fresh_node(info: ScreenInfo) -> NodeView {
    NodeView {
        host_id: info.host_id@,
        host_name: info.host_name@,
        width: info.width,
        height: info.height,
        neighbors: Map::empty(),
    }
}

/// Whether one of the nodes has the identifier.
pub open spec fn listed(nodes: Seq<ScreenNode>, host_id: Seq<char>) -> bool {
    exists|i: int| 0 <= i < nodes.len() && (#[trigger] nodes[i]).host_id@ == host_id
}

/// The place of a node with the identifier.
pub open spec fn place_of(nodes: Seq<ScreenNode>, host_id: Seq<char>) -> int {
    choose|i: int| 0 <= i < nodes.len() && (#[trigger] nodes[i]).host_id@ == host_id
}

/// No two of the nodes have the same identifier.
pub open spec fn distinct(nodes: Seq<ScreenNode>) -> bool {
    forall|i: int, j: int|
        0 <= i < j < nodes.len() ==> (#[trigger] nodes[i]).host_id@ != (#[trigger] nodes[j]).host_id@
}

/// The nodes by identifier.
pub open spec fn by_id(nodes: Seq<ScreenNode>) -> Map<Seq<char>, NodeView> {
    Map::new(|id: Seq<char>| listed(nodes, id), |id: Seq<char>| nodes[place_of(nodes, id)]@)
}

/// Among nodes with distinct identifiers each is found under its own.
pub proof fn lemma_by_id(nodes: Seq<ScreenNode>)
    requires
        distinct(nodes),
    ensures
        forall|i: int|
            0 <= i < nodes.len() ==> by_id(nodes).contains_key((#[trigger] nodes[i]).host_id@)
                && by_id(nodes)[nodes[i].host_id@] == nodes[i]@,
        forall|id: Seq<char>| #[trigger]
            by_id(nodes).contains_key(id) ==> 0 <= place_of(nodes, id) < nodes.len() && nodes[place_of(
                nodes,
                id,
            )].host_id@ == id,
{
    assert forall|i: int| 0 <= i < nodes.len() implies by_id(nodes).contains_key(
        (#[trigger] nodes[i]).host_id@,
    ) && by_id(nodes)[nodes[i].host_id@] == nodes[i]@ by {
        let id = nodes[i].host_id@;
        assert(listed(nodes, id));
        let j = place_of(nodes, id);
        assert(nodes[j].host_id@ == id);
        if i < j {
            assert(nodes[i].host_id@ != nodes[j].host_id@);
        }
        if j < i {
            assert(nodes[j].host_id@ != nodes[i].host_id@);
        }
    }
}

/// Putting a node in the place of one with the same identifier keeps the
/// identifiers distinct and files the new node under that identifier.
pub proof fn lemma_replace(nodes: Seq<ScreenNode>, i: int, node: ScreenNode)
    requires
        distinct(nodes),
        0 <= i < nodes.len(),
        nodes[i].host_id@ == node.host_id@,
    ensures
        distinct(nodes.update(i, node)),
        by_id(nodes.update(i, node)) == by_id(nodes).insert(node.host_id@, node@),
{
    let after = nodes.update(i, node);
    let id = node.host_id@;
    let goal = by_id(nodes).insert(id, node@);
    assert(distinct(after)) by {
        assert forall|a: int, b: int| 0 <= a < b < after.len() implies (#[trigger] after[a]).host_id@
            != (#[trigger] after[b]).host_id@ by {
            assert(nodes[a].host_id@ != nodes[b].host_id@);
        }
    }
    lemma_by_id(nodes);
    lemma_by_id(after);
    assert forall|key: Seq<char>| by_id(after).contains_key(key) == goal.contains_key(key) by {
        if by_id(after).contains_key(key) {
            let k = place_of(after, key);
            assert(nodes[k].host_id@ == key);
        }
        if by_id(nodes).contains_key(key) {
            let k = place_of(nodes, key);
            assert(after[k].host_id@ == key);
        }
        if key == id {
            assert(after[i].host_id@ == id);
        }
    }
    assert forall|key: Seq<char>| #[trigger] by_id(after).contains_key(key) implies by_id(after)[key]
        == goal[key] by {
        let k = place_of(after, key);
        assert(by_id(after)[after[k].host_id@] == after[k]@);
        if k != i {
            assert(by_id(nodes)[nodes[k].host_id@] == nodes[k]@);
        }
    }
    assert(by_id(after) =~= goal);
}

/// Adding a node whose identifier is new keeps the identifiers distinct
/// and files the node under its identifier.
pub proof fn lemma_push(nodes: Seq<ScreenNode>, node: ScreenNode)
    requires
        distinct(nodes),
        !listed(nodes, node.host_id@),
    ensures
        distinct(nodes.push(node)),
        by_id(nodes.push(node)) == by_id(nodes).insert(node.host_id@, node@),
{
    let after = nodes.push(node);
    let id = node.host_id@;
    let goal = by_id(nodes).insert(id, node@);
    assert(distinct(after)) by {
        assert forall|a: int, b: int| 0 <= a < b < after.len() implies (#[trigger] after[a]).host_id@
            != (#[trigger] after[b]).host_id@ by {
            if b < nodes.len() {
                assert(nodes[a].host_id@ != nodes[b].host_id@);
            } else {
                assert(nodes[a].host_id@ != id);
            }
        }
    }
    lemma_by_id(nodes);
    lemma_by_id(after);
    assert forall|key: Seq<char>| by_id(after).contains_key(key) == goal.contains_key(key) by {
        if by_id(after).contains_key(key) {
            let k = place_of(after, key);
            if k < nodes.len() {
                assert(nodes[k].host_id@ == key);
            }
        }
        if by_id(nodes).contains_key(key) {
            let k = place_of(nodes, key);
            assert(after[k].host_id@ == key);
        }
        if key == id {
            assert(after[nodes.len() as int].host_id@ == id);
        }
    }
    assert forall|key: Seq<char>| #[trigger] by_id(after).contains_key(key) implies by_id(after)[key]
        == goal[key] by {
        let k = place_of(after, key);
        assert(by_id(after)[after[k].host_id@] == after[k]@);
        if k < nodes.len() {
            assert(by_id(nodes)[nodes[k].host_id@] == nodes[k]@);
        }
    }
    assert(by_id(after) =~= goal);
}

/// Nodes with distinct identifiers are as many as their identifiers.
pub proof fn lemma_count(nodes: Seq<ScreenNode>)
    requires
        distinct(nodes),
    ensures
        by_id(nodes).dom().finite(),
        by_id(nodes).dom().len() == nodes.len(),
    decreases nodes.len(),
{
    if nodes.len() == 0 {
        assert(by_id(nodes).dom() =~= Set::empty());
    } else {
        let front = nodes.drop_last();
        let last = nodes.last();
        assert(distinct(front)) by {
            assert forall|a: int, b: int| 0 <= a < b < front.len() implies (#[trigger] front[a]).host_id@
                != (#[trigger] front[b]).host_id@ by {
                assert(nodes[a].host_id@ != nodes[b].host_id@);
            }
        }
        assert(!listed(front, last.host_id@)) by {
            if listed(front, last.host_id@) {
                let k = place_of(front, last.host_id@);
                assert(nodes[k].host_id@ != nodes[nodes.len() - 1].host_id@);
            }
        }
        lemma_count(front);
        lemma_push(front, last);
        assert(front.push(last) =~= nodes);
        assert(by_id(nodes).dom() =~= by_id(front).dom().insert(last.host_id@));
        assert(!by_id(front).dom().contains(last.host_id@));
    }
}

/// What is left of nodes with distinct identifiers when the one with a
/// given identifier, if any, is taken out.
proof fn lemma_removed(before: Seq<ScreenNode>, mid: Seq<ScreenNode>, host_id: Seq<char>)
    requires
        distinct(before),
        (!listed(before, host_id) && mid == before) || (exists|i: int|
            0 <= i < before.len() && (#[trigger] before[i]).host_id@ == host_id && mid
                == before.remove(i)),
    ensures
        distinct(mid),
        !listed(mid, host_id),
        forall|k: int|
            0 <= k < mid.len() ==> listed(before, (#[trigger] mid[k]).host_id@) && by_id(before)[mid[k].host_id@]
                == mid[k]@,
        forall|k: int|
            0 <= k < before.len() && (#[trigger] before[k]).host_id@ != host_id ==> listed(
                mid,
                before[k].host_id@,
            ),
{
    lemma_by_id(before);
    if !listed(before, host_id) && mid == before {
        assert forall|k: int| 0 <= k < before.len() && (#[trigger] before[k]).host_id@
            != host_id implies listed(mid, before[k].host_id@) by {
            assert(mid[k].host_id@ == before[k].host_id@);
        }
    } else {
        let i = choose|i: int|
            0 <= i < before.len() && (#[trigger] before[i]).host_id@ == host_id && mid
                == before.remove(i);
        assert forall|k: int| 0 <= k < mid.len() implies (#[trigger] mid[k]) == before[if k < i {
            k
        } else {
            k + 1
        }] by {}
        assert forall|a: int, b: int| 0 <= a < b < mid.len() implies (#[trigger] mid[a]).host_id@
            != (#[trigger] mid[b]).host_id@ by {
            let a0 = if a < i { a } else { a + 1 };
            let b0 = if b < i { b } else { b + 1 };
            assert(before[a0].host_id@ != before[b0].host_id@);
        }
        if listed(mid, host_id) {
            let k = place_of(mid, host_id);
            let k0 = if k < i { k } else { k + 1 };
            assert(before[k0].host_id@ == host_id);
            if k0 < i {
                assert(before[k0].host_id@ != before[i].host_id@);
            } else {
                assert(before[i].host_id@ != before[k0].host_id@);
            }
        }
        assert forall|k: int| 0 <= k < mid.len() implies listed(before, (#[trigger] mid[k]).host_id@)
            && by_id(before)[mid[k].host_id@] == mid[k]@ by {
            let k0 = if k < i { k } else { k + 1 };
            assert(before[k0] == mid[k]);
            assert(by_id(before)[before[k0].host_id@] == before[k0]@);
        }
        assert forall|k: int| 0 <= k < before.len() && (#[trigger] before[k]).host_id@
            != host_id implies listed(mid, before[k].host_id@) by {
            let k1 = if k < i { k } else { k - 1 };
            assert(mid[k1] == before[k]);
        }
    }
}

/// Manages the layout of screens across hosts.
#[derive(Debug)]
pub struct ScreenLayout {
    /// All screens in the layout, no two with the same identifier.
    screens: Vec<ScreenNode>,
    /// The local host's identifier.
    local_host_id: Option<String>,
}

impl View for ScreenLayout {
    type V = LayoutView;

    closed spec fn view(&self) -> LayoutView {
        LayoutView {
            screens: by_id(self.screens@),
            local_host_id: match self.local_host_id {
                Some(id) => Some(id@),
                None => None,
            },
        }
    }
}

impl ScreenLayout {
    /// No two screens of the layout have the same identifier.
    pub closed spec fn wf(&self) -> bool {
        distinct(self.screens@)
    }

    /// A well-formed layout files every screen under its own identifier.
    pub proof fn lemma_view_wf(&self)
        requires
            self.wf(),
        ensures
            self@.wf(),
    {
        lemma_by_id(self.screens@);
    }

    pub fn new() -> (layout: ScreenLayout)
        ensures
            layout.wf(),
            layout@ == (LayoutView { screens: Map::empty(), local_host_id: None }),
    {
        let layout = ScreenLayout { screens: Vec::new(), local_host_id: None };
        assert(layout@.screens =~= Map::empty());
        layout
    }

    /// The place of the host in the list of screens.
    fn position(&self, host_id: &str) -> (place: Option<usize>)
        ensures
            match place {
                Some(i) => i < self.screens@.len() && self.screens@[i as int].host_id@ == host_id@,
                None => !listed(self.screens@, host_id@),
            },
    {
        let mut i: usize = 0;
        while i < self.screens.len()
            invariant
                i <= self.screens@.len(),
                forall|k: int| 0 <= k < i ==> (#[trigger] self.screens@[k]).host_id@ != host_id@,
            decreases self.screens@.len() - i,
        {
            if same_text(self.screens[i].host_id.as_str(), host_id) {
                return Some(i);
            }
            i += 1;
        }
        None
    }

    /// Files a node under its identifier, in place of any that was.
    fn insert_node(&mut self, node: ScreenNode)
        requires
            old(self).wf(),
        ensures
            final(self).wf(),
            final(self)@ == old(self)@.with_host(node@),
    {
        match self.position(node.host_id.as_str()) {
            Some(i) => {
                proof {
                    lemma_replace(self.screens@, i as int, node);
                }
                self.screens[i] = node;
            },
            None => {
                proof {
                    lemma_push(self.screens@, node);
                }
                self.screens.push(node);
            },
        }
    }

    /// Set the local host.
    pub fn set_local_host(&mut self, info: &ScreenInfo)
        requires
            old(self).wf(),
        ensures
            final(self).wf(),
            final(self)@ == (LayoutView {
                local_host_id: Some(info.host_id@),
                ..old(self)@.with_host(fresh_node(*info))
            }),
    {
        self.local_host_id = Some(info.host_id.clone());
        self.insert_node(ScreenNode::new(info));
    }

    /// Add a remote host to the layout.
    pub fn add_host(&mut self, info: &ScreenInfo)
        requires
            old(self).wf(),
        ensures
            final(self).wf(),
            final(self)@ == old(self)@.with_host(fresh_node(*info)),
    {
        self.insert_node(ScreenNode::new(info));
    }

    /// Get a host by ID.
    pub fn get_host(&self, host_id: &str) -> (host: Option<&ScreenNode>)
        requires
            self.wf(),
        ensures
            match host {
                Some(node) => self@.has(host_id@) && node@ == self@.screens[host_id@],
                None => !self@.has(host_id@),
            },
    {
        proof {
            lemma_by_id(self.screens@);
        }
        match self.position(host_id) {
            Some(i) => Some(&self.screens[i]),
            None => None,
        }
    }

    /// Get mutable reference to a host. The layout stays well formed as
    /// long as the host keeps its identifier.
    pub fn get_host_mut(&mut self, host_id: &str) -> (host: Option<&mut ScreenNode>)
        requires
            old(self).wf(),
        ensures
            match host {
                Some(node) => {
                    &&& old(self)@.has(host_id@)
                    &&& node@ == old(self)@.screens[host_id@]
                    &&& final(node).host_id@ == host_id@ ==> final(self).wf() && final(self)@ == old(
                        self,
                    )@.with_host(final(node)@)
                },
                None => !old(self)@.has(host_id@) && final(self).wf() && final(self)@ == old(self)@,
            },
    {
        proof {
            lemma_by_id(self.screens@);
        }
        match self.position(host_id) {
            Some(i) => {
                let ghost before = self.screens@;
                assert forall|changed: ScreenNode| changed.host_id@ == host_id@ implies distinct(
                    #[trigger] before.update(i as int, changed),
                ) && by_id(before.update(i as int, changed)) == by_id(before).insert(
                    host_id@,
                    changed@,
                ) by {
                    lemma_replace(before, i as int, changed);
                }
                Some(&mut self.screens[i])
            },
            None => None,
        }
    }

    /// Get the local host.
    pub fn local_host(&self) -> (host: Option<&ScreenNode>)
        requires
            self.wf(),
        ensures
            match host {
                Some(node) => self@.local() == Some(node@),
                None => self@.local() is None,
            },
    {
        match &self.local_host_id {
            Some(id) => self.get_host(id.as_str()),
            None => None,
        }
    }

    /// Get the neighbor of a host at a specific edge.
    pub fn get_neighbor(&self, host_id: &str, edge: ScreenEdge) -> (neighbor: Option<&ScreenNode>)
        requires
            self.wf(),
        ensures
            match neighbor {
                Some(node) => self@.neighbor(host_id@, edge) == Some(node@),
                None => self@.neighbor(host_id@, edge) is None,
            },
    {
        match self.get_host(host_id) {
            Some(node) => match node.get_neighbor(edge) {
                Some(id) => self.get_host(id.as_str()),
                None => None,
            },
            None => None,
        }
    }

    /// Get all hosts in the layout, in no particular order.
    pub fn all_hosts(&self) -> (hosts: &Vec<ScreenNode>)
        requires
            self.wf(),
        ensures
            distinct(hosts@),
            self@.screens == by_id(hosts@),
    {
        &self.screens
    }

    /// Remove a host from the layout, and every reference to it from the
    /// other hosts.
    pub fn remove_host(&mut self, host_id: &str)
        requires
            old(self).wf(),
        ensures
            final(self).wf(),
            final(self)@ == old(self)@.without_host(host_id@),
    {
        let ghost before = self.screens@;
        proof {
            lemma_by_id(before);
        }
        match self.position(host_id) {
            Some(i) => {
                self.screens.remove(i);
            },
            None => {},
        }
        let ghost mid = self.screens@;
        assert(distinct(mid) && !listed(mid, host_id@) && (forall|k: int|
            0 <= k < mid.len() ==> listed(before, (#[trigger] mid[k]).host_id@) && by_id(
                before,
            )[mid[k].host_id@] == mid[k]@) && (forall|k: int|
            0 <= k < before.len() && (#[trigger] before[k]).host_id@ != host_id@ ==> listed(
                mid,
                before[k].host_id@,
            ))) by {
            lemma_removed(before, mid, host_id@);
        }

        // Remove references from other hosts
        let mut k: usize = 0;
        while k < self.screens.len()
            invariant
                k <= self.screens@.len(),
                self.screens@.len() == mid.len(),
                self.local_host_id == old(self).local_host_id,
                forall|n: int| 0 <= n < k ==> (#[trigger] self.screens@[n])@ == mid[n]@.forgetting(host_id@),
                forall|n: int| k <= n < mid.len() ==> (#[trigger] self.screens@[n]) == mid[n],
            decreases self.screens@.len() - k,
        {
            self.screens[k].forget_host(host_id);
            k += 1;
        }
        let ghost after = self.screens@;
        proof {
            assert forall|a: int, b: int| 0 <= a < b < after.len() implies (#[trigger] after[a]).host_id@
                != (#[trigger] after[b]).host_id@ by {
                assert(after[a]@.host_id == mid[a]@.host_id);
                assert(after[b]@.host_id == mid[b]@.host_id);
                assert(mid[a].host_id@ != mid[b].host_id@);
            }
            lemma_by_id(after);
            lemma_by_id(mid);
            let goal = old(self)@.without_host(host_id@).screens;
            assert forall|key: Seq<char>| by_id(after).contains_key(key) == goal.contains_key(key) by {
                if by_id(after).contains_key(key) {
                    let n = place_of(after, key);
                    assert(after[n]@.host_id == mid[n]@.host_id);
                    assert(listed(before, mid[n].host_id@));
                    assert(mid[n].host_id@ != host_id@);
                }
                if goal.contains_key(key) {
                    let n = place_of(before, key);
                    assert(listed(mid, before[n].host_id@));
                    let m = place_of(mid, key);
                    assert(after[m]@.host_id == mid[m]@.host_id);
                }
            }
            assert forall|key: Seq<char>| #[trigger] by_id(after).contains_key(key) implies by_id(
                after,
            )[key] == goal[key] by {
                let n = place_of(after, key);
                assert(by_id(after)[after[n].host_id@] == after[n]@);
                assert(after[n]@ == mid[n]@.forgetting(host_id@));
                assert(by_id(before)[mid[n].host_id@] == mid[n]@);
            }
            assert(by_id(after) =~= goal);
        }
    }

    /// Connect two hosts at specified edges. Returns whether both hosts
    /// are in the layout; nothing changes unless they are.
    pub fn connect_hosts(
        &mut self,
        host_a: &str,
        edge_a: ScreenEdge,
        host_b: &str,
        edge_b: ScreenEdge,
    ) -> (connected: bool)
        requires
            old(self).wf(),
        ensures
            final(self).wf(),
            connected == (old(self)@.has(host_a@) && old(self)@.has(host_b@)),
            final(self)@ == old(self)@.connected(host_a@, edge_a, host_b@, edge_b),
    {
        proof {
            lemma_by_id(self.screens@);
        }
        // Verify both hosts exist
        let place_a = self.position(host_a);
        let place_b = self.position(host_b);
        match (place_a, place_b) {
            (Some(a), Some(b)) => {
                // Set up bidirectional connection
                self.link(a, edge_a, host_b);
                proof {
                    lemma_by_id(self.screens@);
                }
                self.link(b, edge_b, host_a);
                true
            },
            _ => false,
        }
    }

    /// Names `target` as the host beyond `edge` of the screen at `place`.
    fn link(&mut self, place: usize, edge: ScreenEdge, target: &str)
        requires
            old(self).wf(),
            place < old(self).screens@.len(),
        ensures
            final(self).wf(),
            final(self).screens@.len() == old(self).screens@.len(),
            forall|k: int|
                0 <= k < old(self).screens@.len() ==> (#[trigger] final(self).screens@[k]).host_id@
                    == old(self).screens@[k].host_id@,
            final(self)@ == old(self)@.linked(old(self).screens@[place as int].host_id@, edge, target@),
    {
        let ghost before = self.screens@;
        proof {
            lemma_by_id(before);
        }
        self.screens[place].set_neighbor(edge, target.to_owned());
        proof {
            lemma_replace(before, place as int, self.screens@[place as int]);
            assert(self.screens@ =~= before.update(place as int, self.screens@[place as int]));
        }
    }

    /// Clears `edge` of the screen at `place`.
    fn drop_link(&mut self, place: usize, edge: ScreenEdge)
        requires
            old(self).wf(),
            place < old(self).screens@.len(),
        ensures
            final(self).wf(),
            final(self)@ == old(self)@.unlinked(old(self).screens@[place as int].host_id@, edge),
    {
        let ghost before = self.screens@;
        proof {
            lemma_by_id(before);
        }
        self.screens[place].remove_neighbor(edge);
        proof {
            lemma_replace(before, place as int, self.screens@[place as int]);
            assert(self.screens@ =~= before.update(place as int, self.screens@[place as int]));
        }
    }

    /// Clears `edge` of a host, and the entry by which the host beyond it
    /// names the host back.
    fn detach(&mut self, host_id: &str, edge: ScreenEdge)
        requires
            old(self).wf(),
        ensures
            final(self).wf(),
            final(self)@ == old(self)@.detached(host_id@, edge),
    {
        proof {
            lemma_by_id(self.screens@);
        }
        let place = match self.position(host_id) {
            Some(place) => place,
            None => {
                return ;
            },
        };
        let target: String = match self.screens[place].get_neighbor(edge) {
            Some(id) => id.clone(),
            None => {
                return ;
            },
        };
        self.drop_link(place, edge);
        proof {
            lemma_by_id(self.screens@);
        }
        let back = opposite_edge(edge);
        match self.position(target.as_str()) {
            Some(other) => {
                let names_back = match self.screens[other].get_neighbor(back) {
                    Some(id) => same_text(id.as_str(), host_id),
                    None => false,
                };
                if names_back {
                    self.drop_link(other, back);
                }
            },
            None => {},
        }
    }

    /// Joins two hosts: `host_b` lies beyond `edge` of `host_a`, and
    /// `host_a` beyond the opposite edge of `host_b`, in place of whatever
    /// lay beyond those two edges. Returns whether both hosts are in the
    /// layout; nothing changes unless they are.
    fn join(&mut self, host_a: &str, edge: ScreenEdge, host_b: &str) -> (joined: bool)
        requires
            old(self).wf(),
        ensures
            final(self).wf(),
            joined == (old(self)@.has(host_a@) && old(self)@.has(host_b@)),
            final(self)@ == old(self)@.joined(host_a@, edge, host_b@),
    {
        proof {
            lemma_by_id(self.screens@);
            self.lemma_view_wf();
        }
        if self.position(host_a).is_none() || self.position(host_b).is_none() {
            return false;
        }
        let back = opposite_edge(edge);
        let ghost start = self@;
        self.detach(host_a, edge);
        proof {
            self.lemma_view_wf();
            lemma_detached_keeps_hosts(start, host_a@, edge);
        }
        let ghost one = self@;
        self.detach(host_b, back);
        proof {
            self.lemma_view_wf();
            lemma_detached_keeps_hosts(one, host_b@, back);
            lemma_by_id(self.screens@);
        }
        match self.position(host_a) {
            Some(a) => {
                self.link(a, edge, host_b);
            },
            None => {},
        }
        proof {
            lemma_by_id(self.screens@);
        }
        match self.position(host_b) {
            Some(b) => {
                self.link(b, back, host_a);
            },
            None => {},
        }
        true
    }

    /// Drops the neighbor entries of the screen at `place` that point to
    /// `target`.
    fn unlink(&mut self, place: usize, target: &str)
        requires
            old(self).wf(),
            place < old(self).screens@.len(),
        ensures
            final(self).wf(),
            final(self)@ == old(self)@.forgotten(old(self).screens@[place as int].host_id@, target@),
    {
        let ghost before = self.screens@;
        proof {
            lemma_by_id(before);
        }
        self.screens[place].forget_host(target);
        proof {
            lemma_replace(before, place as int, self.screens@[place as int]);
            assert(self.screens@ =~= before.update(place as int, self.screens@[place as int]));
        }
    }

    /// Disconnect two hosts: neither names the other as a neighbor
    /// afterwards.
    pub fn disconnect_hosts(&mut self, host_a: &str, host_b: &str)
        requires
            old(self).wf(),
        ensures
            final(self).wf(),
            final(self)@ == old(self)@.disconnected(host_a@, host_b@),
    {
        proof {
            lemma_by_id(self.screens@);
        }
        match self.position(host_a) {
            Some(a) => {
                self.unlink(a, host_b);
            },
            None => {},
        }
        proof {
            lemma_by_id(self.screens@);
        }
        match self.position(host_b) {
            Some(b) => {
                self.unlink(b, host_a);
            },
            None => {},
        }
    }

    /// Get the number of hosts.
    pub fn host_count(&self) -> (count: usize)
        requires
            self.wf(),
        ensures
            self@.screens.dom().finite(),
            count == self@.screens.dom().len(),
    {
        proof {
            lemma_count(self.screens@);
        }
        self.screens.len()
    }

    /// Create a simple left-right layout: the hosts side by side in the
    /// order given, in place of whatever screens the layout held.
    pub fn create_linear_layout(&mut self, hosts: &[ScreenInfo])
        requires
            old(self).wf(),
        ensures
            final(self).wf(),
            final(self)@ == old(self)@.linear(hosts@),
    {
        // Clear existing
        self.screens.clear();
        assert(self@.screens =~= Map::empty());
        let ghost cleared = self@;

        // Add all hosts
        let mut added: usize = 0;
        while added < hosts.len()
            invariant
                added <= hosts@.len(),
                self.wf(),
                self@ == cleared.with_hosts(hosts@.take(added as int)),
            decreases hosts@.len() - added,
        {
            self.add_host(&hosts[added]);
            proof {
                let next = hosts@.take(added + 1);
                assert(next.drop_last() =~= hosts@.take(added as int));
                assert(next.last() == hosts@[added as int]);
            }
            added += 1;
        }
        assert(hosts@.take(added as int) =~= hosts@);
        let ghost filled = self@;

        // Connect in sequence
        let links: usize = if hosts.len() == 0 {
            0
        } else {
            hosts.len() - 1
        };
        let mut i: usize = 0;
        while i < links
            invariant
                i <= links,
                links < hosts@.len() || links == 0,
                self.wf(),
                self@ == filled.chained(hosts@, i as nat),
            decreases links - i,
        {
            self.connect_hosts(
                hosts[i].host_id.as_str(),
                ScreenEdge::Right,
                hosts[i + 1].host_id.as_str(),
                ScreenEdge::Left,
            );
            i += 1;
        }
    }
}

/// Builder for creating screen layouts.
pub struct LayoutBuilder {
    layout: ScreenLayout,
}

impl View for LayoutBuilder {
    type V = LayoutView;

    closed spec fn view(&self) -> LayoutView {
        self.layout@
    }
}

impl LayoutBuilder {
    /// The layout under construction is well formed, and every link in it
    /// is two-way.
    pub closed spec fn wf(&self) -> bool {
        self.layout.wf() && self.layout@.two_way()
    }

    /// In a well-formed builder every link is two-way: a host that names
    /// another beyond an edge is named by it beyond the opposite edge.
    pub proof fn lemma_two_way(&self)
        requires
            self.wf(),
        ensures
            self@.wf(),
            self@.two_way(),
    {
        self.layout.lemma_view_wf();
    }

    pub fn new() -> (builder: LayoutBuilder)
        ensures
            builder.wf(),
            builder@.two_way(),
            builder@ == (LayoutView { screens: Map::empty(), local_host_id: None }),
    {
        LayoutBuilder { layout: ScreenLayout::new() }
    }

    /// Put the local host into the layout, without neighbors, in place of
    /// any host of its identifier; what pointed to that host points to it
    /// no more.
    pub fn local_host(self, info: &ScreenInfo) -> (builder: LayoutBuilder)
        requires
            self.wf(),
        ensures
            builder.wf(),
            builder@.two_way(),
            builder@ == (LayoutView {
                local_host_id: Some(info.host_id@),
                ..self@.with_host_anew(fresh_node(*info))
            }),
    {
        let mut builder = self;
        proof {
            builder.layout.lemma_view_wf();
            lemma_with_host_anew(builder@, fresh_node(*info));
        }
        builder.layout.remove_host(info.host_id.as_str());
        builder.layout.set_local_host(info);
        assert(builder@.screens == self@.with_host_anew(fresh_node(*info)).screens);
        assert(builder@.two_way()) by {
            let built = builder@;
            let other = self@.with_host_anew(fresh_node(*info));
            assert forall|x: Seq<char>, e: ScreenEdge, y: Seq<char>| #[trigger]
                built.names(x, e, y) implies built.names(y, spec_opposite_edge(e), x) by {
                assert(other.names(x, e, y));
                assert(other.names(y, spec_opposite_edge(e), x));
            }
        }
        builder
    }

    /// Put a host into the layout, without neighbors, in place of any
    /// host of its identifier; what pointed to that host points to it no
    /// more.
    pub fn add_host(self, info: &ScreenInfo) -> (builder: LayoutBuilder)
        requires
            self.wf(),
        ensures
            builder.wf(),
            builder@.two_way(),
            builder@ == self@.with_host_anew(fresh_node(*info)),
    {
        let mut builder = self;
        proof {
            builder.layout.lemma_view_wf();
            lemma_with_host_anew(builder@, fresh_node(*info));
        }
        builder.layout.remove_host(info.host_id.as_str());
        builder.layout.add_host(info);
        builder
    }

    /// Connect two hosts at edges that are opposite to each other:
    /// `host_b` lies beyond `edge_a` of `host_a`, and `host_a` beyond
    /// `edge_b` of `host_b`, in place of whatever lay beyond those two
    /// edges. Nothing changes where a host is missing or the edges are
    /// not opposite, for such a link could not be two-way.
    pub fn connect(
        self,
        host_a: &str,
        edge_a: ScreenEdge,
        host_b: &str,
        edge_b: ScreenEdge,
    ) -> (builder: LayoutBuilder)
        requires
            self.wf(),
        ensures
            builder.wf(),
            builder@.two_way(),
            builder@ == (if edge_b == spec_opposite_edge(edge_a) {
                self@.joined(host_a@, edge_a, host_b@)
            } else {
                self@
            }),
            self@.has(host_a@) && self@.has(host_b@) && edge_b == spec_opposite_edge(edge_a)
                ==> builder@.leads_to(host_a@, edge_a, host_b@) && builder@.leads_to(
                host_b@,
                edge_b,
                host_a@,
            ),
    {
        let mut builder = self;
        proof {
            builder.layout.lemma_view_wf();
            lemma_joined(builder@, host_a@, edge_a, host_b@);
        }
        if edge_b == opposite_edge(edge_a) {
            builder.layout.join(host_a, edge_a, host_b);
        }
        builder
    }

    /// Connect `host_b` to the left of `host_a`.
    pub fn left_of(self, host_a: &str, host_b: &str) -> (builder: LayoutBuilder)
        requires
            self.wf(),
        ensures
            builder.wf(),
            builder@.two_way(),
            builder@ == self@.joined(host_a@, ScreenEdge::Left, host_b@),
            self@.has(host_a@) && self@.has(host_b@) ==> builder@.leads_to(
                host_a@,
                ScreenEdge::Left,
                host_b@,
            ) && builder@.leads_to(host_b@, ScreenEdge::Right, host_a@),
    {
        self.connect(host_a, ScreenEdge::Left, host_b, ScreenEdge::Right)
    }

    /// Connect `host_b` to the right of `host_a`.
    pub fn right_of(self, host_a: &str, host_b: &str) -> (builder: LayoutBuilder)
        requires
            self.wf(),
        ensures
            builder.wf(),
            builder@.two_way(),
            builder@ == self@.joined(host_a@, ScreenEdge::Right, host_b@),
            self@.has(host_a@) && self@.has(host_b@) ==> builder@.leads_to(
                host_a@,
                ScreenEdge::Right,
                host_b@,
            ) && builder@.leads_to(host_b@, ScreenEdge::Left, host_a@),
    {
        self.connect(host_a, ScreenEdge::Right, host_b, ScreenEdge::Left)
    }

    /// Connect `host_b` above `host_a`.
    pub fn above(self, host_a: &str, host_b: &str) -> (builder: LayoutBuilder)
        requires
            self.wf(),
        ensures
            builder.wf(),
            builder@.two_way(),
            builder@ == self@.joined(host_a@, ScreenEdge::Top, host_b@),
            self@.has(host_a@) && self@.has(host_b@) ==> builder@.leads_to(
                host_a@,
                ScreenEdge::Top,
                host_b@,
            ) && builder@.leads_to(host_b@, ScreenEdge::Bottom, host_a@),
    {
        self.connect(host_a, ScreenEdge::Top, host_b, ScreenEdge::Bottom)
    }

    /// Connect `host_b` below `host_a`.
    pub fn below(self, host_a: &str, host_b: &str) -> (builder: LayoutBuilder)
        requires
            self.wf(),
        ensures
            builder.wf(),
            builder@.two_way(),
            builder@ == self@.joined(host_a@, ScreenEdge::Bottom, host_b@),
            self@.has(host_a@) && self@.has(host_b@) ==> builder@.leads_to(
                host_a@,
                ScreenEdge::Bottom,
                host_b@,
            ) && builder@.leads_to(host_b@, ScreenEdge::Top, host_a@),
    {
        self.connect(host_a, ScreenEdge::Bottom, host_b, ScreenEdge::Top)
    }

    /// The layout that was built: every link in it is two-way.
    pub fn build(self) -> (layout: ScreenLayout)
        requires
            self.wf(),
        ensures
            layout.wf(),
            layout@ == self@,
            layout@.two_way(),
    {
        self.layout
    }
}

impl Default for LayoutBuilder {
    fn default() -> (builder: LayoutBuilder)
        ensures
            builder.wf(),
            builder@.two_way(),
            builder@ == (LayoutView { screens: Map::empty(), local_host_id: None }),
    {
        LayoutBuilder::new()
    }
}

/// Once two hosts of a layout are connected, the first host's edge leads
/// to the second host and the second host's edge leads back to the first.
pub proof fn lemma_connected_neighbors(
    layout: LayoutView,
    host_a: Seq<char>,
    edge_a: ScreenEdge,
    host_b: Seq<char>,
    edge_b: ScreenEdge,
)
    requires
        layout.wf(),
        layout.has(host_a),
        layout.has(host_b),
    ensures
        layout.connected(host_a, edge_a, host_b, edge_b).wf(),
        layout.connected(host_a, edge_a, host_b, edge_b).leads_to(host_a, edge_a, host_b),
        layout.connected(host_a, edge_a, host_b, edge_b).leads_to(host_b, edge_b, host_a),
{
    let half = layout.linked(host_a, edge_a, host_b);
    assert(half.has(host_b));
    let whole = half.linked(host_b, edge_b, host_a);
    assert(whole.screens[host_a].neighbors[edge_a] == host_b);
    assert(whole.screens[host_b].neighbors[edge_b] == host_a);
}

/// Clearing one edge of a host keeps the hosts of a layout, and names
/// nothing that was not named before.
pub proof fn lemma_unlinked(layout: LayoutView, host_id: Seq<char>, edge: ScreenEdge)
    requires
        layout.wf(),
    ensures
        layout.unlinked(host_id, edge).wf(),
        layout.unlinked(host_id, edge).local_host_id == layout.local_host_id,
        forall|id: Seq<char>| layout.unlinked(host_id, edge).has(id) == layout.has(id),
        forall|x: Seq<char>, e: ScreenEdge, y: Seq<char>|
            layout.unlinked(host_id, edge).names(x, e, y) == (layout.names(x, e, y) && !(x
                == host_id && e == edge)),
{
    let after = layout.unlinked(host_id, edge);
    assert forall|x: Seq<char>, e: ScreenEdge, y: Seq<char>| after.names(x, e, y) == (layout.names(
        x,
        e,
        y,
    ) && !(x == host_id && e == edge)) by {
        if layout.has(host_id) && x == host_id {
            assert(after.screens[x].neighbors =~= layout.screens[x].neighbors.remove(edge));
        }
    }
}

/// Detaching an edge of a host keeps a layout with two-way links as it
/// is but for the link beyond that edge, both ways of which are gone.
pub proof fn lemma_detached(layout: LayoutView, host_id: Seq<char>, edge: ScreenEdge)
    requires
        layout.wf(),
        layout.two_way(),
    ensures
        layout.detached(host_id, edge).wf(),
        layout.detached(host_id, edge).two_way(),
        layout.detached(host_id, edge).local_host_id == layout.local_host_id,
        forall|id: Seq<char>| layout.detached(host_id, edge).has(id) == layout.has(id),
        forall|x: Seq<char>, e: ScreenEdge, y: Seq<char>|
            layout.detached(host_id, edge).names(x, e, y) ==> layout.names(x, e, y),
        forall|y: Seq<char>| !layout.detached(host_id, edge).names(host_id, edge, y),
{
    let after = layout.detached(host_id, edge);
    let back = spec_opposite_edge(edge);
    lemma_unlinked(layout, host_id, edge);
    if layout.has(host_id) && layout.screens[host_id].neighbors.contains_key(edge) {
        let target = layout.screens[host_id].neighbors[edge];
        let cleared = layout.unlinked(host_id, edge);
        lemma_unlinked(cleared, target, back);
        assert(layout.names(host_id, edge, target));
        assert(layout.names(target, back, host_id));
        assert forall|x: Seq<char>, e: ScreenEdge, y: Seq<char>| #[trigger]
            after.names(x, e, y) implies after.names(y, spec_opposite_edge(e), x) by {
            assert(layout.names(x, e, y));
            assert(layout.names(y, spec_opposite_edge(e), x));
            lemma_opposite(e);
            if y == host_id && spec_opposite_edge(e) == edge {
                // then (x, e) is the back link, which is gone
                assert(x == target && e == back);
            }
            if y == target && spec_opposite_edge(e) == back {
                assert(e == edge);
                assert(x == host_id);
            }
        }
    } else {
        assert forall|y: Seq<char>| !after.names(host_id, edge, y) by {}
    }
}

/// Detaching an edge of a host keeps the hosts of a layout.
pub proof fn lemma_detached_keeps_hosts(layout: LayoutView, host_id: Seq<char>, edge: ScreenEdge)
    requires
        layout.wf(),
    ensures
        layout.detached(host_id, edge).wf(),
        forall|id: Seq<char>| layout.detached(host_id, edge).has(id) == layout.has(id),
{
    lemma_unlinked(layout, host_id, edge);
    if layout.has(host_id) && layout.screens[host_id].neighbors.contains_key(edge) {
        lemma_unlinked(
            layout.unlinked(host_id, edge),
            layout.screens[host_id].neighbors[edge],
            spec_opposite_edge(edge),
        );
    }
}

/// Opposite edges are each other's opposite.
pub proof fn lemma_opposite(edge: ScreenEdge)
    ensures
        spec_opposite_edge(spec_opposite_edge(edge)) == edge,
        spec_opposite_edge(edge) != edge,
{
}

/// Naming a target beyond an edge of a host names nothing else anew.
pub proof fn lemma_linked(layout: LayoutView, host_id: Seq<char>, edge: ScreenEdge, target: Seq<char>)
    requires
        layout.wf(),
    ensures
        layout.linked(host_id, edge, target).wf(),
        layout.linked(host_id, edge, target).local_host_id == layout.local_host_id,
        forall|id: Seq<char>| layout.linked(host_id, edge, target).has(id) == layout.has(id),
        forall|x: Seq<char>, e: ScreenEdge, y: Seq<char>|
            layout.linked(host_id, edge, target).names(x, e, y) == (if layout.has(host_id) && x
                == host_id && e == edge {
                y == target
            } else {
                layout.names(x, e, y)
            }),
{
}

/// Joining two hosts of a layout with two-way links leaves every link
/// two-way: the first host's edge leads to the second, the second host's
/// opposite edge leads back, and the hosts that lay beyond those two
/// edges no longer name them.
pub proof fn lemma_joined(layout: LayoutView, host_a: Seq<char>, edge: ScreenEdge, host_b: Seq<char>)
    requires
        layout.wf(),
        layout.two_way(),
    ensures
        layout.joined(host_a, edge, host_b).wf(),
        layout.joined(host_a, edge, host_b).two_way(),
        layout.joined(host_a, edge, host_b).local_host_id == layout.local_host_id,
        forall|id: Seq<char>| layout.joined(host_a, edge, host_b).has(id) == layout.has(id),
        layout.has(host_a) && layout.has(host_b) ==> layout.joined(host_a, edge, host_b).leads_to(
            host_a,
            edge,
            host_b,
        ) && layout.joined(host_a, edge, host_b).leads_to(host_b, spec_opposite_edge(edge), host_a),
{
    let back = spec_opposite_edge(edge);
    lemma_opposite(edge);
    if layout.has(host_a) && layout.has(host_b) {
        let one = layout.detached(host_a, edge);
        lemma_detached(layout, host_a, edge);
        let two = one.detached(host_b, back);
        lemma_detached(one, host_b, back);
        let three = two.linked(host_a, edge, host_b);
        lemma_linked(two, host_a, edge, host_b);
        let four = three.linked(host_b, back, host_a);
        lemma_linked(three, host_b, back, host_a);
        assert forall|y: Seq<char>| !two.names(host_a, edge, y) by {
            if two.names(host_a, edge, y) {
                assert(one.names(host_a, edge, y));
            }
        }
        assert(four.names(host_a, edge, host_b));
        assert(four.names(host_b, back, host_a));
        assert forall|x: Seq<char>, e: ScreenEdge, y: Seq<char>| #[trigger]
            four.names(x, e, y) implies four.names(y, spec_opposite_edge(e), x) by {
            lemma_opposite(e);
            if x == host_b && e == back {
                assert(y == host_a);
            } else if x == host_a && e == edge {
                assert(y == host_b);
            } else {
                assert(three.names(x, e, y));
                assert(two.names(x, e, y));
                assert(two.names(y, spec_opposite_edge(e), x));
            }
        }
    }
}

/// Putting a host without neighbors into a layout with two-way links, in
/// place of any host of its identifier and with every neighbor entry
/// that pointed to that host dropped, leaves every link two-way.
pub proof fn lemma_with_host_anew(layout: LayoutView, node: NodeView)
    requires
        layout.wf(),
        layout.two_way(),
        node.neighbors == Map::<ScreenEdge, Seq<char>>::empty(),
    ensures
        layout.with_host_anew(node).wf(),
        layout.with_host_anew(node).two_way(),
        layout.with_host_anew(node).has(node.host_id),
        layout.with_host_anew(node).screens[node.host_id] == node,
        forall|id: Seq<char>|
            layout.with_host_anew(node).has(id) == (id == node.host_id || layout.has(id)),
{
    let without = layout.without_host(node.host_id);
    let after = layout.with_host_anew(node);
    assert forall|x: Seq<char>, e: ScreenEdge, y: Seq<char>| #[trigger]
        without.names(x, e, y) implies layout.names(x, e, y) && x != node.host_id && y
        != node.host_id by {}
    assert forall|x: Seq<char>, e: ScreenEdge, y: Seq<char>| #[trigger]
        after.names(x, e, y) implies after.names(y, spec_opposite_edge(e), x) by {
        assert(x != node.host_id);
        assert(without.names(x, e, y));
        assert(layout.names(x, e, y));
        assert(layout.names(y, spec_opposite_edge(e), x));
        assert(without.names(y, spec_opposite_edge(e), x));
    }
}

} // verus!
