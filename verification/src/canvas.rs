//! The architecture canvas: a graph of nodes and edges, and a layout that
//! places nodes at points.
use vstd::prelude::*;

use crate::sort::{sort_strs, sorted_strs, strs_view};
use crate::text::{chars_of, string_of};

verus! {

/// A node's identifier.
#[derive(Debug, Clone, PartialEq, Eq, Hash)]
pub struct NodeId(pub String);

impl NodeId {
    /// The identifier's text.
    pub fn as_str(&self) -> (s: &str)
        ensures
            s@ == self.0@,
    {
        self.0.as_str()
    }
}

/// A copy of an identifier.
pub fn node_id_copy(id: &NodeId) -> (r: NodeId)
    ensures
        r == *id,
{
    NodeId(id.0.clone())
}

/// The C4 level of a node.
#[derive(Debug, Clone, Copy, PartialEq, Eq, Structural)]
pub enum NodeKind {
    System,
    Container,
    Component,
}

/// A node of the graph.
#[derive(Debug, Clone, PartialEq)]
pub struct Node {
    pub id: NodeId,
    pub kind: NodeKind,
    pub name: String,
    pub bind: Option<String>,
    pub contract: Vec<String>,
    pub tech: Option<String>,
    pub desc: Option<String>,
}

/// How one node relates to another.
#[derive(Debug, Clone, Copy, PartialEq, Eq, Structural)]
pub enum EdgeKind {
    Depends,
    Calls,
    Contains,
}

/// A directed edge between two nodes.
#[derive(Debug, Clone, PartialEq)]
pub struct Edge {
    pub from: NodeId,
    pub to: NodeId,
    pub kind: EdgeKind,
}

/// The semantic graph.
#[derive(Debug, Clone, PartialEq)]
pub struct Graph {
    pub version: u32,
    pub nodes: Vec<Node>,
    pub edges: Vec<Edge>,
}

/// A point in graph coordinates.
#[derive(Debug, Clone, Copy, PartialEq, Eq, Structural)]
pub struct Point {
    pub x: i32,
    pub y: i32,
}

/// The presentation overlay: where nodes sit, and the theme's name.
#[derive(Debug, Clone, PartialEq)]
pub struct Layout {
    pub version: u32,
    pub positions: Vec<(NodeId, Point)>,
    pub theme: String,
}

/// The placement that `positions` describes: for an id listed more than
/// once, its last entry counts.
pub open spec fn placement(positions: Seq<(NodeId, Point)>) -> Map<Seq<char>, Point>
    decreases positions.len(),
{
    if positions.len() == 0 {
        Map::empty()
    } else {
        placement(positions.drop_last()).insert(positions.last().0.0@, positions.last().1)
    }
}

/// The ids of a list of nodes, in order.
pub open spec fn node_ids(nodes: Seq<Node>) -> Seq<Seq<char>> {
    nodes.map_values(|n: Node| n.id.0@)
}

impl Graph {
    /// A graph with no nodes and no edges.
    pub fn empty() -> (g: Graph)
        ensures
            g.version == 0,
            g.nodes@.len() == 0,
            g.edges@.len() == 0,
    {
        Graph { version: 0, nodes: Vec::new(), edges: Vec::new() }
    }
}

impl Layout {
    /// A layout that places nothing.
    pub fn empty() -> (l: Layout)
        ensures
            l.version == 0,
            l.positions@.len() == 0,
            l.theme@.len() == 0,
    {
        Layout { version: 0, positions: Vec::new(), theme: String::new() }
    }
}

/// Width of a node card, in cells.
pub const NODE_W: i32 = 20;
/// Height of a node card, in cells.
pub const NODE_H: i32 = 4;
/// Horizontal distance between auto-placed nodes.
pub const COL_STEP: i32 = 24;
/// Vertical distance between auto-placed rows.
pub const ROW_STEP: i32 = 6;
/// Auto-placed nodes per row.
pub const COLS_PER_ROW: usize = 4;

/// Where the `i`-th node (in id order) goes when the layout does not place
/// it: a row-major grid, four to a row (the row offset saturating at `i32::MAX`).
pub open spec fn grid_point(i: nat) -> Point {
    Point {
        x: ((i % 4) * 24) as i32,
        y: if i / 4 <= 357913941 {
            ((i / 4) * 6) as i32
        } else {
            i32::MAX
        },
    }
}

/// `base`, with the first `n` of `ids` that it does not place added at
/// their grid points.
pub open spec fn fill_missing(ids: Seq<Seq<char>>, base: Map<Seq<char>, Point>, n: nat) -> Map<
    Seq<char>,
    Point,
>
    decreases n,
{
    if n == 0 {
        base
    } else {
        let m = fill_missing(ids, base, (n - 1) as nat);
        if m.dom().contains(ids[n - 1]) {
            m
        } else {
            m.insert(ids[n - 1], grid_point((n - 1) as nat))
        }
    }
}

/// Every node placed: the layout's own positions, and the nodes it misses
/// on the grid in the order of their ids.
pub open spec fn resolved_placement(g: Graph, l: Layout) -> Map<Seq<char>, Point> {
    let ids = sorted_strs(node_ids(g.nodes@));
    fill_missing(ids, placement(l.positions@), ids.len())
}

/// The grid point of index `i`.
fn grid_point_of(i: usize) -> (p: Point)
    ensures
        p == grid_point(i as nat),
{
    let col = i % COLS_PER_ROW;
    let row = i / COLS_PER_ROW;
    let x = (col as i32) * COL_STEP;
    let y = if row <= 357913941 {
        (row as i32) * ROW_STEP
    } else {
        i32::MAX
    };
    Point { x, y }
}

/// The last index of `positions` whose id is `id`, if any.
pub fn find_position(positions: &Vec<(NodeId, Point)>, id: &Vec<char>) -> (r: Option<usize>)
    ensures
        match r {
            Some(j) => j < positions@.len() && positions@[j as int].0.0@ == id@ && forall|k: int|
                j < k < positions@.len() ==> (#[trigger] positions@[k]).0.0@ != id@,
            None => forall|k: int| 0 <= k < positions@.len() ==> (#[trigger] positions@[k]).0.0@ != id@,
        },
{
    let mut i = positions.len();
    while i > 0
        invariant
            i <= positions@.len(),
            forall|k: int| i <= k < positions@.len() ==> (#[trigger] positions@[k]).0.0@ != id@,
        decreases i,
    {
        let key = chars_of(positions[i - 1].0.0.as_str());
        if crate::text::chars_eq(&key, id) {
            return Some(i - 1);
        }
        i = i - 1;
    }
    None
}

/// What `find_position` finds is what `placement` says.
pub proof fn lemma_placement_lookup(positions: Seq<(NodeId, Point)>, id: Seq<char>)
    ensures
        (forall|k: int| 0 <= k < positions.len() ==> (#[trigger] positions[k]).0.0@ != id) ==> !placement(positions).dom().contains(id),
        forall|j: int|
            0 <= j < positions.len() && positions[j].0.0@ == id && (forall|k: int|
                j < k < positions.len() ==> (#[trigger] positions[k]).0.0@ != id) ==> placement(positions).dom().contains(id)
                && placement(positions)[id] == positions[j].1,
    decreases positions.len(),
{
    if positions.len() > 0 {
        let p = positions.drop_last();
        lemma_placement_lookup(p, id);
        assert forall|k: int| 0 <= k < p.len() implies #[trigger] p[k] == positions[k] by {}
        assert forall|j: int|
            0 <= j < positions.len() && positions[j].0.0@ == id && (forall|k: int|
                j < k < positions.len() ==> (#[trigger] positions[k]).0.0@ != id) implies placement(positions).dom().contains(id)
                && placement(positions)[id] == positions[j].1 by {
            if j < positions.len() - 1 {
                assert(positions[positions.len() - 1].0.0@ != id);
                assert(p[j] == positions[j]);
                assert forall|k: int| j < k < p.len() implies (#[trigger] p[k]).0.0@ != id by {
                    assert(p[k] == positions[k]);
                }
            }
        }
        if forall|k: int| 0 <= k < positions.len() ==> (#[trigger] positions[k]).0.0@ != id {
            assert(positions[positions.len() - 1].0.0@ != id);
            assert forall|k: int| 0 <= k < p.len() implies (#[trigger] p[k]).0.0@ != id by {
                assert(p[k] == positions[k]);
            }
        }
    }
}

/// Resolve every node to a graph-coordinate point: the layout's positions,
/// and for nodes it misses, a row-major grid in the order of their ids.
pub fn resolved_positions(g: &Graph, l: &Layout) -> (out: Vec<(NodeId, Point)>)
    ensures
        placement(out@) == resolved_placement(*g, *l),
{
    let mut ids: Vec<Vec<char>> = Vec::new();
    let mut i: usize = 0;
    while i < g.nodes.len()
        invariant
            i <= g.nodes.len(),
            strs_view(ids@) == node_ids(g.nodes@).take(i as int),
        decreases g.nodes.len() - i,
    {
        ids.push(chars_of(g.nodes[i].id.0.as_str()));
        assert(node_ids(g.nodes@).take(i + 1) =~= node_ids(g.nodes@).take(i as int).push(g.nodes@[i as int].id.0@));
        assert(strs_view(ids@) =~= node_ids(g.nodes@).take(i + 1));
        i = i + 1;
    }
    assert(node_ids(g.nodes@).take(g.nodes.len() as int) =~= node_ids(g.nodes@));
    let sorted = sort_strs(ids);
    let ghost sids = sorted_strs(node_ids(g.nodes@));
    let mut out: Vec<(NodeId, Point)> = Vec::new();
    let mut k: usize = 0;
    while k < l.positions.len()
        invariant
            k <= l.positions.len(),
            out@ == l.positions@.take(k as int),
        decreases l.positions.len() - k,
    {
        let entry = (crate::canvas::node_id_copy(&l.positions[k].0), l.positions[k].1);
        out.push(entry);
        assert(out@ =~= l.positions@.take(k + 1));
        k = k + 1;
    }
    assert(l.positions@.take(l.positions.len() as int) =~= l.positions@);
    let mut n: usize = 0;
    while n < sorted.len()
        invariant
            n <= sorted.len(),
            strs_view(sorted@) == sids,
            placement(out@) == fill_missing(sids, placement(l.positions@), n as nat),
        decreases sorted.len() - n,
    {
        let found = find_position(&out, &sorted[n]);
        proof {
            lemma_placement_lookup(out@, sorted@[n as int]@);
            assert(sids[n as int] == sorted@[n as int]@);
        }
        let ghost before = out@;
        if found.is_none() {
            let id = NodeId(string_of(&sorted[n]));
            let p = grid_point_of(n);
            out.push((id, p));
            proof {
                assert(out@.drop_last() =~= before);
                assert(placement(out@) == placement(before).insert(sids[n as int], grid_point(n as nat)));
            }
        } else {
            proof {
                let j = found.unwrap();
                assert(before[j as int].0.0@ == sids[n as int]);
                assert(placement(before).dom().contains(sids[n as int]));
            }
        }
        n = n + 1;
    }
    out
}

/// `a + b` clamped into the range of `i32`.
pub open spec fn sat_add(a: int, b: int) -> i32 {
    if a + b > i32::MAX {
        i32::MAX
    } else if a + b < i32::MIN {
        i32::MIN
    } else {
        (a + b) as i32
    }
}

/// `i32::saturating_add`.
pub fn saturating_add_i32(a: i32, b: i32) -> (r: i32)
    ensures
        r == sat_add(a as int, b as int),
{
    let s = a as i64 + b as i64;
    if s > i32::MAX as i64 {
        i32::MAX
    } else if s < i32::MIN as i64 {
        i32::MIN
    } else {
        s as i32
    }
}

/// `i32::saturating_sub`.
pub fn saturating_sub_i32(a: i32, b: i32) -> (r: i32)
    ensures
        r == sat_add(a as int, -(b as int)),
{
    let s = a as i64 - b as i64;
    if s > i32::MAX as i64 {
        i32::MAX
    } else if s < i32::MIN as i64 {
        i32::MIN
    } else {
        s as i32
    }
}

/// Whether a node card placed at `p` covers the view cell `(col, row)` when
/// the view is panned by `viewport`: the card's top-left corner is `p` less
/// the pan (saturating at the `i32` range), and it spans `NODE_W` columns and
/// `NODE_H` rows from there.
pub open spec fn card_covers(p: Point, viewport: (i32, i32), col: u16, row: u16) -> bool {
    let x0 = sat_add(p.x as int, -(viewport.0 as int));
    let y0 = sat_add(p.y as int, -(viewport.1 as int));
    &&& x0 <= col < x0 + NODE_W
    &&& y0 <= row < y0 + NODE_H
}

/// Whether the `i`-th node of `g` is placed by `pl` and covers `(col, row)`.
pub open spec fn node_hit(g: Graph, pl: Map<Seq<char>, Point>, viewport: (i32, i32), col: u16, row: u16, i: int) -> bool {
    &&& pl.dom().contains(g.nodes@[i].id.0@)
    &&& card_covers(pl[g.nodes@[i].id.0@], viewport, col, row)
}

fn covers(p: Point, viewport: (i32, i32), col: u16, row: u16) -> (b: bool)
    ensures
        b == card_covers(p, viewport, col, row),
{
    let x0 = saturating_sub_i32(p.x, viewport.0) as i64;
    let y0 = saturating_sub_i32(p.y, viewport.1) as i64;
    let c = col as i64;
    let r = row as i64;
    x0 <= c && c < x0 + NODE_W as i64 && y0 <= r && r < y0 + NODE_H as i64
}

/// `r` is the id of the topmost node whose card covers the view cell
/// `(col, row)`: nodes are drawn in graph order, so the last such node of the
/// graph; `None` when no card covers the cell.
pub open spec fn topmost_hit(g: Graph, l: Layout, viewport: (i32, i32), col: u16, row: u16, r: Option<NodeId>) -> bool {
    match r {
        Some(id) => exists|i: int|
            #![trigger g.nodes@[i]]
            0 <= i < g.nodes@.len() && node_hit(g, resolved_placement(g, l), viewport, col, row, i) && id
                == g.nodes@[i].id && (forall|j: int|
                i < j < g.nodes@.len() ==> !#[trigger] node_hit(g, resolved_placement(g, l), viewport, col, row, j)),
        None => forall|j: int|
            0 <= j < g.nodes@.len() ==> !#[trigger] node_hit(g, resolved_placement(g, l), viewport, col, row, j),
    }
}

/// The id of the topmost node whose card covers the view cell `(col, row)`.
pub fn hit_test_graph(g: &Graph, l: &Layout, viewport: (i32, i32), col: u16, row: u16) -> (r: Option<NodeId>)
    ensures
        topmost_hit(*g, *l, viewport, col, row, r),
{
    let positions = resolved_positions(g, l);
    let ghost pl = resolved_placement(*g, *l);
    let mut i: usize = g.nodes.len();
    while i > 0
        invariant
            i <= g.nodes.len(),
            placement(positions@) == pl,
            pl == resolved_placement(*g, *l),
            forall|j: int| i <= j < g.nodes@.len() ==> !#[trigger] node_hit(*g, pl, viewport, col, row, j),
        decreases i,
    {
        i = i - 1;
        let id = chars_of(g.nodes[i].id.0.as_str());
        let found = find_position(&positions, &id);
        proof {
            lemma_placement_lookup(positions@, id@);
        }
        match found {
            Some(j) => {
                if covers(positions[j].1, viewport, col, row) {
                    assert(node_hit(*g, pl, viewport, col, row, i as int));
                    let r = node_id_copy(&g.nodes[i].id);
                    assert(r == g.nodes@[i as int].id);
                    return Some(r);
                }
            },
            None => {},
        }
    }
    None
}

/// A cardinal direction for moving the selection.
#[derive(Debug, Clone, Copy, PartialEq, Eq, Structural)]
pub enum Direction {
    Up,
    Down,
    Left,
    Right,
}

/// Whether `p` lies strictly on the `dir` side of `origin`.
pub open spec fn in_half_plane(origin: Point, p: Point, dir: Direction) -> bool {
    match dir {
        Direction::Up => p.y < origin.y,
        Direction::Down => p.y > origin.y,
        Direction::Left => p.x < origin.x,
        Direction::Right => p.x > origin.x,
    }
}

pub open spec fn abs(x: int) -> int {
    if x < 0 {
        -x
    } else {
        x
    }
}

/// How far `p` is from `origin` when moving in `dir`: distance along the
/// direction weighs a thousand times the sideways distance.
pub open spec fn direction_score(origin: Point, p: Point, dir: Direction) -> int {
    let dx = abs(p.x - origin.x);
    let dy = abs(p.y - origin.y);
    match dir {
        Direction::Up | Direction::Down => dy * 1000 + dx,
        Direction::Left | Direction::Right => dx * 1000 + dy,
    }
}

/// Whether the node `k`, placed by `pl`, is a place the selection may move to.
pub open spec fn move_candidate(pl: Map<Seq<char>, Point>, k: Seq<char>, origin: Point, dir: Direction, exclude: Option<Seq<char>>) -> bool {
    &&& pl.dom().contains(k)
    &&& exclude != Some(k)
    &&& in_half_plane(origin, pl[k], dir)
}

fn score_of(origin: Point, p: Point, dir: Direction) -> (r: (bool, i64))
    ensures
        r.0 == in_half_plane(origin, p, dir),
        r.1 == direction_score(origin, p, dir),
{
    let dx = p.x as i64 - origin.x as i64;
    let dy = p.y as i64 - origin.y as i64;
    let inside = match dir {
        Direction::Up => dy < 0,
        Direction::Down => dy > 0,
        Direction::Left => dx < 0,
        Direction::Right => dx > 0,
    };
    let adx = if dx < 0 { -dx } else { dx };
    let ady = if dy < 0 { -dy } else { dy };
    let score = match dir {
        Direction::Up | Direction::Down => ady * 1000 + adx,
        Direction::Left | Direction::Right => adx * 1000 + ady,
    };
    (inside, score)
}

pub open spec fn opt_id_view(o: Option<NodeId>) -> Option<Seq<char>> {
    match o {
        Some(id) => Some(id.0@),
        None => None,
    }
}

/// The id seen through an optional reference.
pub open spec fn opt_ref_id_view(o: Option<&NodeId>) -> Option<Seq<char>> {
    match o {
        Some(id) => Some(id.0@),
        None => None,
    }
}

/// `r` is a node nearest to `origin` in direction `dir` among those `pl`
/// places (other than `ex`), or `None` when no node lies on that side.
pub open spec fn nearest_choice(
    pl: Map<Seq<char>, Point>,
    origin: Point,
    dir: Direction,
    ex: Option<Seq<char>>,
    r: Option<NodeId>,
) -> bool {
    match r {
        Some(id) => move_candidate(pl, id.0@, origin, dir, ex) && forall|k: Seq<char>|
            #[trigger] move_candidate(pl, k, origin, dir, ex) ==> direction_score(origin, pl[id.0@], dir)
                <= direction_score(origin, pl[k], dir),
        None => forall|k: Seq<char>| !#[trigger] move_candidate(pl, k, origin, dir, ex),
    }
}

/// The placed node nearest to `origin` in direction `dir`, other than
/// `exclude`: `None` when no node lies on that side.
pub fn nearest_in_direction(
    origin: &Point,
    dir: Direction,
    positions: &Vec<(NodeId, Point)>,
    exclude: Option<&NodeId>,
) -> (r: Option<NodeId>)
    ensures
        nearest_choice(placement(positions@), *origin, dir, opt_ref_id_view(exclude), r),
{
    let ghost pl = placement(positions@);
    let ghost ex = opt_ref_id_view(exclude);
    let mut best: Option<(usize, i64)> = None;
    let mut i: usize = 0;
    while i < positions.len()
        invariant
            i <= positions.len(),
            pl == placement(positions@),
            ex == opt_ref_id_view(exclude),
            match best {
                Some((b, sc)) => b < positions.len() && sc == direction_score(*origin, positions@[b as int].1, dir)
                    && move_candidate(pl, positions@[b as int].0.0@, *origin, dir, ex)
                    && pl[positions@[b as int].0.0@] == positions@[b as int].1,
                None => true,
            },
            forall|j: int| 0 <= j < i ==> (last_entry(positions@, j)
                    && move_candidate(pl, (#[trigger] positions@[j]).0.0@, *origin, dir, ex)) ==> best is Some
                    && best_score(best) <= direction_score(*origin, positions@[j].1, dir),
        decreases positions.len() - i,
    {
        let key = chars_of(positions[i].0.0.as_str());
        // Only an id's last entry counts.
        let mut shadowed = false;
        let mut k = i + 1;
        while k < positions.len()
            invariant
                i < k <= positions.len(),
                !shadowed ==> forall|m: int| i < m < k ==> (#[trigger] positions@[m]).0.0@ != key@,
                shadowed ==> exists|m: int| i < m < k && (#[trigger] positions@[m]).0.0@ == key@,
                key@ == positions@[i as int].0.0@,
            decreases positions.len() - k,
        {
            let other = chars_of(positions[k].0.0.as_str());
            if crate::text::chars_eq(&other, &key) {
                shadowed = true;
            }
            k = k + 1;
        }
        let excluded = match exclude {
            Some(e) => {
                let ev = chars_of(e.0.as_str());
                crate::text::chars_eq(&ev, &key)
            },
            None => false,
        };
        let (inside, score) = score_of(*origin, positions[i].1, dir);
        proof {
            lemma_placement_lookup(positions@, key@);
        }
        proof {
            if !shadowed {
                assert(last_entry(positions@, i as int));
                assert(pl[key@] == positions@[i as int].1);
            }
        }
        if !shadowed && !excluded && inside {
            match best {
                Some((_, bs)) => {
                    if score < bs {
                        best = Some((i, score));
                    }
                },
                None => {
                    best = Some((i, score));
                },
            }
        }
        i = i + 1;
    }
    proof {
        assert forall|k: Seq<char>| #[trigger] move_candidate(pl, k, *origin, dir, ex) implies best is Some
            && best_score(best) <= direction_score(*origin, pl[k], dir) by {
            lemma_placement_exists(positions@, k);
            let j = choose|j: int|
                0 <= j < positions@.len() && (#[trigger] positions@[j]).0.0@ == k && positions@[j].1 == pl[k]
                    && last_entry(positions@, j);
            assert(move_candidate(pl, positions@[j].0.0@, *origin, dir, ex));
        }
    }
    match best {
        Some((b, _)) => Some(node_id_copy(&positions[b].0)),
        None => None,
    }
}

spec fn best_score(b: Option<(usize, i64)>) -> i64 {
    match b {
        Some(x) => x.1,
        None => 0,
    }
}

/// No later entry of `positions` has the id of entry `j`.
pub open spec fn last_entry(positions: Seq<(NodeId, Point)>, j: int) -> bool {
    forall|m: int| j < m < positions.len() ==> (#[trigger] positions[m]).0.0@ != positions[j].0.0@
}

/// A placed id has a last entry, and that entry holds its point.
/// A placed id has a last entry, and that entry gives its point.
pub proof fn lemma_placement_exists(positions: Seq<(NodeId, Point)>, k: Seq<char>)
    requires
        placement(positions).dom().contains(k),
    ensures
        exists|j: int|
            0 <= j < positions.len() && (#[trigger] positions[j]).0.0@ == k && positions[j].1 == placement(positions)[k]
                && last_entry(positions, j),
    decreases positions.len(),
{
    let n = positions.len() as int;
    if positions[n - 1].0.0@ == k {
        assert(positions[n - 1].1 == placement(positions)[k]);
        assert(last_entry(positions, n - 1));
    } else {
        let p = positions.drop_last();
        lemma_placement_exists(p, k);
        let j = choose|j: int| 0 <= j < p.len() && (#[trigger] p[j]).0.0@ == k && p[j].1 == placement(p)[k] && last_entry(p, j);
        assert(positions[j] == p[j]);
        assert forall|m: int| j < m < positions.len() implies (#[trigger] positions[m]).0.0@ != positions[j].0.0@ by {
            if m < n - 1 {
                assert(p[m] == positions[m]);
            }
        }
    }
}

} // verus!
