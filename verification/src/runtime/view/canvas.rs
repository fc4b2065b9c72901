//! Where the canvas region draws its node cards and its edges.
use vstd::prelude::*;

use crate::canvas::{
    last_entry, lemma_placement_exists, opt_id_view, find_position, lemma_placement_lookup, placement, resolved_placement, NodeId, Point, NODE_H, NODE_W,
};
use crate::runtime::model::workspace::CanvasState;
use crate::runtime::view::geometry::{add_u16, min_u16, sat_add_u16, sat_sub_u16, sub_u16, Rect};
use crate::text::{chars_eq, chars_of};

verus! {

/// A point's offset from the view can be computed, and a card or an edge
/// drawn from it, within the range of `i32`.
pub open spec fn fits_view(p: Point, v: (i32, i32)) -> bool {
    &&& i32::MIN <= p.x - v.0 <= i32::MAX - NODE_W
    &&& i32::MIN <= p.y - v.1 <= i32::MAX - NODE_H - 1
}

/// Every point the canvas places fits the view.
pub open spec fn canvas_fits(c: CanvasState) -> bool {
    let pl = resolved_placement(c.graph, c.layout);
    forall|k: Seq<char>| #[trigger] pl.dom().contains(k) ==> fits_view(pl[k], c.viewport)
}

/// The cells a node card at `p` covers in `area` when the view is panned
/// by `v`: clipped at the area's edges, and `None` when the card is off
/// screen or too small to read (under 4 columns or 2 rows).
pub open spec fn card_rect(p: Point, v: (i32, i32), area: Rect) -> Option<Rect> {
    let vx = p.x - v.0;
    let vy = p.y - v.1;
    if vx + NODE_W <= 0 || vy + NODE_H <= 0 || vx >= area.width || vy >= area.height {
        None
    } else {
        let ox = if vx < 0 {
            0
        } else {
            vx
        };
        let oy = if vy < 0 {
            0
        } else {
            vy
        };
        let r = Rect {
            x: sat_add_u16(area.x as int, ox),
            y: sat_add_u16(area.y as int, oy),
            width: min_u16(NODE_W as u16, sat_sub_u16(area.width as int, ox)),
            height: min_u16(NODE_H as u16, sat_sub_u16(area.height as int, oy)),
        };
        if r.width < 4 || r.height < 2 {
            None
        } else {
            Some(r)
        }
    }
}

/// A node card to draw: which node (its index in the graph), where, and
/// whether it is the selected one.
#[derive(Debug)]
pub struct NodeCard {
    pub index: usize,
    pub rect: Rect,
    pub selected: bool,
}

/// The cards of the first `n` nodes of the canvas, in graph order, for the
/// nodes that show in `area`.
pub open spec fn cards_upto(c: CanvasState, area: Rect, n: nat) -> Seq<(int, Rect, bool)>
    decreases n,
{
    if n == 0 {
        Seq::empty()
    } else {
        let i = n - 1;
        let pl = resolved_placement(c.graph, c.layout);
        let id = c.graph.nodes@[i].id;
        let prev = cards_upto(c, area, (n - 1) as nat);
        if pl.dom().contains(id.0@) {
            match card_rect(pl[id.0@], c.viewport, area) {
                Some(r) => prev.push((i, r, opt_id_view(c.selected) == Some(id.0@))),
                None => prev,
            }
        } else {
            prev
        }
    }
}

pub open spec fn card_view(k: NodeCard) -> (int, Rect, bool) {
    (k.index as int, k.rect, k.selected)
}

/// Whether the node's id is the selected one.
fn is_selected(selected: &Option<NodeId>, id: &NodeId) -> (b: bool)
    ensures
        b == (opt_id_view(*selected) == Some(id.0@)),
{
    match selected {
        Some(s) => {
            let a = chars_of(s.as_str());
            let b = chars_of(id.as_str());
            chars_eq(&a, &b)
        },
        None => false,
    }
}

/// The card of a node placed at `p`, if it shows.
fn card_rect_of(p: Point, v: (i32, i32), area: Rect) -> (r: Option<Rect>)
    requires
        fits_view(p, v),
    ensures
        r == card_rect(p, v, area),
{
    let vx = p.x - v.0;
    let vy = p.y - v.1;
    if vx + NODE_W <= 0 || vy + NODE_H <= 0 {
        return None;
    }
    if vx >= area.width as i32 || vy >= area.height as i32 {
        return None;
    }
    let ox: u16 = if vx < 0 { 0 } else { vx as u16 };
    let oy: u16 = if vy < 0 { 0 } else { vy as u16 };
    let w = sub_u16(area.width, ox);
    let h = sub_u16(area.height, oy);
    let r = Rect {
        x: add_u16(area.x, ox),
        y: add_u16(area.y, oy),
        width: if (NODE_W as u16) <= w { NODE_W as u16 } else { w },
        height: if (NODE_H as u16) <= h { NODE_H as u16 } else { h },
    };
    if r.width < 4 || r.height < 2 {
        None
    } else {
        Some(r)
    }
}

/// Whether `p` fits the view `v`.
fn fits(p: Point, v: (i32, i32)) -> (b: bool)
    ensures
        b == fits_view(p, v),
{
    let dx = p.x as i64 - v.0 as i64;
    let dy = p.y as i64 - v.1 as i64;
    dx >= i32::MIN as i64 && dx <= (i32::MAX - NODE_W) as i64 && dy >= i32::MIN as i64 && dy <= (i32::MAX
        - NODE_H - 1) as i64
}

/// Whether every point the canvas places fits the view.
pub fn canvas_fits_view(c: &CanvasState) -> (b: bool)
    ensures
        b == canvas_fits(*c),
{
    let positions = c.resolved_positions();
    let ghost pl = resolved_placement(c.graph, c.layout);
    let mut i: usize = 0;
    while i < positions.len()
        invariant
            i <= positions.len(),
            placement(positions@) == pl,
            pl == resolved_placement(c.graph, c.layout),
            forall|j: int| 0 <= j < i ==> #[trigger] fits_view(pl[positions@[j].0.0@], c.viewport),
        decreases positions.len() - i,
    {
        let key = chars_of(positions[i].0.as_str());
        let found = find_position(&positions, &key);
        proof {
            lemma_placement_lookup(positions@, key@);
        }
        match found {
            Some(j) => {
                if !fits(positions[j].1, c.viewport) {
                    assert(positions@[j as int].0.0@ == key@);
                    assert(pl.dom().contains(key@));
                    assert(pl[key@] == positions@[j as int].1);
                    assert(!fits_view(pl[key@], c.viewport));
                    return false;
                }
            },
            None => {
                assert(false);
            },
        }
        i = i + 1;
    }
    proof {
        assert forall|k: Seq<char>| #[trigger] pl.dom().contains(k) implies fits_view(pl[k], c.viewport) by {
            lemma_placement_exists(positions@, k);
            let j = choose|j: int|
                0 <= j < positions@.len() && (#[trigger] positions@[j]).0.0@ == k && positions@[j].1 == placement(
                    positions@,
                )[k] && last_entry(positions@, j);
            assert(fits_view(pl[positions@[j].0.0@], c.viewport));
        }
    }
    true
}

/// The cards to draw for the canvas in `area`, in graph order.
pub fn node_cards(c: &CanvasState, area: Rect) -> (cards: Vec<NodeCard>)
    requires
        canvas_fits(*c),
    ensures
        cards@.map_values(|k: NodeCard| card_view(k)) == cards_upto(*c, area, c.graph.nodes@.len()),
{
    let positions = c.resolved_positions();
    let ghost pl = resolved_placement(c.graph, c.layout);
    let mut cards: Vec<NodeCard> = Vec::new();
    let mut i: usize = 0;
    while i < c.graph.nodes.len()
        invariant
            i <= c.graph.nodes.len(),
            placement(positions@) == pl,
            pl == resolved_placement(c.graph, c.layout),
            canvas_fits(*c),
            cards@.map_values(|k: NodeCard| card_view(k)) == cards_upto(*c, area, i as nat),
        decreases c.graph.nodes.len() - i,
    {
        let key = chars_of(c.graph.nodes[i].id.as_str());
        let found = find_position(&positions, &key);
        proof {
            lemma_placement_lookup(positions@, key@);
        }
        let ghost before = cards@.map_values(|k: NodeCard| card_view(k));
        match found {
            Some(j) => {
                let p = positions[j].1;
                assert(pl.dom().contains(key@) && pl[key@] == p);
                assert(fits_view(p, c.viewport));
                match card_rect_of(p, c.viewport, area) {
                    Some(r) => {
                        let sel = is_selected(&c.selected, &c.graph.nodes[i].id);
                        cards.push(NodeCard { index: i, rect: r, selected: sel });
                        assert(cards@.map_values(|k: NodeCard| card_view(k)) =~= before.push(
                            (i as int, r, sel),
                        ));
                    },
                    None => {},
                }
            },
            None => {},
        }
        i = i + 1;
    }
    cards
}

/// Edge glyphs: the vertical run, the horizontal run, and the arrowhead.
pub open spec fn vertical_glyph() -> char {
    '\u{2502}'
}

pub open spec fn horizontal_glyph() -> char {
    '\u{2500}'
}

pub open spec fn arrow_glyph() -> char {
    '\u{25B6}'
}

/// `max(v, 0)` taken as a cell offset (the low 16 bits).
pub open spec fn cell_offset(v: int) -> u16 {
    (if v < 0 {
        0
    } else {
        v
    }) as u16
}

/// The cells of an edge between the cards at the view points `a` and `b`
/// in `area`: a vertical run in the column of the left card, from below one
/// card to below the other, and a horizontal run along the lower of the two
/// rows to the right card's column, ending in an arrowhead. Cells past the
/// area's bottom or right edge are left out.
pub open spec fn edge_cells_spec(area: Rect, a: Point, b: Point) -> Seq<(u16, u16, char)> {
    let left = if a.x <= b.x {
        a
    } else {
        b
    };
    let right = if a.x <= b.x {
        b
    } else {
        a
    };
    let col = sat_add_u16(area.x as int, cell_offset(left.x as int) as int);
    if col >= sat_add_u16(area.x as int, area.width as int) {
        Seq::empty()
    } else {
        let y_top = sat_add_u16(area.y as int, cell_offset(left.y + NODE_H + 1) as int);
        let y_bot = sat_add_u16(area.y as int, cell_offset(right.y + NODE_H + 1) as int);
        let bottom = sat_add_u16(area.y as int, area.height as int);
        let right_edge = sat_sub_u16(sat_add_u16(area.x as int, area.width as int) as int, 1);
        let lo: int = if y_top <= y_bot {
            y_top as int
        } else {
            y_bot as int
        };
        let hi: int = if y_top <= y_bot {
            y_bot as int
        } else {
            y_top as int
        };
        let vend: int = if hi + 1 <= bottom {
            hi + 1
        } else {
            bottom as int
        };
        let vertical = Seq::new(
            if vend > lo {
                (vend - lo) as nat
            } else {
                0
            },
            |k: int| (col, (lo + k) as u16, vertical_glyph()),
        );
        let y_draw = min_u16(y_bot, sat_sub_u16(bottom as int, 1));
        if y_draw < area.y {
            vertical
        } else {
            let x_end = sat_add_u16(area.x as int, cell_offset(right.x as int) as int);
            let xlast = min_u16(x_end, right_edge);
            vertical + Seq::new(
                if xlast >= col {
                    (xlast - col + 1) as nat
                } else {
                    0
                },
                |k: int|
                    (
                        (col + k) as u16,
                        y_draw,
                        if col + k == x_end {
                            arrow_glyph()
                        } else {
                            horizontal_glyph()
                        },
                    ),
            )
        }
    }
}

/// A glyph to draw at a cell.
#[derive(Debug, Clone, Copy, PartialEq, Eq, Structural)]
pub struct EdgeCell {
    pub x: u16,
    pub y: u16,
    pub glyph: char,
}

pub open spec fn cell_view(e: EdgeCell) -> (u16, u16, char) {
    (e.x, e.y, e.glyph)
}

fn offset_cell(v: i32) -> (r: u16)
    ensures
        r == cell_offset(v as int),
{
    if v < 0 {
        0
    } else {
        v as u16
    }
}

/// The cells of an edge between the cards at the view points `a` and `b`.
pub fn edge_cells(area: Rect, a: Point, b: Point) -> (cells: Vec<EdgeCell>)
    requires
        a.y <= i32::MAX - NODE_H - 1,
        b.y <= i32::MAX - NODE_H - 1,
    ensures
        cells@.map_values(|e: EdgeCell| cell_view(e)) == edge_cells_spec(area, a, b),
{
    let ghost want = edge_cells_spec(area, a, b);
    let (left, right) = if a.x <= b.x {
        (a, b)
    } else {
        (b, a)
    };
    let mut cells: Vec<EdgeCell> = Vec::new();
    let col = add_u16(area.x, offset_cell(left.x));
    if col >= add_u16(area.x, area.width) {
        assert(cells@.map_values(|e: EdgeCell| cell_view(e)) =~= want);
        return cells;
    }
    let y_top = add_u16(area.y, offset_cell(left.y + NODE_H + 1));
    let y_bot = add_u16(area.y, offset_cell(right.y + NODE_H + 1));
    let bottom = add_u16(area.y, area.height);
    let right_edge = sub_u16(add_u16(area.x, area.width), 1);
    let lo: u32 = if y_top <= y_bot {
        y_top as u32
    } else {
        y_bot as u32
    };
    let hi: u32 = if y_top <= y_bot {
        y_bot as u32
    } else {
        y_top as u32
    };
    let vend: u32 = if hi + 1 <= bottom as u32 {
        hi + 1
    } else {
        bottom as u32
    };
    let ghost vcount: nat = if vend > lo {
        (vend - lo) as nat
    } else {
        0
    };
    let ghost vertical = Seq::new(vcount, |k: int| (col, (lo + k) as u16, vertical_glyph()));
    let mut y: u32 = lo;
    while y < vend
        invariant
            lo <= y,
            y <= vend || vend <= lo,
            vend <= lo ==> y == lo,
            vend <= 65536,
            vcount == (if vend > lo {
                (vend - lo) as nat
            } else {
                0
            }),
            vertical == Seq::new(vcount, |k: int| (col, (lo + k) as u16, vertical_glyph())),
            cells@.map_values(|e: EdgeCell| cell_view(e)) == vertical.take((y - lo) as int),
        decreases vend - y,
    {
        let ghost before = cells@.map_values(|e: EdgeCell| cell_view(e));
        let e = EdgeCell { x: col, y: y as u16, glyph: '\u{2502}' };
        cells.push(e);
        proof {
            let k = (y - lo) as int;
            assert(0 <= k < vcount);
            assert((lo + k) as u16 == y as u16);
            assert(vertical[k] == cell_view(e));
            assert(vertical.take(k + 1) =~= vertical.take(k).push(vertical[k]));
            assert(cells@.map_values(|e: EdgeCell| cell_view(e)) =~= before.push(cell_view(e)));
        }
        assert(cells@.map_values(|e: EdgeCell| cell_view(e)) =~= vertical.take((y + 1 - lo) as int));
        y = y + 1;
    }
    assert(vertical.take(vcount as int) =~= vertical);
    assert((y - lo) as int == vcount);
    assert(cells@.map_values(|e: EdgeCell| cell_view(e)) =~= vertical);
    let last_row = sub_u16(bottom, 1);
    let y_draw = if y_bot <= last_row {
        y_bot
    } else {
        last_row
    };
    if y_draw < area.y {
        return cells;
    }
    let x_end = add_u16(area.x, offset_cell(right.x));
    let xlast = if x_end <= right_edge {
        x_end
    } else {
        right_edge
    };
    let ghost hcount: nat = if xlast >= col {
        (xlast - col + 1) as nat
    } else {
        0
    };
    let ghost horizontal = Seq::new(
        hcount,
        |k: int|
            (
                (col + k) as u16,
                y_draw,
                if col + k == x_end {
                    arrow_glyph()
                } else {
                    horizontal_glyph()
                },
            ),
    );
    let mut x: u32 = col as u32;
    while x <= xlast as u32
        invariant
            col as u32 <= x,
            x <= xlast as u32 + 1 || xlast < col,
            xlast < col ==> x == col as u32,
            hcount == (if xlast >= col {
                (xlast - col + 1) as nat
            } else {
                0
            }),
            horizontal == Seq::new(
                hcount,
                |k: int|
                    (
                        (col + k) as u16,
                        y_draw,
                        if col + k == x_end {
                            arrow_glyph()
                        } else {
                            horizontal_glyph()
                        },
                    ),
            ),
            cells@.map_values(|e: EdgeCell| cell_view(e)) == vertical + horizontal.take((x - col) as int),
        decreases xlast as u32 + 1 - x,
    {
        let glyph = if x == x_end as u32 {
            '\u{25B6}'
        } else {
            '\u{2500}'
        };
        let ghost before = cells@.map_values(|e: EdgeCell| cell_view(e));
        let e = EdgeCell { x: x as u16, y: y_draw, glyph };
        cells.push(e);
        proof {
            let k = (x - col) as int;
            assert(0 <= k < hcount);
            assert((col + k) as u16 == x as u16);
            assert(horizontal[k] == cell_view(e));
            assert(horizontal.take(k + 1) =~= horizontal.take(k).push(horizontal[k]));
            assert(cells@.map_values(|e: EdgeCell| cell_view(e)) =~= before.push(cell_view(e)));
        }
        assert(cells@.map_values(|e: EdgeCell| cell_view(e)) =~= vertical + horizontal.take((x + 1 - col) as int));
        x = x + 1;
    }
    assert(horizontal.take(hcount as int) =~= horizontal);
    assert((x - col) as int == hcount);
    assert(cells@.map_values(|e: EdgeCell| cell_view(e)) =~= vertical + horizontal);
    cells
}

/// A point as the view shows it, panned by `v`.
pub open spec fn view_point(p: Point, v: (i32, i32)) -> Point {
    Point { x: (p.x - v.0) as i32, y: (p.y - v.1) as i32 }
}

/// The cells of the first `n` edges of the canvas, in edge order; an edge
/// with an end that is not placed is not drawn.
pub open spec fn edges_upto(c: CanvasState, area: Rect, n: nat) -> Seq<(u16, u16, char)>
    decreases n,
{
    if n == 0 {
        Seq::empty()
    } else {
        let e = c.graph.edges@[n - 1];
        let pl = resolved_placement(c.graph, c.layout);
        let prev = edges_upto(c, area, (n - 1) as nat);
        if pl.dom().contains(e.from.0@) && pl.dom().contains(e.to.0@) {
            prev + edge_cells_spec(area, view_point(pl[e.from.0@], c.viewport), view_point(pl[e.to.0@], c.viewport))
        } else {
            prev
        }
    }
}

/// Append the cells of `more`.
fn append_cells(cells: &mut Vec<EdgeCell>, more: &Vec<EdgeCell>)
    ensures
        final(cells)@.map_values(|e: EdgeCell| cell_view(e)) == old(cells)@.map_values(|e: EdgeCell| cell_view(e))
            + more@.map_values(|e: EdgeCell| cell_view(e)),
{
    let ghost before = cells@.map_values(|e: EdgeCell| cell_view(e));
    let ghost add = more@.map_values(|e: EdgeCell| cell_view(e));
    let mut k: usize = 0;
    while k < more.len()
        invariant
            k <= more.len(),
            add == more@.map_values(|e: EdgeCell| cell_view(e)),
            cells@.map_values(|e: EdgeCell| cell_view(e)) == before + add.take(k as int),
        decreases more.len() - k,
    {
        let e = more[k];
        let ghost cur = cells@.map_values(|e: EdgeCell| cell_view(e));
        cells.push(e);
        proof {
            assert(cells@.map_values(|e: EdgeCell| cell_view(e)) =~= cur.push(cell_view(e)));
            assert(add[k as int] == cell_view(e));
            assert(add.take(k + 1) =~= add.take(k as int).push(add[k as int]));
        }
        assert(cells@.map_values(|e: EdgeCell| cell_view(e)) =~= before + add.take(k + 1));
        k = k + 1;
    }
    assert(add.take(more.len() as int) =~= add);
}

/// The cells of all the canvas's edges in `area`.
pub fn edge_glyphs(c: &CanvasState, area: Rect) -> (cells: Vec<EdgeCell>)
    requires
        canvas_fits(*c),
    ensures
        cells@.map_values(|e: EdgeCell| cell_view(e)) == edges_upto(*c, area, c.graph.edges@.len()),
{
    let positions = c.resolved_positions();
    let ghost pl = resolved_placement(c.graph, c.layout);
    let mut cells: Vec<EdgeCell> = Vec::new();
    let mut i: usize = 0;
    while i < c.graph.edges.len()
        invariant
            i <= c.graph.edges.len(),
            placement(positions@) == pl,
            pl == resolved_placement(c.graph, c.layout),
            canvas_fits(*c),
            cells@.map_values(|e: EdgeCell| cell_view(e)) == edges_upto(*c, area, i as nat),
        decreases c.graph.edges.len() - i,
    {
        let from = chars_of(c.graph.edges[i].from.as_str());
        let to = chars_of(c.graph.edges[i].to.as_str());
        let fa = find_position(&positions, &from);
        let fb = find_position(&positions, &to);
        proof {
            lemma_placement_lookup(positions@, from@);
            lemma_placement_lookup(positions@, to@);
        }
        match (fa, fb) {
            (Some(ja), Some(jb)) => {
                let pa = positions[ja].1;
                let pb = positions[jb].1;
                assert(pl.dom().contains(from@) && pl[from@] == pa);
                assert(pl.dom().contains(to@) && pl[to@] == pb);
                assert(fits_view(pa, c.viewport) && fits_view(pb, c.viewport));
                let av = Point { x: pa.x - c.viewport.0, y: pa.y - c.viewport.1 };
                let bv = Point { x: pb.x - c.viewport.0, y: pb.y - c.viewport.1 };
                let more = edge_cells(area, av, bv);
                append_cells(&mut cells, &more);
                assert(av == view_point(pa, c.viewport));
                assert(bv == view_point(pb, c.viewport));
            },
            _ => {},
        }
        i = i + 1;
    }
    cells
}

} // verus!
