//! What holds of the model across calls: the focus cycles, the pickers and
//! lists that clamp without wrapping, the toggles that undo themselves, and
//! how a streamed turn ends.
use vstd::prelude::*;

use crate::protocol::{Mode, ModelId};
use crate::runtime::model::events::{KeyCode, KeyEvent};
use crate::runtime::model::home::HomeState;
use crate::runtime::model::new_session::{
    advance_field, next_field, picker_next, picker_prev, picker_selection, ModelPicker, NewSessionField,
    NewSessionState,
};
use crate::runtime::model::workspace::{other_focus, WorkspaceFocus};
use crate::runtime::model::{Cmd, Screen, Toast};
use crate::runtime::update::home::{home_down, home_up};
use crate::runtime::update::new_session::{new_session_key_post, toggled};
use crate::runtime::update::session::{derived_title, scrolled_state, MAX_TITLE_LEN};
use crate::runtime::update::stream::{is_terminal, relay_sent, stream_post};
use crate::runtime::view::tool_card::{ellipsis, truncated};
use crate::runtime::view::transcript::measured;
use crate::runtime::model::session::SessionState;
use crate::runtime::model::{StreamMsg, ToastKind};
use crate::protocol::{messages_view, Role};
use crate::canvas::{
    fill_missing, grid_point, node_ids, placement, resolved_placement, Graph, Layout, Point,
};
use crate::sort::{lemma_str_order_total, sorted_strs, str_order};
use crate::runtime::model::editor::{composer_cursor, composer_lines, moves_back, plain_cursor, typed_char, with_char};
use crate::runtime::update::session::chat_key_post;
use crate::runtime::model::workspace::WorkspaceState;
use crate::runtime::view::canvas::{cell_offset, edge_cells_spec};
use crate::runtime::view::geometry::{sat_add_u16, Rect};
use crate::runtime::view::markdown::{fence_rest, markdown_blocks, md_fold, md_step, MdBlockView, MdState};
use crate::runtime::view::style::Color;
use crate::runtime::view::transcript::{rows_match, session_transcript_plan, spinner_at, Row, RowPlan};
use crate::runtime::view::workspace::workspace_transcript_plan;
use crate::text::{first_line, is_ws, join, lemma_trim_end_is_prefix, lines, trim_end, words};

verus! {

/// Tab cycles the new-session form's focus through its three fields:
/// advancing `n` times lands where advancing `n mod 3` times does, a press
/// always moves the focus, and three presses come back to the start.
pub proof fn law_focus_cycle(f: NewSessionField, n: nat)
    ensures
        advance_field(f, n) == advance_field(f, n % 3),
        next_field(f) != f,
        advance_field(f, 2) != f,
        advance_field(f, 3) == f,
    decreases n,
{
    reveal_with_fuel(advance_field, 4);
    if n >= 3 {
        law_focus_cycle(f, (n - 3) as nat);
        lemma_advance_split(f, 3, (n - 3) as nat);
        assert(n % 3 == (n - 3) as nat % 3);
    }
}

proof fn lemma_advance_split(f: NewSessionField, a: nat, b: nat)
    ensures
        advance_field(f, a + b) == advance_field(advance_field(f, a), b),
    decreases a,
{
    if a > 0 {
        lemma_advance_split(next_field(f), (a - 1) as nat, b);
        assert(advance_field(f, a + b) == advance_field(next_field(f), (a + b - 1) as nat));
    }
}

/// Toggling the mode twice gives the mode back, and once always changes it.
pub proof fn law_mode_toggle_involution(m: Mode)
    ensures
        toggled(toggled(m)) == m,
        toggled(m) != m,
{
}

/// On the form's Mode field, Left and Right each switch the mode, so any
/// two presses return to the mode the form started with.
pub proof fn law_mode_keys_toggle(
    k1: KeyEvent,
    k2: KeyEvent,
    n0: NewSessionState,
    s1: Screen,
    s2: Screen,
    t0: Option<Toast>,
    t1: Option<Toast>,
    t2: Option<Toast>,
    c1: Cmd,
    c2: Cmd,
)
    requires
        n0.field == NewSessionField::Mode,
        k1.code == KeyCode::Left || k1.code == KeyCode::Right,
        k2.code == KeyCode::Left || k2.code == KeyCode::Right,
        new_session_key_post(k1, n0, s1, t0, t1, c1),
        s1 is NewSession,
        new_session_key_post(k2, s1->NewSession_0, s2, t1, t2, c2),
    ensures
        s1->NewSession_0.mode != n0.mode,
        s2 matches Screen::NewSession(n2) && n2.mode == n0.mode && n2.field == NewSessionField::Mode,
{
}

/// The index a picker highlights, when it is loaded.
pub open spec fn picker_index(p: ModelPicker) -> int {
    match p {
        ModelPicker::Loaded { selected, .. } => selected as int,
        ModelPicker::Loading => -1,
    }
}

/// The model picker clamps without wrapping: from an entry of a loaded
/// list, Left and Right stay on an entry, Left never moves down the list and
/// Right never moves up it, and a one-entry list never moves.
pub proof fn law_picker_clamps(models: Vec<ModelId>, selected: usize)
    requires
        selected < models@.len(),
        models@.len() <= usize::MAX,
    ensures
        ({
            let p = ModelPicker::Loaded { models, selected };
            &&& picker_prev(p) matches ModelPicker::Loaded { models: m, selected: s } && m == models && s
                < models@.len() && s <= selected
            &&& picker_next(p) matches ModelPicker::Loaded { models: m, selected: s } && m == models && s
                < models@.len() && s >= selected
            &&& models@.len() == 1 ==> picker_index(picker_prev(p)) == 0 && picker_index(picker_next(p)) == 0
        }),
{
}

/// A picker that is still loading ignores Left and Right and highlights nothing.
pub proof fn law_loading_picker_stays()
    ensures
        picker_prev(ModelPicker::Loading) is Loading,
        picker_next(ModelPicker::Loading) is Loading,
        picker_selection(ModelPicker::Loading) is None,
{
}

/// Editing the title never disturbs the pickers: with the title focused,
/// every key but Tab, Enter and Esc leaves the focus, the model picker and
/// the mode as they were.
pub proof fn law_title_isolation(
    key: KeyEvent,
    n0: NewSessionState,
    s1: Screen,
    t0: Option<Toast>,
    t1: Option<Toast>,
    cmd: Cmd,
)
    requires
        n0.field == NewSessionField::Title,
        key.code != KeyCode::Tab && key.code != KeyCode::Enter && key.code != KeyCode::Esc,
        new_session_key_post(key, n0, s1, t0, t1, cmd),
    ensures
        s1 matches Screen::NewSession(n1) && n1.field == NewSessionField::Title && n1.model == n0.model && n1.mode
            == n0.mode,
        cmd is Noop,
{
}

/// The Workspace's focus alternates: two Tabs come back to the same region.
pub proof fn law_focus_swap_twice(f: WorkspaceFocus)
    ensures
        other_focus(other_focus(f)) == f,
        other_focus(f) != f,
{
}

/// The session list's highlight clamps without wrapping: from a row of a
/// non-empty list, Up and Down stay on a row, Up never moves down and Down
/// never moves up; on an empty list neither moves.
pub proof fn law_home_clamps(h: HomeState)
    requires
        h.sessions@.len() <= usize::MAX,
    ensures
        h.selected < h.sessions@.len() ==> home_up(h) < h.sessions@.len() && home_down(h) < h.sessions@.len(),
        home_up(h) <= h.selected,
        h.sessions@.len() > 0 && h.selected < h.sessions@.len() ==> home_down(h) >= h.selected,
        h.sessions@.len() == 0 ==> home_up(h) == h.selected && home_down(h) == h.selected,
{
}

/// A turn's events before its end never touch the history: after any run
/// of `Started`, `Delta`, `ToolInput` and `ToolOutput` events the session is
/// as it was, the turn is still in flight, and no toast was raised.
pub proof fn law_turn_events_keep_history(
    states: Seq<SessionState>,
    events: Seq<StreamMsg>,
    toasts: Seq<Option<Toast>>,
)
    requires
        states.len() == events.len() + 1,
        toasts.len() == events.len(),
        states[0].streaming is Some,
        forall|i: int| 0 <= i < events.len() ==> !(#[trigger] events[i] is Finished) && !(events[i] is Failed),
        forall|i: int|
            0 <= i < events.len() ==> #[trigger] stream_post(states[i], events[i], states[i + 1], toasts[i]),
    ensures
        states.last().session == states[0].session,
        states.last().streaming is Some,
        forall|i: int| 0 <= i < toasts.len() ==> (#[trigger] toasts[i]) is None,
    decreases events.len(),
{
    if events.len() > 0 {
        let n = events.len() - 1;
        law_turn_events_keep_history(states.drop_last(), events.drop_last(), toasts.drop_last());
        assert(states.drop_last().last() == states[n]);
        assert(stream_post(states[n], events[n], states[n + 1], toasts[n]));
        assert forall|i: int| 0 <= i < toasts.len() implies (#[trigger] toasts[i]) is None by {
            if i < n {
                assert(toasts.drop_last()[i] == toasts[i]);
            }
        }
    }
}

/// A finished turn commits exactly one message after the history it started
/// from, the assistant's, and the turn ends.
pub proof fn law_finish_commits_one(s0: SessionState, duration_ms: u64, s1: SessionState, t: Option<Toast>)
    requires
        s0.streaming is Some,
        s0.session is Some,
        stream_post(s0, StreamMsg::Finished { duration_ms }, s1, t),
    ensures
        s1.streaming is None,
        t is None,
        s1.session matches Some(n) && n.messages@.len() == s0.session->0.messages@.len() + 1 && messages_view(
            n.messages@,
        ).drop_last() == messages_view(s0.session->0.messages@) && messages_view(n.messages@).last().role
            == Role::Assistant,
{
    let n = s1.session->0;
    assert(messages_view(n.messages@).len() == n.messages@.len());
    assert(messages_view(n.messages@).drop_last() =~= messages_view(s0.session->0.messages@));
}

/// A failed turn ends and leaves the history as it was, with an error toast.
pub proof fn law_failed_keeps_history(s0: SessionState, e: String, s1: SessionState, t: Option<Toast>)
    requires
        s0.streaming is Some,
        stream_post(s0, StreamMsg::Failed(e), s1, t),
    ensures
        s1.streaming is None,
        s1.session == s0.session,
        t matches Some(x) && x.kind == ToastKind::Error,
{
}

/// Without a turn in flight every streamed event is ignored.
pub proof fn law_events_without_turn_ignored(s0: SessionState, ev: StreamMsg, s1: SessionState, t: Option<Toast>)
    requires
        s0.streaming is None,
        stream_post(s0, ev, s1, t),
    ensures
        s1 == s0,
        t is None,
{
}

/// Scrolling the transcript keeps the offset within `[0, max_scroll]`, and
/// the transcript follows its latest line exactly when the offset is at the bottom.
pub proof fn law_scroll_within_range(s: SessionState, delta: int)
    ensures
        scrolled_state(s, delta).scroll <= s.max_scroll,
        scrolled_state(s, delta).max_scroll == s.max_scroll,
        scrolled_state(s, delta).follow <==> scrolled_state(s, delta).scroll == s.max_scroll,
{
}

/// Measuring the transcript keeps the offset within range, and a following
/// transcript sits at the bottom.
pub proof fn law_measure_within_range(s: SessionState, total: u16, height: u16)
    ensures
        measured(s, total, height).scroll <= measured(s, total, height).max_scroll,
        s.follow ==> measured(s, total, height).scroll == measured(s, total, height).max_scroll,
        measured(s, total, height).max_scroll as int + height as int >= total as int,
{
}

/// A truncated line respects its cap: at most `max` characters (a zero cap
/// gives the ellipsis alone), and a single short line passes through untouched.
pub proof fn law_truncate_within_cap(s: Seq<char>, max: nat)
    ensures
        max > 0 ==> truncated(s, max).len() <= max,
        max == 0 ==> truncated(s, max) == ellipsis(),
        (max > 0 && lines(s).len() == 1 && lines(s)[0].len() <= max) ==> truncated(s, max) == lines(s)[0],
{
}

proof fn lemma_words_no_ws(s: Seq<char>)
    ensures
        forall|i: int, j: int|
            0 <= i < words(s).len() && 0 <= j < words(s)[i].len() ==> !is_ws(#[trigger] words(s)[i][j]),
    decreases s.len(),
{
    if s.len() > 0 {
        let t = s.drop_first();
        lemma_words_no_ws(t);
        if is_ws(s[0]) {
        } else if s.len() > 1 && !is_ws(s[1]) && words(t).len() > 0 {
            let w = words(s);
            assert forall|i: int, j: int| 0 <= i < w.len() && 0 <= j < w[i].len() implies !is_ws(#[trigger] w[i][j]) by {
                if i == 0 {
                    if j > 0 {
                        assert(w[0][j] == words(t)[0][j - 1]);
                    }
                } else {
                    assert(w[i] == words(t)[i]);
                }
            }
        } else {
            let w = words(s);
            assert forall|i: int, j: int| 0 <= i < w.len() && 0 <= j < w[i].len() implies !is_ws(#[trigger] w[i][j]) by {
                if i > 0 {
                    assert(w[i] == words(t)[i - 1]);
                }
            }
        }
    }
}

proof fn lemma_join_no_newline(parts: Seq<Seq<char>>)
    requires
        forall|i: int, j: int| 0 <= i < parts.len() && 0 <= j < parts[i].len() ==> #[trigger] parts[i][j] != '\n',
    ensures
        forall|k: int| 0 <= k < join(parts, seq![' ']).len() ==> #[trigger] join(parts, seq![' '])[k] != '\n',
    decreases parts.len(),
{
    if parts.len() > 1 {
        let rest = parts.drop_first();
        assert forall|i: int, j: int| 0 <= i < rest.len() && 0 <= j < rest[i].len() implies #[trigger] rest[i][j]
            != '\n' by {
            assert(rest[i] == parts[i + 1]);
        }
        lemma_join_no_newline(rest);
        let whole = join(parts, seq![' ']);
        assert(whole == parts[0] + seq![' '] + join(rest, seq![' ']));
        assert forall|k: int| 0 <= k < whole.len() implies #[trigger] whole[k] != '\n' by {
            if k < parts[0].len() {
                assert(whole[k] == parts[0][k]);
            } else if k == parts[0].len() {
                assert(whole[k] == ' ');
            } else {
                assert(whole[k] == join(rest, seq![' '])[k - parts[0].len() - 1]);
            }
        }
    } else if parts.len() == 1 {
        assert(join(parts, seq![' ']) == parts[0]);
    }
}

/// A title derived from a first message is one line of at most 60 characters.
pub proof fn law_derived_title_is_short(text: Seq<char>)
    ensures
        derived_title(text).len() <= MAX_TITLE_LEN,
        forall|k: int| 0 <= k < derived_title(text).len() ==> #[trigger] derived_title(text)[k] != '\n',
{
    let ws = words(first_line(text));
    lemma_words_no_ws(first_line(text));
    assert forall|i: int, j: int| 0 <= i < ws.len() && 0 <= j < ws[i].len() implies #[trigger] ws[i][j] != '\n' by {
        assert(!is_ws(ws[i][j]));
    }
    lemma_join_no_newline(ws);
    let collapsed = join(ws, seq![' ']);
    if collapsed.len() > MAX_TITLE_LEN {
        let cut = collapsed.take(MAX_TITLE_LEN as int);
        lemma_trim_end_is_prefix(cut);
        assert forall|k: int| 0 <= k < trim_end(cut).len() implies #[trigger] trim_end(cut)[k] != '\n' by {
            assert(trim_end(cut)[k] == cut[k]);
            assert(cut[k] == collapsed[k]);
        }
    }
}

proof fn lemma_fill_missing_places(ids: Seq<Seq<char>>, base: Map<Seq<char>, Point>, n: nat)
    requires
        n <= ids.len(),
    ensures
        forall|k: Seq<char>| base.dom().contains(k) ==> #[trigger] fill_missing(ids, base, n).dom().contains(k)
            && fill_missing(ids, base, n)[k] == base[k],
        forall|j: int| 0 <= j < n ==> fill_missing(ids, base, n).dom().contains(#[trigger] ids[j]),
        forall|k: Seq<char>|
            #[trigger] fill_missing(ids, base, n).dom().contains(k) && !base.dom().contains(k) ==> exists|j: int|
                0 <= j < n && ids[j] == k && fill_missing(ids, base, n)[k] == grid_point(j as nat) && forall|m: int|
                    0 <= m < j ==> #[trigger] ids[m] != k,
    decreases n,
{
    if n > 0 {
        lemma_fill_missing_places(ids, base, (n - 1) as nat);
        let prev = fill_missing(ids, base, (n - 1) as nat);
        let cur = fill_missing(ids, base, n);
        assert forall|k: Seq<char>| #[trigger] cur.dom().contains(k) && !base.dom().contains(k) implies exists|j: int|
            0 <= j < n && ids[j] == k && cur[k] == grid_point(j as nat) && forall|m: int| 0 <= m < j ==> #[trigger] ids[m]
                != k by {
            if prev.dom().contains(k) {
                let j = choose|j: int|
                    0 <= j < n - 1 && ids[j] == k && prev[k] == grid_point(j as nat) && forall|m: int|
                        0 <= m < j ==> #[trigger] ids[m] != k;
                assert(cur[k] == prev[k]);
            } else {
                assert(k == ids[n - 1]);
                assert forall|m: int| 0 <= m < n - 1 implies #[trigger] ids[m] != k by {
                    assert(prev.dom().contains(ids[m]));
                }
            }
        }
    }
}

/// Every node of the graph is placed: the layout's point where it has one
/// (the layout's points are kept as they are), and a grid point otherwise.
pub proof fn law_every_node_placed(g: Graph, l: Layout)
    ensures
        forall|i: int|
            0 <= i < g.nodes@.len() ==> resolved_placement(g, l).dom().contains(#[trigger] g.nodes@[i].id.0@),
        forall|k: Seq<char>| #[trigger] placement(l.positions@).dom().contains(k) ==> resolved_placement(g, l).dom().contains(k)
            && resolved_placement(g, l)[k] == placement(l.positions@)[k],
{
    let names = node_ids(g.nodes@);
    let ids = sorted_strs(names);
    lemma_str_order_total();
    names.lemma_sort_by_ensures(str_order());
    lemma_fill_missing_places(ids, placement(l.positions@), ids.len());
    assert forall|i: int| 0 <= i < g.nodes@.len() implies resolved_placement(g, l).dom().contains(
        #[trigger] g.nodes@[i].id.0@,
    ) by {
        let k = g.nodes@[i].id.0@;
        assert(names[i] == k);
        assert(names.contains(k));
        names.to_multiset_ensures();
        ids.to_multiset_ensures();
        assert(names.to_multiset().count(k) > 0);
        assert(ids.to_multiset().count(k) > 0);
        assert(ids.contains(k));
        let j = choose|j: int| 0 <= j < ids.len() && ids[j] == k;
        assert(fill_missing(ids, placement(l.positions@), ids.len()).dom().contains(ids[j]));
    }
}

/// Grid points are distinct: two different indices (below the row where the
/// grid's rows saturate) give two different points.
pub proof fn law_grid_points_distinct(i: nat, j: nat)
    requires
        i != j,
        i / 4 <= 357913941,
        j / 4 <= 357913941,
    ensures
        grid_point(i) != grid_point(j),
{
    assert(i % 4 != j % 4 || i / 4 != j / 4) by (nonlinear_arith)
        requires
            i != j,
    ;
    if i % 4 != j % 4 {
        assert((i % 4) * 24 != (j % 4) * 24) by (nonlinear_arith)
            requires
                i % 4 != j % 4,
        ;
    } else {
        assert((i / 4) * 6 != (j / 4) * 6) by (nonlinear_arith)
            requires
                i / 4 != j / 4,
        ;
    }
}

/// With a layout that places nothing, different nodes get different points
/// (for graphs smaller than the grid's saturating row).
pub proof fn law_auto_layout_distinct(g: Graph, l: Layout, a: Seq<char>, b: Seq<char>)
    requires
        l.positions@.len() == 0,
        g.nodes@.len() < 1431655768,
        a != b,
        resolved_placement(g, l).dom().contains(a),
        resolved_placement(g, l).dom().contains(b),
    ensures
        resolved_placement(g, l)[a] != resolved_placement(g, l)[b],
{
    let names = node_ids(g.nodes@);
    let ids = sorted_strs(names);
    lemma_str_order_total();
    names.lemma_sort_by_ensures(str_order());
    names.to_multiset_ensures();
    ids.to_multiset_ensures();
    assert(ids.len() == names.len()) by {
        assert(ids.to_multiset().len() == names.to_multiset().len());
    }
    let base = placement(l.positions@);
    assert(base.dom() =~= Set::<Seq<char>>::empty());
    lemma_fill_missing_places(ids, base, ids.len());
    let pl = fill_missing(ids, base, ids.len());
    let ja = choose|j: int|
        0 <= j < ids.len() && ids[j] == a && pl[a] == grid_point(j as nat) && forall|m: int| 0 <= m < j ==> #[trigger] ids[m] != a;
    let jb = choose|j: int|
        0 <= j < ids.len() && ids[j] == b && pl[b] == grid_point(j as nat) && forall|m: int| 0 <= m < j ==> #[trigger] ids[m] != b;
    assert(ja != jb);
    law_grid_points_distinct(ja as nat, jb as nat);
}

/// A chat stream ends its turn exactly once: whatever the stream's items,
/// the messages passed on hold one that ends the turn, the last; a stream
/// that closes early ends with the closing failure.
pub proof fn law_stream_ends_once(msgs: Seq<StreamMsg>, closing: StreamMsg)
    requires
        is_terminal(closing),
    ensures
        relay_sent(msgs, closing).len() >= 1,
        is_terminal(relay_sent(msgs, closing).last()),
        forall|i: int| 0 <= i < relay_sent(msgs, closing).len() - 1 ==> !is_terminal(#[trigger] relay_sent(msgs, closing)[i]),
    decreases msgs.len(),
{
    if msgs.len() > 0 && !is_terminal(msgs[0]) {
        law_stream_ends_once(msgs.drop_first(), closing);
        let rest = relay_sent(msgs.drop_first(), closing);
        let out = relay_sent(msgs, closing);
        assert(out == seq![msgs[0]] + rest);
        assert forall|i: int| 0 <= i < out.len() - 1 implies !is_terminal(#[trigger] out[i]) by {
            if i > 0 {
                assert(out[i] == rest[i - 1]);
            }
        }
    }
}

/// Left moves the chat input's cursor back over a character without
/// touching the text, so a character typed next goes in before the one the
/// cursor stood after: with no selection and the cursor inside a line, Left
/// then a typed character inserts it one column further back.
pub proof fn law_left_then_type(
    s0: SessionState,
    s1: SessionState,
    s2: SessionState,
    left: KeyEvent,
    typed: KeyEvent,
    t0: Option<Toast>,
    t1: Option<Toast>,
    t2: Option<Toast>,
    c1: Cmd,
    c2: Cmd,
)
    requires
        left.code == KeyCode::Left && !left.modifiers.ctrl && !left.modifiers.alt && !left.modifiers.shift,
        typed_char(typed) is Some,
        plain_cursor(s0.input),
        composer_cursor(s0.input).1 > 0,
        chat_key_post(left, s0, s1, t0, t1, c1),
        chat_key_post(typed, s1, s2, t1, t2, c2),
    ensures
        composer_lines(s1.input) == composer_lines(s0.input),
        composer_cursor(s1.input) == (composer_cursor(s0.input).0, (composer_cursor(s0.input).1 - 1) as usize),
        composer_lines(s2.input) == with_char(
            composer_lines(s0.input),
            composer_cursor(s0.input).0 as int,
            composer_cursor(s0.input).1 - 1,
            typed_char(typed).unwrap(),
        ),
{
    assert(moves_back(left));
    let ch1 = choose|ch: bool| crate::runtime::model::editor::input_post(s0.input, left, s1.input, ch);
    assert(crate::runtime::model::editor::input_post(s0.input, left, s1.input, ch1));
    assert(plain_cursor(s1.input));
    let ch2 = choose|ch: bool| crate::runtime::model::editor::input_post(s1.input, typed, s2.input, ch);
    assert(crate::runtime::model::editor::input_post(s1.input, typed, s2.input, ch2));
}

/// An edge is drawn the same whichever end is its source: for two cards in
/// different columns, swapping the ends gives the same cells, and the line
/// starts in the column of the card further left.
pub proof fn law_edge_symmetric(area: Rect, a: Point, b: Point)
    requires
        a.x != b.x,
    ensures
        edge_cells_spec(area, a, b) == edge_cells_spec(area, b, a),
        edge_cells_spec(area, a, b).len() > 0 ==> edge_cells_spec(area, a, b)[0].0 == sat_add_u16(
            area.x as int,
            cell_offset(if a.x < b.x { a.x as int } else { b.x as int }) as int,
        ),
{
}

/// The lines `ls`, each followed by a newline.
pub open spec fn with_newlines(ls: Seq<Seq<char>>) -> Seq<char>
    decreases ls.len(),
{
    if ls.len() == 0 {
        Seq::empty()
    } else {
        ls[0] + seq!['\n'] + with_newlines(ls.drop_first())
    }
}

/// Inside an open fence, lines that are not fences all join the block's
/// code, in order, each with its newline.
pub proof fn law_code_lines_accumulate(ls: Seq<Seq<char>>, st: MdState)
    requires
        st.in_code,
        forall|i: int| 0 <= i < ls.len() ==> fence_rest(#[trigger] ls[i]) is None,
    ensures
        md_fold(ls, st) == (MdState { code: st.code + with_newlines(ls), ..st }),
    decreases ls.len(),
{
    if ls.len() == 0 {
        assert(st.code + with_newlines(ls) =~= st.code);
    } else {
        let next = md_step(st, ls[0]);
        assert(next == (MdState { code: st.code + ls[0] + seq!['\n'], ..st }));
        assert forall|i: int| 0 <= i < ls.drop_first().len() implies fence_rest(#[trigger] ls.drop_first()[i]) is None by {
            assert(ls.drop_first()[i] == ls[i + 1]);
        }
        law_code_lines_accumulate(ls.drop_first(), next);
        assert(st.code + ls[0] + seq!['\n'] + with_newlines(ls.drop_first()) =~= st.code + with_newlines(ls));
    }
}

proof fn lemma_md_fold_append(a: Seq<Seq<char>>, b: Seq<Seq<char>>, st: MdState)
    ensures
        md_fold(a + b, st) == md_fold(b, md_fold(a, st)),
    decreases a.len(),
{
    if a.len() > 0 {
        assert((a + b).drop_first() =~= a.drop_first() + b);
        assert((a + b)[0] == a[0]);
        lemma_md_fold_append(a.drop_first(), b, md_step(st, a[0]));
    } else {
        assert(a + b =~= b);
    }
}

/// A text that is one fenced block (an opening fence, lines that are not
/// fences, a closing fence) splits into one code block whose code is all
/// the lines between the fences, in order, each followed by a newline, and
/// whose language is the opening fence's trimmed tag, if any.
pub proof fn law_fenced_block(text: Seq<char>, open: Seq<char>, body: Seq<Seq<char>>, close: Seq<char>)
    requires
        lines(text) == seq![open] + body + seq![close],
        fence_rest(open) is Some,
        fence_rest(close) is Some,
        forall|i: int| 0 <= i < body.len() ==> fence_rest(#[trigger] body[i]) is None,
    ensures
        markdown_blocks(text) == seq![
            MdBlockView::Code(
                with_newlines(body),
                if crate::text::trim(fence_rest(open).unwrap()).len() > 0 {
                    Some(crate::text::trim(fence_rest(open).unwrap()))
                } else {
                    None
                },
            ),
        ],
{
    let st0 = MdState { blocks: Seq::empty(), prose: Seq::empty(), code: Seq::empty(), lang: None, in_code: false };
    lemma_md_fold_append(seq![open] + body, seq![close], st0);
    lemma_md_fold_append(seq![open], body, st0);
    let st1 = md_fold(seq![open], st0);
    reveal_with_fuel(md_fold, 2);
    assert(seq![open].drop_first() =~= Seq::<Seq<char>>::empty());
    assert(seq![open][0] == open);
    assert(st1 == md_step(st0, open));
    law_code_lines_accumulate(body, st1);
    let st2 = md_fold(body, st1);
    assert(seq![close].drop_first() =~= Seq::<Seq<char>>::empty());
    assert(seq![close][0] == close);
    assert(md_fold(seq![close], st2) == md_step(st2, close));
    assert(Seq::<char>::empty() + with_newlines(body) =~= with_newlines(body));
    assert(Seq::<MdBlockView>::empty().push(MdBlockView::Code(st2.code, st2.lang)) =~= seq![
        MdBlockView::Code(st2.code, st2.lang),
    ]);
}

/// While a turn is in flight the session transcript shows the reply so far:
/// once text has arrived, its rows end with the spinner row and then one
/// markdown row holding exactly the text received.
pub proof fn law_streaming_text_shown(s: SessionState, creating_ms: u128, turn_ms: u128, rows: Seq<Row>)
    requires
        rows_match(rows, session_transcript_plan(s, creating_ms, turn_ms)),
        s.streaming is Some,
        s.streaming->0.buffer@.len() > 0,
    ensures
        rows.len() >= 2,
        rows.last() matches Row::Markdown(t) && t@ == s.streaming->0.buffer@,
        rows[rows.len() - 2] matches Row::Styled(l) && l.text() == spinner_at(turn_ms) + " assistant"@,
{
    let plan = session_transcript_plan(s, creating_ms, turn_ms);
    let n = plan.len();
    assert(row_matches_at(rows, plan, n - 1));
    assert(row_matches_at(rows, plan, n - 2));
    lemma_one_span_text(rows[n - 2], plan[n - 2]);
}

/// The same in the Workspace: with a chat whose turn has received text, the
/// chat's rows end with the spinner row and one markdown row holding the text.
pub proof fn law_workspace_streaming_text_shown(ws: WorkspaceState, turn_ms: u128, rows: Seq<Row>)
    requires
        rows_match(rows, workspace_transcript_plan(ws, turn_ms)),
        ws.chat is Some,
        ws.chat->0.streaming is Some,
        ws.chat->0.streaming->0.buffer@.len() > 0,
    ensures
        rows.len() >= 2,
        rows.last() matches Row::Markdown(t) && t@ == ws.chat->0.streaming->0.buffer@,
        rows[rows.len() - 2] matches Row::Styled(l) && l.text() == spinner_at(turn_ms) + " assistant"@,
{
    let plan = workspace_transcript_plan(ws, turn_ms);
    let n = plan.len();
    assert(row_matches_at(rows, plan, n - 1));
    assert(row_matches_at(rows, plan, n - 2));
    lemma_one_span_text(rows[n - 2], plan[n - 2]);
}

spec fn row_matches_at(rows: Seq<Row>, plans: Seq<RowPlan>, i: int) -> bool {
    crate::runtime::view::transcript::row_matches(rows[i], plans[i])
}

proof fn lemma_one_span_text(r: Row, p: RowPlan)
    requires
        crate::runtime::view::transcript::row_matches(r, p),
        p is Plain,
    ensures
        r matches Row::Styled(l) && l.text() == p->Plain_0,
{
    match r {
        Row::Styled(l) => {
            reveal_with_fuel(crate::runtime::view::style::spans_text, 2);
            assert(l.spans@.drop_last() =~= Seq::<crate::runtime::view::style::Span>::empty());
        },
        _ => {},
    }
}

} // verus!
