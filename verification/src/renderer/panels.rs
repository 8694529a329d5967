//! The panels that sit in a corner of the canvas and leave the grid in
//! use: the page of a running tutorial at the top right, and the help panel
//! with a tip and hints on the controls at the top left.

use vstd::prelude::*;
use vstd::string::*;
use crate::canvas::{Draw, Font, TextBaseline, SUBPIXELS};
use crate::input::{first_use_flags_are_monotone, follows, Event};
use crate::layout::{
    help_content_width, help_panel, help_panel_bounds, help_part_height, help_room,
    tutorial_content_width, tutorial_panel, tutorial_panel_bounds, tutorial_room, Rect,
    EXTENT_LIMIT, HELP_LINE_H, HELP_PADDING, HELP_SECTION_GAP, HELP_TITLE_H, PANEL_TEXT_INSET,
    PANEL_TITLE_GAP, TUTORIAL_LINE_H, TUTORIAL_NAV_GAP, TUTORIAL_PADDING, TUTORIAL_TITLE_H,
};
use crate::palette::OPAQUE;
use crate::palette::{
    has_tag, rgb_text, tag_is, COLOR_ACCENT, COLOR_PANEL_BG, COLOR_PANEL_BORDER,
    COLOR_TEXT_PRIMARY, COLOR_TEXT_SECONDARY,
};
use crate::protocol::TutorialMsg;
use crate::renderer::grid::{cell_at, known_cell};
use crate::renderer::wrap::{texts, wrap_text, wraps_to};
use crate::renderer::Renderer;
use crate::state::GameState;
use crate::text::{decimal, push_decimal, str_eq};

verus! {

/// The line that names the keys that work everywhere.
pub open spec fn keys_line() -> Seq<char> {
    "Keys: P pause  + map  ? tutorial  h tips on/off"@
}

/// The hint for what the player can do now, if there is one. The first of
/// these that applies decides: an open load menu; an open tutorial menu; a
/// running tutorial, by whether its page is shown; the game waiting for
/// input, by the active cell (a city of the player without a unit asks for
/// a choice of production, any other known cell for a move, a cell that is
/// not known for no more than a look, and no active cell for nothing); a
/// game that is paused or about to pause.
pub open spec fn contextual_line(state: GameState) -> Option<Seq<char>> {
    if state.load_menu is Some {
        Some("Load menu: click a file, ESC closes"@)
    } else if state.tutorial_menu is Some {
        Some("Tutorial menu: click a scenario, ESC closes"@)
    } else if state.tutorial is Some {
        if state.tutorial->0.overlay_visible {
            Some("Tutorial: N next, B back, ESC hide"@)
        } else {
            Some("Tutorial: ESC show overlay"@)
        }
    } else if state.waiting_for_input {
        if state.attention_coords@.len() > 0 {
            match known_cell(
                state.cells,
                state.attention_coords@[0].0 as int,
                state.attention_coords@[0].1 as int,
            ) {
                Some(cell) => if tag_is(cell.cs, "player"@) && cell.t@ == "city"@ && cell.u
                    is None {
                    Some("Now: choose production (F/T/P/D/S/C/B/Z), X none, SPACE skip"@)
                } else {
                    Some("Now: move QWEASDZXC, SPACE skip, U unload/wake, S sentry, L explore"@)
                },
                None => Some("Now: act on the highlighted item"@),
            }
        } else {
            None
        }
    } else if state.paused || state.pause_requested {
        Some("Now: SPACE steps one round"@)
    } else {
        None
    }
}

/// The nudge toward setting a destination.
pub open spec fn destination_nudge() -> Seq<char> {
    ". sets destination at hover"@
}

/// The nudges toward mechanics that have not been used yet, in a fixed
/// order: the map cycle, the tutorial menu, the pause and, only while a
/// cell is hovered, the destination and the waypoint.
pub open spec fn nudges(state: GameState) -> Seq<Seq<char>> {
    (if !state.used_map_cycle {
        seq!["+ shows enemy/actual map"@]
    } else {
        Seq::empty()
    }) + (if !state.used_tutorial_menu {
        seq!["? opens tutorial menu"@]
    } else {
        Seq::empty()
    }) + (if !state.used_pause {
        seq!["P pauses at round end"@]
    } else {
        Seq::empty()
    }) + (if state.hover_col is Some && state.hover_row is Some && !state.used_destination {
        seq![destination_nudge()]
    } else {
        Seq::empty()
    }) + (if state.hover_col is Some && state.hover_row is Some && !state.used_waypoint {
        seq!["* toggles waypoint at hover"@]
    } else {
        Seq::empty()
    })
}

/// The parts, with `sep` between each two of them.
pub open spec fn joined(parts: Seq<Seq<char>>, sep: Seq<char>) -> Seq<char>
    decreases parts.len(),
{
    if parts.len() == 0 {
        Seq::empty()
    } else if parts.len() == 1 {
        parts[0]
    } else {
        joined(parts.drop_last(), sep) + sep + parts.last()
    }
}

/// The hints on the controls: the line of keys, the hint for what the
/// player can do now, and a line of nudges where there are any.
pub open spec fn controls_lines(state: GameState) -> Seq<Seq<char>> {
    seq![keys_line()] + (match contextual_line(state) {
        Some(line) => seq![line],
        None => Seq::empty(),
    }) + (if nudges(state).len() > 0 {
        seq!["New: "@ + joined(nudges(state), "  "@)]
    } else {
        Seq::empty()
    })
}

/// Once the destination has been used, its nudge is gone.
pub proof fn destination_nudge_is_gone(state: GameState)
    requires
        state.used_destination,
    ensures
        !nudges(state).contains(destination_nudge()),
{
    reveal_strlit("+ shows enemy/actual map");
    reveal_strlit("? opens tutorial menu");
    reveal_strlit("P pauses at round end");
    reveal_strlit(". sets destination at hover");
    reveal_strlit("* toggles waypoint at hover");
    let d = destination_nudge();
    assert(d[0] == '.');
    assert("+ shows enemy/actual map"@[0] == '+');
    assert("? opens tutorial menu"@[0] == '?');
    assert("P pauses at round end"@[0] == 'P');
    assert("* toggles waypoint at hover"@[0] == '*');
    assert forall|i: int| 0 <= i < nudges(state).len() implies nudges(state)[i] != d by {
        let n = nudges(state)[i];
        assert(n[0] != '.');
    }
}

/// The nudge toward the destination never comes back: once the destination
/// has been used at some point of a session, no later state of the session
/// shows its nudge, whatever events lie between.
pub proof fn destination_nudge_never_reappears(
    states: Seq<GameState>,
    events: Seq<Event>,
    i: int,
    j: int,
)
    requires
        states.len() == events.len() + 1,
        forall|k: int| 0 <= k < events.len() ==> follows(states[k], #[trigger] events[k], states[k + 1]),
        0 <= i <= j < states.len(),
        states[i].used_destination,
    ensures
        !nudges(states[j]).contains(destination_nudge()),
{
    first_use_flags_are_monotone(states, events, i, j);
    destination_nudge_is_gone(states[j]);
}

fn push_nudge(list: &mut Vec<&'static str>, show: bool, nudge: &'static str)
    ensures
        slice_texts(final(list)@) == slice_texts(old(list)@) + (if show {
            seq![nudge@]
        } else {
            Seq::empty()
        }),
{
    if show {
        list.push(nudge);
    }
    assert(slice_texts(list@) =~= slice_texts(old(list)@) + (if show {
        seq![nudge@]
    } else {
        Seq::empty()
    }));
}

/// The texts of a list of string slices.
pub open spec fn slice_texts(v: Seq<&'static str>) -> Seq<Seq<char>> {
    v.map_values(|s: &'static str| s@)
}

fn join_nudges(list: &Vec<&'static str>) -> (r: String)
    requires
        list@.len() > 0,
    ensures
        r@ == "New: "@ + joined(slice_texts(list@), "  "@),
{
    let ghost parts = slice_texts(list@);
    let mut out = "New: ".to_string();
    out.append(list[0]);
    let mut i: usize = 1;
    assert(parts.take(1) =~= seq![parts[0]]);
    assert(out@ =~= "New: "@ + joined(parts.take(1), "  "@));
    while i < list.len()
        invariant
            1 <= i <= list@.len(),
            parts == slice_texts(list@),
            out@ == "New: "@ + joined(parts.take(i as int), "  "@),
        decreases list.len() - i,
    {
        out.append("  ");
        out.append(list[i]);
        proof {
            let next = parts.take(i + 1);
            assert(next.drop_last() =~= parts.take(i as int));
            assert(next.last() == list@[i as int]@);
            assert(out@ =~= "New: "@ + joined(next, "  "@));
        }
        i += 1;
    }
    assert(parts.take(list@.len() as int) =~= parts);
    out
}

fn contextual(state: &GameState) -> (r: Option<&'static str>)
    ensures
        match r {
            Some(s) => contextual_line(*state) == Some(s@),
            None => contextual_line(*state) is None,
        },
{
    if state.load_menu.is_some() {
        return Some("Load menu: click a file, ESC closes");
    }
    if state.tutorial_menu.is_some() {
        return Some("Tutorial menu: click a scenario, ESC closes");
    }
    match &state.tutorial {
        Some(tut) => {
            return Some(
                if tut.overlay_visible {
                    "Tutorial: N next, B back, ESC hide"
                } else {
                    "Tutorial: ESC show overlay"
                },
            );
        },
        None => {},
    }
    if state.waiting_for_input {
        if state.attention_coords.len() > 0 {
            let first = state.attention_coords[0];
            match cell_at(&state.cells, first.0, first.1) {
                Some(cell) => {
                    if has_tag(&cell.cs, "player") && str_eq(cell.t.as_str(), "city")
                        && cell.u.is_none() {
                        Some("Now: choose production (F/T/P/D/S/C/B/Z), X none, SPACE skip")
                    } else {
                        Some("Now: move QWEASDZXC, SPACE skip, U unload/wake, S sentry, L explore")
                    }
                },
                None => Some("Now: act on the highlighted item"),
            }
        } else {
            None
        }
    } else if state.paused || state.pause_requested {
        Some("Now: SPACE steps one round")
    } else {
        None
    }
}

/// The hints on the controls for the state.
pub fn compute_controls_lines(state: &GameState) -> (lines: Vec<String>)
    ensures
        texts(lines@) == controls_lines(*state),
{
    let mut lines: Vec<String> = Vec::new();
    lines.push("Keys: P pause  + map  ? tutorial  h tips on/off".to_string());
    match contextual(state) {
        Some(line) => {
            lines.push(line.to_string());
        },
        None => {},
    }
    let hovering = state.hover_col.is_some() && state.hover_row.is_some();
    let mut list: Vec<&'static str> = Vec::new();
    let ghost none = slice_texts(list@);
    assert(none =~= Seq::<Seq<char>>::empty());
    push_nudge(&mut list, !state.used_map_cycle, "+ shows enemy/actual map");
    assert(slice_texts(list@) =~= (if !state.used_map_cycle {
        seq!["+ shows enemy/actual map"@]
    } else {
        Seq::empty()
    }));
    push_nudge(&mut list, !state.used_tutorial_menu, "? opens tutorial menu");
    push_nudge(&mut list, !state.used_pause, "P pauses at round end");
    push_nudge(&mut list, hovering && !state.used_destination, ". sets destination at hover");
    push_nudge(&mut list, hovering && !state.used_waypoint, "* toggles waypoint at hover");
    assert(slice_texts(list@) == nudges(*state));
    let ghost head = texts(lines@);
    assert(head =~= seq![keys_line()] + (match contextual_line(*state) {
        Some(line) => seq![line],
        None => Seq::empty(),
    }));
    if list.len() > 0 {
        lines.push(join_nudges(&list));
        assert(texts(lines@) =~= head + seq!["New: "@ + joined(nudges(*state), "  "@)]);
    } else {
        assert(texts(lines@) =~= head + Seq::<Seq<char>>::empty());
    }
    lines
}

/// The opacity of the background of the tutorial panel.
pub const TUTORIAL_ALPHA: u32 = 920_000;

/// The opacity of the background of the help panel.
pub const HELP_ALPHA: u32 = 900_000;

/// The width of the accent bar along the left edge of a panel.
pub const ACCENT_BAR_W: i128 = 3 * SUBPIXELS;

/// The frame of a panel with the rectangle `r`: its translucent
/// background, the accent bar along its left edge, its border, the title,
/// a line under the title, and the font and colour for the text below.
pub open spec fn panel_frame_ops(
    r: Rect,
    alpha: int,
    padding: int,
    title_h: int,
    title: Seq<char>,
) -> Seq<Draw> {
    seq![
        Draw::SetGlobalAlpha(alpha),
        Draw::SetFillStyle(rgb_text(COLOR_PANEL_BG)),
        Draw::FillRect { x: r.x as int, y: r.y as int, w: r.w as int, h: r.h as int },
        Draw::SetGlobalAlpha(OPAQUE as int),
        Draw::SetFillStyle(rgb_text(COLOR_ACCENT)),
        Draw::FillRect { x: r.x as int, y: r.y as int, w: ACCENT_BAR_W as int, h: r.h as int },
        Draw::SetStrokeStyle(rgb_text(COLOR_PANEL_BORDER)),
        Draw::SetLineWidth(SUBPIXELS as int),
        Draw::StrokeRect { x: r.x as int, y: r.y as int, w: r.w as int, h: r.h as int },
        Draw::SetFont(Font::MenuTitle),
        Draw::SetFillStyle(rgb_text(COLOR_ACCENT)),
        Draw::SetTextBaseline(TextBaseline::Top),
        Draw::FillText { text: title, x: r.x + padding + PANEL_TEXT_INSET, y: r.y + padding },
        Draw::SetStrokeStyle(rgb_text(COLOR_PANEL_BORDER)),
        Draw::BeginPath,
        Draw::MoveTo { x: r.x + padding, y: r.y + padding + title_h },
        Draw::LineTo { x: r.x + r.w - padding, y: r.y + padding + title_h },
        Draw::Stroke,
        Draw::SetFont(Font::MenuItem),
        Draw::SetFillStyle(rgb_text(COLOR_TEXT_PRIMARY)),
    ]
}

/// The first `n` of the lines, set one under the other from `top` down,
/// `line_h` apart.
pub open spec fn text_lines_ops(
    lines: Seq<Seq<char>>,
    x: int,
    top: int,
    line_h: int,
    n: int,
) -> Seq<Draw>
    decreases n,
{
    if n <= 0 {
        Seq::empty()
    } else {
        text_lines_ops(lines, x, top, line_h, n - 1).push(
            Draw::FillText { text: lines[n - 1], x, y: top + (n - 1) * line_h },
        )
    }
}

/// The line at the foot of the tutorial panel: the page, counted from one,
/// of how many, and the keys that turn the pages.
pub open spec fn page_line(tut: TutorialMsg) -> Seq<char> {
    "Page "@ + decimal((tut.page_index + 1) as nat) + "/"@ + decimal(tut.page_count as nat)
        + "  [N]ext [B]ack [ESC]hide"@
}

/// The tutorial panel on a canvas of width `canvas_w`, with the page's
/// text in the given lines: the frame with the scenario's name as title,
/// the lines, and the line at the foot.
pub open spec fn tutorial_overlay_ops(tut: TutorialMsg, canvas_w: int, lines: Seq<Seq<char>>) -> Seq<
    Draw,
> {
    let r = tutorial_panel(canvas_w, lines.len() as int);
    let text_x = r.x + TUTORIAL_PADDING + PANEL_TEXT_INSET;
    let text_top = r.y + TUTORIAL_PADDING + TUTORIAL_TITLE_H + PANEL_TITLE_GAP;
    seq![Draw::SetFont(Font::MenuItem)] + panel_frame_ops(
        r,
        TUTORIAL_ALPHA as int,
        TUTORIAL_PADDING as int,
        TUTORIAL_TITLE_H as int,
        tut.scenario_name@,
    ) + text_lines_ops(lines, text_x, text_top, TUTORIAL_LINE_H as int, lines.len() as int)
        + seq![
        Draw::SetFont(Font::MenuHint),
        Draw::SetFillStyle(rgb_text(COLOR_TEXT_SECONDARY)),
        Draw::FillText {
            text: page_line(tut),
            x: text_x,
            y: text_top + lines.len() * TUTORIAL_LINE_H + TUTORIAL_NAV_GAP,
        },
        Draw::SetTextBaseline(TextBaseline::Alphabetic),
    ]
}

/// The title of the help panel: that of the tip, or `Tip`.
pub open spec fn tip_title(state: GameState) -> Seq<char> {
    match state.tips {
        Some(t) => t.title@,
        None => "Tip"@,
    }
}

/// The text of the help panel: that of the tip, or a word on how to hide
/// the panel.
pub open spec fn tip_text(state: GameState) -> Seq<char> {
    match state.tips {
        Some(t) => t.text@,
        None => "Use [H] to hide this panel."@,
    }
}

/// The help panel on a canvas of width `canvas_w`, with the tip and the
/// hints on the controls in the given lines: the frame with the tip's
/// title, the tip, the hints in the secondary colour, and a word on how to
/// hide the panel.
pub open spec fn help_overlay_ops(
    state: GameState,
    canvas_w: int,
    tip_lines: Seq<Seq<char>>,
    control_lines: Seq<Seq<char>>,
) -> Seq<Draw> {
    let r = help_panel(canvas_w, tip_lines.len() as int, control_lines.len() as int);
    let text_x = r.x + HELP_PADDING + PANEL_TEXT_INSET;
    let text_top = r.y + HELP_PADDING + HELP_TITLE_H + PANEL_TITLE_GAP;
    let controls_top = text_top + help_part_height(tip_lines.len() as int) + HELP_SECTION_GAP;
    seq![Draw::SetFont(Font::MenuItem)] + panel_frame_ops(
        r,
        HELP_ALPHA as int,
        HELP_PADDING as int,
        HELP_TITLE_H as int,
        tip_title(state),
    ) + text_lines_ops(tip_lines, text_x, text_top, HELP_LINE_H as int, tip_lines.len() as int)
        + seq![Draw::SetFillStyle(rgb_text(COLOR_TEXT_SECONDARY))] + text_lines_ops(
        control_lines,
        text_x,
        controls_top,
        HELP_LINE_H as int,
        control_lines.len() as int,
    ) + seq![
        Draw::SetFont(Font::MenuHint),
        Draw::SetFillStyle(rgb_text(COLOR_TEXT_SECONDARY)),
        Draw::FillText {
            text: "[H] hide panel"@,
            x: text_x,
            y: controls_top + help_part_height(control_lines.len() as int) + HELP_SECTION_GAP,
        },
        Draw::SetTextBaseline(TextBaseline::Alphabetic),
    ]
}

/// The lines of the first `n` groups, one group after the other.
pub open spec fn flattened(groups: Seq<Seq<Seq<char>>>, n: int) -> Seq<Seq<char>>
    decreases n,
{
    if n <= 0 {
        Seq::empty()
    } else {
        flattened(groups, n - 1) + groups[n - 1]
    }
}

/// Whether `groups` holds, for each of the texts, the lines into which it
/// is wrapped by what `measure` answered.
pub open spec fn each_wraps_by<M: Fn(Font, &str) -> Option<u32>>(
    measure: M,
    font: Font,
    all: Seq<Seq<char>>,
    max_width: int,
    groups: Seq<Seq<Seq<char>>>,
    lines: Seq<Seq<char>>,
) -> bool {
    &&& groups.len() == all.len()
    &&& forall|i: int|
        0 <= i < all.len() ==> wraps_to(measure, font, all[i], max_width, #[trigger] groups[i])
    &&& lines == flattened(groups, groups.len() as int)
}

/// Whether `lines` holds the texts of `all`, each wrapped by what
/// `measure` answered, one after the other.
pub open spec fn each_wraps_to<M: Fn(Font, &str) -> Option<u32>>(
    measure: M,
    font: Font,
    all: Seq<Seq<char>>,
    max_width: int,
    lines: Seq<Seq<char>>,
) -> bool {
    exists|groups: Seq<Seq<Seq<char>>>|
        each_wraps_by(measure, font, all, max_width, groups, lines)
}

/// Wraps each of the texts and gives the lines of all of them in order.
pub fn wrap_each<M: Fn(Font, &str) -> Option<u32>>(
    all: &Vec<String>,
    max_width: i128,
    font: Font,
    measure: &M,
) -> (lines: Vec<String>)
    requires
        forall|f: Font, s: &str| call_requires(*measure, (f, s)),
    ensures
        each_wraps_to(*measure, font, texts(all@), max_width as int, texts(lines@)),
{
    let mut lines: Vec<String> = Vec::new();
    let ghost mut groups: Seq<Seq<Seq<char>>> = Seq::empty();
    let mut i: usize = 0;
    assert(texts(lines@) =~= flattened(groups, 0));
    while i < all.len()
        invariant
            i <= all@.len(),
            forall|f: Font, s: &str| call_requires(*measure, (f, s)),
            groups.len() == i,
            forall|k: int|
                0 <= k < i ==> wraps_to(
                    *measure,
                    font,
                    texts(all@)[k],
                    max_width as int,
                    #[trigger] groups[k],
                ),
            texts(lines@) == flattened(groups, i as int),
        decreases all.len() - i,
    {
        let mut wrapped = wrap_text(all[i].as_str(), max_width, font, measure);
        let ghost earlier = groups;
        let ghost before = texts(lines@);
        let ghost added = texts(wrapped@);
        lines.append(&mut wrapped);
        proof {
            groups = groups.push(added);
            assert(texts(all@)[i as int] == all@[i as int]@);
            assert(texts(lines@) =~= before + added);
            lemma_flattened_prefix(earlier, groups, i as int);
        }
        i += 1;
    }
    assert(each_wraps_by(*measure, font, texts(all@), max_width as int, groups, texts(lines@)));
    lines
}

proof fn lemma_flattened_prefix(
    groups: Seq<Seq<Seq<char>>>,
    more: Seq<Seq<Seq<char>>>,
    n: int,
)
    requires
        0 <= n <= groups.len(),
        groups.len() <= more.len(),
        forall|i: int| 0 <= i < groups.len() ==> groups[i] == more[i],
    ensures
        flattened(more, n) == flattened(groups, n),
    decreases n,
{
    if n > 0 {
        lemma_flattened_prefix(groups, more, n - 1);
    }
}

/// The line at the foot of the tutorial panel.
pub fn page_string(tut: &TutorialMsg) -> (r: String)
    ensures
        r@ == page_line(*tut),
{
    let mut out = "Page ".to_string();
    push_decimal(&mut out, tut.page_index as u64 + 1);
    out.append("/");
    push_decimal(&mut out, tut.page_count as u64);
    out.append("  [N]ext [B]ack [ESC]hide");
    assert(out@ =~= page_line(*tut));
    out
}

impl Renderer {
    fn paint_panel_frame(&mut self, r: &Rect, alpha: u32, padding: i128, title_h: i128, title: &str)
        requires
            -EXTENT_LIMIT < r.x < EXTENT_LIMIT,
            -EXTENT_LIMIT < r.y < EXTENT_LIMIT,
            0 <= r.w < EXTENT_LIMIT,
            0 <= padding <= 4000,
            0 <= title_h <= 4000,
        ensures
            final(self)@ == old(self)@ + panel_frame_ops(
                *r,
                alpha as int,
                padding as int,
                title_h as int,
                title@,
            ),
    {
        self.set_global_alpha(alpha);
        self.set_fill_color(COLOR_PANEL_BG);
        self.fill_rect(r.x, r.y, r.w, r.h);
        self.set_global_alpha(OPAQUE);
        self.set_fill_color(COLOR_ACCENT);
        self.fill_rect(r.x, r.y, ACCENT_BAR_W, r.h);
        self.set_stroke_color(COLOR_PANEL_BORDER);
        self.set_line_width(SUBPIXELS);
        self.stroke_rect(r.x, r.y, r.w, r.h);
        self.set_font(Font::MenuTitle);
        self.set_fill_color(COLOR_ACCENT);
        self.set_text_baseline(TextBaseline::Top);
        self.fill_text(title, r.x + padding + PANEL_TEXT_INSET, r.y + padding);
        let sep_y: i128 = r.y + padding + title_h;
        self.set_stroke_color(COLOR_PANEL_BORDER);
        self.begin_path();
        self.move_to(r.x + padding, sep_y);
        self.line_to(r.x + r.w - padding, sep_y);
        self.stroke();
        self.set_font(Font::MenuItem);
        self.set_fill_color(COLOR_TEXT_PRIMARY);
        assert(self@ =~= old(self)@ + panel_frame_ops(
            *r,
            alpha as int,
            padding as int,
            title_h as int,
            title@,
        ));
    }

    fn paint_text_lines(&mut self, lines: &Vec<String>, x: i128, top: i128, line_h: i128)
        requires
            0 <= top < 2 * EXTENT_LIMIT,
            0 <= line_h <= 4000,
        ensures
            final(self)@ == old(self)@ + text_lines_ops(
                texts(lines@),
                x as int,
                top as int,
                line_h as int,
                lines@.len() as int,
            ),
    {
        let ghost ls = texts(lines@);
        let mut i: usize = 0;
        assert(self@ =~= old(self)@ + text_lines_ops(ls, x as int, top as int, line_h as int, 0));
        while i < lines.len()
            invariant
                i <= lines@.len(),
                ls == texts(lines@),
                0 <= top < 2 * EXTENT_LIMIT,
                0 <= line_h <= 4000,
                self@ == old(self)@ + text_lines_ops(
                    ls,
                    x as int,
                    top as int,
                    line_h as int,
                    i as int,
                ),
            decreases lines.len() - i,
        {
            assert(0 <= i * line_h <= 0x1_0000_0000_0000_0000 * 4000) by (nonlinear_arith)
                requires
                    0 <= i <= 0x1_0000_0000_0000_0000,
                    0 <= line_h <= 4000,
            ;
            self.fill_text(lines[i].as_str(), x, top + i as i128 * line_h);
            assert(ls[i as int] == lines@[i as int]@);
            assert(self@ =~= old(self)@ + text_lines_ops(
                ls,
                x as int,
                top as int,
                line_h as int,
                i + 1,
            ));
            i += 1;
        }
    }

    /// Paints the tutorial panel with the page's text in the given lines.
    pub fn paint_tutorial_overlay(&mut self, tut: &TutorialMsg, canvas_w: i128, lines: &Vec<String>)
        requires
            0 <= canvas_w < EXTENT_LIMIT,
        ensures
            final(self)@ == old(self)@ + tutorial_overlay_ops(
                *tut,
                canvas_w as int,
                texts(lines@),
            ),
    {
        let r = tutorial_panel_bounds(canvas_w, lines.len());
        let text_x: i128 = r.x + TUTORIAL_PADDING + PANEL_TEXT_INSET;
        let text_top: i128 = r.y + TUTORIAL_PADDING + TUTORIAL_TITLE_H + PANEL_TITLE_GAP;
        self.set_font(Font::MenuItem);
        self.paint_panel_frame(
            &r,
            TUTORIAL_ALPHA,
            TUTORIAL_PADDING,
            TUTORIAL_TITLE_H,
            tut.scenario_name.as_str(),
        );
        self.paint_text_lines(lines, text_x, text_top, TUTORIAL_LINE_H);
        let page = page_string(tut);
        self.set_font(Font::MenuHint);
        self.set_fill_color(COLOR_TEXT_SECONDARY);
        self.fill_text(
            page.as_str(),
            text_x,
            text_top + lines.len() as i128 * TUTORIAL_LINE_H + TUTORIAL_NAV_GAP,
        );
        self.set_text_baseline(TextBaseline::Alphabetic);
        assert(self@ =~= old(self)@ + tutorial_overlay_ops(
            *tut,
            canvas_w as int,
            texts(lines@),
        ));
    }

    /// Paints the tutorial panel at the top right of a canvas of width
    /// `canvas_w`: it wraps the page's text to the panel by asking `measure`
    /// and paints the panel with the lines it got.
    pub fn draw_tutorial_overlay<M: Fn(Font, &str) -> Option<u32>>(
        &mut self,
        tut: &TutorialMsg,
        canvas_w: i128,
        measure: &M,
    )
        requires
            0 <= canvas_w < EXTENT_LIMIT,
            forall|f: Font, s: &str| call_requires(*measure, (f, s)),
        ensures
            exists|lines: Seq<Seq<char>>|
                #[trigger] wraps_to(
                    *measure,
                    Font::MenuItem,
                    tut.page_text@,
                    tutorial_content_width(canvas_w as int),
                    lines,
                ) && final(self)@ == old(self)@ + tutorial_overlay_ops(
                    *tut,
                    canvas_w as int,
                    lines,
                ),
    {
        let content_w = tutorial_room(canvas_w);
        let lines = wrap_text(tut.page_text.as_str(), content_w, Font::MenuItem, measure);
        self.paint_tutorial_overlay(tut, canvas_w, &lines);
        assert(wraps_to(
            *measure,
            Font::MenuItem,
            tut.page_text@,
            tutorial_content_width(canvas_w as int),
            texts(lines@),
        ));
    }

    /// Paints the help panel with the tip and the hints in the given lines.
    pub fn paint_help_overlay(
        &mut self,
        state: &GameState,
        canvas_w: i128,
        tip_lines: &Vec<String>,
        control_lines: &Vec<String>,
    )
        requires
            0 <= canvas_w < EXTENT_LIMIT,
        ensures
            final(self)@ == old(self)@ + help_overlay_ops(
                *state,
                canvas_w as int,
                texts(tip_lines@),
                texts(control_lines@),
            ),
    {
        let r = help_panel_bounds(canvas_w, tip_lines.len(), control_lines.len());
        let tip_h: i128 = if tip_lines.len() >= 1 {
            tip_lines.len() as i128 * HELP_LINE_H
        } else {
            HELP_LINE_H
        };
        let controls_h: i128 = if control_lines.len() >= 1 {
            control_lines.len() as i128 * HELP_LINE_H
        } else {
            HELP_LINE_H
        };
        let text_x: i128 = r.x + HELP_PADDING + PANEL_TEXT_INSET;
        let text_top: i128 = r.y + HELP_PADDING + HELP_TITLE_H + PANEL_TITLE_GAP;
        let controls_top: i128 = text_top + tip_h + HELP_SECTION_GAP;
        self.set_font(Font::MenuItem);
        match &state.tips {
            Some(t) => {
                self.paint_panel_frame(&r, HELP_ALPHA, HELP_PADDING, HELP_TITLE_H, t.title.as_str());
            },
            None => {
                self.paint_panel_frame(&r, HELP_ALPHA, HELP_PADDING, HELP_TITLE_H, "Tip");
            },
        }
        self.paint_text_lines(tip_lines, text_x, text_top, HELP_LINE_H);
        self.set_fill_color(COLOR_TEXT_SECONDARY);
        self.paint_text_lines(control_lines, text_x, controls_top, HELP_LINE_H);
        self.set_font(Font::MenuHint);
        self.set_fill_color(COLOR_TEXT_SECONDARY);
        self.fill_text("[H] hide panel", text_x, controls_top + controls_h + HELP_SECTION_GAP);
        self.set_text_baseline(TextBaseline::Alphabetic);
        assert(self@ =~= old(self)@ + help_overlay_ops(
            *state,
            canvas_w as int,
            texts(tip_lines@),
            texts(control_lines@),
        ));
    }

    /// Paints the help panel at the top left of a canvas of width
    /// `canvas_w`: it wraps the tip and each hint on the controls to the
    /// panel by asking `measure` and paints the panel with the lines it got.
    pub fn draw_help_overlay<M: Fn(Font, &str) -> Option<u32>>(
        &mut self,
        state: &GameState,
        canvas_w: i128,
        measure: &M,
    )
        requires
            0 <= canvas_w < EXTENT_LIMIT,
            forall|f: Font, s: &str| call_requires(*measure, (f, s)),
        ensures
            exists|tip_lines: Seq<Seq<char>>, control_lines: Seq<Seq<char>>|
                #[trigger] help_wrapped(*measure, *state, canvas_w as int, tip_lines, control_lines)
                    && final(self)@ == old(self)@ + help_overlay_ops(
                    *state,
                    canvas_w as int,
                    tip_lines,
                    control_lines,
                ),
    {
        let content_w = help_room(canvas_w);
        let tip_lines = match &state.tips {
            Some(t) => wrap_text(t.text.as_str(), content_w, Font::MenuItem, measure),
            None => wrap_text("Use [H] to hide this panel.", content_w, Font::MenuItem, measure),
        };
        let controls = compute_controls_lines(state);
        let control_lines = wrap_each(&controls, content_w, Font::MenuItem, measure);
        self.paint_help_overlay(state, canvas_w, &tip_lines, &control_lines);
        assert(help_wrapped(
            *measure,
            *state,
            canvas_w as int,
            texts(tip_lines@),
            texts(control_lines@),
        ));
    }
}

/// Whether the lines are the tip and the hints on the controls of the
/// state, wrapped to the help panel by what `measure` answered.
pub open spec fn help_wrapped<M: Fn(Font, &str) -> Option<u32>>(
    measure: M,
    state: GameState,
    canvas_w: int,
    tip_lines: Seq<Seq<char>>,
    control_lines: Seq<Seq<char>>,
) -> bool {
    &&& wraps_to(measure, Font::MenuItem, tip_text(state), help_content_width(canvas_w), tip_lines)
    &&& each_wraps_to(
        measure,
        Font::MenuItem,
        controls_lines(state),
        help_content_width(canvas_w),
        control_lines,
    )
}

} // verus!
