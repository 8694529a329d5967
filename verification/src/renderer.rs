//! The renderer: it turns the view-model, the time and the animation phases
//! into the list of canvas operations of one frame.
//!
//! A `Renderer` only records operations. Each painting step appends its own
//! to the list, so a later step paints over an earlier one.

use vstd::prelude::*;
use vstd::string::*;
use crate::canvas::{draws, Draw, DrawOp, Font, TextAlign, TextBaseline, SUBPIXELS};
use crate::layout::{
    canvas_pixels, canvas_size, canvas_w, canvas_width, grid_h, grid_height, grid_w, grid_width,
    help_content_width, help_room, tutorial_content_width, tutorial_room, EXTENT_LIMIT,
};
use crate::palette::{rgb, rgb_text, rgba, rgba_text, COLOR_CANVAS_BG};
use crate::renderer::grid::{
    cell_backgrounds_ops, cell_contents_ops, cell_depth_ops, fog_texture_ops, grid_lines_ops,
    hover_highlight_ops,
};
use crate::renderer::menus::{load_menu_ops, tutorial_menu_ops};
use crate::renderer::panels::{
    compute_controls_lines, help_overlay_ops, help_wrapped, tutorial_overlay_ops, wrap_each,
};
use crate::renderer::strip::{
    measure_message_area, message_area_ops, strip_measured, StripMetrics,
};
use crate::renderer::wrap::{texts, wrap_text, wraps_to};
use crate::state::GameState;
use crate::text::str_eq;

pub mod grid;
pub mod menus;
pub mod panels;
pub mod strip;
pub mod wrap;

verus! {

/// The list of operations of a frame, in the order in which they are to be
/// carried out.
pub struct Renderer {
    pub ops: Vec<DrawOp>,
}

impl View for Renderer {
    type V = Seq<Draw>;

    open spec fn view(&self) -> Seq<Draw> {
        draws(self.ops@)
    }
}

/// The phases of the three animations, each a fraction of one in
/// millionths: the pulse of the cell that asks for attention, the pulse of
/// a city whose production is complete, and the crossfade between a unit and
/// what it carries.
#[derive(Clone, Copy, Debug, PartialEq, Eq, Structural)]
pub struct Phases {
    pub attention: u32,
    pub completion: u32,
    pub unit: u32,
}

impl Phases {
    /// Whether each phase lies between zero and one.
    pub open spec fn in_range(&self) -> bool {
        &&& self.attention <= 1_000_000
        &&& self.completion <= 1_000_000
        &&& self.unit <= 1_000_000
    }
}

/// The period of the pulse of the active cell, in milliseconds.
pub const ATTENTION_PERIOD: u64 = 1500;

/// The period of the pulse of a city whose production is complete.
pub const COMPLETION_PERIOD: u64 = 2000;

/// The period of the crossfade between a unit and what it carries.
pub const UNIT_PERIOD: u64 = 800;

/// How far into its cycle an animation of the given period is at the time
/// `now`: the time that has passed since the cycle last began.
pub open spec fn cycle_of(now: int, period: int) -> int {
    now % period
}

/// How far into its cycle an animation of the given period is at the time
/// `now`. The position depends on the time alone, not on when an animation
/// was started or how often a frame was painted.
pub fn cycle_position(now: u64, period: u64) -> (r: u64)
    requires
        period > 0,
    ensures
        r == cycle_of(now as int, period as int),
        r < period,
{
    now % period
}

/// The position in a cycle repeats with the period: it is the same one
/// period later, and at the time zero the same as after one full period.
pub proof fn cycle_is_periodic(now: int, period: int)
    requires
        0 <= now,
        0 < period,
    ensures
        cycle_of(now + period, period) == cycle_of(now, period),
        cycle_of(0, period) == cycle_of(period, period),
{
    assert((now + period) % period == now % period) by (nonlinear_arith)
        requires
            0 <= now,
            0 < period,
    ;
    assert(period % period == 0 && 0int % period == 0) by (nonlinear_arith)
        requires
            0 < period,
    ;
}

/// The rounds that a unit of the given kind takes to build; ten for a kind
/// that is not known.
pub open spec fn item_cost_of(unit_type: Seq<char>) -> u32 {
    if unit_type == "army"@ {
        5
    } else if unit_type == "fighter"@ {
        10
    } else if unit_type == "transport"@ {
        30
    } else if unit_type == "carrier"@ {
        30
    } else if unit_type == "patrol-boat"@ {
        15
    } else if unit_type == "destroyer"@ {
        20
    } else if unit_type == "submarine"@ {
        20
    } else if unit_type == "battleship"@ {
        40
    } else if unit_type == "satellite"@ {
        50
    } else {
        10
    }
}

/// The rounds that a unit of the given kind takes to build.
pub fn item_cost(unit_type: &str) -> (r: u32)
    ensures
        r == item_cost_of(unit_type@),
        5 <= r <= 50,
{
    if str_eq(unit_type, "army") {
        5
    } else if str_eq(unit_type, "fighter") {
        10
    } else if str_eq(unit_type, "transport") {
        30
    } else if str_eq(unit_type, "carrier") {
        30
    } else if str_eq(unit_type, "patrol-boat") {
        15
    } else if str_eq(unit_type, "destroyer") {
        20
    } else if str_eq(unit_type, "submarine") {
        20
    } else if str_eq(unit_type, "battleship") {
        40
    } else if str_eq(unit_type, "satellite") {
        50
    } else {
        10
    }
}

/// The glyph of a unit of the given kind; a question mark for a kind that
/// is not known.
pub open spec fn unit_char_of(unit_type: Seq<char>) -> Seq<char> {
    if unit_type == "army"@ {
        "A"@
    } else if unit_type == "fighter"@ {
        "F"@
    } else if unit_type == "transport"@ {
        "T"@
    } else if unit_type == "carrier"@ {
        "C"@
    } else if unit_type == "destroyer"@ {
        "D"@
    } else if unit_type == "submarine"@ {
        "S"@
    } else if unit_type == "patrol-boat"@ {
        "P"@
    } else if unit_type == "battleship"@ {
        "B"@
    } else if unit_type == "satellite"@ {
        "Z"@
    } else {
        "?"@
    }
}

/// The glyph of a unit of the given kind.
pub fn unit_char(unit_type: &str) -> (r: &'static str)
    ensures
        r@ == unit_char_of(unit_type@),
{
    if str_eq(unit_type, "army") {
        "A"
    } else if str_eq(unit_type, "fighter") {
        "F"
    } else if str_eq(unit_type, "transport") {
        "T"
    } else if str_eq(unit_type, "carrier") {
        "C"
    } else if str_eq(unit_type, "destroyer") {
        "D"
    } else if str_eq(unit_type, "submarine") {
        "S"
    } else if str_eq(unit_type, "patrol-boat") {
        "P"
    } else if str_eq(unit_type, "battleship") {
        "B"
    } else if str_eq(unit_type, "satellite") {
        "Z"
    } else {
        "?"
    }
}

/// The glyph of a unit of the given kind in lower case, as a unit of the
/// computer is shown.
pub open spec fn unit_char_lower_of(unit_type: Seq<char>) -> Seq<char> {
    if unit_type == "army"@ {
        "a"@
    } else if unit_type == "fighter"@ {
        "f"@
    } else if unit_type == "transport"@ {
        "t"@
    } else if unit_type == "carrier"@ {
        "c"@
    } else if unit_type == "destroyer"@ {
        "d"@
    } else if unit_type == "submarine"@ {
        "s"@
    } else if unit_type == "patrol-boat"@ {
        "p"@
    } else if unit_type == "battleship"@ {
        "b"@
    } else if unit_type == "satellite"@ {
        "z"@
    } else {
        "?"@
    }
}

/// The glyph under which a unit is shown: that of its kind, in lower case
/// for a unit of the computer.
pub open spec fn unit_glyph_of(unit_type: Seq<char>, owner: Seq<char>) -> Seq<char> {
    if owner == "computer"@ {
        unit_char_lower_of(unit_type)
    } else {
        unit_char_of(unit_type)
    }
}

/// The glyph under which a unit is shown.
pub fn unit_glyph(unit_type: &str, owner: &str) -> (r: &'static str)
    ensures
        r@ == unit_glyph_of(unit_type@, owner@),
{
    if !str_eq(owner, "computer") {
        return unit_char(unit_type);
    }
    if str_eq(unit_type, "army") {
        "a"
    } else if str_eq(unit_type, "fighter") {
        "f"
    } else if str_eq(unit_type, "transport") {
        "t"
    } else if str_eq(unit_type, "carrier") {
        "c"
    } else if str_eq(unit_type, "destroyer") {
        "d"
    } else if str_eq(unit_type, "submarine") {
        "s"
    } else if str_eq(unit_type, "patrol-boat") {
        "p"
    } else if str_eq(unit_type, "battleship") {
        "b"
    } else if str_eq(unit_type, "satellite") {
        "z"
    } else {
        "?"
    }
}

/// A text with its shadow: the text in a translucent black, one pixel to
/// the right and down, and over it the text in its colour.
pub open spec fn text_shadow_ops(text: Seq<char>, x: int, y: int, color: [u8; 3]) -> Seq<Draw> {
    seq![
        Draw::SetFillStyle("rgba(0,0,0,0.6)"@),
        Draw::FillText { text, x: x + SUBPIXELS, y: y + SUBPIXELS },
        Draw::SetFillStyle(rgb_text(color)),
        Draw::FillText { text, x, y },
    ]
}

impl Renderer {
    /// A renderer with an empty list.
    pub fn new() -> (r: Self)
        ensures
            r@ == Seq::<Draw>::empty(),
    {
        let r = Renderer { ops: Vec::new() };
        assert(r@ =~= Seq::<Draw>::empty());
        r
    }

    /// Appends one operation.
    pub fn emit(&mut self, op: DrawOp)
        ensures
            final(self)@ == old(self)@.push(op@),
    {
        self.ops.push(op);
        assert(self@ =~= old(self)@.push(op@));
    }

    pub fn set_fill_style(&mut self, style: &str)
        ensures
            final(self)@ == old(self)@.push(Draw::SetFillStyle(style@)),
    {
        self.emit(DrawOp::SetFillStyle(style.to_string()));
    }

    pub fn set_fill_color(&mut self, color: [u8; 3])
        ensures
            final(self)@ == old(self)@.push(Draw::SetFillStyle(rgb_text(color))),
    {
        self.emit(DrawOp::SetFillStyle(rgb(color)));
    }

    pub fn set_stroke_style(&mut self, style: &str)
        ensures
            final(self)@ == old(self)@.push(Draw::SetStrokeStyle(style@)),
    {
        self.emit(DrawOp::SetStrokeStyle(style.to_string()));
    }

    pub fn set_stroke_color(&mut self, color: [u8; 3])
        ensures
            final(self)@ == old(self)@.push(Draw::SetStrokeStyle(rgb_text(color))),
    {
        self.emit(DrawOp::SetStrokeStyle(rgb(color)));
    }

    pub fn set_stroke_rgba(&mut self, color: [u8; 3], alpha: u32)
        ensures
            final(self)@ == old(self)@.push(
                Draw::SetStrokeStyle(rgba_text(color, alpha as nat)),
            ),
    {
        self.emit(DrawOp::SetStrokeStyle(rgba(color, alpha)));
    }

    pub fn set_line_width(&mut self, width: i128)
        ensures
            final(self)@ == old(self)@.push(Draw::SetLineWidth(width as int)),
    {
        self.emit(DrawOp::SetLineWidth(width));
    }

    pub fn set_global_alpha(&mut self, alpha: u32)
        ensures
            final(self)@ == old(self)@.push(Draw::SetGlobalAlpha(alpha as int)),
    {
        self.emit(DrawOp::SetGlobalAlpha(alpha));
    }

    pub fn set_font(&mut self, font: Font)
        ensures
            final(self)@ == old(self)@.push(Draw::SetFont(font)),
    {
        self.emit(DrawOp::SetFont(font));
    }

    pub fn set_text_baseline(&mut self, baseline: TextBaseline)
        ensures
            final(self)@ == old(self)@.push(Draw::SetTextBaseline(baseline)),
    {
        self.emit(DrawOp::SetTextBaseline(baseline));
    }

    pub fn set_text_align(&mut self, align: TextAlign)
        ensures
            final(self)@ == old(self)@.push(Draw::SetTextAlign(align)),
    {
        self.emit(DrawOp::SetTextAlign(align));
    }

    pub fn fill_rect(&mut self, x: i128, y: i128, w: i128, h: i128)
        ensures
            final(self)@ == old(self)@.push(
                Draw::FillRect { x: x as int, y: y as int, w: w as int, h: h as int },
            ),
    {
        self.emit(DrawOp::FillRect { x, y, w, h });
    }

    pub fn stroke_rect(&mut self, x: i128, y: i128, w: i128, h: i128)
        ensures
            final(self)@ == old(self)@.push(
                Draw::StrokeRect { x: x as int, y: y as int, w: w as int, h: h as int },
            ),
    {
        self.emit(DrawOp::StrokeRect { x, y, w, h });
    }

    pub fn begin_path(&mut self)
        ensures
            final(self)@ == old(self)@.push(Draw::BeginPath),
    {
        self.emit(DrawOp::BeginPath);
    }

    pub fn move_to(&mut self, x: i128, y: i128)
        ensures
            final(self)@ == old(self)@.push(Draw::MoveTo { x: x as int, y: y as int }),
    {
        self.emit(DrawOp::MoveTo { x, y });
    }

    pub fn line_to(&mut self, x: i128, y: i128)
        ensures
            final(self)@ == old(self)@.push(Draw::LineTo { x: x as int, y: y as int }),
    {
        self.emit(DrawOp::LineTo { x, y });
    }

    pub fn stroke(&mut self)
        ensures
            final(self)@ == old(self)@.push(Draw::Stroke),
    {
        self.emit(DrawOp::Stroke);
    }

    pub fn fill_text(&mut self, text: &str, x: i128, y: i128)
        ensures
            final(self)@ == old(self)@.push(
                Draw::FillText { text: text@, x: x as int, y: y as int },
            ),
    {
        self.emit(DrawOp::FillText { text: text.to_string(), x, y });
    }

    /// Paints a text with its shadow.
    pub fn draw_text_shadow(&mut self, text: &str, x: i128, y: i128, color: [u8; 3])
        requires
            -EXTENT_LIMIT < x < EXTENT_LIMIT,
            -EXTENT_LIMIT < y < EXTENT_LIMIT,
        ensures
            final(self)@ == old(self)@ + text_shadow_ops(text@, x as int, y as int, color),
    {
        self.set_fill_style("rgba(0,0,0,0.6)");
        self.fill_text(text, x + SUBPIXELS, y + SUBPIXELS);
        self.set_fill_color(color);
        self.fill_text(text, x, y);
        assert(self@ =~= old(self)@ + text_shadow_ops(text@, x as int, y as int, color));
    }
}

/// What the canvas answered when the texts of a frame were measured, and
/// the lines into which the texts of the panels were wrapped by it.
pub struct FrameMetrics {
    pub strip: StripMetrics,
    /// The lines of the tutorial's page; empty where no page is shown.
    pub tutorial_lines: Vec<String>,
    /// The lines of the tip; empty where the help panel is hidden.
    pub tip_lines: Vec<String>,
    /// The lines of the hints on the controls; empty where the help panel
    /// is hidden.
    pub control_lines: Vec<String>,
}

/// The texts of a frame as they were measured and wrapped.
pub ghost struct FrameText {
    pub debug_widths: Seq<Option<u32>>,
    pub paused_full: Option<u32>,
    pub paused_label: Option<u32>,
    pub tutorial_lines: Seq<Seq<char>>,
    pub tip_lines: Seq<Seq<char>>,
    pub control_lines: Seq<Seq<char>>,
}

impl View for FrameMetrics {
    type V = FrameText;

    open spec fn view(&self) -> FrameText {
        FrameText {
            debug_widths: self.strip.debug_widths@,
            paused_full: self.strip.paused_full,
            paused_label: self.strip.paused_label,
            tutorial_lines: texts(self.tutorial_lines@),
            tip_lines: texts(self.tip_lines@),
            control_lines: texts(self.control_lines@),
        }
    }
}

/// Whether the page of a tutorial is to be shown.
pub open spec fn tutorial_shown(state: GameState) -> bool {
    state.tutorial matches Some(tut) && tut.overlay_visible
}

/// Whether the texts are those of the state's frame, measured and wrapped
/// by what `measure` answered: the texts of the message strip, the page of
/// the tutorial where it is shown, and the tip and the hints where the help
/// panel is shown.
pub open spec fn frame_measured<M: Fn(Font, &str) -> Option<u32>>(
    measure: M,
    state: GameState,
    text: FrameText,
) -> bool {
    let width = canvas_width(state.map_size.0 as int);
    &&& strip_measured(measure, state, text.debug_widths, text.paused_full, text.paused_label)
    &&& tutorial_shown(state) ==> wraps_to(
        measure,
        Font::MenuItem,
        state.tutorial->0.page_text@,
        tutorial_content_width(width),
        text.tutorial_lines,
    )
    &&& state.show_help_overlay ==> help_wrapped(
        measure,
        state,
        width,
        text.tip_lines,
        text.control_lines,
    )
}

/// The operations that size and clear the canvas: the pixel buffer is set
/// to the size that the map asks for, only where the canvas is not of that
/// size already, and filled with the background colour.
pub open spec fn clear_ops(state: GameState, canvas: (u32, u32)) -> Seq<Draw> {
    let size = canvas_pixels(state.map_size.0 as int, state.map_size.1 as int);
    (if canvas != size {
        seq![Draw::Resize { width: size.0, height: size.1 }]
    } else {
        Seq::empty()
    }) + seq![
        Draw::SetFillStyle(rgb_text(COLOR_CANVAS_BG)),
        Draw::FillRect { x: 0, y: 0, w: size.0 * SUBPIXELS, h: size.1 * SUBPIXELS },
    ]
}

/// The grid of a frame, in the order in which it is painted: fog, the
/// cells' backgrounds, their edges, the grid lines, the frame of the
/// hovered cell, and what stands on the cells.
pub open spec fn map_ops(state: GameState, phases: Phases) -> Seq<Draw> {
    let cols = state.map_size.0 as int;
    let rows = state.map_size.1 as int;
    fog_texture_ops(cols, rows) + cell_backgrounds_ops(
        state,
        cols,
        rows,
        phases.attention as nat,
        phases.completion as nat,
    ) + cell_depth_ops(state, cols, rows) + grid_lines_ops(
        cols,
        rows,
        grid_width(cols),
        grid_height(rows),
    ) + hover_highlight_ops(state, grid_width(cols), grid_height(rows)) + seq![
        Draw::SetFont(Font::Cell),
    ] + cell_contents_ops(state, cols, rows, phases.unit as int)
}

/// What is painted over the grid and the strip, in this order: the page
/// of the tutorial where it is shown, the help panel unless it is hidden,
/// the menu of tutorial scenarios and the menu of saved games where they
/// are open.
pub open spec fn overlay_ops(state: GameState, canvas_w: int, text: FrameText) -> Seq<Draw> {
    let size = canvas_pixels(state.map_size.0 as int, state.map_size.1 as int);
    (if tutorial_shown(state) {
        tutorial_overlay_ops(state.tutorial->0, canvas_w, text.tutorial_lines)
    } else {
        Seq::empty()
    }) + (if state.show_help_overlay {
        help_overlay_ops(state, canvas_w, text.tip_lines, text.control_lines)
    } else {
        Seq::empty()
    }) + (match state.tutorial_menu {
        Some(menu) => tutorial_menu_ops(
            menu,
            state.tutorial_menu_hovered,
            size.0 as int,
            size.1 as int,
        ),
        None => Seq::empty(),
    }) + (match state.load_menu {
        Some(menu) => load_menu_ops(menu, size.0 as int, size.1 as int),
        None => Seq::empty(),
    })
}

/// The operations of one frame for a map that has cells: the canvas is
/// sized and cleared, and over it come the grid, the message strip and the
/// panels and menus.
pub open spec fn frame_ops(
    state: GameState,
    now: u64,
    phases: Phases,
    canvas: (u32, u32),
    text: FrameText,
) -> Seq<Draw> {
    let cols = state.map_size.0 as int;
    let rows = state.map_size.1 as int;
    clear_ops(state, canvas) + map_ops(state, phases) + message_area_ops(
        state,
        now,
        canvas_width(cols),
        grid_height(rows),
        text.debug_widths,
        text.paused_full,
        text.paused_label,
    ) + overlay_ops(state, canvas_width(cols), text)
}

/// Measures and wraps the texts of the state's frame.
pub fn measure_frame<M: Fn(Font, &str) -> Option<u32>>(state: &GameState, measure: &M) -> (metrics:
    FrameMetrics)
    requires
        forall|f: Font, s: &str| call_requires(*measure, (f, s)),
    ensures
        frame_measured(*measure, *state, metrics@),
{
    let width = canvas_w(state.map_size.0);
    let strip = measure_message_area(state, measure);
    let tutorial_lines = match &state.tutorial {
        Some(tut) => {
            if tut.overlay_visible {
                let room: i128 = tutorial_room(width);
                wrap_text(tut.page_text.as_str(), room, Font::MenuItem, measure)
            } else {
                Vec::new()
            }
        },
        None => Vec::new(),
    };
    let mut tip_lines: Vec<String> = Vec::new();
    let mut control_lines: Vec<String> = Vec::new();
    if state.show_help_overlay {
        let room: i128 = help_room(width);
        tip_lines = match &state.tips {
            Some(t) => wrap_text(t.text.as_str(), room, Font::MenuItem, measure),
            None => wrap_text("Use [H] to hide this panel.", room, Font::MenuItem, measure),
        };
        let controls = compute_controls_lines(state);
        control_lines = wrap_each(&controls, room, Font::MenuItem, measure);
    }
    FrameMetrics { strip, tutorial_lines, tip_lines, control_lines }
}

impl Renderer {
    fn paint_clear(&mut self, state: &GameState, canvas: (u32, u32))
        ensures
            final(self)@ == old(self)@ + clear_ops(*state, canvas),
    {
        let size = canvas_size(state.map_size.0, state.map_size.1);
        if canvas.0 != size.0 || canvas.1 != size.1 {
            self.emit(DrawOp::Resize { width: size.0, height: size.1 });
        }
        self.set_fill_color(COLOR_CANVAS_BG);
        self.fill_rect(0, 0, size.0 as i128 * SUBPIXELS, size.1 as i128 * SUBPIXELS);
        assert(self@ =~= old(self)@ + clear_ops(*state, canvas));
    }

    fn paint_map(&mut self, state: &GameState, phases: Phases)
        requires
            phases.in_range(),
        ensures
            final(self)@ == old(self)@ + map_ops(*state, phases),
    {
        let cols = state.map_size.0;
        let rows = state.map_size.1;
        let map_w = grid_w(cols);
        let map_h = grid_h(rows);
        self.draw_fog_texture(cols, rows);
        self.draw_cell_backgrounds(state, cols, rows, phases.attention, phases.completion);
        self.draw_cell_depth(state, cols, rows);
        self.draw_grid(cols, rows, map_w, map_h);
        self.draw_hover_highlight(state, map_w, map_h);
        self.set_font(Font::Cell);
        self.draw_cell_contents(state, cols, rows, phases.unit);
        assert(self@ =~= old(self)@ + map_ops(*state, phases));
    }

    fn paint_overlays(&mut self, state: &GameState, metrics: &FrameMetrics)
        ensures
            final(self)@ == old(self)@ + overlay_ops(
                *state,
                canvas_width(state.map_size.0 as int),
                metrics@,
            ),
    {
        let width = canvas_w(state.map_size.0);
        let size = canvas_size(state.map_size.0, state.map_size.1);
        match &state.tutorial {
            Some(tut) => {
                if tut.overlay_visible {
                    self.paint_tutorial_overlay(tut, width, &metrics.tutorial_lines);
                }
            },
            None => {},
        }
        if state.show_help_overlay {
            self.paint_help_overlay(state, width, &metrics.tip_lines, &metrics.control_lines);
        }
        match &state.tutorial_menu {
            Some(menu) => {
                self.draw_tutorial_menu(menu, state.tutorial_menu_hovered, size.0, size.1);
            },
            None => {},
        }
        match &state.load_menu {
            Some(menu) => {
                self.draw_load_menu(menu, size.0, size.1);
            },
            None => {},
        }
        assert(self@ =~= old(self)@ + overlay_ops(
            *state,
            canvas_width(state.map_size.0 as int),
            metrics@,
        ));
    }

    /// Paints one frame with texts that were measured and wrapped before.
    /// Nothing is painted for a map without columns or without rows.
    pub fn paint_frame(
        &mut self,
        state: &GameState,
        now: u64,
        phases: Phases,
        canvas: (u32, u32),
        metrics: &FrameMetrics,
    )
        requires
            phases.in_range(),
        ensures
            final(self)@ == old(self)@ + (if state.map_size.0 == 0 || state.map_size.1 == 0 {
                Seq::empty()
            } else {
                frame_ops(*state, now, phases, canvas, metrics@)
            }),
    {
        if state.map_size.0 == 0 || state.map_size.1 == 0 {
            assert(self@ =~= old(self)@ + Seq::<Draw>::empty());
            return ;
        }
        self.paint_clear(state, canvas);
        self.paint_map(state, phases);
        self.paint_message_area(
            state,
            now,
            canvas_w(state.map_size.0),
            grid_h(state.map_size.1),
            &metrics.strip,
        );
        self.paint_overlays(state, metrics);
        assert(self@ =~= old(self)@ + frame_ops(*state, now, phases, canvas, metrics@));
    }

    /// Renders one frame of the state at the time `now`, on a canvas whose
    /// pixel buffer is `canvas.0` by `canvas.1` pixels. `phases` holds the
    /// animation phases at that time, and `measure` tells how wide the
    /// canvas sets a text.
    ///
    /// Nothing is painted for a map without columns or without rows. For
    /// any other map the frame is painted with the texts as `measure` had
    /// them: there are answers of `measure` under which the operations are
    /// exactly those of `frame_ops`.
    pub fn render<M: Fn(Font, &str) -> Option<u32>>(
        &mut self,
        state: &GameState,
        now: u64,
        phases: Phases,
        canvas: (u32, u32),
        measure: &M,
    )
        requires
            phases.in_range(),
            forall|f: Font, s: &str| call_requires(*measure, (f, s)),
        ensures
            state.map_size.0 == 0 || state.map_size.1 == 0 ==> final(self)@ == old(self)@,
            state.map_size.0 != 0 && state.map_size.1 != 0 ==> exists|text: FrameText|
                #[trigger] frame_measured(*measure, *state, text) && final(self)@ == old(self)@
                    + frame_ops(*state, now, phases, canvas, text),
    {
        if state.map_size.0 == 0 || state.map_size.1 == 0 {
            return ;
        }
        let metrics = measure_frame(state, measure);
        self.paint_frame(state, now, phases, canvas, &metrics);
    }
}

} // verus!
