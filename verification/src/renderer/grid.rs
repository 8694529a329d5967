//! The grid: fog, the cells' backgrounds and edges, the grid lines, the
//! hovered cell and what stands on the cells.

use vstd::prelude::*;
use vstd::string::*;
use crate::canvas::{Draw, HALF_PIXEL, SUBPIXELS};
use crate::layout::{CELL_CHAR_X_OFFSET, CELL_CHAR_Y_OFFSET, CELL_H, CELL_W};
use crate::palette::{
    blended, brighten, cell_color, cell_color_of, darken, has_tag, lerp_color, rgb_text,
    rgba_text, scaled, tag_is, unit_color, unit_color_of, COLOR_ACCENT, COLOR_AWAKE,
    COLOR_PRODUCTION, COLOR_TEXT_PRIMARY, COLOR_WAYPOINT, FOG_DARK, FOG_LIGHT, OPAQUE,
};
use crate::protocol::{CellMsg, UnitMsg};
use crate::renderer::{
    item_cost, item_cost_of, text_shadow_ops, unit_char, unit_char_of, unit_glyph,
    unit_glyph_of, Renderer,
};
use crate::state::GameState;
use crate::text::str_eq;

verus! {

/// The operations `f(0)`, `f(1)`, up to `f(n - 1)`, one after the other.
pub open spec fn span(f: spec_fn(int) -> Seq<Draw>, n: int) -> Seq<Draw>
    decreases n,
{
    if n <= 0 {
        Seq::empty()
    } else {
        span(f, n - 1) + f(n - 1)
    }
}

/// The operations of the first `rows` cells of the column `col`, from the
/// top down.
pub open spec fn column(f: spec_fn(int, int) -> Seq<Draw>, col: int, rows: int) -> Seq<Draw>
    decreases rows,
{
    if rows <= 0 {
        Seq::empty()
    } else {
        column(f, col, rows - 1) + f(col, rows - 1)
    }
}

/// The operations of every cell of a grid of `cols` by `rows` cells, column
/// by column from the left, each column from the top down.
pub open spec fn grid(f: spec_fn(int, int) -> Seq<Draw>, cols: int, rows: int) -> Seq<Draw>
    decreases cols,
{
    if cols <= 0 {
        Seq::empty()
    } else {
        grid(f, cols - 1, rows) + column(f, cols - 1, rows)
    }
}

/// The fog of one cell: a rectangle in one of two shades, by the parity of
/// the cell's column and row, which makes a chequer.
pub open spec fn fog_cell(col: int, row: int) -> Seq<Draw> {
    seq![
        Draw::SetFillStyle(rgb_text(if (col + row) % 2 == 0 { FOG_LIGHT } else { FOG_DARK })),
        Draw::FillRect { x: col * CELL_W, y: row * CELL_H, w: CELL_W as int, h: CELL_H as int },
    ]
}

/// The fog of a grid: that of every cell.
pub open spec fn fog_texture_ops(cols: int, rows: int) -> Seq<Draw> {
    grid(|col: int, row: int| fog_cell(col, row), cols, rows)
}

impl Renderer {
    /// Paints the fog over the whole grid.
    pub fn draw_fog_texture(&mut self, cols: usize, rows: usize)
        ensures
            final(self)@ == old(self)@ + fog_texture_ops(cols as int, rows as int),
    {
        let ghost f = |col: int, row: int| fog_cell(col, row);
        let mut col: usize = 0;
        assert(self@ =~= old(self)@ + grid(f, 0, rows as int));
        while col < cols
            invariant
                col <= cols,
                f == (|col: int, row: int| fog_cell(col, row)),
                self@ == old(self)@ + grid(f, col as int, rows as int),
            decreases cols - col,
        {
            let ghost before = self@;
            let mut row: usize = 0;
            assert(self@ =~= before + column(f, col as int, 0));
            while row < rows
                invariant
                    row <= rows,
                    col < cols,
                    f == (|col: int, row: int| fog_cell(col, row)),
                    self@ == before + column(f, col as int, row as int),
                decreases rows - row,
            {
                let ghost start = self@;
                let light = (col % 2 == 0) == (row % 2 == 0);
                self.set_fill_color(if light { FOG_LIGHT } else { FOG_DARK });
                self.fill_rect(col as i128 * CELL_W, row as i128 * CELL_H, CELL_W, CELL_H);
                assert(self@ =~= start + fog_cell(col as int, row as int));
                assert(self@ =~= before + column(f, col as int, row as int + 1));
                row += 1;
            }
            assert(self@ =~= old(self)@ + grid(f, col as int + 1, rows as int));
            col += 1;
        }
    }
}

/// The opacity of the bright and the dark edge of a cell.
pub const EDGE_ALPHA: u32 = 400_000;

/// The opacity of the frame around the hovered cell.
pub const HOVER_ALPHA: u32 = 800_000;

/// The opacity at or below which a glyph of a crossfade is left out.
pub const FAINT: u32 = 50_000;

/// The cell at a column and a row, where the map holds one and it is
/// known.
pub open spec fn known_cell(cells: Vec<Vec<Option<CellMsg>>>, col: int, row: int) -> Option<
    CellMsg,
> {
    if 0 <= col < cells@.len() && 0 <= row < cells@[col]@.len() {
        cells@[col]@[row]
    } else {
        None
    }
}

/// The cell at a column and a row.
pub fn cell_at<'a>(cells: &'a Vec<Vec<Option<CellMsg>>>, col: usize, row: usize) -> (r: Option<
    &'a CellMsg,
>)
    ensures
        match r {
            Some(c) => known_cell(*cells, col as int, row as int) == Some(*c),
            None => known_cell(*cells, col as int, row as int) is None,
        },
{
    if col < cells.len() {
        let column = &cells[col];
        if row < column.len() {
            match &column[row] {
                Some(c) => Some(c),
                None => None,
            }
        } else {
            None
        }
    } else {
        None
    }
}

/// Whether the cell is the active cell: the first of those that ask for
/// attention.
pub open spec fn is_attention(state: GameState, col: int, row: int) -> bool {
    &&& state.attention_coords@.len() > 0
    &&& state.attention_coords@[0].0 == col
    &&& state.attention_coords@[0].1 == row
}

/// Whether the cell is the active cell.
pub fn attention_at(state: &GameState, col: usize, row: usize) -> (r: bool)
    ensures
        r == is_attention(*state, col as int, row as int),
{
    if state.attention_coords.len() > 0 {
        let first = state.attention_coords[0];
        first.0 == col && first.1 == row
    } else {
        false
    }
}

/// Whether the cell is a city, not a free one, whose production order has
/// no round left.
pub open spec fn production_complete(cell: CellMsg) -> bool {
    &&& cell.t@ == "city"@
    &&& !tag_is(cell.cs, "free"@)
    &&& cell.prod matches Some(p)
    &&& p.remaining == 0
}

/// The colour in which a cell's background is painted. The active cell
/// pulses toward a brighter shade of its base colour, by seven tenths of the
/// attention phase; a city with its production complete pulses toward the
/// colour of text, by half of the completion phase; any other cell has its
/// base colour.
pub open spec fn background_color(
    cell: CellMsg,
    attention: bool,
    attention_phase: nat,
    completion_phase: nat,
) -> [u8; 3] {
    let base = cell_color_of(cell);
    if attention {
        blended(base, scaled(base, 8, 5), 7 * attention_phase, 10_000_000)
    } else if production_complete(cell) {
        blended(base, COLOR_TEXT_PRIMARY, completion_phase, 2_000_000)
    } else {
        base
    }
}

/// The background of one cell; nothing for a cell that is not known or not
/// explored, where the fog stays.
pub open spec fn background_cell(
    state: GameState,
    attention_phase: nat,
    completion_phase: nat,
    col: int,
    row: int,
) -> Seq<Draw> {
    match known_cell(state.cells, col, row) {
        Some(cell) => if cell.t@ == "unexplored"@ {
            Seq::empty()
        } else {
            seq![
                Draw::SetFillStyle(
                    rgb_text(
                        background_color(
                            cell,
                            is_attention(state, col, row),
                            attention_phase,
                            completion_phase,
                        ),
                    ),
                ),
                Draw::FillRect { x: col * CELL_W, y: row * CELL_H, w: CELL_W as int, h: CELL_H as int },
            ]
        },
        None => Seq::empty(),
    }
}

/// The backgrounds of the cells of a grid.
pub open spec fn cell_backgrounds_ops(
    state: GameState,
    cols: int,
    rows: int,
    attention_phase: nat,
    completion_phase: nat,
) -> Seq<Draw> {
    grid(
        |col: int, row: int| background_cell(state, attention_phase, completion_phase, col, row),
        cols,
        rows,
    )
}

/// The edges of one cell that give it depth: a line of a brighter shade
/// along the top and one of a darker shade along the bottom, each half a
/// pixel inside the cell and translucent.
pub open spec fn depth_cell(state: GameState, col: int, row: int) -> Seq<Draw> {
    match known_cell(state.cells, col, row) {
        Some(cell) => if cell.t@ == "unexplored"@ {
            Seq::empty()
        } else {
            let base = cell_color_of(cell);
            let left = col * CELL_W + HALF_PIXEL;
            let right = col * CELL_W + CELL_W - HALF_PIXEL;
            let top = row * CELL_H + HALF_PIXEL;
            let bottom = row * CELL_H + CELL_H - HALF_PIXEL;
            seq![
                Draw::SetStrokeStyle(rgba_text(scaled(base, 5, 4), EDGE_ALPHA as nat)),
                Draw::BeginPath,
                Draw::MoveTo { x: left, y: top },
                Draw::LineTo { x: right, y: top },
                Draw::Stroke,
                Draw::SetStrokeStyle(rgba_text(scaled(base, 3, 5), EDGE_ALPHA as nat)),
                Draw::BeginPath,
                Draw::MoveTo { x: left, y: bottom },
                Draw::LineTo { x: right, y: bottom },
                Draw::Stroke,
            ]
        },
        None => Seq::empty(),
    }
}

/// The edges of the cells of a grid.
pub open spec fn cell_depth_ops(state: GameState, cols: int, rows: int) -> Seq<Draw> {
    grid(|col: int, row: int| depth_cell(state, col, row), cols, rows)
}

/// One vertical grid line, at the left of the column `col`.
pub open spec fn vertical_line(col: int, map_h: int) -> Seq<Draw> {
    seq![Draw::MoveTo { x: col * CELL_W, y: 0 }, Draw::LineTo { x: col * CELL_W, y: map_h }]
}

/// One horizontal grid line, at the top of the row `row`.
pub open spec fn horizontal_line(row: int, map_w: int) -> Seq<Draw> {
    seq![Draw::MoveTo { x: 0, y: row * CELL_H }, Draw::LineTo { x: map_w, y: row * CELL_H }]
}

/// The grid lines: one path of a soft black, with a vertical line at each
/// column's left and at the grid's right edge, and a horizontal line at
/// each row's top and at the grid's bottom edge.
pub open spec fn grid_lines_ops(cols: int, rows: int, map_w: int, map_h: int) -> Seq<Draw> {
    seq![
        Draw::SetStrokeStyle("rgba(0,0,0,0.3)"@),
        Draw::SetLineWidth(SUBPIXELS as int),
        Draw::BeginPath,
    ] + span(
        |col: int| vertical_line(col, map_h),
        cols + 1,
    ) + span(|row: int| horizontal_line(row, map_w), rows + 1) + seq![Draw::Stroke]
}

/// The frame around the hovered cell: a stroke two pixels wide in the
/// accent colour, half a pixel inside the cell. Nothing where no cell is
/// hovered, or the hovered cell is not on the map or not wholly on the grid.
pub open spec fn hover_highlight_ops(state: GameState, map_w: int, map_h: int) -> Seq<Draw> {
    match (state.hover_col, state.hover_row) {
        (Some(col), Some(row)) => if col < state.map_size.0 && row < state.map_size.1 && col
            * CELL_W + CELL_W <= map_w && row * CELL_H + CELL_H <= map_h {
            seq![
                Draw::SetStrokeStyle(rgba_text(COLOR_ACCENT, HOVER_ALPHA as nat)),
                Draw::SetLineWidth(2 * SUBPIXELS),
                Draw::StrokeRect {
                    x: col * CELL_W + HALF_PIXEL,
                    y: row * CELL_H + HALF_PIXEL,
                    w: CELL_W - SUBPIXELS,
                    h: CELL_H - SUBPIXELS,
                },
                Draw::SetLineWidth(SUBPIXELS as int),
            ]
        } else {
            Seq::empty()
        },
        _ => Seq::empty(),
    }
}

/// Where the glyph of the column `col` is set.
pub open spec fn glyph_x(col: int) -> int {
    col * CELL_W + CELL_CHAR_X_OFFSET
}

/// Where the glyph of the row `row` is set.
pub open spec fn glyph_y(row: int) -> int {
    row * CELL_H + CELL_CHAR_Y_OFFSET
}

/// The height of the bar that shows how far a production order has come:
/// the share of the cell's height that the rounds already spent are of the
/// item's cost.
pub open spec fn progress_bar_height(cost: int, remaining: int) -> int {
    CELL_H * (cost - remaining) / cost
}

/// What shows a city's production order: the bar, while some but not all
/// rounds are spent, and the glyph of the item.
pub open spec fn production_ops(cell: CellMsg, col: int, row: int) -> Seq<Draw> {
    if cell.t@ == "city"@ && cell.prod is Some {
        let prod = cell.prod->0;
        let cost = item_cost_of(prod.item@) as int;
        let bar = progress_bar_height(cost, prod.remaining as int);
        (if prod.remaining < cost && prod.remaining > 0 {
            seq![
                Draw::SetGlobalAlpha((OPAQUE / 2) as int),
                Draw::SetFillStyle(rgb_text(scaled(cell_color_of(cell), 1, 2))),
                Draw::FillRect {
                    x: col * CELL_W,
                    y: row * CELL_H + (CELL_H - bar),
                    w: CELL_W as int,
                    h: bar,
                },
                Draw::SetGlobalAlpha(OPAQUE as int),
            ]
        } else {
            Seq::empty()
        }) + text_shadow_ops(
            unit_char_of(prod.item@),
            glyph_x(col),
            glyph_y(row),
            COLOR_PRODUCTION,
        )
    } else {
        Seq::empty()
    }
}

/// Whether the cell holds awake fighters.
pub open spec fn holds_fighters(cell: CellMsg) -> bool {
    cell.af matches Some(n) && n > 0
}

/// Whether the unit on the cell is shown in turn with what it carries:
/// awake fighters, or awake armies on a transport.
pub open spec fn holds_awake(cell: CellMsg, unit: UnitMsg) -> bool {
    holds_fighters(cell) || (unit.t@ == "transport"@ && (cell.aa matches Some(n) && n > 0))
}

/// What shows the unit on a cell. On the active cell a unit that carries
/// awake units fades in turn with a glyph of what it carries: the carried
/// glyph at the opacity of the phase, the unit's own at the rest, and
/// neither where its opacity is a twentieth or less. Any other unit shows
/// its glyph alone.
pub open spec fn unit_ops(
    state: GameState,
    cell: CellMsg,
    unit: UnitMsg,
    col: int,
    row: int,
    unit_phase: int,
) -> Seq<Draw> {
    let cx = glyph_x(col);
    let cy = glyph_y(row);
    let glyph = unit_glyph_of(unit.t@, unit.o@);
    if is_attention(state, col, row) && holds_awake(cell, unit) {
        (if OPAQUE - unit_phase > FAINT {
            seq![Draw::SetGlobalAlpha(OPAQUE - unit_phase)] + text_shadow_ops(
                glyph,
                cx,
                cy,
                unit_color_of(unit),
            )
        } else {
            Seq::empty()
        }) + (if unit_phase > FAINT {
            seq![Draw::SetGlobalAlpha(unit_phase)] + text_shadow_ops(
                if holds_fighters(cell) { "F"@ } else { "A"@ },
                cx,
                cy,
                COLOR_AWAKE,
            )
        } else {
            Seq::empty()
        }) + seq![Draw::SetGlobalAlpha(OPAQUE as int)]
    } else {
        text_shadow_ops(glyph, cx, cy, unit_color_of(unit))
    }
}

/// What stands on one cell: a city's production order, and over it the
/// unit on the cell or, where there is none, the mark of a waypoint.
pub open spec fn contents_cell(state: GameState, col: int, row: int, unit_phase: int) -> Seq<
    Draw,
> {
    match known_cell(state.cells, col, row) {
        Some(cell) => production_ops(cell, col, row) + (match cell.u {
            Some(unit) => unit_ops(state, cell, unit, col, row, unit_phase),
            None => if cell.wp == Some(true) {
                text_shadow_ops("*"@, glyph_x(col), glyph_y(row), COLOR_WAYPOINT)
            } else {
                Seq::empty()
            },
        }),
        None => Seq::empty(),
    }
}

/// What stands on the cells of a grid.
pub open spec fn cell_contents_ops(state: GameState, cols: int, rows: int, unit_phase: int) -> Seq<
    Draw,
> {
    grid(|col: int, row: int| contents_cell(state, col, row, unit_phase), cols, rows)
}

impl Renderer {
    fn paint_background(
        &mut self,
        state: &GameState,
        col: usize,
        row: usize,
        pulse_attention: u32,
        pulse_completed: u32,
    )
        requires
            pulse_attention <= OPAQUE,
            pulse_completed <= OPAQUE,
        ensures
            final(self)@ == old(self)@ + background_cell(
                *state,
                pulse_attention as nat,
                pulse_completed as nat,
                col as int,
                row as int,
            ),
    {
        let cell = match cell_at(&state.cells, col, row) {
            Some(cell) => cell,
            None => {
                assert(self@ =~= old(self)@ + Seq::<Draw>::empty());
                return ;
            },
        };
        if str_eq(cell.t.as_str(), "unexplored") {
            assert(self@ =~= old(self)@ + Seq::<Draw>::empty());
            return ;
        }
        let base = cell_color(cell);
        let completed = str_eq(cell.t.as_str(), "city") && !has_tag(&cell.cs, "free") && (match &cell.prod {
            Some(p) => p.remaining == 0,
            None => false,
        });
        let color = if attention_at(state, col, row) {
            let highlight = brighten(base, 8, 5);
            lerp_color(base, highlight, 7 * pulse_attention, 10 * OPAQUE)
        } else if completed {
            lerp_color(base, COLOR_TEXT_PRIMARY, pulse_completed, 2 * OPAQUE)
        } else {
            base
        };
        self.set_fill_color(color);
        self.fill_rect(col as i128 * CELL_W, row as i128 * CELL_H, CELL_W, CELL_H);
        assert(self@ =~= old(self)@ + background_cell(
            *state,
            pulse_attention as nat,
            pulse_completed as nat,
            col as int,
            row as int,
        ));
    }

    /// Paints the background of every known, explored cell.
    pub fn draw_cell_backgrounds(
        &mut self,
        state: &GameState,
        cols: usize,
        rows: usize,
        pulse_attention: u32,
        pulse_completed: u32,
    )
        requires
            pulse_attention <= OPAQUE,
            pulse_completed <= OPAQUE,
        ensures
            final(self)@ == old(self)@ + cell_backgrounds_ops(
                *state,
                cols as int,
                rows as int,
                pulse_attention as nat,
                pulse_completed as nat,
            ),
    {
        let ghost f = |col: int, row: int|
            background_cell(*state, pulse_attention as nat, pulse_completed as nat, col, row);
        let mut col: usize = 0;
        assert(self@ =~= old(self)@ + grid(f, 0, rows as int));
        while col < cols
            invariant
                col <= cols,
                pulse_attention <= OPAQUE,
                pulse_completed <= OPAQUE,
                f == (|col: int, row: int|
                    background_cell(
                        *state,
                        pulse_attention as nat,
                        pulse_completed as nat,
                        col,
                        row,
                    )),
                self@ == old(self)@ + grid(f, col as int, rows as int),
            decreases cols - col,
        {
            let ghost before = self@;
            let mut row: usize = 0;
            assert(self@ =~= before + column(f, col as int, 0));
            while row < rows
                invariant
                    row <= rows,
                    col < cols,
                    pulse_attention <= OPAQUE,
                    pulse_completed <= OPAQUE,
                    f == (|col: int, row: int|
                        background_cell(
                            *state,
                            pulse_attention as nat,
                            pulse_completed as nat,
                            col,
                            row,
                        )),
                    self@ == before + column(f, col as int, row as int),
                decreases rows - row,
            {
                let ghost start = self@;
                self.paint_background(state, col, row, pulse_attention, pulse_completed);
                assert(self@ =~= before + column(f, col as int, row as int + 1));
                row += 1;
            }
            assert(self@ =~= old(self)@ + grid(f, col as int + 1, rows as int));
            col += 1;
        }
    }

    fn paint_depth(&mut self, state: &GameState, col: usize, row: usize)
        ensures
            final(self)@ == old(self)@ + depth_cell(*state, col as int, row as int),
    {
        let cell = match cell_at(&state.cells, col, row) {
            Some(cell) => cell,
            None => {
                assert(self@ =~= old(self)@ + Seq::<Draw>::empty());
                return ;
            },
        };
        if str_eq(cell.t.as_str(), "unexplored") {
            assert(self@ =~= old(self)@ + Seq::<Draw>::empty());
            return ;
        }
        let base = cell_color(cell);
        let x: i128 = col as i128 * CELL_W;
        let y: i128 = row as i128 * CELL_H;
        let highlight = brighten(base, 5, 4);
        self.set_stroke_rgba(highlight, EDGE_ALPHA);
        self.begin_path();
        self.move_to(x + HALF_PIXEL, y + HALF_PIXEL);
        self.line_to(x + CELL_W - HALF_PIXEL, y + HALF_PIXEL);
        self.stroke();
        let shadow = darken(base, 3, 5);
        self.set_stroke_rgba(shadow, EDGE_ALPHA);
        self.begin_path();
        self.move_to(x + HALF_PIXEL, y + CELL_H - HALF_PIXEL);
        self.line_to(x + CELL_W - HALF_PIXEL, y + CELL_H - HALF_PIXEL);
        self.stroke();
        assert(self@ =~= old(self)@ + depth_cell(*state, col as int, row as int));
    }

    /// Paints the bright and the dark edge of every known, explored cell.
    pub fn draw_cell_depth(&mut self, state: &GameState, cols: usize, rows: usize)
        ensures
            final(self)@ == old(self)@ + cell_depth_ops(*state, cols as int, rows as int),
    {
        let ghost f = |col: int, row: int| depth_cell(*state, col, row);
        let mut col: usize = 0;
        assert(self@ =~= old(self)@ + grid(f, 0, rows as int));
        while col < cols
            invariant
                col <= cols,
                f == (|col: int, row: int| depth_cell(*state, col, row)),
                self@ == old(self)@ + grid(f, col as int, rows as int),
            decreases cols - col,
        {
            let ghost before = self@;
            let mut row: usize = 0;
            assert(self@ =~= before + column(f, col as int, 0));
            while row < rows
                invariant
                    row <= rows,
                    col < cols,
                    f == (|col: int, row: int| depth_cell(*state, col, row)),
                    self@ == before + column(f, col as int, row as int),
                decreases rows - row,
            {
                self.paint_depth(state, col, row);
                assert(self@ =~= before + column(f, col as int, row as int + 1));
                row += 1;
            }
            assert(self@ =~= old(self)@ + grid(f, col as int + 1, rows as int));
            col += 1;
        }
    }

    /// Paints the grid lines over a grid of `map_w` by `map_h`.
    pub fn draw_grid(&mut self, cols: usize, rows: usize, map_w: i128, map_h: i128)
        ensures
            final(self)@ == old(self)@ + grid_lines_ops(
                cols as int,
                rows as int,
                map_w as int,
                map_h as int,
            ),
    {
        let ghost v = |col: int| vertical_line(col, map_h as int);
        let ghost h = |row: int| horizontal_line(row, map_w as int);
        self.set_stroke_style("rgba(0,0,0,0.3)");
        self.set_line_width(SUBPIXELS);
        self.begin_path();
        let ghost head = self@;
        assert(head =~= old(self)@ + seq![
            Draw::SetStrokeStyle("rgba(0,0,0,0.3)"@),
            Draw::SetLineWidth(SUBPIXELS as int),
            Draw::BeginPath,
        ]);
        let mut col: usize = 0;
        assert(self@ =~= head + span(v, 0));
        loop
            invariant_except_break
                col <= cols,
                v == (|col: int| vertical_line(col, map_h as int)),
                self@ == head + span(v, col as int),
            ensures
                self@ == head + span(v, cols as int + 1),
            decreases cols - col,
        {
            let x: i128 = col as i128 * CELL_W;
            self.move_to(x, 0);
            self.line_to(x, map_h);
            assert(self@ =~= head + span(v, col as int + 1));
            if col == cols {
                break ;
            }
            col += 1;
        }
        let ghost middle = self@;
        let mut row: usize = 0;
        assert(self@ =~= middle + span(h, 0));
        loop
            invariant_except_break
                row <= rows,
                h == (|row: int| horizontal_line(row, map_w as int)),
                self@ == middle + span(h, row as int),
            ensures
                self@ == middle + span(h, rows as int + 1),
            decreases rows - row,
        {
            let y: i128 = row as i128 * CELL_H;
            self.move_to(0, y);
            self.line_to(map_w, y);
            assert(self@ =~= middle + span(h, row as int + 1));
            if row == rows {
                break ;
            }
            row += 1;
        }
        self.stroke();
        assert(self@ =~= old(self)@ + grid_lines_ops(
            cols as int,
            rows as int,
            map_w as int,
            map_h as int,
        ));
    }

    /// Paints the frame around the hovered cell.
    pub fn draw_hover_highlight(&mut self, state: &GameState, map_w: i128, map_h: i128)
        ensures
            final(self)@ == old(self)@ + hover_highlight_ops(*state, map_w as int, map_h as int),
    {
        match (state.hover_col, state.hover_row) {
            (Some(col), Some(row)) => {
                if col < state.map_size.0 && row < state.map_size.1 {
                    let x: i128 = col as i128 * CELL_W;
                    let y: i128 = row as i128 * CELL_H;
                    if x + CELL_W <= map_w && y + CELL_H <= map_h {
                        self.set_stroke_rgba(COLOR_ACCENT, HOVER_ALPHA);
                        self.set_line_width(2 * SUBPIXELS);
                        self.stroke_rect(
                            x + HALF_PIXEL,
                            y + HALF_PIXEL,
                            CELL_W - SUBPIXELS,
                            CELL_H - SUBPIXELS,
                        );
                        self.set_line_width(SUBPIXELS);
                    }
                }
            },
            _ => {},
        }
        assert(self@ =~= old(self)@ + hover_highlight_ops(*state, map_w as int, map_h as int));
    }

    fn paint_production(&mut self, cell: &CellMsg, col: usize, row: usize)
        ensures
            final(self)@ == old(self)@ + production_ops(*cell, col as int, row as int),
    {
        if !str_eq(cell.t.as_str(), "city") {
            assert(self@ =~= old(self)@ + Seq::<Draw>::empty());
            return ;
        }
        let prod = match &cell.prod {
            Some(prod) => prod,
            None => {
                assert(self@ =~= old(self)@ + Seq::<Draw>::empty());
                return ;
            },
        };
        let cost = item_cost(prod.item.as_str());
        if prod.remaining < cost && prod.remaining > 0 {
            let dark = darken(cell_color(cell), 1, 2);
            let bar: i128 = CELL_H * (cost - prod.remaining) as i128 / cost as i128;
            self.set_global_alpha(OPAQUE / 2);
            self.set_fill_color(dark);
            self.fill_rect(col as i128 * CELL_W, row as i128 * CELL_H + (CELL_H - bar), CELL_W, bar);
            self.set_global_alpha(OPAQUE);
        }
        let ghost middle = self@;
        self.draw_text_shadow(
            unit_char(prod.item.as_str()),
            col as i128 * CELL_W + CELL_CHAR_X_OFFSET,
            row as i128 * CELL_H + CELL_CHAR_Y_OFFSET,
            COLOR_PRODUCTION,
        );
        assert(self@ =~= old(self)@ + production_ops(*cell, col as int, row as int));
    }

    fn paint_unit(
        &mut self,
        state: &GameState,
        cell: &CellMsg,
        unit: &UnitMsg,
        col: usize,
        row: usize,
        pulse_unit: u32,
    )
        requires
            pulse_unit <= OPAQUE,
        ensures
            final(self)@ == old(self)@ + unit_ops(
                *state,
                *cell,
                *unit,
                col as int,
                row as int,
                pulse_unit as int,
            ),
    {
        let cx: i128 = col as i128 * CELL_W + CELL_CHAR_X_OFFSET;
        let cy: i128 = row as i128 * CELL_H + CELL_CHAR_Y_OFFSET;
        let fighters = match cell.af {
            Some(n) => n > 0,
            None => false,
        };
        let armies = str_eq(unit.t.as_str(), "transport") && (match cell.aa {
            Some(n) => n > 0,
            None => false,
        });
        let glyph = unit_glyph(unit.t.as_str(), unit.o.as_str());
        let color = unit_color(unit);
        if attention_at(state, col, row) && (fighters || armies) {
            let alpha_container: u32 = OPAQUE - pulse_unit;
            if alpha_container > FAINT {
                self.set_global_alpha(alpha_container);
                self.draw_text_shadow(glyph, cx, cy, color);
            }
            if pulse_unit > FAINT {
                self.set_global_alpha(pulse_unit);
                self.draw_text_shadow(if fighters { "F" } else { "A" }, cx, cy, COLOR_AWAKE);
            }
            self.set_global_alpha(OPAQUE);
        } else {
            self.draw_text_shadow(glyph, cx, cy, color);
        }
        assert(self@ =~= old(self)@ + unit_ops(
            *state,
            *cell,
            *unit,
            col as int,
            row as int,
            pulse_unit as int,
        ));
    }

    fn paint_contents(&mut self, state: &GameState, col: usize, row: usize, pulse_unit: u32)
        requires
            pulse_unit <= OPAQUE,
        ensures
            final(self)@ == old(self)@ + contents_cell(
                *state,
                col as int,
                row as int,
                pulse_unit as int,
            ),
    {
        let cell = match cell_at(&state.cells, col, row) {
            Some(cell) => cell,
            None => {
                assert(self@ =~= old(self)@ + Seq::<Draw>::empty());
                return ;
            },
        };
        self.paint_production(cell, col, row);
        match &cell.u {
            Some(unit) => {
                self.paint_unit(state, cell, unit, col, row, pulse_unit);
            },
            None => {
                let waypoint = match cell.wp {
                    Some(w) => w,
                    None => false,
                };
                if waypoint {
                    self.draw_text_shadow(
                        "*",
                        col as i128 * CELL_W + CELL_CHAR_X_OFFSET,
                        row as i128 * CELL_H + CELL_CHAR_Y_OFFSET,
                        COLOR_WAYPOINT,
                    );
                }
            },
        }
        assert(self@ =~= old(self)@ + contents_cell(
            *state,
            col as int,
            row as int,
            pulse_unit as int,
        ));
    }

    /// Paints what stands on every known cell: production orders, units and
    /// waypoints.
    pub fn draw_cell_contents(&mut self, state: &GameState, cols: usize, rows: usize, pulse_unit: u32)
        requires
            pulse_unit <= OPAQUE,
        ensures
            final(self)@ == old(self)@ + cell_contents_ops(
                *state,
                cols as int,
                rows as int,
                pulse_unit as int,
            ),
    {
        let ghost f = |col: int, row: int| contents_cell(*state, col, row, pulse_unit as int);
        let mut col: usize = 0;
        assert(self@ =~= old(self)@ + grid(f, 0, rows as int));
        while col < cols
            invariant
                col <= cols,
                pulse_unit <= OPAQUE,
                f == (|col: int, row: int| contents_cell(*state, col, row, pulse_unit as int)),
                self@ == old(self)@ + grid(f, col as int, rows as int),
            decreases cols - col,
        {
            let ghost before = self@;
            let mut row: usize = 0;
            assert(self@ =~= before + column(f, col as int, 0));
            while row < rows
                invariant
                    row <= rows,
                    col < cols,
                    pulse_unit <= OPAQUE,
                    f == (|col: int, row: int| contents_cell(*state, col, row, pulse_unit as int)),
                    self@ == before + column(f, col as int, row as int),
                decreases rows - row,
            {
                self.paint_contents(state, col, row, pulse_unit);
                assert(self@ =~= before + column(f, col as int, row as int + 1));
                row += 1;
            }
            assert(self@ =~= old(self)@ + grid(f, col as int + 1, rows as int));
            col += 1;
        }
    }
}

} // verus!
