//! The geometry of the grid, of the message strip and of every panel and
//! menu. The renderer draws by these functions and the input layer tests
//! pointer positions by the same ones, so the two cannot disagree.
//!
//! Lengths are in units of which `SUBPIXELS` make a pixel. Sizes of the
//! canvas are whole pixels where they are named `screen_w` and `screen_h`.

use vstd::prelude::*;
use crate::canvas::SUBPIXELS;

verus! {

/// The width of a cell.
pub const CELL_W: i128 = 14 * SUBPIXELS;

/// The height of a cell.
pub const CELL_H: i128 = 20 * SUBPIXELS;

/// The least width of the canvas, in pixels, so that the panels have room.
pub const MIN_CANVAS_W: i128 = 700;

/// The lines of text that the message strip holds.
pub const TEXT_AREA_ROWS: i128 = 3;

/// The gap between the grid and the text of the message strip.
pub const TEXT_AREA_GAP: i128 = 8 * SUBPIXELS;

/// The height of the message strip: the gap and its lines, each as high as
/// a cell.
pub const STRIP_H: i128 = TEXT_AREA_GAP + TEXT_AREA_ROWS * CELL_H;

pub const MSG_LEFT_PADDING: i128 = 12 * SUBPIXELS;

pub const MSG_LINE_1_Y: i128 = 14 * SUBPIXELS;

pub const MSG_LINE_2_Y: i128 = 32 * SUBPIXELS;

pub const MSG_LINE_3_Y: i128 = 50 * SUBPIXELS;

pub const MSG_SEPARATOR_OFFSET: i128 = 4 * SUBPIXELS;

/// Where a glyph is set inside its cell.
pub const CELL_CHAR_X_OFFSET: i128 = 3 * SUBPIXELS;

pub const CELL_CHAR_Y_OFFSET: i128 = 15 * SUBPIXELS;

/// No length that the layout handles is beyond this bound; it leaves room
/// for every sum and product of the formulas below.
pub const EXTENT_LIMIT: i128 = 0x1_0000_0000_0000_0000_0000;

/// A rectangle by its left and top edge, its width and its height.
#[derive(Clone, Copy, Debug, PartialEq, Eq, Structural)]
pub struct Rect {
    pub x: i128,
    pub y: i128,
    pub w: i128,
    pub h: i128,
}

/// The smaller of two numbers.
pub open spec fn least(a: int, b: int) -> int {
    if a <= b {
        a
    } else {
        b
    }
}

/// The larger of two numbers.
pub open spec fn most(a: int, b: int) -> int {
    if a >= b {
        a
    } else {
        b
    }
}

/// The width of a grid of `cols` columns.
pub open spec fn grid_width(cols: int) -> int {
    cols * CELL_W
}

/// The height of a grid of `rows` rows.
pub open spec fn grid_height(rows: int) -> int {
    rows * CELL_H
}

/// The width of the canvas for a grid of `cols` columns: that of the grid,
/// and at least the minimum.
pub open spec fn canvas_width(cols: int) -> int {
    most(grid_width(cols), MIN_CANVAS_W * SUBPIXELS)
}

/// A number of pixels as a `u32`, which holds at most `u32::MAX`.
pub open spec fn clamp_u32(v: int) -> u32 {
    if v < 0 {
        0u32
    } else if v > 0xffff_ffff {
        0xffff_ffffu32
    } else {
        v as u32
    }
}

/// The size of the pixel buffer for a map of `cols` by `rows` cells, in
/// pixels: as wide as the canvas, as high as the grid and the message strip.
pub open spec fn canvas_pixels(cols: int, rows: int) -> (u32, u32) {
    (
        clamp_u32(canvas_width(cols) / (SUBPIXELS as int)),
        clamp_u32((grid_height(rows) + STRIP_H) / (SUBPIXELS as int)),
    )
}

/// The width of a grid of `cols` columns.
pub fn grid_w(cols: usize) -> (r: i128)
    ensures
        r == grid_width(cols as int),
        0 <= r < EXTENT_LIMIT,
{
    cols as i128 * CELL_W
}

/// The height of a grid of `rows` rows.
pub fn grid_h(rows: usize) -> (r: i128)
    ensures
        r == grid_height(rows as int),
        0 <= r < EXTENT_LIMIT,
{
    rows as i128 * CELL_H
}

/// The width of the canvas for a grid of `cols` columns.
pub fn canvas_w(cols: usize) -> (r: i128)
    ensures
        r == canvas_width(cols as int),
        0 <= r < EXTENT_LIMIT,
{
    let g = grid_w(cols);
    if g >= MIN_CANVAS_W * SUBPIXELS {
        g
    } else {
        MIN_CANVAS_W * SUBPIXELS
    }
}

fn to_u32(v: i128) -> (r: u32)
    ensures
        r == clamp_u32(v as int),
{
    if v < 0 {
        0
    } else if v > 0xffff_ffff {
        0xffff_ffff
    } else {
        v as u32
    }
}

/// The size of the pixel buffer for a map of `cols` by `rows` cells.
pub fn canvas_size(cols: usize, rows: usize) -> (r: (u32, u32))
    ensures
        r == canvas_pixels(cols as int, rows as int),
{
    (to_u32(canvas_w(cols) / SUBPIXELS), to_u32((grid_h(rows) + STRIP_H) / SUBPIXELS))
}

/// The three regions of the message strip below a grid of height `map_h`,
/// on a canvas of width `map_w`.
pub struct Strip {
    /// The top of the text.
    pub text_y: i128,
    /// The width of the strip.
    pub text_w: i128,
    /// The width of the region on the left, three eighths of the strip.
    pub info_w: i128,
    /// The left edge of the region in the middle.
    pub debug_x: i128,
    /// The width of the region in the middle, a quarter of the strip.
    pub debug_w: i128,
    /// The right edge of the strip, to which the region on the right aligns.
    pub right_edge: i128,
    /// The height of the strip's panel.
    pub panel_h: i128,
}

/// The regions of the message strip.
pub open spec fn strip_layout(map_w: int, map_h: int) -> Strip {
    Strip {
        text_y: (map_h + TEXT_AREA_GAP) as i128,
        text_w: map_w as i128,
        info_w: (map_w * 3 / 8) as i128,
        debug_x: (map_w * 3 / 8) as i128,
        debug_w: (map_w / 4) as i128,
        right_edge: map_w as i128,
        panel_h: (TEXT_AREA_ROWS * CELL_H) as i128,
    }
}

/// The regions of the message strip.
pub fn strip(map_w: i128, map_h: i128) -> (r: Strip)
    requires
        0 <= map_w < EXTENT_LIMIT,
        0 <= map_h < EXTENT_LIMIT,
    ensures
        r == strip_layout(map_w as int, map_h as int),
{
    Strip {
        text_y: map_h + TEXT_AREA_GAP,
        text_w: map_w,
        info_w: map_w * 3 / 8,
        debug_x: map_w * 3 / 8,
        debug_w: map_w / 4,
        right_edge: map_w,
        panel_h: TEXT_AREA_ROWS * CELL_H,
    }
}

/// The margin between a panel and the corner of the canvas that it is
/// anchored to.
pub const PANEL_MARGIN: i128 = 12 * SUBPIXELS;

/// The inset of a panel's text from its padding.
pub const PANEL_TEXT_INSET: i128 = 4 * SUBPIXELS;

/// The gap between the line under a panel's title and its text.
pub const PANEL_TITLE_GAP: i128 = 8 * SUBPIXELS;

/// The width that the tutorial panel takes where the canvas allows it.
pub const TUTORIAL_PANEL_W: i128 = 380 * SUBPIXELS;

pub const TUTORIAL_PADDING: i128 = 16 * SUBPIXELS;

pub const TUTORIAL_TITLE_H: i128 = 24 * SUBPIXELS;

pub const TUTORIAL_LINE_H: i128 = 20 * SUBPIXELS;

/// The gap between the text of the tutorial panel and the line at its
/// foot.
pub const TUTORIAL_NAV_GAP: i128 = 12 * SUBPIXELS;

pub const TUTORIAL_NAV_H: i128 = 28 * SUBPIXELS;

/// The width that the help panel takes where the canvas allows it.
pub const HELP_PANEL_W: i128 = 360 * SUBPIXELS;

pub const HELP_PADDING: i128 = 14 * SUBPIXELS;

pub const HELP_TITLE_H: i128 = 20 * SUBPIXELS;

pub const HELP_LINE_H: i128 = 18 * SUBPIXELS;

/// The gap after each of the two parts of the help panel.
pub const HELP_SECTION_GAP: i128 = 10 * SUBPIXELS;

pub const HELP_HINT_H: i128 = 18 * SUBPIXELS;

/// The width of the tutorial panel on a canvas of width `canvas_w`: the
/// preferred width, or half the canvas where that is less.
pub open spec fn tutorial_panel_width(canvas_w: int) -> int {
    least(TUTORIAL_PANEL_W as int, canvas_w / 2)
}

/// The rectangle of the tutorial panel, anchored to the top right corner
/// of a canvas of width `canvas_w`, for a page of `lines` lines: as high as
/// its padding, its title, its lines and the line at its foot ask.
pub open spec fn tutorial_panel(canvas_w: int, lines: int) -> Rect {
    Rect {
        x: (canvas_w - tutorial_panel_width(canvas_w) - PANEL_MARGIN) as i128,
        y: PANEL_MARGIN,
        w: tutorial_panel_width(canvas_w) as i128,
        h: (TUTORIAL_PADDING + TUTORIAL_TITLE_H + PANEL_TITLE_GAP + lines * TUTORIAL_LINE_H
            + TUTORIAL_NAV_GAP + TUTORIAL_NAV_H + TUTORIAL_PADDING) as i128,
    }
}

/// The width that the text of the tutorial panel may take.
pub open spec fn tutorial_content_width(canvas_w: int) -> int {
    tutorial_panel_width(canvas_w) - 2 * TUTORIAL_PADDING - PANEL_TEXT_INSET
}

/// The width of the help panel on a canvas of width `canvas_w`: the
/// preferred width, or nine twentieths of the canvas where that is less.
pub open spec fn help_panel_width(canvas_w: int) -> int {
    least(HELP_PANEL_W as int, canvas_w * 9 / 20)
}

/// The room that a part of the help panel takes for `lines` lines: that of
/// one line at the least.
pub open spec fn help_part_height(lines: int) -> int {
    most(lines, 1) * HELP_LINE_H
}

/// The rectangle of the help panel, anchored to the top left corner, for a
/// tip of `tip_lines` lines and `control_lines` lines of hints.
pub open spec fn help_panel(canvas_w: int, tip_lines: int, control_lines: int) -> Rect {
    Rect {
        x: PANEL_MARGIN,
        y: PANEL_MARGIN,
        w: help_panel_width(canvas_w) as i128,
        h: (HELP_PADDING + HELP_TITLE_H + PANEL_TITLE_GAP + help_part_height(tip_lines)
            + HELP_SECTION_GAP + help_part_height(control_lines) + HELP_SECTION_GAP
            + HELP_HINT_H + HELP_PADDING) as i128,
    }
}

/// The width that the text of the help panel may take.
pub open spec fn help_content_width(canvas_w: int) -> int {
    help_panel_width(canvas_w) - 2 * HELP_PADDING - PANEL_TEXT_INSET
}

/// The width that the text of the tutorial panel may take.
pub fn tutorial_room(canvas_w: i128) -> (r: i128)
    requires
        0 <= canvas_w < EXTENT_LIMIT,
    ensures
        r == tutorial_content_width(canvas_w as int),
{
    let half: i128 = canvas_w / 2;
    (if TUTORIAL_PANEL_W <= half {
        TUTORIAL_PANEL_W
    } else {
        half
    }) - 2 * TUTORIAL_PADDING - PANEL_TEXT_INSET
}

/// The width that the text of the help panel may take.
pub fn help_room(canvas_w: i128) -> (r: i128)
    requires
        0 <= canvas_w < EXTENT_LIMIT,
    ensures
        r == help_content_width(canvas_w as int),
{
    let share: i128 = canvas_w * 9 / 20;
    (if HELP_PANEL_W <= share {
        HELP_PANEL_W
    } else {
        share
    }) - 2 * HELP_PADDING - PANEL_TEXT_INSET
}

/// The rectangle of the tutorial panel.
pub fn tutorial_panel_bounds(canvas_w: i128, lines: usize) -> (r: Rect)
    requires
        0 <= canvas_w < EXTENT_LIMIT,
    ensures
        r == tutorial_panel(canvas_w as int, lines as int),
        -EXTENT_LIMIT < r.x < EXTENT_LIMIT,
        0 <= r.w <= TUTORIAL_PANEL_W,
        r.y == PANEL_MARGIN,
        0 <= r.h < EXTENT_LIMIT,
{
    let half: i128 = canvas_w / 2;
    let w: i128 = if TUTORIAL_PANEL_W <= half {
        TUTORIAL_PANEL_W
    } else {
        half
    };
    Rect {
        x: canvas_w - w - PANEL_MARGIN,
        y: PANEL_MARGIN,
        w,
        h: TUTORIAL_PADDING + TUTORIAL_TITLE_H + PANEL_TITLE_GAP + lines as i128 * TUTORIAL_LINE_H
            + TUTORIAL_NAV_GAP + TUTORIAL_NAV_H + TUTORIAL_PADDING,
    }
}

/// The rectangle of the help panel.
pub fn help_panel_bounds(canvas_w: i128, tip_lines: usize, control_lines: usize) -> (r: Rect)
    requires
        0 <= canvas_w < EXTENT_LIMIT,
    ensures
        r == help_panel(canvas_w as int, tip_lines as int, control_lines as int),
        r.x == PANEL_MARGIN,
        r.y == PANEL_MARGIN,
        0 <= r.w <= HELP_PANEL_W,
        0 <= r.h < EXTENT_LIMIT,
{
    let share: i128 = canvas_w * 9 / 20;
    let w: i128 = if HELP_PANEL_W <= share {
        HELP_PANEL_W
    } else {
        share
    };
    let tips: i128 = if tip_lines >= 1 {
        tip_lines as i128
    } else {
        1
    };
    let controls: i128 = if control_lines >= 1 {
        control_lines as i128
    } else {
        1
    };
    Rect {
        x: PANEL_MARGIN,
        y: PANEL_MARGIN,
        w,
        h: HELP_PADDING + HELP_TITLE_H + PANEL_TITLE_GAP + tips * HELP_LINE_H + HELP_SECTION_GAP
            + controls * HELP_LINE_H + HELP_SECTION_GAP + HELP_HINT_H + HELP_PADDING,
    }
}

/// The measures of a kind of modal menu: a list of entries under a title,
/// centred on the screen.
pub struct MenuStyle {
    /// The width that the menu takes where the screen allows it.
    pub preferred_w: i128,
    /// The height of one entry.
    pub item_h: i128,
    /// The share of the screen that the menu may take, in twentieths.
    pub share: i128,
}

/// The space around the content of a modal menu.
pub const MENU_PADDING: i128 = 24 * SUBPIXELS;

/// The height of the title of a modal menu.
pub const MENU_TITLE_H: i128 = 40 * SUBPIXELS;

/// The height of the hint at the foot of a modal menu.
pub const MENU_HINT_H: i128 = 30 * SUBPIXELS;

/// The menu of tutorial scenarios.
pub open spec fn tutorial_menu_style() -> MenuStyle {
    MenuStyle { preferred_w: (520 * SUBPIXELS) as i128, item_h: (48 * SUBPIXELS) as i128, share: 17 }
}

/// The menu of saved games.
pub open spec fn load_menu_style() -> MenuStyle {
    MenuStyle { preferred_w: (500 * SUBPIXELS) as i128, item_h: (36 * SUBPIXELS) as i128, share: 16 }
}

/// The width of a menu on a screen `screen_w` pixels wide: the preferred
/// width, or the menu's share of the screen where that is less. A twentieth
/// of a pixel is two units.
pub open spec fn menu_width(style: MenuStyle, screen_w: int) -> int {
    least(style.preferred_w as int, screen_w * 2 * style.share)
}

/// The height of a menu of `count` entries on a screen `screen_h` pixels
/// high: title, entries, hint and padding, or the menu's share of the screen
/// where that is less.
pub open spec fn menu_height(style: MenuStyle, count: int, screen_h: int) -> int {
    least(
        MENU_TITLE_H + MENU_PADDING + count * style.item_h + MENU_HINT_H + MENU_PADDING,
        screen_h * 2 * style.share,
    )
}

/// The rectangle of a menu, centred on the screen.
pub open spec fn menu_rect(style: MenuStyle, count: int, screen_w: int, screen_h: int) -> Rect {
    Rect {
        x: ((screen_w * SUBPIXELS - menu_width(style, screen_w)) / 2) as i128,
        y: ((screen_h * SUBPIXELS - menu_height(style, count, screen_h)) / 2) as i128,
        w: menu_width(style, screen_w) as i128,
        h: menu_height(style, count, screen_h) as i128,
    }
}

/// The top of the first entry of a menu.
pub open spec fn menu_content_top(
    style: MenuStyle,
    count: int,
    screen_w: int,
    screen_h: int,
) -> int {
    menu_rect(style, count, screen_w, screen_h).y + MENU_PADDING + MENU_TITLE_H
}

/// The rectangle of entry `i` of a menu: as wide as the menu, and one
/// entry's height high, the entries stacked from the content's top.
pub open spec fn menu_item_rect(
    style: MenuStyle,
    count: int,
    i: int,
    screen_w: int,
    screen_h: int,
) -> Rect {
    Rect {
        x: menu_rect(style, count, screen_w, screen_h).x,
        y: (menu_content_top(style, count, screen_w, screen_h) + i * style.item_h) as i128,
        w: menu_rect(style, count, screen_w, screen_h).w,
        h: style.item_h,
    }
}

/// Whether a menu style is one of this interface: its numbers are small
/// enough for the arithmetic of the layout.
pub open spec fn style_ok(style: MenuStyle) -> bool {
    &&& 0 <= style.preferred_w <= 0x1_0000_0000
    &&& 0 < style.item_h <= 0x8000
    &&& 0 <= style.share <= 20
}

/// The style of the menu of tutorial scenarios.
pub fn tutorial_menu() -> (r: MenuStyle)
    ensures
        r == tutorial_menu_style(),
        style_ok(r),
{
    MenuStyle { preferred_w: 520 * SUBPIXELS, item_h: 48 * SUBPIXELS, share: 17 }
}

/// The style of the menu of saved games.
pub fn load_menu() -> (r: MenuStyle)
    ensures
        r == load_menu_style(),
        style_ok(r),
{
    MenuStyle { preferred_w: 500 * SUBPIXELS, item_h: 36 * SUBPIXELS, share: 16 }
}

/// The rectangle of a menu of `count` entries on a screen of the given size.
pub fn menu_bounds(style: &MenuStyle, count: usize, screen_w: u32, screen_h: u32) -> (r: Rect)
    requires
        style_ok(*style),
    ensures
        r == menu_rect(*style, count as int, screen_w as int, screen_h as int),
        0 <= r.x <= 0x100_0000_0000,
        0 <= r.y <= 0x100_0000_0000,
        0 <= r.w <= 0x100_0000_0000,
        0 <= r.h <= 0x100_0000_0000,
{
    assert(0 <= (screen_w * 2) * style.share <= 0x2_0000_0000 * 20) by (nonlinear_arith)
        requires
            0 <= screen_w <= 0xffff_ffff,
            0 <= style.share <= 20,
    ;
    assert(0 <= (screen_h * 2) * style.share <= 0x2_0000_0000 * 20) by (nonlinear_arith)
        requires
            0 <= screen_h <= 0xffff_ffff,
            0 <= style.share <= 20,
    ;
    proof {
        lemma_menu_rect_bounds(*style, count, screen_w, screen_h);
    }
    let share_w: i128 = screen_w as i128 * 2 * style.share;
    let w: i128 = if style.preferred_w <= share_w {
        style.preferred_w
    } else {
        share_w
    };
    let share_h: i128 = screen_h as i128 * 2 * style.share;
    assert(0 <= count * style.item_h <= 0x1_0000_0000_0000_0000 * 0x1_0000_0000)
        by (nonlinear_arith)
        requires
            0 <= count <= 0x1_0000_0000_0000_0000,
            0 <= style.item_h <= 0x1_0000_0000,
    ;
    let full_h: i128 = MENU_TITLE_H + MENU_PADDING + count as i128 * style.item_h + MENU_HINT_H
        + MENU_PADDING;
    let h: i128 = if full_h <= share_h {
        full_h
    } else {
        share_h
    };
    Rect { x: (screen_w as i128 * SUBPIXELS - w) / 2, y: (screen_h as i128 * SUBPIXELS - h) / 2, w, h }
}

/// The rectangle of entry `i` of a menu.
pub fn menu_item_bounds(
    style: &MenuStyle,
    count: usize,
    i: usize,
    screen_w: u32,
    screen_h: u32,
) -> (r: Rect)
    requires
        style_ok(*style),
    ensures
        r == menu_item_rect(*style, count as int, i as int, screen_w as int, screen_h as int),
{
    let m = menu_bounds(style, count, screen_w, screen_h);
    assert(0 <= i * style.item_h <= 0x1_0000_0000_0000_0000 * 0x1_0000_0000) by (nonlinear_arith)
        requires
            0 <= i <= 0x1_0000_0000_0000_0000,
            0 <= style.item_h <= 0x1_0000_0000,
    ;
    Rect {
        x: m.x,
        y: m.y + MENU_PADDING + MENU_TITLE_H + i as i128 * style.item_h,
        w: m.w,
        h: style.item_h,
    }
}

/// Whether the entry with the rectangle `r` takes a pointer at `(x, y)`: the
/// point lies between the left and the right edge, both counted in, and from
/// the top edge down to, but not on, the bottom edge.
pub open spec fn item_accepts(r: Rect, x: int, y: int) -> bool {
    &&& r.x <= x <= r.x + r.w
    &&& r.y <= y < r.y + r.h
}

/// The entry of a menu that a pointer at `(x, y)` is on, if any.
pub open spec fn menu_hit(
    style: MenuStyle,
    count: int,
    x: int,
    y: int,
    screen_w: int,
    screen_h: int,
) -> Option<int> {
    let m = menu_rect(style, count, screen_w, screen_h);
    let top = menu_content_top(style, count, screen_w, screen_h);
    if x < m.x || x > m.x + m.w || y < top {
        None
    } else if (y - top) / (style.item_h as int) < count {
        Some((y - top) / (style.item_h as int))
    } else {
        None
    }
}

/// The entry of a menu of `count` entries that a pointer at `(x, y)` is on.
pub fn menu_item_at(
    style: &MenuStyle,
    count: usize,
    x: i128,
    y: i128,
    screen_w: u32,
    screen_h: u32,
) -> (r: Option<usize>)
    requires
        style_ok(*style),
    ensures
        r matches Some(i) ==> menu_hit(
            *style,
            count as int,
            x as int,
            y as int,
            screen_w as int,
            screen_h as int,
        ) == Some(i as int),
        r is None ==> menu_hit(
            *style,
            count as int,
            x as int,
            y as int,
            screen_w as int,
            screen_h as int,
        ) is None,
{
    let m = menu_bounds(style, count, screen_w, screen_h);
    let top: i128 = m.y + MENU_PADDING + MENU_TITLE_H;
    if x < m.x || x > m.x + m.w || y < top {
        return None;
    }
    let idx: i128 = (y - top) / style.item_h;
    if idx < count as i128 {
        Some(idx as usize)
    } else {
        None
    }
}

/// A pointer is on entry `i` of a menu exactly if `i` is one of the menu's
/// entries and the entry's rectangle takes the pointer. So the rectangle
/// that is painted for an entry and the area in which the entry is hit are
/// one and the same, for every size of the screen and every number of
/// entries, also where the menu is too high for the screen.
pub proof fn menu_hit_is_item_rect(
    style: MenuStyle,
    count: usize,
    i: int,
    x: int,
    y: int,
    screen_w: u32,
    screen_h: u32,
)
    requires
        style_ok(style),
    ensures
        menu_hit(style, count as int, x, y, screen_w as int, screen_h as int) == Some(i) <==> (0
            <= i < count && item_accepts(
            menu_item_rect(style, count as int, i, screen_w as int, screen_h as int),
            x,
            y,
        )),
{
    let m = menu_rect(style, count as int, screen_w as int, screen_h as int);
    let top = menu_content_top(style, count as int, screen_w as int, screen_h as int);
    let h = style.item_h as int;
    lemma_menu_rect_bounds(style, count, screen_w, screen_h);
    if 0 <= i < count {
        assert(0 <= i * h <= 0x1_0000_0000_0000_0000 * 0x1_0000_0000) by (nonlinear_arith)
            requires
                0 <= i <= 0x1_0000_0000_0000_0000,
                0 < h <= 0x1_0000_0000,
        ;
        let r = menu_item_rect(style, count as int, i, screen_w as int, screen_h as int);
        assert(r.y == top + i * h);
        assert(r.x == m.x && r.w == m.w && r.h == h);
    }
    if y >= top {
        let q = (y - top) / h;
        assert(q * h <= y - top < q * h + h && 0 <= q) by (nonlinear_arith)
            requires
                q == (y - top) / h,
                0 < h,
                0 <= y - top,
        ;
        if 0 <= i && i * h <= y - top < i * h + h {
            assert(i == q) by (nonlinear_arith)
                requires
                    q * h <= y - top < q * h + h,
                    i * h <= y - top < i * h + h,
                    0 < h,
            ;
        }
    } else {
        if 0 <= i {
            assert(i * h >= 0) by (nonlinear_arith)
                requires
                    0 <= i,
                    0 < h,
            ;
        }
    }
}

/// The rectangle of a menu lies on the screen and its numbers are small.
pub proof fn lemma_menu_rect_bounds(style: MenuStyle, count: usize, screen_w: u32, screen_h: u32)
    requires
        style_ok(style),
    ensures
        ({
            let m = menu_rect(style, count as int, screen_w as int, screen_h as int);
            &&& m.w == menu_width(style, screen_w as int)
            &&& m.h == menu_height(style, count as int, screen_h as int)
            &&& 2 * m.x == screen_w * 40 - m.w || 2 * m.x + 1 == screen_w * 40 - m.w
            &&& 2 * m.y == screen_h * 40 - m.h || 2 * m.y + 1 == screen_h * 40 - m.h
            &&& 0 <= m.x <= 0x100_0000_0000
            &&& 0 <= m.y <= 0x100_0000_0000
            &&& 0 <= m.w <= 0x100_0000_0000
            &&& 0 <= m.h <= 0x100_0000_0000
        }),
{
    assert(0 <= (screen_w * 2) * style.share <= screen_w * 40) by (nonlinear_arith)
        requires
            0 <= screen_w <= 0xffff_ffff,
            0 <= style.share <= 20,
    ;
    assert(0 <= (screen_h * 2) * style.share <= screen_h * 40) by (nonlinear_arith)
        requires
            0 <= screen_h <= 0xffff_ffff,
            0 <= style.share <= 20,
    ;
    assert(0 <= count * style.item_h) by (nonlinear_arith)
        requires
            0 <= count,
            0 <= style.item_h,
    ;
}

} // verus!
