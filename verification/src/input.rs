//! The input layer: what a key or a pointer event changes in the view-model
//! and which command it sends to the remote peer.
//!
//! Pointer positions are canvas coordinates in units of which `SUBPIXELS`
//! make a pixel; times are milliseconds.

use vstd::prelude::*;
use vstd::string::*;
use crate::canvas::SUBPIXELS;
use crate::command::{map_key_event, mapped_key, Command, MouseButton};
use crate::layout::{
    menu_hit, menu_item_at, tutorial_menu, tutorial_menu_style, CELL_H, CELL_W,
};
use crate::protocol::{ServerMessage, TutorialMenuMsg};
use crate::state::{reconciled, GameState};
use crate::text::str_eq;

verus! {

/// The least time between two hover commands.
pub const HOVER_INTERVAL: u64 = 100;

/// The input layer of one session. It remembers when it last sent a hover
/// command.
pub struct InputDispatcher {
    /// The time of the last hover command, zero before the first.
    pub last_hover: u64,
}

/// The rectangle that the canvas takes on the screen, in units of which
/// `SUBPIXELS` make a pixel of the page.
pub struct ViewRect {
    pub left: i64,
    pub top: i64,
    pub width: i64,
    pub height: i64,
}

/// The quotient rounded toward zero.
pub open spec fn truncated_div(x: int, d: int) -> int {
    if x >= 0 {
        x / d
    } else {
        -((-x) / d)
    }
}

/// The nearest `i32`.
pub open spec fn clamp_i32(v: int) -> i32 {
    if v < i32::MIN {
        i32::MIN
    } else if v > i32::MAX {
        i32::MAX
    } else {
        v as i32
    }
}

/// The nearest `isize`.
pub open spec fn clamp_isize(v: int) -> isize {
    if v < isize::MIN {
        isize::MIN
    } else if v > isize::MAX {
        isize::MAX
    } else {
        v as isize
    }
}

/// The entry of the open tutorial menu that a pointer at `(x, y)` is on.
pub open spec fn tutorial_hit(
    menu: Option<TutorialMenuMsg>,
    x: int,
    y: int,
    screen_w: int,
    screen_h: int,
) -> Option<int> {
    match menu {
        Some(m) => menu_hit(
            tutorial_menu_style(),
            m.scenarios@.len() as int,
            x,
            y,
            screen_w,
            screen_h,
        ),
        None => None,
    }
}

/// The button of a click: the secondary button is `Right`, every other one
/// `Left`.
pub open spec fn button_of(button: i16) -> MouseButton {
    if button == 2 {
        MouseButton::Right
    } else {
        MouseButton::Left
    }
}

/// The state after a key went down, and the command it sends.
///
/// `H`, in either case, shows or hides the help panel and sends nothing.
/// Any other key of the table sends its command, with the hovered cell (or
/// the first cell, where none is hovered) as the mouse position, and marks
/// the mechanic it stands for as used. A key outside the table does nothing.
pub open spec fn key_down_result(
    before: GameState,
    key: Seq<char>,
    shift: bool,
    after: GameState,
    sent: Option<Command>,
) -> bool {
    if key == "H"@ || key == "h"@ {
        &&& sent is None
        &&& after == (GameState { show_help_overlay: !before.show_help_overlay, ..before })
    } else {
        match mapped_key(key, shift) {
            None => sent is None && after == before,
            Some(token) => {
                &&& sent matches Some(Command::Key { key: k, shift: s, mouse_x, mouse_y })
                &&& k@ == token
                &&& s == shift
                &&& mouse_x == mouse_cell(before.hover_col)
                &&& mouse_y == mouse_cell(before.hover_row)
                &&& marked(before, token, after)
            },
        }
    }
}

/// Whether `after` is `before` with the mechanic of the command `token`
/// marked as used: pause, tutorial menu, destination, waypoint, save, load
/// menu or map cycle, each by its own token. A flag that is set stays set.
pub open spec fn marked(before: GameState, token: Seq<char>, after: GameState) -> bool {
    after == (GameState {
        used_pause: before.used_pause || token == "P"@,
        used_tutorial_menu: before.used_tutorial_menu || token == "?"@,
        used_destination: before.used_destination || token == "."@,
        used_waypoint: before.used_waypoint || token == "*"@,
        used_save: before.used_save || token == "!"@,
        used_load_menu: before.used_load_menu || token == "^"@,
        used_map_cycle: before.used_map_cycle || token == "+"@,
        ..before
    })
}

/// A number cut to its low 32 bits, and those read as a signed number: a
/// number up to `i32::MAX` is itself, and one above wraps around.
pub open spec fn wrapped_i32(c: int) -> int {
    let low = c % 0x1_0000_0000;
    if low >= 0x8000_0000 {
        low - 0x1_0000_0000
    } else {
        low
    }
}

/// The hovered column or row as a key command carries it: zero where
/// nothing is hovered, and a number beyond 32 bits wrapped around.
pub open spec fn mouse_cell(hover: Option<usize>) -> i32 {
    match hover {
        Some(c) => wrapped_i32(c as int) as i32,
        None => 0i32,
    }
}

/// The state after a pointer button went down, and the command it sends.
///
/// On an entry of the open tutorial menu it chooses that scenario and
/// nothing else. Anywhere else it is a click on the cell under the pointer,
/// which is selected at once if its column and row are not negative.
pub open spec fn pointer_down_result(
    before: GameState,
    x: int,
    y: int,
    button: i16,
    screen_w: int,
    screen_h: int,
    after: GameState,
    sent: Command,
) -> bool {
    match tutorial_hit(before.tutorial_menu, x, y, screen_w, screen_h) {
        Some(i) => {
            &&& sent == (Command::TutorialSelect {
                id: before.tutorial_menu->0.scenarios@[i].id,
            })
            &&& after == (GameState { used_tutorial_menu: true, ..before })
        },
        None => {
            let col = clamp_i32(truncated_div(x, CELL_W as int));
            let row = clamp_i32(truncated_div(y, CELL_H as int));
            &&& sent == (Command::Click { col, row, button: button_of(button) })
            &&& if col >= 0 && row >= 0 {
                after == (GameState {
                    selected_col: Some(col as usize),
                    selected_row: Some(row as usize),
                    ..before
                })
            } else {
                after == before
            }
        },
    }
}

/// Whether a hover command goes out at the time `now`, the last one having
/// gone out at `last`: only a full interval later.
pub open spec fn hover_due(last: u64, now: u64) -> bool {
    now >= last && now - last >= HOVER_INTERVAL
}

/// The state after the pointer moved, the time of the last hover command,
/// and the command that is sent.
///
/// The hovered cell is always the cell under the pointer, or none where its
/// column or row is negative; the hovered entry of the tutorial menu is the
/// entry under the pointer, or none. A hover command for the cell goes out
/// only if a full interval has passed since the last one.
pub open spec fn pointer_move_result(
    before: GameState,
    last: u64,
    x: int,
    y: int,
    screen_w: int,
    screen_h: int,
    now: u64,
    after: GameState,
    last_after: u64,
    sent: Option<Command>,
) -> bool {
    let col = clamp_isize(truncated_div(x, CELL_W as int));
    let row = clamp_isize(truncated_div(y, CELL_H as int));
    let inside = col >= 0 && row >= 0;
    &&& after == (GameState {
        hover_col: if inside { Some(col as usize) } else { None },
        hover_row: if inside { Some(row as usize) } else { None },
        tutorial_menu_hovered: match tutorial_hit(before.tutorial_menu, x, y, screen_w, screen_h) {
            Some(i) => Some(i as usize),
            None => None,
        },
        ..before
    })
    &&& last_after == (if hover_due(last, now) { now } else { last })
    &&& sent == (if hover_due(last, now) { Some(Command::Hover { col, row }) } else { None })
}

fn div_toward_zero(x: i128, d: i128) -> (r: i128)
    requires
        0 < d,
    ensures
        r == truncated_div(x as int, d as int),
{
    x / d
}

fn to_i32(v: i128) -> (r: i32)
    ensures
        r == clamp_i32(v as int),
{
    if v < i32::MIN as i128 {
        i32::MIN
    } else if v > i32::MAX as i128 {
        i32::MAX
    } else {
        v as i32
    }
}

fn to_isize(v: i128) -> (r: isize)
    ensures
        r == clamp_isize(v as int),
{
    if v < isize::MIN as i128 {
        isize::MIN
    } else if v > isize::MAX as i128 {
        isize::MAX
    } else {
        v as isize
    }
}

/// The entry of the tutorial menu that a pointer at `(x, y)` is on, on a
/// canvas of `screen_w` by `screen_h` pixels.
pub fn tutorial_menu_hit(
    menu: &TutorialMenuMsg,
    x: i128,
    y: i128,
    screen_w: u32,
    screen_h: u32,
) -> (r: Option<usize>)
    ensures
        r matches Some(i) ==> tutorial_hit(
            Some(*menu),
            x as int,
            y as int,
            screen_w as int,
            screen_h as int,
        ) == Some(i as int),
        r is None ==> tutorial_hit(
            Some(*menu),
            x as int,
            y as int,
            screen_w as int,
            screen_h as int,
        ) is None,
{
    let style = tutorial_menu();
    menu_item_at(&style, menu.scenarios.len(), x, y, screen_w, screen_h)
}

/// Marks the mechanic that a command token stands for as used.
fn mark_used(state: &mut GameState, token: &str)
    ensures
        marked(*old(state), token@, *final(state)),
{
    let pause = str_eq(token, "P");
    let menu = str_eq(token, "?");
    let destination = str_eq(token, ".");
    let waypoint = str_eq(token, "*");
    let save = str_eq(token, "!");
    let load = str_eq(token, "^");
    let cycle = str_eq(token, "+");
    // The state is rebuilt in one step, around what it held before.
    let mut before = GameState::new();
    core::mem::swap(state, &mut before);
    *state = GameState {
        used_pause: before.used_pause || pause,
        used_tutorial_menu: before.used_tutorial_menu || menu,
        used_destination: before.used_destination || destination,
        used_waypoint: before.used_waypoint || waypoint,
        used_save: before.used_save || save,
        used_load_menu: before.used_load_menu || load,
        used_map_cycle: before.used_map_cycle || cycle,
        ..before
    };
}

fn hovered_cell(hover: Option<usize>) -> (r: i32)
    ensures
        r == mouse_cell(hover),
        r == (match hover {
            Some(c) => wrapped_i32(c as int),
            None => 0,
        }),
{
    match hover {
        Some(c) => {
            let low: u64 = c as u64 % 0x1_0000_0000;
            if low >= 0x8000_0000 {
                (low as i64 - 0x1_0000_0000) as i32
            } else {
                low as i32
            }
        },
        None => 0,
    }
}

impl InputDispatcher {
    /// The input layer at the start of a session.
    pub fn new() -> (r: Self)
        ensures
            r.last_hover == 0,
    {
        InputDispatcher { last_hover: 0 }
    }

    /// Handles a key that went down.
    pub fn key_down(&self, state: &mut GameState, key: &str, shift: bool) -> (sent: Option<
        Command,
    >)
        ensures
            key_down_result(*old(state), key@, shift, *final(state), sent),
            old(state).cursors_are_paired() ==> final(state).cursors_are_paired(),
    {
        if str_eq(key, "H") || str_eq(key, "h") {
            state.show_help_overlay = !state.show_help_overlay;
            return None;
        }
        let mouse_x = hovered_cell(state.hover_col);
        let mouse_y = hovered_cell(state.hover_row);
        match map_key_event(key, shift, mouse_x, mouse_y) {
            Some((token, _message)) => {
                mark_used(state, token.as_str());
                Some(Command::Key { key: token, shift, mouse_x, mouse_y })
            },
            None => None,
        }
    }

    /// Handles a key that went up: whichever key it was, the same signal
    /// goes out.
    pub fn key_up(&self) -> (sent: Command)
        ensures
            sent == Command::KeyUp,
    {
        Command::KeyUp
    }

    /// Handles a pointer button that went down at `(x, y)` on a canvas of
    /// `screen_w` by `screen_h` pixels.
    pub fn pointer_down(
        &self,
        state: &mut GameState,
        x: i128,
        y: i128,
        button: i16,
        screen_w: u32,
        screen_h: u32,
    ) -> (sent: Command)
        ensures
            pointer_down_result(
                *old(state),
                x as int,
                y as int,
                button,
                screen_w as int,
                screen_h as int,
                *final(state),
                sent,
            ),
            old(state).cursors_are_paired() ==> final(state).cursors_are_paired(),
    {
        let hit = match &state.tutorial_menu {
            Some(menu) => {
                match tutorial_menu_hit(menu, x, y, screen_w, screen_h) {
                    Some(i) => Some(menu.scenarios[i].id.clone()),
                    None => None,
                }
            },
            None => None,
        };
        match hit {
            Some(id) => {
                state.used_tutorial_menu = true;
                Command::TutorialSelect { id }
            },
            None => {
                let col = to_i32(div_toward_zero(x, CELL_W));
                let row = to_i32(div_toward_zero(y, CELL_H));
                if col >= 0 && row >= 0 {
                    state.selected_col = Some(col as usize);
                    state.selected_row = Some(row as usize);
                }
                let button = if button == 2 {
                    MouseButton::Right
                } else {
                    MouseButton::Left
                };
                Command::Click { col, row, button }
            },
        }
    }

    /// Handles a pointer that moved to `(x, y)` at the time `now`.
    pub fn pointer_move(
        &mut self,
        state: &mut GameState,
        x: i128,
        y: i128,
        screen_w: u32,
        screen_h: u32,
        now: u64,
    ) -> (sent: Option<Command>)
        ensures
            pointer_move_result(
                *old(state),
                old(self).last_hover,
                x as int,
                y as int,
                screen_w as int,
                screen_h as int,
                now,
                *final(state),
                final(self).last_hover,
                sent,
            ),
            old(state).cursors_are_paired() ==> final(state).cursors_are_paired(),
    {
        let col = to_isize(div_toward_zero(x, CELL_W));
        let row = to_isize(div_toward_zero(y, CELL_H));
        if col >= 0 && row >= 0 {
            state.hover_col = Some(col as usize);
            state.hover_row = Some(row as usize);
        } else {
            state.hover_col = None;
            state.hover_row = None;
        }
        let hovered = match &state.tutorial_menu {
            Some(menu) => tutorial_menu_hit(menu, x, y, screen_w, screen_h),
            None => None,
        };
        state.tutorial_menu_hovered = hovered;
        if now < self.last_hover || now - self.last_hover < HOVER_INTERVAL {
            return None;
        }
        self.last_hover = now;
        Some(Command::Hover { col, row })
    }
}

/// The floor of `n / d`, for any sign of `n` and of `d`.
pub open spec fn floor_div(n: int, d: int) -> int {
    if d > 0 {
        n / d
    } else {
        (-n) / (-d)
    }
}

/// The point of the canvas under a pointer at `(client_x, client_y)` on the
/// page, for a canvas that takes the rectangle `rect` on the page and whose
/// pixel buffer is `buffer_w` by `buffer_h` pixels: the offset from the
/// rectangle's corner, scaled by the ratio of the buffer's size to the
/// rectangle's, and left as it is where the rectangle has no width or no
/// height.
pub open spec fn canvas_point(
    client_x: int,
    client_y: int,
    rect: ViewRect,
    buffer_w: int,
    buffer_h: int,
) -> (int, int) {
    let css_x = client_x * SUBPIXELS - rect.left;
    let css_y = client_y * SUBPIXELS - rect.top;
    if rect.width == 0 || rect.height == 0 {
        (css_x, css_y)
    } else {
        (
            floor_div(css_x * (buffer_w * SUBPIXELS), rect.width as int),
            floor_div(css_y * (buffer_h * SUBPIXELS), rect.height as int),
        )
    }
}

proof fn lemma_floor_of_negative(m: int, d: int)
    requires
        0 < m,
        0 < d,
    ensures
        (-m) / d == -((m + d - 1) / d),
{
    let q = (m + d - 1) / d;
    assert(q * d <= m + d - 1 < q * d + d) by (nonlinear_arith)
        requires
            q == (m + d - 1) / d,
            0 < d,
    ;
    assert((-m) / d == -q) by (nonlinear_arith)
        requires
            q * d <= m + d - 1 < q * d + d,
            0 < d,
    ;
}

fn floor_quotient(n: i128, d: i64) -> (r: i128)
    requires
        d != 0,
        -0x100_0000_0000_0000_0000_0000_0000_0000 < n < 0x100_0000_0000_0000_0000_0000_0000_0000,
    ensures
        r == floor_div(n as int, d as int),
{
    let (m, e): (i128, i128) = if d > 0 {
        (n, d as i128)
    } else {
        (-n, -(d as i128))
    };
    if m >= 0 {
        m / e
    } else {
        proof {
            lemma_floor_of_negative(-m as int, e as int);
        }
        -((-m + e - 1) / e)
    }
}

/// Turns a pointer position on the page into a point of the canvas.
pub fn canvas_coords(
    client_x: i32,
    client_y: i32,
    rect: &ViewRect,
    buffer_w: u32,
    buffer_h: u32,
) -> (r: (i128, i128))
    ensures
        r.0 == canvas_point(
            client_x as int,
            client_y as int,
            *rect,
            buffer_w as int,
            buffer_h as int,
        ).0,
        r.1 == canvas_point(
            client_x as int,
            client_y as int,
            *rect,
            buffer_w as int,
            buffer_h as int,
        ).1,
{
    let css_x: i128 = client_x as i128 * SUBPIXELS - rect.left as i128;
    let css_y: i128 = client_y as i128 * SUBPIXELS - rect.top as i128;
    if rect.width == 0 || rect.height == 0 {
        return (css_x, css_y);
    }
    let scale_x: i128 = buffer_w as i128 * SUBPIXELS;
    let scale_y: i128 = buffer_h as i128 * SUBPIXELS;
    assert(-0x100_0000_0000_0000_0000_0000_0000_0000 < css_x * scale_x
        < 0x100_0000_0000_0000_0000_0000_0000_0000) by (nonlinear_arith)
        requires
            -0x1_0000_0000_0000_0001 < css_x < 0x1_0000_0000_0000_0001,
            0 <= scale_x < 0x100_0000_0000,
    ;
    assert(-0x100_0000_0000_0000_0000_0000_0000_0000 < css_y * scale_y
        < 0x100_0000_0000_0000_0000_0000_0000_0000) by (nonlinear_arith)
        requires
            -0x1_0000_0000_0000_0001 < css_y < 0x1_0000_0000_0000_0001,
            0 <= scale_y < 0x100_0000_0000,
    ;
    (floor_quotient(css_x * scale_x, rect.width), floor_quotient(css_y * scale_y, rect.height))
}

/// The size at which a canvas of `canvas_w` by `canvas_h` pixels is shown
/// in a viewport of `viewport_w` by `viewport_h`: scaled by 93 hundredths
/// of the largest factor at which it still fits, both sides by the same
/// factor, and rounded down to whole pixels.
pub open spec fn fitted_size(
    canvas_w: int,
    canvas_h: int,
    viewport_w: int,
    viewport_h: int,
) -> (int, int) {
    if viewport_w * canvas_h <= viewport_h * canvas_w {
        ((viewport_w * 93) / 100, (canvas_h * viewport_w * 93) / (canvas_w * 100))
    } else {
        ((canvas_w * viewport_h * 93) / (canvas_h * 100), (viewport_h * 93) / 100)
    }
}

/// The size at which the canvas is shown so that it fits the viewport, or
/// `None` for a canvas without width or height, which is left alone. A side
/// of the viewport that is not known counts as that of the canvas.
pub fn fit_canvas_to_viewport(
    canvas_w: u32,
    canvas_h: u32,
    viewport_w: Option<u32>,
    viewport_h: Option<u32>,
) -> (r: Option<(u64, u64)>)
    ensures
        match r {
            None => canvas_w == 0 || canvas_h == 0,
            Some(size) => {
                &&& canvas_w != 0 && canvas_h != 0
                &&& (size.0 as int, size.1 as int) == fitted_size(
                    canvas_w as int,
                    canvas_h as int,
                    match viewport_w {
                        Some(w) => w as int,
                        None => canvas_w as int,
                    },
                    match viewport_h {
                        Some(h) => h as int,
                        None => canvas_h as int,
                    },
                )
            },
        },
{
    if canvas_w == 0 || canvas_h == 0 {
        return None;
    }
    let cw: u128 = canvas_w as u128;
    let ch: u128 = canvas_h as u128;
    let vw: u128 = match viewport_w {
        Some(w) => w as u128,
        None => cw,
    };
    let vh: u128 = match viewport_h {
        Some(h) => h as u128,
        None => ch,
    };
    assert(vw * ch <= 0xffff_ffff * 0xffff_ffff && vh * cw <= 0xffff_ffff * 0xffff_ffff
        && ch * vw == vw * ch && cw * vh == vh * cw) by (nonlinear_arith)
        requires
            0 <= vw <= 0xffff_ffff,
            0 <= vh <= 0xffff_ffff,
            0 <= cw <= 0xffff_ffff,
            0 <= ch <= 0xffff_ffff,
    ;
    if vw * ch <= vh * cw {
        let w: u128 = (vw * 93) / 100;
        let h: u128 = (ch * vw * 93) / (cw * 100);
        assert(h <= 0xffff_ffff * 0xffff_ffff) by (nonlinear_arith)
            requires
                h == (ch * vw * 93) / (cw * 100),
                0 <= ch * vw <= 0xffff_ffff * 0xffff_ffff,
                1 <= cw,
        ;
        Some((w as u64, h as u64))
    } else {
        let w: u128 = (cw * vh * 93) / (ch * 100);
        let h: u128 = (vh * 93) / 100;
        assert(w <= 0xffff_ffff * 0xffff_ffff) by (nonlinear_arith)
            requires
                w == (cw * vh * 93) / (ch * 100),
                0 <= cw * vh <= 0xffff_ffff * 0xffff_ffff,
                1 <= ch,
        ;
        Some((w as u64, h as u64))
    }
}

/// The address of the socket for a page served under `protocol` by `host`:
/// a secure socket for a secure page, a plain one for any other.
pub open spec fn socket_address(protocol: Seq<char>, host: Seq<char>) -> Seq<char> {
    (if protocol == "https:"@ { "wss:"@ } else { "ws:"@ }) + "//"@ + host + "/ws"@
}

/// The address of the socket for a page served under `protocol` by `host`.
pub fn socket_url(protocol: &str, host: &str) -> (r: String)
    ensures
        r@ == socket_address(protocol@, host@),
{
    let mut out = String::new();
    if str_eq(protocol, "https:") {
        out.append("wss:");
    } else {
        out.append("ws:");
    }
    out.append("//");
    out.append(host);
    out.append("/ws");
    assert(out@ =~= socket_address(protocol@, host@));
    out
}

/// An event that changes the view-model.
pub ghost enum Event {
    KeyDown { key: Seq<char>, shift: bool },
    PointerDown { x: int, y: int, button: i16, screen_w: int, screen_h: int },
    PointerMove { x: int, y: int, screen_w: int, screen_h: int, last: u64, now: u64 },
    Message(ServerMessage),
}

/// Whether the view-model `after` can follow `before` on the event.
pub open spec fn follows(before: GameState, event: Event, after: GameState) -> bool {
    match event {
        Event::KeyDown { key, shift } => exists|sent: Option<Command>|
            key_down_result(before, key, shift, after, sent),
        Event::PointerDown { x, y, button, screen_w, screen_h } => exists|sent: Command|
            pointer_down_result(before, x, y, button, screen_w, screen_h, after, sent),
        Event::PointerMove { x, y, screen_w, screen_h, last, now } => exists|
            last_after: u64,
            sent: Option<Command>,
        |
            pointer_move_result(
                before,
                last,
                x,
                y,
                screen_w,
                screen_h,
                now,
                after,
                last_after,
                sent,
            ),
        Event::Message(msg) => reconciled(before, msg, after),
    }
}

/// Whether every first-use flag that is set in `before` is set in `after`.
pub open spec fn flags_kept(before: GameState, after: GameState) -> bool {
    &&& before.used_pause ==> after.used_pause
    &&& before.used_tutorial_menu ==> after.used_tutorial_menu
    &&& before.used_destination ==> after.used_destination
    &&& before.used_waypoint ==> after.used_waypoint
    &&& before.used_save ==> after.used_save
    &&& before.used_load_menu ==> after.used_load_menu
    &&& before.used_map_cycle ==> after.used_map_cycle
}

/// No event clears a first-use flag.
pub proof fn event_keeps_flags(before: GameState, event: Event, after: GameState)
    requires
        follows(before, event, after),
    ensures
        flags_kept(before, after),
{
}

/// First-use flags are monotone: along any run of events, a flag that is
/// set at some point of a session is set at every later point.
pub proof fn first_use_flags_are_monotone(
    states: Seq<GameState>,
    events: Seq<Event>,
    i: int,
    j: int,
)
    requires
        states.len() == events.len() + 1,
        forall|k: int| 0 <= k < events.len() ==> follows(states[k], #[trigger] events[k], states[k + 1]),
        0 <= i <= j < states.len(),
    ensures
        flags_kept(states[i], states[j]),
    decreases j - i,
{
    if i < j {
        first_use_flags_are_monotone(states, events, i, j - 1);
        event_keeps_flags(states[j - 1], events[j - 1], states[j]);
    }
}

/// The hover commands that go out for pointer moves at the times `times`,
/// in their order, the last one before them having gone out at `last`.
pub open spec fn hovers_sent(last: u64, times: Seq<u64>) -> nat
    decreases times.len(),
{
    if times.len() == 0 {
        0
    } else if hover_due(last, times[0]) {
        1 + hovers_sent(times[0], times.drop_first())
    } else {
        hovers_sent(last, times.drop_first())
    }
}

/// Hover commands are rate-limited: pointer moves that all fall within less
/// than one interval send at most one hover command, however many they are.
pub proof fn hover_rate_limit(last: u64, times: Seq<u64>)
    requires
        forall|i: int, j: int| 0 <= i <= j < times.len() ==> times[i] <= times[j],
        times.len() > 0 ==> times.last() - times[0] < HOVER_INTERVAL,
    ensures
        hovers_sent(last, times) <= 1,
    decreases times.len(),
{
    if times.len() > 0 {
        let rest = times.drop_first();
        assert forall|i: int, j: int| 0 <= i <= j < rest.len() implies rest[i] <= rest[j] by {
            assert(rest[i] == times[i + 1] && rest[j] == times[j + 1]);
        }
        if rest.len() > 0 {
            assert(rest.last() == times.last());
            assert(rest[0] == times[1]);
        }
        if hover_due(last, times[0]) {
            lemma_none_sent_within_interval(times[0], rest);
        } else {
            hover_rate_limit(last, rest);
        }
    }
}

proof fn lemma_none_sent_within_interval(last: u64, times: Seq<u64>)
    requires
        forall|i: int|
            0 <= i < times.len() ==> last <= #[trigger] times[i] < last + HOVER_INTERVAL,
    ensures
        hovers_sent(last, times) == 0,
    decreases times.len(),
{
    if times.len() > 0 {
        let rest = times.drop_first();
        assert forall|i: int| 0 <= i < rest.len() implies last <= #[trigger] rest[i] < last
            + HOVER_INTERVAL by {
            assert(rest[i] == times[i + 1]);
        }
        lemma_none_sent_within_interval(last, rest);
    }
}

} // verus!
