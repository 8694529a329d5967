//! The message strip below the grid: game information on the left, debug
//! lines in the middle, the game's status on the right.

use vstd::prelude::*;
use vstd::string::*;
use crate::canvas::{Draw, Font, TextAlign, TextBaseline, SUBPIXELS};
use crate::layout::{
    strip, strip_layout, Strip, EXTENT_LIMIT, MSG_LEFT_PADDING, MSG_LINE_1_Y, MSG_LINE_2_Y,
    MSG_LINE_3_Y, MSG_SEPARATOR_OFFSET,
};
use crate::palette::{
    rgb_text, COLOR_DEBUG, COLOR_ERROR, COLOR_PANEL_BG, COLOR_PANEL_BORDER, COLOR_TEXT_PRIMARY,
    COLOR_TEXT_SECONDARY, OPAQUE,
};
use crate::renderer::wrap::{measures, split, split_text, texts};
use crate::renderer::Renderer;
use crate::state::GameState;
use crate::text::{decimal, push_decimal};

verus! {

/// How long an error banner is shown, in milliseconds.
pub const ERROR_DURATION: u64 = 10_000;

/// The last part of that time, over which the banner fades: a fifth.
pub const ERROR_FADE: u64 = 2_000;

/// How far the banner's background rises above its line of text.
pub const ERROR_BANNER_RISE: i128 = 4 * SUBPIXELS;

/// The height of the banner's background.
pub const ERROR_BANNER_H: i128 = 22 * SUBPIXELS;

/// The width of the bar along the banner's left edge.
pub const ERROR_BAR_W: i128 = 3 * SUBPIXELS;

/// What the canvas answered when the texts of the strip were measured.
pub struct StripMetrics {
    /// The widths of the debug lines that are shown, in their order.
    pub debug_widths: Vec<Option<u32>>,
    /// The width of the pause mark together with the round.
    pub paused_full: Option<u32>,
    /// The width of the pause mark alone.
    pub paused_label: Option<u32>,
}

/// The opacity of the error banner at the time `now`, in millionths, for a
/// banner that is gone at `error_until`: full until a fifth of its time is
/// left, falling in a straight line to nothing over that fifth, and nothing
/// from `error_until` on.
pub open spec fn banner_opacity(now: u64, error_until: u64) -> int {
    if now >= error_until {
        0
    } else if error_until - now < ERROR_FADE {
        (error_until - now) * OPAQUE / (ERROR_FADE as int)
    } else {
        OPAQUE as int
    }
}

/// The opacity of the error banner at the time `now`.
pub fn error_banner_opacity(now: u64, error_until: u64) -> (r: u32)
    ensures
        r == banner_opacity(now, error_until),
        r <= OPAQUE,
{
    if now >= error_until {
        0
    } else if error_until - now < ERROR_FADE {
        ((error_until - now) * OPAQUE as u64 / ERROR_FADE) as u32
    } else {
        OPAQUE
    }
}

/// The line `Round: ` with the number of the round.
pub open spec fn round_text(round: u32) -> Seq<char> {
    "Round: "@ + decimal(round as nat)
}

/// The pause mark.
pub open spec fn pause_mark() -> Seq<char> {
    "PAUSED  "@
}

/// The line `Dest: ` with the column and the row of a destination.
pub open spec fn destination_text(d: (usize, usize)) -> Seq<char> {
    "Dest: "@ + decimal(d.0 as nat) + ","@ + decimal(d.1 as nat)
}

/// The panel of the strip: its background, the line along its top and the
/// two lines that part its regions; and the font, the colour and the
/// baseline for its text.
pub open spec fn strip_frame_ops(s: Strip) -> Seq<Draw> {
    seq![
        Draw::SetFillStyle(rgb_text(COLOR_PANEL_BG)),
        Draw::FillRect {
            x: 0,
            y: s.text_y - MSG_SEPARATOR_OFFSET,
            w: s.text_w as int,
            h: s.panel_h + MSG_SEPARATOR_OFFSET,
        },
        Draw::SetStrokeStyle(rgb_text(COLOR_PANEL_BORDER)),
        Draw::BeginPath,
        Draw::MoveTo { x: 0, y: s.text_y - MSG_SEPARATOR_OFFSET },
        Draw::LineTo { x: s.text_w as int, y: s.text_y - MSG_SEPARATOR_OFFSET },
        Draw::Stroke,
        Draw::BeginPath,
        Draw::MoveTo { x: s.debug_x as int, y: s.text_y - MSG_SEPARATOR_OFFSET },
        Draw::LineTo { x: s.debug_x as int, y: s.text_y + s.panel_h },
        Draw::MoveTo { x: s.debug_x + s.debug_w, y: s.text_y - MSG_SEPARATOR_OFFSET },
        Draw::LineTo { x: s.debug_x + s.debug_w, y: s.text_y + s.panel_h },
        Draw::Stroke,
        Draw::SetFont(Font::Msg),
        Draw::SetFillStyle(rgb_text(COLOR_TEXT_PRIMARY)),
        Draw::SetTextBaseline(TextBaseline::Top),
    ]
}

/// A line of the strip in the secondary colour, after which the primary
/// colour is set again.
pub open spec fn secondary_line_ops(text: Seq<char>, x: int, y: int) -> Seq<Draw> {
    seq![
        Draw::SetFillStyle(rgb_text(COLOR_TEXT_SECONDARY)),
        Draw::FillText { text, x, y },
        Draw::SetFillStyle(rgb_text(COLOR_TEXT_PRIMARY)),
    ]
}

/// The region on the left: the attention message on the first line, and on
/// the second the turn message or, only where there is none, the
/// destination. An empty message is not shown.
pub open spec fn info_ops(state: GameState, s: Strip) -> Seq<Draw> {
    (if state.attention_message@.len() > 0 {
        seq![
            Draw::FillText {
                text: state.attention_message@,
                x: MSG_LEFT_PADDING as int,
                y: s.text_y + MSG_LINE_1_Y,
            },
        ]
    } else {
        Seq::empty()
    }) + (if state.turn_message@.len() > 0 {
        secondary_line_ops(state.turn_message@, MSG_LEFT_PADDING as int, s.text_y + MSG_LINE_2_Y)
    } else {
        match state.destination {
            Some(d) => secondary_line_ops(
                destination_text(d),
                MSG_LEFT_PADDING as int,
                s.text_y + MSG_LINE_2_Y,
            ),
            None => Seq::empty(),
        }
    })
}

/// The error banner on the third line of the region on the left: a tinted
/// background at a tenth of the banner's opacity, a bar along its left edge
/// and the message. It is shown while there is a message and the opacity is
/// above a hundredth.
pub open spec fn error_banner_ops(state: GameState, now: u64, s: Strip) -> Seq<Draw> {
    let alpha = banner_opacity(now, state.error_until);
    let top = s.text_y + MSG_LINE_3_Y - ERROR_BANNER_RISE;
    if state.error_message@.len() > 0 && alpha > OPAQUE / 100 {
        seq![
            Draw::SetGlobalAlpha(alpha / 10),
            Draw::SetFillStyle(rgb_text(COLOR_ERROR)),
            Draw::FillRect { x: 0, y: top, w: s.info_w as int, h: ERROR_BANNER_H as int },
            Draw::SetGlobalAlpha(alpha),
            Draw::SetFillStyle(rgb_text(COLOR_ERROR)),
            Draw::FillRect { x: 0, y: top, w: ERROR_BAR_W as int, h: ERROR_BANNER_H as int },
            Draw::FillText {
                text: state.error_message@,
                x: MSG_LEFT_PADDING as int,
                y: s.text_y + MSG_LINE_3_Y,
            },
            Draw::SetGlobalAlpha(OPAQUE as int),
        ]
    } else {
        Seq::empty()
    }
}

/// The offset of each of the three lines of the strip from the top of its
/// text.
pub open spec fn line_offset(i: int) -> int {
    if i <= 0 {
        MSG_LINE_1_Y as int
    } else if i == 1 {
        MSG_LINE_2_Y as int
    } else {
        MSG_LINE_3_Y as int
    }
}

/// The width that was measured for the debug line `i`, if any.
pub open spec fn width_at(widths: Seq<Option<u32>>, i: int) -> Option<u32> {
    if 0 <= i < widths.len() {
        widths[i]
    } else {
        None
    }
}

/// One debug line, centred on `center_x` by its measured width; a line
/// that could not be measured is not shown.
pub open spec fn debug_line_ops(line: Seq<char>, width: Option<u32>, center_x: int, y: int) -> Seq<
    Draw,
> {
    match width {
        Some(w) => seq![Draw::FillText { text: line, x: center_x - w / 2, y }],
        None => Seq::empty(),
    }
}

/// The first `n` debug lines.
pub open spec fn debug_lines_ops(
    lines: Seq<Seq<char>>,
    widths: Seq<Option<u32>>,
    center_x: int,
    text_y: int,
    n: int,
) -> Seq<Draw>
    decreases n,
{
    if n <= 0 {
        Seq::empty()
    } else {
        debug_lines_ops(lines, widths, center_x, text_y, n - 1) + debug_line_ops(
            lines[n - 1],
            width_at(widths, n - 1),
            center_x,
            text_y + line_offset(n - 1),
        )
    }
}

/// How many debug lines are shown: those of the message, and three at the
/// most.
pub open spec fn debug_line_count(state: GameState) -> int {
    if state.debug_message@.len() == 0 {
        0
    } else if split(state.debug_message@, '\n').len() < 3 {
        split(state.debug_message@, '\n').len() as int
    } else {
        3
    }
}

/// The region in the middle: the first three lines of the debug message,
/// each centred in the region.
pub open spec fn debug_ops(state: GameState, s: Strip, widths: Seq<Option<u32>>) -> Seq<Draw> {
    if state.debug_message@.len() == 0 {
        Seq::empty()
    } else {
        seq![Draw::SetFillStyle(rgb_text(COLOR_DEBUG))] + debug_lines_ops(
            split(state.debug_message@, '\n'),
            widths,
            s.debug_x + s.debug_w / 2,
            s.text_y as int,
            debug_line_count(state),
        ) + seq![Draw::SetFillStyle(rgb_text(COLOR_TEXT_PRIMARY))]
    }
}

/// A measured width, counted as nothing where the canvas could not
/// measure.
pub open spec fn width_or_zero(width: Option<u32>) -> int {
    match width {
        Some(w) => w as int,
        None => 0,
    }
}

/// The first line of the region on the right: the round, aligned to the
/// right edge; while the game is paused or about to pause, the pause mark in
/// the colour of errors and the round after it, set from the left so that
/// the two together end at the same place.
pub open spec fn round_ops(
    state: GameState,
    s: Strip,
    paused_full: Option<u32>,
    paused_label_width: Option<u32>,
) -> Seq<Draw> {
    if state.paused || state.pause_requested {
        let x = s.right_edge - width_or_zero(paused_full) - MSG_LEFT_PADDING;
        seq![
            Draw::SetTextAlign(TextAlign::Left),
            Draw::SetFillStyle(rgb_text(COLOR_ERROR)),
            Draw::FillText { text: pause_mark(), x, y: s.text_y + MSG_LINE_1_Y },
            Draw::SetFillStyle(rgb_text(COLOR_TEXT_PRIMARY)),
            Draw::FillText {
                text: round_text(state.round),
                x: x + width_or_zero(paused_label_width),
                y: s.text_y + MSG_LINE_1_Y,
            },
            Draw::SetTextAlign(TextAlign::Right),
        ]
    } else {
        seq![
            Draw::FillText {
                text: round_text(state.round),
                x: s.right_edge - MSG_LEFT_PADDING,
                y: s.text_y + MSG_LINE_1_Y,
            },
        ]
    }
}

/// The region on the right: the round, the hover message and the status of
/// production, aligned to the right edge; after it the alignment and the
/// baseline are set back.
pub open spec fn status_ops(
    state: GameState,
    s: Strip,
    paused_full: Option<u32>,
    paused_label_width: Option<u32>,
) -> Seq<Draw> {
    seq![Draw::SetTextAlign(TextAlign::Right)] + round_ops(
        state,
        s,
        paused_full,
        paused_label_width,
    ) + (if state.hover_message@.len() > 0 {
        secondary_line_ops(
            state.hover_message@,
            s.right_edge - MSG_LEFT_PADDING,
            s.text_y + MSG_LINE_2_Y,
        )
    } else {
        Seq::empty()
    }) + (if state.production_status@.len() > 0 {
        seq![
            Draw::SetFillStyle(rgb_text(COLOR_TEXT_SECONDARY)),
            Draw::FillText {
                text: state.production_status@,
                x: s.right_edge - MSG_LEFT_PADDING,
                y: s.text_y + MSG_LINE_3_Y,
            },
        ]
    } else {
        Seq::empty()
    }) + seq![
        Draw::SetTextAlign(TextAlign::Left),
        Draw::SetTextBaseline(TextBaseline::Alphabetic),
    ]
}

/// The message strip below a grid of `map_w` by `map_h`, at the time
/// `now`, with the widths that were measured for its texts.
pub open spec fn message_area_ops(
    state: GameState,
    now: u64,
    map_w: int,
    map_h: int,
    debug_widths: Seq<Option<u32>>,
    paused_full: Option<u32>,
    paused_label_width: Option<u32>,
) -> Seq<Draw> {
    let s = strip_layout(map_w, map_h);
    strip_frame_ops(s) + info_ops(state, s) + error_banner_ops(state, now, s) + debug_ops(
        state,
        s,
        debug_widths,
    ) + status_ops(state, s, paused_full, paused_label_width)
}

/// Whether the widths are answers of `measure` for the texts of the strip:
/// one for each debug line that is shown, and, while the pause mark is
/// shown, one for the mark with the round and one for the mark alone.
pub open spec fn strip_measured<M: Fn(Font, &str) -> Option<u32>>(
    measure: M,
    state: GameState,
    debug_widths: Seq<Option<u32>>,
    paused_full: Option<u32>,
    paused_label_width: Option<u32>,
) -> bool {
    &&& debug_widths.len() == debug_line_count(state)
    &&& forall|i: int|
        0 <= i < debug_widths.len() ==> measures(
            measure,
            Font::Msg,
            split(state.debug_message@, '\n')[i],
            #[trigger] debug_widths[i],
        )
    &&& if state.paused || state.pause_requested {
        &&& measures(measure, Font::Msg, pause_mark() + round_text(state.round), paused_full)
        &&& measures(measure, Font::Msg, pause_mark(), paused_label_width)
    } else {
        paused_full is None && paused_label_width is None
    }
}

/// The line `Round: ` with the number of the round.
pub fn round_string(round: u32) -> (r: String)
    ensures
        r@ == round_text(round),
{
    let mut out = "Round: ".to_string();
    push_decimal(&mut out, round as u64);
    out
}

/// The line `Dest: ` with the column and the row of a destination.
pub fn destination_string(d: (usize, usize)) -> (r: String)
    ensures
        r@ == destination_text(d),
{
    let mut out = "Dest: ".to_string();
    push_decimal(&mut out, d.0 as u64);
    out.append(",");
    push_decimal(&mut out, d.1 as u64);
    assert(out@ =~= destination_text(d));
    out
}

/// Measures the texts of the strip.
pub fn measure_message_area<M: Fn(Font, &str) -> Option<u32>>(
    state: &GameState,
    measure: &M,
) -> (metrics: StripMetrics)
    requires
        forall|f: Font, s: &str| call_requires(*measure, (f, s)),
    ensures
        strip_measured(
            *measure,
            *state,
            metrics.debug_widths@,
            metrics.paused_full,
            metrics.paused_label,
        ),
{
    let mut debug_widths: Vec<Option<u32>> = Vec::new();
    if !state.debug_message.as_str().is_empty() {
        let lines = split_text(state.debug_message.as_str(), '\n');
        let n: usize = if lines.len() < 3 {
            lines.len()
        } else {
            3
        };
        let mut i: usize = 0;
        while i < n
            invariant
                i <= n <= lines@.len(),
                n == debug_line_count(*state),
                texts(lines@) == split(state.debug_message@, '\n'),
                forall|f: Font, s: &str| call_requires(*measure, (f, s)),
                debug_widths@.len() == i,
                forall|k: int|
                    0 <= k < i ==> measures(
                        *measure,
                        Font::Msg,
                        split(state.debug_message@, '\n')[k],
                        #[trigger] debug_widths@[k],
                    ),
            decreases n - i,
        {
            let width = measure(Font::Msg, lines[i].as_str());
            assert(texts(lines@)[i as int] == lines@[i as int]@);
            assert(measures(*measure, Font::Msg, split(state.debug_message@, '\n')[i as int], width));
            debug_widths.push(width);
            i += 1;
        }
    }
    if state.paused || state.pause_requested {
        let mut full = "PAUSED  ".to_string();
        full.append(round_string(state.round).as_str());
        let paused_full = measure(Font::Msg, full.as_str());
        let paused_label = measure(Font::Msg, "PAUSED  ");
        assert(full@ =~= pause_mark() + round_text(state.round));
        assert(measures(*measure, Font::Msg, pause_mark() + round_text(state.round), paused_full));
        assert(measures(*measure, Font::Msg, pause_mark(), paused_label));
        StripMetrics { debug_widths, paused_full, paused_label }
    } else {
        StripMetrics { debug_widths, paused_full: None, paused_label: None }
    }
}

impl Renderer {
    fn paint_strip_frame(&mut self, s: &Strip)
        requires
            0 <= s.text_y < 2 * EXTENT_LIMIT,
            0 <= s.text_w < EXTENT_LIMIT,
            0 <= s.debug_x < EXTENT_LIMIT,
            0 <= s.debug_w < EXTENT_LIMIT,
            0 <= s.panel_h < EXTENT_LIMIT,
        ensures
            final(self)@ == old(self)@ + strip_frame_ops(*s),
    {
        let top: i128 = s.text_y - MSG_SEPARATOR_OFFSET;
        self.set_fill_color(COLOR_PANEL_BG);
        self.fill_rect(0, top, s.text_w, s.panel_h + MSG_SEPARATOR_OFFSET);
        self.set_stroke_color(COLOR_PANEL_BORDER);
        self.begin_path();
        self.move_to(0, top);
        self.line_to(s.text_w, top);
        self.stroke();
        self.begin_path();
        self.move_to(s.debug_x, top);
        self.line_to(s.debug_x, s.text_y + s.panel_h);
        self.move_to(s.debug_x + s.debug_w, top);
        self.line_to(s.debug_x + s.debug_w, s.text_y + s.panel_h);
        self.stroke();
        self.set_font(Font::Msg);
        self.set_fill_color(COLOR_TEXT_PRIMARY);
        self.set_text_baseline(TextBaseline::Top);
        assert(self@ =~= old(self)@ + strip_frame_ops(*s));
    }

    fn paint_secondary_line(&mut self, text: &str, x: i128, y: i128)
        ensures
            final(self)@ == old(self)@ + secondary_line_ops(text@, x as int, y as int),
    {
        self.set_fill_color(COLOR_TEXT_SECONDARY);
        self.fill_text(text, x, y);
        self.set_fill_color(COLOR_TEXT_PRIMARY);
        assert(self@ =~= old(self)@ + secondary_line_ops(text@, x as int, y as int));
    }

    fn paint_info(&mut self, state: &GameState, s: &Strip)
        requires
            0 <= s.text_y < 2 * EXTENT_LIMIT,
        ensures
            final(self)@ == old(self)@ + info_ops(*state, *s),
    {
        if !state.attention_message.as_str().is_empty() {
            self.fill_text(
                state.attention_message.as_str(),
                MSG_LEFT_PADDING,
                s.text_y + MSG_LINE_1_Y,
            );
        }
        if !state.turn_message.as_str().is_empty() {
            self.paint_secondary_line(
                state.turn_message.as_str(),
                MSG_LEFT_PADDING,
                s.text_y + MSG_LINE_2_Y,
            );
        } else {
            match state.destination {
                Some(d) => {
                    let text = destination_string(d);
                    self.paint_secondary_line(
                        text.as_str(),
                        MSG_LEFT_PADDING,
                        s.text_y + MSG_LINE_2_Y,
                    );
                },
                None => {},
            }
        }
        assert(self@ =~= old(self)@ + info_ops(*state, *s));
    }

    fn paint_error_banner(&mut self, state: &GameState, now: u64, s: &Strip)
        requires
            0 <= s.text_y < 2 * EXTENT_LIMIT,
        ensures
            final(self)@ == old(self)@ + error_banner_ops(*state, now, *s),
    {
        let alpha = error_banner_opacity(now, state.error_until);
        if !state.error_message.as_str().is_empty() && alpha > OPAQUE / 100 {
            let err_y: i128 = s.text_y + MSG_LINE_3_Y - ERROR_BANNER_RISE;
            self.set_global_alpha(alpha / 10);
            self.set_fill_color(COLOR_ERROR);
            self.fill_rect(0, err_y, s.info_w, ERROR_BANNER_H);
            self.set_global_alpha(alpha);
            self.set_fill_color(COLOR_ERROR);
            self.fill_rect(0, err_y, ERROR_BAR_W, ERROR_BANNER_H);
            self.fill_text(
                state.error_message.as_str(),
                MSG_LEFT_PADDING,
                s.text_y + MSG_LINE_3_Y,
            );
            self.set_global_alpha(OPAQUE);
        }
        assert(self@ =~= old(self)@ + error_banner_ops(*state, now, *s));
    }

    fn paint_debug(&mut self, state: &GameState, s: &Strip, widths: &Vec<Option<u32>>)
        requires
            0 <= s.text_y < 2 * EXTENT_LIMIT,
            0 <= s.debug_x < EXTENT_LIMIT,
            0 <= s.debug_w < EXTENT_LIMIT,
        ensures
            final(self)@ == old(self)@ + debug_ops(*state, *s, widths@),
    {
        if state.debug_message.as_str().is_empty() {
            assert(self@ =~= old(self)@ + debug_ops(*state, *s, widths@));
            return ;
        }
        self.set_fill_color(COLOR_DEBUG);
        let ghost head = self@;
        let lines = split_text(state.debug_message.as_str(), '\n');
        let ghost ls = split(state.debug_message@, '\n');
        let center_x: i128 = s.debug_x + s.debug_w / 2;
        let n: usize = if lines.len() < 3 {
            lines.len()
        } else {
            3
        };
        let mut i: usize = 0;
        assert(self@ =~= head + debug_lines_ops(ls, widths@, center_x as int, s.text_y as int, 0));
        while i < n
            invariant
                i <= n <= 3,
                n <= lines@.len(),
                ls == texts(lines@),
                0 <= s.text_y < 2 * EXTENT_LIMIT,
                0 <= center_x < 2 * EXTENT_LIMIT,
                self@ == head + debug_lines_ops(
                    ls,
                    widths@,
                    center_x as int,
                    s.text_y as int,
                    i as int,
                ),
            decreases n - i,
        {
            let y_off: i128 = if i == 0 {
                MSG_LINE_1_Y
            } else if i == 1 {
                MSG_LINE_2_Y
            } else {
                MSG_LINE_3_Y
            };
            let width: Option<u32> = if i < widths.len() {
                widths[i]
            } else {
                None
            };
            let ghost start = self@;
            match width {
                Some(w) => {
                    self.fill_text(lines[i].as_str(), center_x - (w / 2) as i128, s.text_y + y_off);
                },
                None => {},
            }
            assert(ls[i as int] == lines@[i as int]@);
            assert(self@ =~= start + debug_line_ops(
                ls[i as int],
                width_at(widths@, i as int),
                center_x as int,
                s.text_y + line_offset(i as int),
            ));
            assert(self@ =~= head + debug_lines_ops(
                ls,
                widths@,
                center_x as int,
                s.text_y as int,
                i + 1,
            ));
            i += 1;
        }
        self.set_fill_color(COLOR_TEXT_PRIMARY);
        assert(n == debug_line_count(*state));
        assert(self@ =~= old(self)@ + debug_ops(*state, *s, widths@));
    }

    fn paint_round(
        &mut self,
        state: &GameState,
        s: &Strip,
        paused_full: Option<u32>,
        paused_label: Option<u32>,
    )
        requires
            0 <= s.text_y < 2 * EXTENT_LIMIT,
            0 <= s.right_edge < EXTENT_LIMIT,
        ensures
            final(self)@ == old(self)@ + round_ops(*state, *s, paused_full, paused_label),
    {
        let round = round_string(state.round);
        if state.paused || state.pause_requested {
            let full_width: i128 = match paused_full {
                Some(w) => w as i128,
                None => 0,
            };
            let label_width: i128 = match paused_label {
                Some(w) => w as i128,
                None => 0,
            };
            let x: i128 = s.right_edge - full_width - MSG_LEFT_PADDING;
            self.set_text_align(TextAlign::Left);
            self.set_fill_color(COLOR_ERROR);
            self.fill_text("PAUSED  ", x, s.text_y + MSG_LINE_1_Y);
            self.set_fill_color(COLOR_TEXT_PRIMARY);
            self.fill_text(round.as_str(), x + label_width, s.text_y + MSG_LINE_1_Y);
            self.set_text_align(TextAlign::Right);
        } else {
            self.fill_text(round.as_str(), s.right_edge - MSG_LEFT_PADDING, s.text_y + MSG_LINE_1_Y);
        }
        assert(self@ =~= old(self)@ + round_ops(*state, *s, paused_full, paused_label));
    }

    fn paint_status(
        &mut self,
        state: &GameState,
        s: &Strip,
        paused_full: Option<u32>,
        paused_label: Option<u32>,
    )
        requires
            0 <= s.text_y < 2 * EXTENT_LIMIT,
            0 <= s.right_edge < EXTENT_LIMIT,
        ensures
            final(self)@ == old(self)@ + status_ops(*state, *s, paused_full, paused_label),
    {
        self.set_text_align(TextAlign::Right);
        self.paint_round(state, s, paused_full, paused_label);
        if !state.hover_message.as_str().is_empty() {
            self.paint_secondary_line(
                state.hover_message.as_str(),
                s.right_edge - MSG_LEFT_PADDING,
                s.text_y + MSG_LINE_2_Y,
            );
        }
        if !state.production_status.as_str().is_empty() {
            self.set_fill_color(COLOR_TEXT_SECONDARY);
            self.fill_text(
                state.production_status.as_str(),
                s.right_edge - MSG_LEFT_PADDING,
                s.text_y + MSG_LINE_3_Y,
            );
        }
        self.set_text_align(TextAlign::Left);
        self.set_text_baseline(TextBaseline::Alphabetic);
        assert(self@ =~= old(self)@ + status_ops(*state, *s, paused_full, paused_label));
    }

    /// Paints the message strip with widths that were measured before.
    pub fn paint_message_area(
        &mut self,
        state: &GameState,
        now: u64,
        map_w: i128,
        map_h: i128,
        metrics: &StripMetrics,
    )
        requires
            0 <= map_w < EXTENT_LIMIT,
            0 <= map_h < EXTENT_LIMIT,
        ensures
            final(self)@ == old(self)@ + message_area_ops(
                *state,
                now,
                map_w as int,
                map_h as int,
                metrics.debug_widths@,
                metrics.paused_full,
                metrics.paused_label,
            ),
    {
        let s = strip(map_w, map_h);
        self.paint_strip_frame(&s);
        self.paint_info(state, &s);
        self.paint_error_banner(state, now, &s);
        self.paint_debug(state, &s, &metrics.debug_widths);
        self.paint_status(state, &s, metrics.paused_full, metrics.paused_label);
        assert(self@ =~= old(self)@ + message_area_ops(
            *state,
            now,
            map_w as int,
            map_h as int,
            metrics.debug_widths@,
            metrics.paused_full,
            metrics.paused_label,
        ));
    }

    /// Paints the message strip below a grid of `map_w` by `map_h`: it
    /// measures the texts that are set by their width and paints the strip
    /// with what the canvas answered.
    pub fn draw_message_area<M: Fn(Font, &str) -> Option<u32>>(
        &mut self,
        state: &GameState,
        now: u64,
        map_w: i128,
        map_h: i128,
        measure: &M,
    )
        requires
            0 <= map_w < EXTENT_LIMIT,
            0 <= map_h < EXTENT_LIMIT,
            forall|f: Font, s: &str| call_requires(*measure, (f, s)),
        ensures
            exists|widths: Seq<Option<u32>>, full: Option<u32>, label: Option<u32>|
                #[trigger] strip_measured(*measure, *state, widths, full, label) && final(self)@
                    == old(self)@ + message_area_ops(
                    *state,
                    now,
                    map_w as int,
                    map_h as int,
                    widths,
                    full,
                    label,
                ),
    {
        let metrics = measure_message_area(state, measure);
        self.paint_message_area(state, now, map_w, map_h, &metrics);
    }
}

} // verus!
