//! The drawing operations of a two-dimensional canvas, as values.
//!
//! The renderer does not draw: it lists what is to be drawn, in order, and
//! whoever owns the canvas carries the list out. Lengths and positions are
//! whole numbers of `SUBPIXELS`-ths of a pixel, which makes every fraction
//! that the layout uses exact; opacities are millionths.

use vstd::prelude::*;
use vstd::string::*;

verus! {

/// How many units of length make one pixel.
pub const SUBPIXELS: i128 = 40;

/// Half a pixel, by which a line is moved so that it falls on the pixels.
pub const HALF_PIXEL: i128 = 20;

/// The fonts of the interface.
#[derive(Clone, Copy, Debug, PartialEq, Eq, Structural)]
pub enum Font {
    /// The glyphs inside the map's cells.
    Cell,
    /// The lines of the message strip.
    Msg,
    /// The title of a panel or a menu.
    MenuTitle,
    /// The entries of a menu and the text of a panel.
    MenuItem,
    /// The small hints at the foot of a panel or a menu.
    MenuHint,
}

/// Where the baseline of a text lies.
#[derive(Clone, Copy, Debug, PartialEq, Eq, Structural)]
pub enum TextBaseline {
    Top,
    Alphabetic,
}

/// To which side of its anchor a text extends.
#[derive(Clone, Copy, Debug, PartialEq, Eq, Structural)]
pub enum TextAlign {
    Left,
    Right,
}

/// One operation on the canvas.
#[derive(Clone, Debug, PartialEq, Eq)]
pub enum DrawOp {
    /// Sets the size of the pixel buffer, in pixels.
    Resize { width: u32, height: u32 },
    SetFillStyle(String),
    SetStrokeStyle(String),
    SetLineWidth(i128),
    /// Sets the opacity of what follows, in millionths.
    SetGlobalAlpha(u32),
    SetFont(Font),
    SetTextBaseline(TextBaseline),
    SetTextAlign(TextAlign),
    FillRect { x: i128, y: i128, w: i128, h: i128 },
    StrokeRect { x: i128, y: i128, w: i128, h: i128 },
    BeginPath,
    MoveTo { x: i128, y: i128 },
    LineTo { x: i128, y: i128 },
    Stroke,
    FillText { text: String, x: i128, y: i128 },
}

/// A drawing operation with its strings as sequences of characters.
pub ghost enum Draw {
    Resize { width: u32, height: u32 },
    SetFillStyle(Seq<char>),
    SetStrokeStyle(Seq<char>),
    SetLineWidth(int),
    SetGlobalAlpha(int),
    SetFont(Font),
    SetTextBaseline(TextBaseline),
    SetTextAlign(TextAlign),
    FillRect { x: int, y: int, w: int, h: int },
    StrokeRect { x: int, y: int, w: int, h: int },
    BeginPath,
    MoveTo { x: int, y: int },
    LineTo { x: int, y: int },
    Stroke,
    FillText { text: Seq<char>, x: int, y: int },
}

impl View for DrawOp {
    type V = Draw;

    open spec fn view(&self) -> Draw {
        match *self {
            DrawOp::Resize { width, height } => Draw::Resize { width, height },
            DrawOp::SetFillStyle(s) => Draw::SetFillStyle(s@),
            DrawOp::SetStrokeStyle(s) => Draw::SetStrokeStyle(s@),
            DrawOp::SetLineWidth(w) => Draw::SetLineWidth(w as int),
            DrawOp::SetGlobalAlpha(a) => Draw::SetGlobalAlpha(a as int),
            DrawOp::SetFont(f) => Draw::SetFont(f),
            DrawOp::SetTextBaseline(b) => Draw::SetTextBaseline(b),
            DrawOp::SetTextAlign(a) => Draw::SetTextAlign(a),
            DrawOp::FillRect { x, y, w, h } => Draw::FillRect {
                x: x as int,
                y: y as int,
                w: w as int,
                h: h as int,
            },
            DrawOp::StrokeRect { x, y, w, h } => Draw::StrokeRect {
                x: x as int,
                y: y as int,
                w: w as int,
                h: h as int,
            },
            DrawOp::BeginPath => Draw::BeginPath,
            DrawOp::MoveTo { x, y } => Draw::MoveTo { x: x as int, y: y as int },
            DrawOp::LineTo { x, y } => Draw::LineTo { x: x as int, y: y as int },
            DrawOp::Stroke => Draw::Stroke,
            DrawOp::FillText { text, x, y } => Draw::FillText {
                text: text@,
                x: x as int,
                y: y as int,
            },
        }
    }
}

/// The operations of a list, each by its view.
pub open spec fn draws(ops: Seq<DrawOp>) -> Seq<Draw> {
    ops.map_values(|op: DrawOp| op@)
}

/// The font's description in the notation of style sheets.
pub open spec fn font_css_text(font: Font) -> Seq<char> {
    match font {
        Font::Cell => "bold 14px 'JetBrains Mono', 'Fira Code', 'Courier New', monospace"@,
        Font::Msg => "500 15px 'JetBrains Mono', 'Fira Code', 'Courier New', monospace"@,
        Font::MenuTitle => "700 18px 'JetBrains Mono', 'Fira Code', 'Courier New', monospace"@,
        Font::MenuItem => "400 15px 'JetBrains Mono', 'Fira Code', 'Courier New', monospace"@,
        Font::MenuHint => "400 12px 'JetBrains Mono', 'Fira Code', 'Courier New', monospace"@,
    }
}

/// The font's description in the notation of style sheets.
pub fn font_css(font: Font) -> (r: &'static str)
    ensures
        r@ == font_css_text(font),
{
    match font {
        Font::Cell => "bold 14px 'JetBrains Mono', 'Fira Code', 'Courier New', monospace",
        Font::Msg => "500 15px 'JetBrains Mono', 'Fira Code', 'Courier New', monospace",
        Font::MenuTitle => "700 18px 'JetBrains Mono', 'Fira Code', 'Courier New', monospace",
        Font::MenuItem => "400 15px 'JetBrains Mono', 'Fira Code', 'Courier New', monospace",
        Font::MenuHint => "400 12px 'JetBrains Mono', 'Fira Code', 'Courier New', monospace",
    }
}

} // verus!
