//! The colours of the map and of the interface, and the arithmetic on them.
//!
//! A colour is three channels, red, green and blue. Factors and weights are
//! fractions of whole numbers, so every result is exact: a channel is the
//! floor of the scaled or blended value, and never more than 255.

use vstd::prelude::*;
use vstd::string::*;
use crate::protocol::{CellMsg, UnitMsg};
use crate::text::{decimal, digit_char, push_decimal, str_eq};

verus! {

pub const COLOR_PLAYER_CITY: [u8; 3] = [46, 160, 67];

pub const COLOR_COMPUTER_CITY: [u8; 3] = [218, 54, 51];

pub const COLOR_FREE_CITY: [u8; 3] = [201, 209, 217];

pub const COLOR_UNEXPLORED: [u8; 3] = [13, 17, 23];

pub const COLOR_LAND: [u8; 3] = [61, 43, 31];

pub const COLOR_SEA: [u8; 3] = [26, 58, 92];

/// The shades of land, one per land region, taken in turn.
pub const LAND_COLORS: [[u8; 3]; 8] = [
    [61, 43, 31],
    [74, 55, 40],
    [51, 36, 25],
    [82, 62, 45],
    [43, 30, 20],
    [92, 74, 54],
    [72, 53, 32],
    [58, 47, 38],
];

pub const COLOR_AWAKE: [u8; 3] = [240, 246, 252];

pub const COLOR_SLEEPING: [u8; 3] = [72, 79, 88];

pub const COLOR_SENTRY: [u8; 3] = [240, 136, 62];

pub const COLOR_EXPLORE: [u8; 3] = [86, 211, 100];

pub const COLOR_PRODUCTION: [u8; 3] = [110, 118, 129];

pub const COLOR_WAYPOINT: [u8; 3] = [63, 185, 80];

pub const COLOR_CANVAS_BG: [u8; 3] = [13, 17, 23];

pub const COLOR_PANEL_BG: [u8; 3] = [22, 27, 34];

pub const COLOR_PANEL_BORDER: [u8; 3] = [48, 54, 61];

pub const COLOR_TEXT_PRIMARY: [u8; 3] = [230, 237, 243];

pub const COLOR_TEXT_SECONDARY: [u8; 3] = [139, 148, 158];

pub const COLOR_ERROR: [u8; 3] = [248, 81, 73];

pub const COLOR_DEBUG: [u8; 3] = [121, 192, 255];

pub const COLOR_ACCENT: [u8; 3] = [88, 166, 255];

pub const COLOR_HOVER_BG: [u8; 3] = [31, 111, 235];

pub const COLOR_HOVER_NAME: [u8; 3] = [255, 255, 255];

pub const COLOR_HOVER_DESCRIPTION: [u8; 3] = [200, 210, 220];

/// The lighter shade of the fog chequer.
pub const FOG_LIGHT: [u8; 3] = [15, 19, 25];

/// The darker shade of the fog chequer.
pub const FOG_DARK: [u8; 3] = [11, 15, 21];

/// Full opacity, and the unit of every opacity and animation phase: one
/// millionth.
pub const OPAQUE: u32 = 1_000_000;

/// One channel blended from `a` toward `b` by the weight `num / den`.
pub open spec fn blend_channel(a: u8, b: u8, num: nat, den: nat) -> int {
    (a * (den - num) + b * num) / (den as int)
}

/// One channel scaled by `num / den`, and no more than 255.
pub open spec fn scale_channel(c: u8, num: nat, den: nat) -> int {
    if (c * num) / (den as int) > 255 {
        255
    } else {
        (c * num) / (den as int)
    }
}

proof fn lemma_blend_in_range(a: u8, b: u8, num: nat, den: nat)
    requires
        0 < den,
        num <= den,
    ensures
        0 <= blend_channel(a, b, num, den) <= 255,
        0 <= a * (den - num) + b * num <= 255 * den,
{
    assert(0 <= a * (den - num) <= 255 * (den - num)) by (nonlinear_arith)
        requires
            0 <= a <= 255,
            0 <= den - num,
    ;
    assert(0 <= b * num <= 255 * num) by (nonlinear_arith)
        requires
            0 <= b <= 255,
            0 <= num,
    ;
    let total = a * (den - num) + b * num;
    assert(255 * (den - num) + 255 * num == 255 * den) by (nonlinear_arith);
    assert(0 <= total / (den as int) <= 255) by (nonlinear_arith)
        requires
            0 <= total <= 255 * den,
            0 < den,
    ;
}

fn blend(a: u8, b: u8, num: u32, den: u32) -> (r: u8)
    requires
        0 < den,
        num <= den,
    ensures
        r == blend_channel(a, b, num as nat, den as nat),
{
    proof {
        lemma_blend_in_range(a, b, num as nat, den as nat);
    }
    let keep: u64 = (den - num) as u64;
    let x: u64 = a as u64 * keep;
    let y: u64 = b as u64 * num as u64;
    ((x + y) / den as u64) as u8
}

fn scale(c: u8, num: u32, den: u32) -> (r: u8)
    requires
        0 < den,
    ensures
        r == scale_channel(c, num as nat, den as nat),
{
    assert(0 <= c * num <= 255 * 0xffff_ffff) by (nonlinear_arith)
        requires
            0 <= c <= 255,
            0 <= num <= 0xffff_ffff,
    ;
    let v: u64 = (c as u64 * num as u64) / den as u64;
    if v > 255 {
        255
    } else {
        v as u8
    }
}

/// The colour between `a` and `b` at the weight `num / den`: `a` at weight
/// zero, `b` at weight one, each channel blended on its own.
pub open spec fn blended(a: [u8; 3], b: [u8; 3], num: nat, den: nat) -> [u8; 3] {
    [
        blend_channel(a[0], b[0], num, den) as u8,
        blend_channel(a[1], b[1], num, den) as u8,
        blend_channel(a[2], b[2], num, den) as u8,
    ]
}

/// The colour with each channel scaled by `num / den`; a channel stops at
/// 255.
pub open spec fn scaled(color: [u8; 3], num: nat, den: nat) -> [u8; 3] {
    [
        scale_channel(color[0], num, den) as u8,
        scale_channel(color[1], num, den) as u8,
        scale_channel(color[2], num, den) as u8,
    ]
}

/// The colour between `a` and `b` at the weight `num / den`. No channel
/// leaves the range between its two ends.
pub fn lerp_color(a: [u8; 3], b: [u8; 3], num: u32, den: u32) -> (r: [u8; 3])
    requires
        0 < den,
        num <= den,
    ensures
        r == blended(a, b, num as nat, den as nat),
        r[0] == blend_channel(a[0], b[0], num as nat, den as nat),
        r[1] == blend_channel(a[1], b[1], num as nat, den as nat),
        r[2] == blend_channel(a[2], b[2], num as nat, den as nat),
{
    let r = [blend(a[0], b[0], num, den), blend(a[1], b[1], num, den), blend(a[2], b[2], num, den)];
    assert(r =~= blended(a, b, num as nat, den as nat));
    r
}

/// The colour with each channel scaled by `num / den`, for a factor above
/// one; a channel stops at 255.
pub fn brighten(color: [u8; 3], num: u32, den: u32) -> (r: [u8; 3])
    requires
        0 < den,
    ensures
        r == scaled(color, num as nat, den as nat),
        r[0] == scale_channel(color[0], num as nat, den as nat),
        r[1] == scale_channel(color[1], num as nat, den as nat),
        r[2] == scale_channel(color[2], num as nat, den as nat),
{
    let r = [scale(color[0], num, den), scale(color[1], num, den), scale(color[2], num, den)];
    assert(r =~= scaled(color, num as nat, den as nat));
    r
}

/// The colour with each channel scaled by `num / den`, for a factor below
/// one.
pub fn darken(color: [u8; 3], num: u32, den: u32) -> (r: [u8; 3])
    requires
        0 < den,
    ensures
        r == scaled(color, num as nat, den as nat),
        r[0] == scale_channel(color[0], num as nat, den as nat),
        r[1] == scale_channel(color[1], num as nat, den as nat),
        r[2] == scale_channel(color[2], num as nat, den as nat),
{
    let r = [scale(color[0], num, den), scale(color[1], num, den), scale(color[2], num, den)];
    assert(r =~= scaled(color, num as nat, den as nat));
    r
}

/// The notation of a colour as a style: `rgb(r,g,b)`.
pub open spec fn rgb_text(color: [u8; 3]) -> Seq<char> {
    "rgb("@ + decimal(color[0] as nat) + ","@ + decimal(color[1] as nat) + ","@ + decimal(
        color[2] as nat,
    ) + ")"@
}

/// The last `digits` decimal digits of `n`, with leading zeros.
pub open spec fn padded_digits(n: nat, digits: nat) -> Seq<char>
    decreases digits,
{
    if digits == 0 {
        Seq::empty()
    } else {
        padded_digits(n / 10, (digits - 1) as nat).push(digit_char((n % 10) as int))
    }
}

/// The digits of the fraction `frac / 10^digits`, without trailing zeros.
pub open spec fn fraction_digits(frac: nat, digits: nat) -> Seq<char>
    decreases digits,
{
    if digits == 0 {
        Seq::empty()
    } else if frac % 10 == 0 {
        fraction_digits(frac / 10, (digits - 1) as nat)
    } else {
        padded_digits(frac, digits)
    }
}

/// The notation of an opacity given in millionths: the whole part, and after
/// a point the fraction's digits where it has any, as in `0.4` or `1`.
pub open spec fn opacity_text(alpha: nat) -> Seq<char> {
    if alpha % 1_000_000 == 0 {
        decimal(alpha / 1_000_000)
    } else {
        decimal(alpha / 1_000_000) + "."@ + fraction_digits(alpha % 1_000_000, 6)
    }
}

/// The notation of a colour with an opacity as a style: `rgba(r,g,b,a)`.
pub open spec fn rgba_text(color: [u8; 3], alpha: nat) -> Seq<char> {
    "rgba("@ + decimal(color[0] as nat) + ","@ + decimal(color[1] as nat) + ","@ + decimal(
        color[2] as nat,
    ) + ","@ + opacity_text(alpha) + ")"@
}

/// The style string of a colour.
pub fn rgb(color: [u8; 3]) -> (r: String)
    ensures
        r@ == rgb_text(color),
{
    let mut out = String::new();
    out.append("rgb(");
    push_decimal(&mut out, color[0] as u64);
    out.append(",");
    push_decimal(&mut out, color[1] as u64);
    out.append(",");
    push_decimal(&mut out, color[2] as u64);
    out.append(")");
    assert(out@ =~= rgb_text(color));
    out
}

fn push_padded(out: &mut String, n: u32, digits: u32)
    ensures
        final(out)@ == old(out)@ + padded_digits(n as nat, digits as nat),
    decreases digits,
{
    if digits > 0 {
        push_padded(out, n / 10, digits - 1);
        push_decimal(out, (n % 10) as u64);
        assert(decimal((n % 10) as nat) =~= seq![digit_char((n % 10) as int)]);
    }
    assert(out@ =~= old(out)@ + padded_digits(n as nat, digits as nat));
}

fn push_fraction(out: &mut String, frac: u32, digits: u32)
    ensures
        final(out)@ == old(out)@ + fraction_digits(frac as nat, digits as nat),
    decreases digits,
{
    if digits == 0 {
        assert(out@ =~= old(out)@ + fraction_digits(frac as nat, digits as nat));
    } else if frac % 10 == 0 {
        push_fraction(out, frac / 10, digits - 1);
    } else {
        push_padded(out, frac, digits);
    }
}

/// The style string of a colour with an opacity in millionths.
pub fn rgba(color: [u8; 3], alpha: u32) -> (r: String)
    ensures
        r@ == rgba_text(color, alpha as nat),
{
    let mut out = String::new();
    out.append("rgba(");
    push_decimal(&mut out, color[0] as u64);
    out.append(",");
    push_decimal(&mut out, color[1] as u64);
    out.append(",");
    push_decimal(&mut out, color[2] as u64);
    out.append(",");
    push_decimal(&mut out, (alpha / 1_000_000) as u64);
    if alpha % 1_000_000 != 0 {
        out.append(".");
        push_fraction(&mut out, alpha % 1_000_000, 6);
    }
    out.append(")");
    assert(out@ =~= rgba_text(color, alpha as nat));
    out
}

/// Whether an optional tag is present and reads `tag`.
pub open spec fn tag_is(value: Option<String>, tag: Seq<char>) -> bool {
    value matches Some(s) && s@ == tag
}

/// Whether an optional tag is present and reads `tag`.
pub fn has_tag(value: &Option<String>, tag: &str) -> (r: bool)
    ensures
        r == tag_is(*value, tag@),
{
    match value {
        Some(s) => str_eq(s.as_str(), tag),
        None => false,
    }
}

/// The base colour of a cell: a city by who holds it (a city of no known
/// holder as a free one), land by its region, the sea, and the colour of the
/// unexplored for any other terrain.
pub open spec fn cell_color_of(cell: CellMsg) -> [u8; 3] {
    if cell.t@ == "city"@ {
        if tag_is(cell.cs, "player"@) {
            COLOR_PLAYER_CITY
        } else if tag_is(cell.cs, "computer"@) {
            COLOR_COMPUTER_CITY
        } else {
            COLOR_FREE_CITY
        }
    } else if cell.t@ == "land"@ {
        match cell.cid {
            Some(cid) => LAND_COLORS[cid as int % 8],
            None => COLOR_LAND,
        }
    } else if cell.t@ == "sea"@ {
        COLOR_SEA
    } else {
        COLOR_UNEXPLORED
    }
}

/// The base colour of a cell.
pub fn cell_color(cell: &CellMsg) -> (r: [u8; 3])
    ensures
        r == cell_color_of(*cell),
{
    if str_eq(cell.t.as_str(), "city") {
        if has_tag(&cell.cs, "player") {
            COLOR_PLAYER_CITY
        } else if has_tag(&cell.cs, "computer") {
            COLOR_COMPUTER_CITY
        } else {
            COLOR_FREE_CITY
        }
    } else if str_eq(cell.t.as_str(), "land") {
        match cell.cid {
            Some(cid) => LAND_COLORS[(cid % 8) as usize],
            None => COLOR_LAND,
        }
    } else if str_eq(cell.t.as_str(), "sea") {
        COLOR_SEA
    } else {
        COLOR_UNEXPLORED
    }
}

/// The colour of a unit's glyph: an army of the computer always as awake, a
/// transport that is loading as asleep, and otherwise by the unit's mode.
pub open spec fn unit_color_of(unit: UnitMsg) -> [u8; 3] {
    if unit.o@ == "computer"@ && unit.t@ == "army"@ {
        COLOR_AWAKE
    } else if tag_is(unit.transport_mission, "loading"@) {
        COLOR_SLEEPING
    } else if unit.m@ == "awake"@ {
        COLOR_AWAKE
    } else if unit.m@ == "sentry"@ {
        COLOR_SENTRY
    } else if unit.m@ == "explore"@ || unit.m@ == "coastline-follow"@ {
        COLOR_EXPLORE
    } else {
        COLOR_SLEEPING
    }
}

/// The colour of a unit's glyph.
pub fn unit_color(unit: &UnitMsg) -> (r: [u8; 3])
    ensures
        r == unit_color_of(*unit),
{
    if str_eq(unit.o.as_str(), "computer") && str_eq(unit.t.as_str(), "army") {
        return COLOR_AWAKE;
    }
    if has_tag(&unit.transport_mission, "loading") {
        return COLOR_SLEEPING;
    }
    let mode = unit.m.as_str();
    if str_eq(mode, "awake") {
        COLOR_AWAKE
    } else if str_eq(mode, "sentry") {
        COLOR_SENTRY
    } else if str_eq(mode, "explore") || str_eq(mode, "coastline-follow") {
        COLOR_EXPLORE
    } else {
        COLOR_SLEEPING
    }
}

} // verus!
