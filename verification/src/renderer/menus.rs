//! The modal menus: the tutorial scenarios and the saved games. A menu
//! dims the whole screen and lists its entries in a dialog at the centre.

use vstd::prelude::*;
use vstd::string::*;
use crate::canvas::{Draw, Font, TextBaseline, SUBPIXELS};
use crate::input::tutorial_hit;
use crate::layout::{
    item_accepts, lemma_menu_rect_bounds, load_menu, load_menu_style, menu_bounds,
    menu_hit_is_item_rect, menu_item_bounds, menu_item_rect, menu_rect, style_ok,
    tutorial_menu, tutorial_menu_style, MenuStyle, Rect, EXTENT_LIMIT, MENU_PADDING,
    MENU_TITLE_H,
};
use crate::palette::{
    rgb_text, OPAQUE, COLOR_ACCENT, COLOR_CANVAS_BG, COLOR_HOVER_BG, COLOR_HOVER_DESCRIPTION,
    COLOR_HOVER_NAME, COLOR_PANEL_BG, COLOR_PANEL_BORDER, COLOR_TEXT_PRIMARY,
    COLOR_TEXT_SECONDARY,
};
use crate::protocol::{LoadMenuMsg, TutorialMenuMsg, TutorialScenarioMsg};
use crate::renderer::Renderer;
use crate::text::{decimal, push_decimal};

verus! {

/// How far the shadow of a dialog is set off to the right and down.
pub const DIALOG_SHADOW: i128 = 4 * SUBPIXELS;

/// How far above the first entry the line under the title runs.
pub const DIALOG_RULE_RISE: i128 = 4 * SUBPIXELS;

/// The opacity of the scrim that dims the screen behind a dialog.
pub const SCRIM_ALPHA: u32 = 850_000;

/// Where the label of a scenario is set below the top of its entry.
pub const SCENARIO_NAME_Y: i128 = 8 * SUBPIXELS;

/// Where the description of a scenario is set below the top of its entry.
pub const SCENARIO_DESCRIPTION_Y: i128 = 28 * SUBPIXELS;

/// How far the description of a scenario is indented.
pub const SCENARIO_DESCRIPTION_INDENT: i128 = 20 * SUBPIXELS;

/// Where the name of a file is set below the top of its entry.
pub const FILE_NAME_Y: i128 = 10 * SUBPIXELS;

/// The dialog of a menu with the rectangle `m` on a screen of `screen_w` by
/// `screen_h` pixels: the dimmed screen, the dialog's shadow, its
/// background and border, its title in the given colour, and a line under
/// the title.
pub open spec fn dialog_ops(
    m: Rect,
    screen_w: int,
    screen_h: int,
    title: Seq<char>,
    title_color: [u8; 3],
) -> Seq<Draw> {
    seq![
        Draw::SetGlobalAlpha(SCRIM_ALPHA as int),
        Draw::SetFillStyle(rgb_text(COLOR_CANVAS_BG)),
        Draw::FillRect { x: 0, y: 0, w: screen_w * SUBPIXELS, h: screen_h * SUBPIXELS },
        Draw::SetGlobalAlpha(OPAQUE as int),
        Draw::SetFillStyle("rgba(0,0,0,0.3)"@),
        Draw::FillRect {
            x: m.x + DIALOG_SHADOW,
            y: m.y + DIALOG_SHADOW,
            w: m.w as int,
            h: m.h as int,
        },
        Draw::SetFillStyle(rgb_text(COLOR_PANEL_BG)),
        Draw::SetStrokeStyle(rgb_text(COLOR_PANEL_BORDER)),
        Draw::SetLineWidth(SUBPIXELS as int),
        Draw::FillRect { x: m.x as int, y: m.y as int, w: m.w as int, h: m.h as int },
        Draw::StrokeRect { x: m.x as int, y: m.y as int, w: m.w as int, h: m.h as int },
        Draw::SetFont(Font::MenuTitle),
        Draw::SetFillStyle(rgb_text(title_color)),
        Draw::SetTextBaseline(TextBaseline::Top),
        Draw::FillText { text: title, x: m.x + MENU_PADDING, y: m.y + MENU_PADDING },
        Draw::SetStrokeStyle(rgb_text(COLOR_PANEL_BORDER)),
        Draw::BeginPath,
        Draw::MoveTo {
            x: m.x + MENU_PADDING,
            y: m.y + MENU_PADDING + MENU_TITLE_H - DIALOG_RULE_RISE,
        },
        Draw::LineTo {
            x: m.x + m.w - MENU_PADDING,
            y: m.y + MENU_PADDING + MENU_TITLE_H - DIALOG_RULE_RISE,
        },
        Draw::Stroke,
    ]
}

/// The hint at the foot of a dialog, after which the baseline is set back.
pub open spec fn dialog_hint_ops(m: Rect, hint: Seq<char>) -> Seq<Draw> {
    seq![
        Draw::SetFont(Font::MenuHint),
        Draw::SetFillStyle(rgb_text(COLOR_TEXT_SECONDARY)),
        Draw::FillText { text: hint, x: m.x + MENU_PADDING, y: m.y + m.h - MENU_PADDING },
        Draw::SetTextBaseline(TextBaseline::Alphabetic),
    ]
}

/// The highlight behind the hovered entry: the entry's rectangle, filled.
pub open spec fn highlight_ops(r: Rect) -> Seq<Draw> {
    seq![
        Draw::SetFillStyle(rgb_text(COLOR_HOVER_BG)),
        Draw::FillRect { x: r.x as int, y: r.y as int, w: r.w as int, h: r.h as int },
    ]
}

/// The label of a scenario: its number, counted from one, and its name.
pub open spec fn scenario_label(i: int, name: Seq<char>) -> Seq<char> {
    decimal((i + 1) as nat) + ". "@ + name
}

/// One entry of the tutorial menu, in the rectangle `r`: the highlight if
/// the entry is hovered, its label and under it its description, both
/// brighter on the hovered entry.
pub open spec fn scenario_ops(scenario: TutorialScenarioMsg, i: int, hovered: bool, r: Rect) -> Seq<
    Draw,
> {
    (if hovered {
        highlight_ops(r)
    } else {
        Seq::empty()
    }) + seq![
        Draw::SetFont(Font::MenuItem),
        Draw::SetFillStyle(rgb_text(if hovered { COLOR_HOVER_NAME } else { COLOR_TEXT_PRIMARY })),
        Draw::FillText {
            text: scenario_label(i, scenario.name@),
            x: r.x + MENU_PADDING,
            y: r.y + SCENARIO_NAME_Y,
        },
        Draw::SetFont(Font::MenuHint),
        Draw::SetFillStyle(
            rgb_text(if hovered { COLOR_HOVER_DESCRIPTION } else { COLOR_TEXT_SECONDARY }),
        ),
        Draw::FillText {
            text: scenario.description@,
            x: r.x + MENU_PADDING + SCENARIO_DESCRIPTION_INDENT,
            y: r.y + SCENARIO_DESCRIPTION_Y,
        },
    ]
}

/// The first `n` entries of the tutorial menu.
pub open spec fn scenarios_ops(
    menu: TutorialMenuMsg,
    hovered: Option<usize>,
    screen_w: int,
    screen_h: int,
    n: int,
) -> Seq<Draw>
    decreases n,
{
    if n <= 0 {
        Seq::empty()
    } else {
        scenarios_ops(menu, hovered, screen_w, screen_h, n - 1) + scenario_ops(
            menu.scenarios@[n - 1],
            n - 1,
            hovered == Some((n - 1) as usize),
            menu_item_rect(
                tutorial_menu_style(),
                menu.scenarios@.len() as int,
                n - 1,
                screen_w,
                screen_h,
            ),
        )
    }
}

/// The menu of tutorial scenarios on a screen of `screen_w` by `screen_h`
/// pixels: the dialog, every scenario in its rectangle, and the hint.
pub open spec fn tutorial_menu_ops(
    menu: TutorialMenuMsg,
    hovered: Option<usize>,
    screen_w: int,
    screen_h: int,
) -> Seq<Draw> {
    let m = menu_rect(tutorial_menu_style(), menu.scenarios@.len() as int, screen_w, screen_h);
    dialog_ops(m, screen_w, screen_h, "Tutorial Scenarios"@, COLOR_ACCENT) + scenarios_ops(
        menu,
        hovered,
        screen_w,
        screen_h,
        menu.scenarios@.len() as int,
    ) + dialog_hint_ops(m, "Click to start  |  Press ESC to close"@)
}

/// The renderer and the input layer agree on the entries of the tutorial
/// menu. For every size of the screen, every number of scenarios and every
/// entry `i`: the entry is painted in its rectangle of the layout and, when
/// it is hovered, its highlight fills exactly that rectangle; and a pointer
/// is on the entry exactly if that same rectangle takes it.
pub proof fn highlight_is_hit_area(
    menu: TutorialMenuMsg,
    i: usize,
    screen_w: u32,
    screen_h: u32,
    x: int,
    y: int,
)
    requires
        i < menu.scenarios@.len(),
    ensures
        ({
            let r = menu_item_rect(
                tutorial_menu_style(),
                menu.scenarios@.len() as int,
                i as int,
                screen_w as int,
                screen_h as int,
            );
            let entry = scenario_ops(menu.scenarios@[i as int], i as int, true, r);
            &&& scenarios_ops(menu, Some(i), screen_w as int, screen_h as int, i + 1)
                == scenarios_ops(menu, Some(i), screen_w as int, screen_h as int, i as int)
                + entry
            &&& entry[1] == Draw::FillRect {
                x: r.x as int,
                y: r.y as int,
                w: r.w as int,
                h: r.h as int,
            }
            &&& tutorial_hit(Some(menu), x, y, screen_w as int, screen_h as int) == Some(i as int)
                <==> item_accepts(r, x, y)
        }),
{
    menu_hit_is_item_rect(
        tutorial_menu_style(),
        menu.scenarios@.len() as usize,
        i as int,
        x,
        y,
        screen_w,
        screen_h,
    );
}

/// One entry of the menu of saved games, in the rectangle `r`: the name of
/// the file, in white over the highlight if the entry is hovered.
pub open spec fn file_ops(name: Seq<char>, hovered: bool, r: Rect) -> Seq<Draw> {
    if hovered {
        highlight_ops(r) + seq![
            Draw::SetFillStyle("white"@),
            Draw::FillText { text: name, x: r.x + MENU_PADDING, y: r.y + FILE_NAME_Y },
        ]
    } else {
        seq![
            Draw::SetFillStyle(rgb_text(COLOR_TEXT_PRIMARY)),
            Draw::FillText { text: name, x: r.x + MENU_PADDING, y: r.y + FILE_NAME_Y },
        ]
    }
}

/// The first `n` entries of the menu of saved games.
pub open spec fn files_ops(menu: LoadMenuMsg, screen_w: int, screen_h: int, n: int) -> Seq<Draw>
    decreases n,
{
    if n <= 0 {
        Seq::empty()
    } else {
        files_ops(menu, screen_w, screen_h, n - 1) + file_ops(
            menu.files@[n - 1]@,
            menu.hovered == Some((n - 1) as usize),
            menu_item_rect(load_menu_style(), menu.files@.len() as int, n - 1, screen_w, screen_h),
        )
    }
}

/// The menu of saved games: the dialog, every file in its rectangle or,
/// where there is none, a line that says so, and the hint.
pub open spec fn load_menu_ops(menu: LoadMenuMsg, screen_w: int, screen_h: int) -> Seq<Draw> {
    let m = menu_rect(load_menu_style(), menu.files@.len() as int, screen_w, screen_h);
    dialog_ops(m, screen_w, screen_h, "Load Game"@, COLOR_TEXT_PRIMARY) + seq![
        Draw::SetFont(Font::MenuItem),
    ] + (if menu.files@.len() == 0 {
        seq![
            Draw::SetFillStyle(rgb_text(COLOR_TEXT_SECONDARY)),
            Draw::FillText {
                text: "No saved games found"@,
                x: m.x + MENU_PADDING,
                y: m.y + MENU_PADDING + MENU_TITLE_H + FILE_NAME_Y,
            },
        ]
    } else {
        files_ops(menu, screen_w, screen_h, menu.files@.len() as int)
    }) + dialog_hint_ops(m, "Press ESC to close"@)
}

/// The label of the scenario with the given number, counted from one.
pub fn scenario_label_string(number: usize, name: &str) -> (r: String)
    ensures
        r@ == scenario_label(number - 1, name@),
{
    let mut out = String::new();
    push_decimal(&mut out, number as u64);
    out.append(". ");
    out.append(name);
    assert(out@ =~= scenario_label(number - 1, name@));
    out
}

impl Renderer {
    fn paint_dialog(&mut self, m: &Rect, screen_w: u32, screen_h: u32, title: &str, title_color: [u8; 3])
        requires
            0 <= m.x <= 0x100_0000_0000,
            0 <= m.y <= 0x100_0000_0000,
            0 <= m.w <= 0x100_0000_0000,
            0 <= m.h <= 0x100_0000_0000,
        ensures
            final(self)@ == old(self)@ + dialog_ops(
                *m,
                screen_w as int,
                screen_h as int,
                title@,
                title_color,
            ),
    {
        self.set_global_alpha(SCRIM_ALPHA);
        self.set_fill_color(COLOR_CANVAS_BG);
        self.fill_rect(0, 0, screen_w as i128 * SUBPIXELS, screen_h as i128 * SUBPIXELS);
        self.set_global_alpha(OPAQUE);
        self.set_fill_style("rgba(0,0,0,0.3)");
        self.fill_rect(m.x + DIALOG_SHADOW, m.y + DIALOG_SHADOW, m.w, m.h);
        self.set_fill_color(COLOR_PANEL_BG);
        self.set_stroke_color(COLOR_PANEL_BORDER);
        self.set_line_width(SUBPIXELS);
        self.fill_rect(m.x, m.y, m.w, m.h);
        self.stroke_rect(m.x, m.y, m.w, m.h);
        self.set_font(Font::MenuTitle);
        self.set_fill_color(title_color);
        self.set_text_baseline(TextBaseline::Top);
        self.fill_text(title, m.x + MENU_PADDING, m.y + MENU_PADDING);
        let line_y: i128 = m.y + MENU_PADDING + MENU_TITLE_H - DIALOG_RULE_RISE;
        self.set_stroke_color(COLOR_PANEL_BORDER);
        self.begin_path();
        self.move_to(m.x + MENU_PADDING, line_y);
        self.line_to(m.x + m.w - MENU_PADDING, line_y);
        self.stroke();
        assert(self@ =~= old(self)@ + dialog_ops(
            *m,
            screen_w as int,
            screen_h as int,
            title@,
            title_color,
        ));
    }

    fn paint_dialog_hint(&mut self, m: &Rect, hint: &str)
        requires
            0 <= m.x <= 0x100_0000_0000,
            0 <= m.y <= 0x100_0000_0000,
            0 <= m.w <= 0x100_0000_0000,
            0 <= m.h <= 0x100_0000_0000,
        ensures
            final(self)@ == old(self)@ + dialog_hint_ops(*m, hint@),
    {
        self.set_font(Font::MenuHint);
        self.set_fill_color(COLOR_TEXT_SECONDARY);
        self.fill_text(hint, m.x + MENU_PADDING, m.y + m.h - MENU_PADDING);
        self.set_text_baseline(TextBaseline::Alphabetic);
        assert(self@ =~= old(self)@ + dialog_hint_ops(*m, hint@));
    }

    fn paint_highlight(&mut self, r: &Rect)
        ensures
            final(self)@ == old(self)@ + highlight_ops(*r),
    {
        self.set_fill_color(COLOR_HOVER_BG);
        self.fill_rect(r.x, r.y, r.w, r.h);
        assert(self@ =~= old(self)@ + highlight_ops(*r));
    }

    fn paint_scenario(&mut self, scenario: &TutorialScenarioMsg, i: usize, hovered: bool, r: &Rect)
        requires
            i < usize::MAX,
            -EXTENT_LIMIT < r.x < EXTENT_LIMIT,
            -EXTENT_LIMIT < r.y < EXTENT_LIMIT,
        ensures
            final(self)@ == old(self)@ + scenario_ops(*scenario, i as int, hovered, *r),
    {
        if hovered {
            self.paint_highlight(r);
        }
        self.set_font(Font::MenuItem);
        self.set_fill_color(if hovered { COLOR_HOVER_NAME } else { COLOR_TEXT_PRIMARY });
        let label = scenario_label_string(i + 1, scenario.name.as_str());
        self.fill_text(label.as_str(), r.x + MENU_PADDING, r.y + SCENARIO_NAME_Y);
        self.set_font(Font::MenuHint);
        self.set_fill_color(if hovered { COLOR_HOVER_DESCRIPTION } else { COLOR_TEXT_SECONDARY });
        self.fill_text(
            scenario.description.as_str(),
            r.x + MENU_PADDING + SCENARIO_DESCRIPTION_INDENT,
            r.y + SCENARIO_DESCRIPTION_Y,
        );
        assert(self@ =~= old(self)@ + scenario_ops(*scenario, i as int, hovered, *r));
    }

    /// Paints the menu of tutorial scenarios over a screen of `screen_w` by
    /// `screen_h` pixels, with the entry `hovered` highlighted.
    pub fn draw_tutorial_menu(
        &mut self,
        menu: &TutorialMenuMsg,
        hovered: Option<usize>,
        screen_w: u32,
        screen_h: u32,
    )
        ensures
            final(self)@ == old(self)@ + tutorial_menu_ops(
                *menu,
                hovered,
                screen_w as int,
                screen_h as int,
            ),
    {
        let style = tutorial_menu();
        let count = menu.scenarios.len();
        let m = menu_bounds(&style, count, screen_w, screen_h);
        self.paint_dialog(&m, screen_w, screen_h, "Tutorial Scenarios", COLOR_ACCENT);
        let ghost head = self@;
        let mut i: usize = 0;
        assert(self@ =~= head + scenarios_ops(*menu, hovered, screen_w as int, screen_h as int, 0));
        while i < count
            invariant
                i <= count,
                count == menu.scenarios@.len(),
                style == tutorial_menu_style(),
                style_ok(style),
                self@ == head + scenarios_ops(
                    *menu,
                    hovered,
                    screen_w as int,
                    screen_h as int,
                    i as int,
                ),
            decreases count - i,
        {
            let r = item_bounds(&style, count, i, screen_w, screen_h);
            let is_hovered = match hovered {
                Some(h) => h == i,
                None => false,
            };
            self.paint_scenario(&menu.scenarios[i], i, is_hovered, &r);
            assert(self@ =~= head + scenarios_ops(
                *menu,
                hovered,
                screen_w as int,
                screen_h as int,
                i + 1,
            ));
            i += 1;
        }
        self.paint_dialog_hint(&m, "Click to start  |  Press ESC to close");
        assert(self@ =~= old(self)@ + tutorial_menu_ops(
            *menu,
            hovered,
            screen_w as int,
            screen_h as int,
        ));
    }

    fn paint_file(&mut self, name: &str, hovered: bool, r: &Rect)
        requires
            -EXTENT_LIMIT < r.x < EXTENT_LIMIT,
            -EXTENT_LIMIT < r.y < EXTENT_LIMIT,
        ensures
            final(self)@ == old(self)@ + file_ops(name@, hovered, *r),
    {
        if hovered {
            self.paint_highlight(r);
            self.set_fill_style("white");
            self.fill_text(name, r.x + MENU_PADDING, r.y + FILE_NAME_Y);
        } else {
            self.set_fill_color(COLOR_TEXT_PRIMARY);
            self.fill_text(name, r.x + MENU_PADDING, r.y + FILE_NAME_Y);
        }
        assert(self@ =~= old(self)@ + file_ops(name@, hovered, *r));
    }

    /// Paints the menu of saved games over a screen of `screen_w` by
    /// `screen_h` pixels.
    pub fn draw_load_menu(&mut self, menu: &LoadMenuMsg, screen_w: u32, screen_h: u32)
        ensures
            final(self)@ == old(self)@ + load_menu_ops(*menu, screen_w as int, screen_h as int),
    {
        let style = load_menu();
        let count = menu.files.len();
        let m = menu_bounds(&style, count, screen_w, screen_h);
        self.paint_dialog(&m, screen_w, screen_h, "Load Game", COLOR_TEXT_PRIMARY);
        self.set_font(Font::MenuItem);
        let ghost head = self@;
        if count == 0 {
            self.set_fill_color(COLOR_TEXT_SECONDARY);
            self.fill_text(
                "No saved games found",
                m.x + MENU_PADDING,
                m.y + MENU_PADDING + MENU_TITLE_H + FILE_NAME_Y,
            );
        } else {
            let mut i: usize = 0;
            assert(self@ =~= head + files_ops(*menu, screen_w as int, screen_h as int, 0));
            while i < count
                invariant
                    i <= count,
                    count == menu.files@.len(),
                    style == load_menu_style(),
                    style_ok(style),
                    self@ == head + files_ops(*menu, screen_w as int, screen_h as int, i as int),
                decreases count - i,
            {
                let r = item_bounds(&style, count, i, screen_w, screen_h);
                let is_hovered = match menu.hovered {
                    Some(h) => h == i,
                    None => false,
                };
                self.paint_file(menu.files[i].as_str(), is_hovered, &r);
                assert(self@ =~= head + files_ops(*menu, screen_w as int, screen_h as int, i + 1));
                i += 1;
            }
        }
        self.paint_dialog_hint(&m, "Press ESC to close");
        assert(self@ =~= old(self)@ + load_menu_ops(*menu, screen_w as int, screen_h as int));
    }
}

/// The rectangle of entry `i` of a menu, with the bounds that the painting
/// needs.
fn item_bounds(style: &MenuStyle, count: usize, i: usize, screen_w: u32, screen_h: u32) -> (r: Rect)
    requires
        style_ok(*style),
    ensures
        r == menu_item_rect(*style, count as int, i as int, screen_w as int, screen_h as int),
        -EXTENT_LIMIT < r.x < EXTENT_LIMIT,
        -EXTENT_LIMIT < r.y < EXTENT_LIMIT,
{
    proof {
        lemma_menu_rect_bounds(*style, count, screen_w, screen_h);
        assert(0 <= i * style.item_h <= 0x1_0000_0000_0000_0000 * 0x8000) by (nonlinear_arith)
            requires
                0 <= i <= 0x1_0000_0000_0000_0000,
                0 <= style.item_h <= 0x8000,
        ;
    }
    menu_item_bounds(style, count, i, screen_w, screen_h)
}

} // verus!
