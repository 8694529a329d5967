use empire_client::canvas::{font_css, DrawOp, Font, TextAlign, TextBaseline};
use empire_client::protocol::{
    CellMsg, GameStateMsg, LoadMenuMsg, ProductionMsg, ServerMessage, TipsMsg, TutorialMenuMsg,
    TutorialMsg, TutorialScenarioMsg, UnitMsg,
};
use empire_client::renderer::panels::{compute_controls_lines, page_string, wrap_each};
use empire_client::renderer::strip::{
    destination_string, error_banner_opacity, measure_message_area, round_string,
    ERROR_DURATION, ERROR_FADE,
};
use empire_client::renderer::wrap::wrap_text;
use empire_client::renderer::{
    cycle_position, measure_frame, Phases, Renderer, ATTENTION_PERIOD, COMPLETION_PERIOD,
    UNIT_PERIOD,
};
use empire_client::state::GameState;

/// Nine pixels for every character, whatever the font.
fn render_measure(_font: Font, text: &str) -> Option<u32> {
    Some(text.chars().count() as u32 * 9 * 40)
}

fn render_cell(t: &str) -> CellMsg {
    CellMsg {
        t: t.to_string(),
        cs: None,
        u: None,
        wp: None,
        fc: None,
        ac: None,
        af: None,
        aa: None,
        cid: None,
        prod: None,
    }
}

fn render_unit(t: &str, o: &str, m: &str) -> UnitMsg {
    UnitMsg {
        t: t.to_string(),
        o: o.to_string(),
        m: m.to_string(),
        h: None,
        fuel: None,
        marching_orders: None,
        flight_path: None,
        transport_mission: None,
    }
}

fn render_snapshot(cols: usize, rows: usize) -> GameStateMsg {
    GameStateMsg {
        map_size: (cols, rows),
        cells: vec![vec![None; rows]; cols],
        round: 1,
        paused: false,
        pause_requested: false,
        waiting_for_input: false,
        attention_coords: vec![],
        attention_message: String::new(),
        turn_message: String::new(),
        error_message: String::new(),
        error_until: 0,
        hover_message: String::new(),
        selected_cell: None,
        production_status: String::new(),
        destination: None,
        map_to_display: String::new(),
        debug_message: String::new(),
        load_menu: None,
        tutorial: None,
        tutorial_menu: None,
        tips: None,
    }
}

fn render_state(msg: GameStateMsg) -> GameState {
    let mut s = GameState::new();
    s.show_help_overlay = false;
    s.apply_message(ServerMessage::State(msg));
    s
}

fn render_still() -> Phases {
    Phases { attention: 0, completion: 0, unit: 0 }
}

fn render_fill(style: &str) -> DrawOp {
    DrawOp::SetFillStyle(style.to_string())
}

fn render_text(text: &str, x: i128, y: i128) -> DrawOp {
    DrawOp::FillText { text: text.to_string(), x, y }
}

fn render_texts(ops: &[DrawOp]) -> Vec<String> {
    ops.iter()
        .filter_map(|op| match op {
            DrawOp::FillText { text, .. } => Some(text.clone()),
            _ => None,
        })
        .collect()
}

fn render_has_pair(ops: &[DrawOp], first: &DrawOp, second: &DrawOp) -> bool {
    ops.windows(2).any(|w| w[0] == *first && w[1] == *second)
}

#[test]
fn fonts_have_their_descriptions() {
    assert_eq!(
        font_css(Font::Cell),
        "bold 14px 'JetBrains Mono', 'Fira Code', 'Courier New', monospace"
    );
    assert_eq!(
        font_css(Font::Msg),
        "500 15px 'JetBrains Mono', 'Fira Code', 'Courier New', monospace"
    );
    assert_eq!(
        font_css(Font::MenuTitle),
        "700 18px 'JetBrains Mono', 'Fira Code', 'Courier New', monospace"
    );
    assert_eq!(
        font_css(Font::MenuItem),
        "400 15px 'JetBrains Mono', 'Fira Code', 'Courier New', monospace"
    );
    assert_eq!(
        font_css(Font::MenuHint),
        "400 12px 'JetBrains Mono', 'Fira Code', 'Courier New', monospace"
    );
}

#[test]
fn text_shadow_is_four_operations() {
    let mut r = Renderer::new();
    r.draw_text_shadow("A", 120, 600, [1, 2, 3]);
    assert_eq!(
        r.ops,
        vec![
            render_fill("rgba(0,0,0,0.6)"),
            render_text("A", 160, 640),
            render_fill("rgb(1,2,3)"),
            render_text("A", 120, 600),
        ]
    );
}

#[test]
fn fog_is_a_chequer() {
    let mut r = Renderer::new();
    r.draw_fog_texture(2, 2);
    let light = render_fill("rgb(15,19,25)");
    let dark = render_fill("rgb(11,15,21)");
    assert_eq!(
        r.ops,
        vec![
            light.clone(),
            DrawOp::FillRect { x: 0, y: 0, w: 560, h: 800 },
            dark.clone(),
            DrawOp::FillRect { x: 0, y: 800, w: 560, h: 800 },
            dark,
            DrawOp::FillRect { x: 560, y: 0, w: 560, h: 800 },
            light,
            DrawOp::FillRect { x: 560, y: 800, w: 560, h: 800 },
        ]
    );
}

#[test]
fn fog_of_an_empty_grid_is_nothing() {
    let mut r = Renderer::new();
    r.draw_fog_texture(0, 5);
    r.draw_fog_texture(5, 0);
    assert!(r.ops.is_empty());
}

#[test]
fn steps_append_to_what_is_there() {
    let mut r = Renderer::new();
    r.begin_path();
    r.draw_fog_texture(1, 1);
    assert_eq!(r.ops.len(), 3);
    assert_eq!(r.ops[0], DrawOp::BeginPath);
}

#[test]
fn backgrounds_skip_unknown_and_unexplored_cells() {
    let mut msg = render_snapshot(3, 1);
    msg.cells[0][0] = Some(render_cell("sea"));
    msg.cells[1][0] = Some(render_cell("unexplored"));
    let state = render_state(msg);
    let mut r = Renderer::new();
    r.draw_cell_backgrounds(&state, 3, 1, 0, 0);
    assert_eq!(
        r.ops,
        vec![render_fill("rgb(26,58,92)"), DrawOp::FillRect { x: 0, y: 0, w: 560, h: 800 }]
    );
    let mut r = Renderer::new();
    r.draw_cell_depth(&state, 3, 1);
    assert_eq!(r.ops.len(), 10);
}

#[test]
fn backgrounds_look_beyond_the_cells_for_nothing() {
    let state = render_state(render_snapshot(1, 1));
    let mut r = Renderer::new();
    r.draw_cell_backgrounds(&state, 4, 4, 0, 0);
    r.draw_cell_depth(&state, 4, 4);
    r.draw_cell_contents(&state, 4, 4, 0);
    assert!(r.ops.is_empty());
}

#[test]
fn attention_cell_pulses_toward_a_brighter_shade() {
    let mut msg = render_snapshot(1, 1);
    msg.cells[0][0] = Some(render_cell("land"));
    msg.attention_coords = vec![vec![0, 0], vec![5, 5]];
    let state = render_state(msg);
    // Base (61,43,31), brightened by 1.6 (97,68,49), blended by 0.7 of the phase.
    let mut r = Renderer::new();
    r.draw_cell_backgrounds(&state, 1, 1, 0, 1_000_000);
    assert_eq!(r.ops[0], render_fill("rgb(61,43,31)"));
    let mut r = Renderer::new();
    r.draw_cell_backgrounds(&state, 1, 1, 1_000_000, 0);
    assert_eq!(r.ops[0], render_fill("rgb(86,60,43)"));
    let mut r = Renderer::new();
    r.draw_cell_backgrounds(&state, 1, 1, 500_000, 0);
    assert_eq!(r.ops[0], render_fill("rgb(73,51,37)"));
}

#[test]
fn only_the_first_attention_cell_pulses() {
    let mut msg = render_snapshot(2, 1);
    msg.cells[0][0] = Some(render_cell("land"));
    msg.cells[1][0] = Some(render_cell("land"));
    msg.attention_coords = vec![vec![1, 0], vec![0, 0]];
    let state = render_state(msg);
    let mut r = Renderer::new();
    r.draw_cell_backgrounds(&state, 2, 1, 1_000_000, 0);
    assert_eq!(r.ops[0], render_fill("rgb(61,43,31)"));
    assert_eq!(r.ops[2], render_fill("rgb(86,60,43)"));
}

#[test]
fn finished_city_pulses_toward_the_text_colour() {
    let mut city = render_cell("city");
    city.cs = Some("player".to_string());
    city.prod = Some(ProductionMsg { item: "army".to_string(), remaining: 0 });
    let mut free = city.clone();
    free.cs = Some("free".to_string());
    let mut busy = city.clone();
    busy.prod = Some(ProductionMsg { item: "army".to_string(), remaining: 1 });
    let mut msg = render_snapshot(3, 1);
    msg.cells[0][0] = Some(city);
    msg.cells[1][0] = Some(free);
    msg.cells[2][0] = Some(busy);
    let state = render_state(msg);
    let mut r = Renderer::new();
    r.draw_cell_backgrounds(&state, 3, 1, 0, 1_000_000);
    // (46,160,67) halfway to (230,237,243).
    assert_eq!(r.ops[0], render_fill("rgb(138,198,155)"));
    assert_eq!(r.ops[2], render_fill("rgb(201,209,217)"));
    assert_eq!(r.ops[4], render_fill("rgb(46,160,67)"));
    let mut r = Renderer::new();
    r.draw_cell_backgrounds(&state, 3, 1, 0, 0);
    assert_eq!(r.ops[0], render_fill("rgb(46,160,67)"));
}

#[test]
fn depth_lines_run_half_a_pixel_inside() {
    let mut msg = render_snapshot(2, 2);
    msg.cells[1][1] = Some(render_cell("sea"));
    let state = render_state(msg);
    let mut r = Renderer::new();
    r.draw_cell_depth(&state, 2, 2);
    assert_eq!(
        r.ops,
        vec![
            DrawOp::SetStrokeStyle("rgba(32,72,115,0.4)".to_string()),
            DrawOp::BeginPath,
            DrawOp::MoveTo { x: 580, y: 820 },
            DrawOp::LineTo { x: 1100, y: 820 },
            DrawOp::Stroke,
            DrawOp::SetStrokeStyle("rgba(15,34,55,0.4)".to_string()),
            DrawOp::BeginPath,
            DrawOp::MoveTo { x: 580, y: 1580 },
            DrawOp::LineTo { x: 1100, y: 1580 },
            DrawOp::Stroke,
        ]
    );
}

#[test]
fn grid_lines_close_the_grid() {
    let mut r = Renderer::new();
    r.draw_grid(2, 1, 1120, 800);
    assert_eq!(
        r.ops,
        vec![
            DrawOp::SetStrokeStyle("rgba(0,0,0,0.3)".to_string()),
            DrawOp::SetLineWidth(40),
            DrawOp::BeginPath,
            DrawOp::MoveTo { x: 0, y: 0 },
            DrawOp::LineTo { x: 0, y: 800 },
            DrawOp::MoveTo { x: 560, y: 0 },
            DrawOp::LineTo { x: 560, y: 800 },
            DrawOp::MoveTo { x: 1120, y: 0 },
            DrawOp::LineTo { x: 1120, y: 800 },
            DrawOp::MoveTo { x: 0, y: 0 },
            DrawOp::LineTo { x: 1120, y: 0 },
            DrawOp::MoveTo { x: 0, y: 800 },
            DrawOp::LineTo { x: 1120, y: 800 },
            DrawOp::Stroke,
        ]
    );
}

#[test]
fn hover_highlight_frames_the_cell() {
    let mut state = render_state(render_snapshot(3, 3));
    state.hover_col = Some(1);
    state.hover_row = Some(2);
    let mut r = Renderer::new();
    r.draw_hover_highlight(&state, 3 * 560, 3 * 800);
    assert_eq!(
        r.ops,
        vec![
            DrawOp::SetStrokeStyle("rgba(88,166,255,0.8)".to_string()),
            DrawOp::SetLineWidth(80),
            DrawOp::StrokeRect { x: 580, y: 1620, w: 520, h: 760 },
            DrawOp::SetLineWidth(40),
        ]
    );
}

#[test]
fn hover_highlight_needs_a_cell_on_the_map() {
    let mut state = render_state(render_snapshot(3, 3));
    let mut r = Renderer::new();
    r.draw_hover_highlight(&state, 3 * 560, 3 * 800);
    state.hover_col = Some(3);
    state.hover_row = Some(0);
    r.draw_hover_highlight(&state, 3 * 560, 3 * 800);
    state.hover_col = Some(0);
    state.hover_row = Some(3);
    r.draw_hover_highlight(&state, 3 * 560, 3 * 800);
    state.hover_col = Some(2);
    state.hover_row = None;
    r.draw_hover_highlight(&state, 3 * 560, 3 * 800);
    state.hover_row = Some(2);
    r.draw_hover_highlight(&state, 3 * 560 - 1, 3 * 800);
    r.draw_hover_highlight(&state, 3 * 560, 3 * 800 - 1);
    assert!(r.ops.is_empty());
    r.draw_hover_highlight(&state, 3 * 560, 3 * 800);
    assert_eq!(r.ops.len(), 4);
}

#[test]
fn production_bar_grows_with_the_rounds_spent() {
    let mut city = render_cell("city");
    city.cs = Some("player".to_string());
    city.prod = Some(ProductionMsg { item: "fighter".to_string(), remaining: 3 });
    let mut msg = render_snapshot(1, 2);
    msg.cells[0][1] = Some(city);
    let state = render_state(msg);
    let mut r = Renderer::new();
    r.draw_cell_contents(&state, 1, 2, 0);
    // Seven of ten rounds are spent: the bar takes 14 of the cell's 20 pixels.
    assert_eq!(
        r.ops,
        vec![
            DrawOp::SetGlobalAlpha(500_000),
            render_fill("rgb(23,80,33)"),
            DrawOp::FillRect { x: 0, y: 800 + 240, w: 560, h: 560 },
            DrawOp::SetGlobalAlpha(1_000_000),
            render_fill("rgba(0,0,0,0.6)"),
            render_text("F", 160, 800 + 640),
            render_fill("rgb(110,118,129)"),
            render_text("F", 120, 800 + 600),
        ]
    );
}

#[test]
fn production_bar_is_hidden_at_the_start_and_at_the_end() {
    for remaining in [0u32, 5, 6, 4_000_000_000] {
        let mut city = render_cell("city");
        city.prod = Some(ProductionMsg { item: "army".to_string(), remaining });
        let mut msg = render_snapshot(1, 1);
        msg.cells[0][0] = Some(city);
        let state = render_state(msg);
        let mut r = Renderer::new();
        r.draw_cell_contents(&state, 1, 1, 0);
        assert_eq!(render_texts(&r.ops), vec!["A", "A"], "remaining {}", remaining);
        assert_eq!(r.ops.len(), 4);
    }
}

#[test]
fn production_bar_height_rounds_down() {
    let mut city = render_cell("city");
    city.prod = Some(ProductionMsg { item: "transport".to_string(), remaining: 29 });
    let mut msg = render_snapshot(1, 1);
    msg.cells[0][0] = Some(city);
    let state = render_state(msg);
    let mut r = Renderer::new();
    r.draw_cell_contents(&state, 1, 1, 0);
    // One thirtieth of 800 units is 26.67.
    assert_eq!(r.ops[2], DrawOp::FillRect { x: 0, y: 800 - 26, w: 560, h: 26 });
}

#[test]
fn production_is_shown_for_cities_only() {
    let mut land = render_cell("land");
    land.prod = Some(ProductionMsg { item: "army".to_string(), remaining: 2 });
    let mut msg = render_snapshot(1, 1);
    msg.cells[0][0] = Some(land);
    let state = render_state(msg);
    let mut r = Renderer::new();
    r.draw_cell_contents(&state, 1, 1, 0);
    assert!(r.ops.is_empty());
}

#[test]
fn units_of_the_computer_are_lower_case() {
    let mut mine = render_cell("land");
    mine.u = Some(render_unit("army", "player", "awake"));
    let mut theirs = render_cell("land");
    theirs.u = Some(render_unit("destroyer", "computer", "awake"));
    let mut msg = render_snapshot(2, 1);
    msg.cells[0][0] = Some(mine);
    msg.cells[1][0] = Some(theirs);
    let state = render_state(msg);
    let mut r = Renderer::new();
    r.draw_cell_contents(&state, 2, 1, 0);
    assert_eq!(
        r.ops,
        vec![
            render_fill("rgba(0,0,0,0.6)"),
            render_text("A", 160, 640),
            render_fill("rgb(240,246,252)"),
            render_text("A", 120, 600),
            render_fill("rgba(0,0,0,0.6)"),
            render_text("d", 560 + 160, 640),
            render_fill("rgb(240,246,252)"),
            render_text("d", 560 + 120, 600),
        ]
    );
}

#[test]
fn waypoint_shows_where_no_unit_stands() {
    let mut marked = render_cell("land");
    marked.wp = Some(true);
    let mut taken = render_cell("land");
    taken.wp = Some(true);
    taken.u = Some(render_unit("army", "player", "sentry"));
    let mut unmarked = render_cell("land");
    unmarked.wp = Some(false);
    let mut msg = render_snapshot(3, 1);
    msg.cells[0][0] = Some(marked);
    msg.cells[1][0] = Some(taken);
    msg.cells[2][0] = Some(unmarked);
    let state = render_state(msg);
    let mut r = Renderer::new();
    r.draw_cell_contents(&state, 3, 1, 0);
    assert_eq!(render_texts(&r.ops), vec!["*", "*", "A", "A"]);
    assert_eq!(r.ops[2], render_fill("rgb(63,185,80)"));
    assert_eq!(r.ops[6], render_fill("rgb(240,136,62)"));
}

#[test]
fn carrier_fades_in_turn_with_its_fighters() {
    let mut cell = render_cell("sea");
    cell.u = Some(render_unit("carrier", "player", "sentry"));
    cell.af = Some(2);
    let mut msg = render_snapshot(1, 1);
    msg.cells[0][0] = Some(cell);
    msg.attention_coords = vec![vec![0, 0]];
    let state = render_state(msg);
    let mut r = Renderer::new();
    r.draw_cell_contents(&state, 1, 1, 250_000);
    assert_eq!(
        r.ops,
        vec![
            DrawOp::SetGlobalAlpha(750_000),
            render_fill("rgba(0,0,0,0.6)"),
            render_text("C", 160, 640),
            render_fill("rgb(240,136,62)"),
            render_text("C", 120, 600),
            DrawOp::SetGlobalAlpha(250_000),
            render_fill("rgba(0,0,0,0.6)"),
            render_text("F", 160, 640),
            render_fill("rgb(240,246,252)"),
            render_text("F", 120, 600),
            DrawOp::SetGlobalAlpha(1_000_000),
        ]
    );
}

#[test]
fn crossfade_leaves_out_what_is_nearly_transparent() {
    let mut cell = render_cell("sea");
    cell.u = Some(render_unit("transport", "player", "awake"));
    cell.aa = Some(1);
    let mut msg = render_snapshot(1, 1);
    msg.cells[0][0] = Some(cell);
    msg.attention_coords = vec![vec![0, 0]];
    let state = render_state(msg);
    let mut r = Renderer::new();
    r.draw_cell_contents(&state, 1, 1, 50_000);
    assert_eq!(render_texts(&r.ops), vec!["T", "T"]);
    assert_eq!(r.ops[0], DrawOp::SetGlobalAlpha(950_000));
    let mut r = Renderer::new();
    r.draw_cell_contents(&state, 1, 1, 950_000);
    assert_eq!(render_texts(&r.ops), vec!["A", "A"]);
    assert_eq!(r.ops[0], DrawOp::SetGlobalAlpha(950_000));
    let mut r = Renderer::new();
    r.draw_cell_contents(&state, 1, 1, 50_001);
    assert_eq!(render_texts(&r.ops), vec!["T", "T", "A", "A"]);
    let mut r = Renderer::new();
    r.draw_cell_contents(&state, 1, 1, 1_000_000);
    assert_eq!(render_texts(&r.ops), vec!["A", "A"]);
    assert_eq!(r.ops.last(), Some(&DrawOp::SetGlobalAlpha(1_000_000)));
}

#[test]
fn crossfade_needs_attention_and_awake_cargo() {
    let mut cell = render_cell("sea");
    cell.u = Some(render_unit("transport", "player", "awake"));
    cell.aa = Some(1);
    let mut msg = render_snapshot(1, 1);
    msg.cells[0][0] = Some(cell.clone());
    let state = render_state(msg);
    let mut r = Renderer::new();
    r.draw_cell_contents(&state, 1, 1, 500_000);
    assert_eq!(r.ops.len(), 4);
    // Awake armies count on a transport only; awake fighters count anywhere.
    let mut army = cell.clone();
    army.u = Some(render_unit("army", "player", "awake"));
    let mut msg = render_snapshot(1, 1);
    msg.cells[0][0] = Some(army.clone());
    msg.attention_coords = vec![vec![0, 0]];
    let state = render_state(msg);
    let mut r = Renderer::new();
    r.draw_cell_contents(&state, 1, 1, 500_000);
    assert_eq!(r.ops.len(), 4);
    army.af = Some(1);
    let mut msg = render_snapshot(1, 1);
    msg.cells[0][0] = Some(army);
    msg.attention_coords = vec![vec![0, 0]];
    let state = render_state(msg);
    let mut r = Renderer::new();
    r.draw_cell_contents(&state, 1, 1, 500_000);
    assert_eq!(render_texts(&r.ops), vec!["A", "A", "F", "F"]);
}

#[test]
fn error_banner_fades_over_its_last_fifth() {
    assert_eq!(ERROR_DURATION, 10_000);
    assert_eq!(ERROR_FADE * 5, ERROR_DURATION);
    let now = 1_700_000_000_000u64;
    let until = now + ERROR_DURATION;
    assert_eq!(error_banner_opacity(now, until), 1_000_000);
    assert_eq!(error_banner_opacity(now + 7_999, until), 1_000_000);
    assert_eq!(error_banner_opacity(now + 8_000, until), 1_000_000);
    assert_eq!(error_banner_opacity(now + 8_001, until), 999_500);
    assert_eq!(error_banner_opacity(now + 9_000, until), 500_000);
    assert_eq!(error_banner_opacity(now + 9_999, until), 500);
    assert_eq!(error_banner_opacity(now + 10_000, until), 0);
    assert_eq!(error_banner_opacity(now + 20_000, until), 0);
    assert_eq!(error_banner_opacity(0, u64::MAX), 1_000_000);
}

#[test]
fn error_banner_is_painted_at_its_opacity() {
    let mut msg = render_snapshot(1, 1);
    msg.error_message = "No path".to_string();
    msg.error_until = 10_000;
    let state = render_state(msg);
    let metrics = measure_message_area(&state, &render_measure);
    let mut r = Renderer::new();
    r.paint_message_area(&state, 9_000, 28_000, 800, &metrics);
    let banner = vec![
        DrawOp::SetGlobalAlpha(50_000),
        render_fill("rgb(248,81,73)"),
        DrawOp::FillRect { x: 0, y: 1120 + 1840, w: 10_500, h: 880 },
        DrawOp::SetGlobalAlpha(500_000),
        render_fill("rgb(248,81,73)"),
        DrawOp::FillRect { x: 0, y: 1120 + 1840, w: 120, h: 880 },
        render_text("No path", 480, 1120 + 2000),
        DrawOp::SetGlobalAlpha(1_000_000),
    ];
    assert!(r.ops.windows(banner.len()).any(|w| w == banner.as_slice()));
    for now in [9_980u64, 10_000, 10_001] {
        let mut r = Renderer::new();
        r.paint_message_area(&state, now, 28_000, 800, &metrics);
        assert!(!render_texts(&r.ops).contains(&"No path".to_string()), "at {}", now);
    }
    let mut r = Renderer::new();
    r.paint_message_area(&state, 9_979, 28_000, 800, &metrics);
    assert!(r.ops.contains(&DrawOp::SetGlobalAlpha(10_500)));
}

#[test]
fn message_strip_of_a_quiet_state() {
    let mut msg = render_snapshot(2, 1);
    msg.round = 3;
    let state = render_state(msg);
    let mut r = Renderer::new();
    r.draw_message_area(&state, 0, 28_000, 800, &render_measure);
    assert_eq!(
        r.ops,
        vec![
            render_fill("rgb(22,27,34)"),
            DrawOp::FillRect { x: 0, y: 960, w: 28_000, h: 2_560 },
            DrawOp::SetStrokeStyle("rgb(48,54,61)".to_string()),
            DrawOp::BeginPath,
            DrawOp::MoveTo { x: 0, y: 960 },
            DrawOp::LineTo { x: 28_000, y: 960 },
            DrawOp::Stroke,
            DrawOp::BeginPath,
            DrawOp::MoveTo { x: 10_500, y: 960 },
            DrawOp::LineTo { x: 10_500, y: 3_520 },
            DrawOp::MoveTo { x: 17_500, y: 960 },
            DrawOp::LineTo { x: 17_500, y: 3_520 },
            DrawOp::Stroke,
            DrawOp::SetFont(Font::Msg),
            render_fill("rgb(230,237,243)"),
            DrawOp::SetTextBaseline(TextBaseline::Top),
            DrawOp::SetTextAlign(TextAlign::Right),
            render_text("Round: 3", 27_520, 1_680),
            DrawOp::SetTextAlign(TextAlign::Left),
            DrawOp::SetTextBaseline(TextBaseline::Alphabetic),
        ]
    );
}

#[test]
fn turn_message_comes_before_the_destination() {
    let mut msg = render_snapshot(1, 1);
    msg.attention_message = "Army needs orders".to_string();
    msg.turn_message = "Your turn".to_string();
    msg.destination = Some(vec![4, 7]);
    let state = render_state(msg);
    let mut r = Renderer::new();
    r.draw_message_area(&state, 0, 28_000, 800, &render_measure);
    let texts = render_texts(&r.ops);
    assert_eq!(texts, vec!["Army needs orders", "Your turn", "Round: 1"]);
    assert!(r.ops.contains(&render_text("Army needs orders", 480, 1120 + 560)));
    assert!(render_has_pair(
        &r.ops,
        &render_fill("rgb(139,148,158)"),
        &render_text("Your turn", 480, 1120 + 1280)
    ));
    let mut msg = render_snapshot(1, 1);
    msg.destination = Some(vec![4, 7]);
    let state = render_state(msg);
    let mut r = Renderer::new();
    r.draw_message_area(&state, 0, 28_000, 800, &render_measure);
    assert_eq!(render_texts(&r.ops), vec!["Dest: 4,7", "Round: 1"]);
    assert!(r.ops.contains(&render_text("Dest: 4,7", 480, 1120 + 1280)));
    assert_eq!(destination_string((12, 0)), "Dest: 12,0");
    assert_eq!(round_string(0), "Round: 0");
    assert_eq!(round_string(u32::MAX), "Round: 4294967295");
}

#[test]
fn status_lines_align_to_the_right_edge() {
    let mut msg = render_snapshot(1, 1);
    msg.hover_message = "Plains".to_string();
    msg.production_status = "Army in 3".to_string();
    let state = render_state(msg);
    let mut r = Renderer::new();
    r.draw_message_area(&state, 0, 28_000, 800, &render_measure);
    let tail = vec![
        DrawOp::SetTextAlign(TextAlign::Right),
        render_text("Round: 1", 27_520, 1_680),
        render_fill("rgb(139,148,158)"),
        render_text("Plains", 27_520, 1120 + 1280),
        render_fill("rgb(230,237,243)"),
        render_fill("rgb(139,148,158)"),
        render_text("Army in 3", 27_520, 1120 + 2000),
        DrawOp::SetTextAlign(TextAlign::Left),
        DrawOp::SetTextBaseline(TextBaseline::Alphabetic),
    ];
    assert_eq!(&r.ops[r.ops.len() - tail.len()..], tail.as_slice());
}

#[test]
fn pause_mark_is_set_before_the_round() {
    for (paused, requested) in [(true, false), (false, true), (true, true)] {
        let mut msg = render_snapshot(1, 1);
        msg.round = 12;
        msg.paused = paused;
        msg.pause_requested = requested;
        let state = render_state(msg);
        let mut r = Renderer::new();
        r.draw_message_area(&state, 0, 28_000, 800, &render_measure);
        // "PAUSED  Round: 12" has 17 characters, "PAUSED  " has 8, each 360 units wide.
        let x = 28_000 - 17 * 360 - 480;
        let tail = vec![
            DrawOp::SetTextAlign(TextAlign::Right),
            DrawOp::SetTextAlign(TextAlign::Left),
            render_fill("rgb(248,81,73)"),
            render_text("PAUSED  ", x, 1_680),
            render_fill("rgb(230,237,243)"),
            render_text("Round: 12", x + 8 * 360, 1_680),
            DrawOp::SetTextAlign(TextAlign::Right),
            DrawOp::SetTextAlign(TextAlign::Left),
            DrawOp::SetTextBaseline(TextBaseline::Alphabetic),
        ];
        assert_eq!(&r.ops[r.ops.len() - tail.len()..], tail.as_slice());
    }
}

#[test]
fn pause_mark_without_measure_counts_no_width() {
    let mut msg = render_snapshot(1, 1);
    msg.paused = true;
    let state = render_state(msg);
    let mut r = Renderer::new();
    r.draw_message_area(&state, 0, 28_000, 800, &|_font: Font, _text: &str| None);
    assert!(r.ops.contains(&render_text("PAUSED  ", 27_520, 1_680)));
    assert!(r.ops.contains(&render_text("Round: 1", 27_520, 1_680)));
}

#[test]
fn debug_lines_are_centred_and_three_at_most() {
    let mut msg = render_snapshot(1, 1);
    msg.debug_message = "ab\nabcd\n\nfourth".to_string();
    let state = render_state(msg);
    let mut r = Renderer::new();
    r.draw_message_area(&state, 0, 28_000, 800, &render_measure);
    // The middle region runs from 10500 to 17500; its centre is 14000.
    let debug = vec![
        render_fill("rgb(121,192,255)"),
        render_text("ab", 14_000 - 360, 1120 + 560),
        render_text("abcd", 14_000 - 720, 1120 + 1280),
        render_text("", 14_000, 1120 + 2000),
        render_fill("rgb(230,237,243)"),
    ];
    assert!(r.ops.windows(debug.len()).any(|w| w == debug.as_slice()));
    assert!(!render_texts(&r.ops).contains(&"fourth".to_string()));
}

#[test]
fn debug_line_that_cannot_be_measured_is_left_out() {
    let mut msg = render_snapshot(1, 1);
    msg.debug_message = "seen\nunseen".to_string();
    let state = render_state(msg);
    let picky = |_font: Font, text: &str| {
        if text == "unseen" {
            None
        } else {
            Some(400u32)
        }
    };
    let mut r = Renderer::new();
    r.draw_message_area(&state, 0, 28_000, 800, &picky);
    assert_eq!(render_texts(&r.ops), vec!["seen", "Round: 1"]);
    assert!(r.ops.contains(&render_text("seen", 14_000 - 200, 1120 + 560)));
}

#[test]
fn wrap_fills_lines_greedily() {
    // Ten characters fit.
    let lines = wrap_text("aaa bbb ccc ddd", 10 * 360, Font::MenuItem, &render_measure);
    assert_eq!(lines, vec!["aaa bbb", "ccc ddd"]);
    let lines = wrap_text("aaa bbb ccc ddd", 11 * 360, Font::MenuItem, &render_measure);
    assert_eq!(lines, vec!["aaa bbb ccc", "ddd"]);
    let lines = wrap_text("aaa bbb ccc ddd", 15 * 360, Font::MenuItem, &render_measure);
    assert_eq!(lines, vec!["aaa bbb ccc ddd"]);
    let lines = wrap_text("aaa bbb ccc ddd", 0, Font::MenuItem, &render_measure);
    assert_eq!(lines, vec!["aaa", "bbb", "ccc", "ddd"]);
}

#[test]
fn wrap_keeps_a_word_that_is_too_long() {
    let lines = wrap_text("a incomprehensible b", 5 * 360, Font::MenuItem, &render_measure);
    assert_eq!(lines, vec!["a", "incomprehensible", "b"]);
}

#[test]
fn wrap_respects_line_feeds() {
    let lines = wrap_text("one two\n\nthree\n", 100 * 360, Font::MenuItem, &render_measure);
    assert_eq!(lines, vec!["one two", "", "three", ""]);
    assert_eq!(wrap_text("", 100, Font::MenuItem, &render_measure), vec![""]);
    assert_eq!(wrap_text("\n", 100, Font::MenuItem, &render_measure), vec!["", ""]);
}

#[test]
fn wrap_keeps_doubled_spaces_as_empty_words() {
    let lines = wrap_text("a  b", 100 * 360, Font::MenuItem, &render_measure);
    assert_eq!(lines, vec!["a  b"]);
    let lines = wrap_text("a  b", 0, Font::MenuItem, &render_measure);
    assert_eq!(lines, vec!["a", "", "b"]);
}

#[test]
fn wrap_takes_a_failed_measure_as_fitting() {
    let blind = |_font: Font, _text: &str| None;
    let lines = wrap_text("aaa bbb ccc\nddd", 1, Font::MenuItem, &blind);
    assert_eq!(lines, vec!["aaa bbb ccc", "ddd"]);
}

#[test]
fn wrap_measures_in_the_font_it_is_given() {
    let by_font = |font: Font, text: &str| {
        let per_char = if font == Font::MenuTitle { 800 } else { 200 };
        Some(text.chars().count() as u32 * per_char)
    };
    assert_eq!(wrap_text("aa bb", 1_000, Font::MenuItem, &by_font), vec!["aa bb"]);
    assert_eq!(wrap_text("aa bb", 1_000, Font::MenuTitle, &by_font), vec!["aa", "bb"]);
}

#[test]
fn wrap_each_wraps_every_text_in_order() {
    let all = vec!["aaa bbb".to_string(), "".to_string(), "ccc ddd eee".to_string()];
    let lines = wrap_each(&all, 7 * 360, Font::MenuItem, &render_measure);
    assert_eq!(lines, vec!["aaa bbb", "", "ccc ddd", "eee"]);
    assert!(wrap_each(&vec![], 7 * 360, Font::MenuItem, &render_measure).is_empty());
}

#[test]
fn controls_of_a_fresh_session() {
    let state = GameState::new();
    assert_eq!(
        compute_controls_lines(&state),
        vec![
            "Keys: P pause  + map  ? tutorial  h tips on/off",
            "New: + shows enemy/actual map  ? opens tutorial menu  P pauses at round end",
        ]
    );
}

#[test]
fn controls_nudge_hover_mechanics_once_a_cell_is_hovered() {
    let mut state = GameState::new();
    state.hover_col = Some(1);
    assert_eq!(compute_controls_lines(&state).len(), 2);
    assert!(!compute_controls_lines(&state)[1].contains("destination"));
    state.hover_row = Some(1);
    assert_eq!(
        compute_controls_lines(&state)[1],
        "New: + shows enemy/actual map  ? opens tutorial menu  P pauses at round end  \
         . sets destination at hover  * toggles waypoint at hover"
    );
    state.used_map_cycle = true;
    state.used_tutorial_menu = true;
    state.used_pause = true;
    state.used_waypoint = true;
    assert_eq!(compute_controls_lines(&state)[1], "New: . sets destination at hover");
    state.used_destination = true;
    assert_eq!(
        compute_controls_lines(&state),
        vec!["Keys: P pause  + map  ? tutorial  h tips on/off"]
    );
}

#[test]
fn destination_nudge_does_not_come_back() {
    let input = empire_client::input::InputDispatcher::new();
    let mut state = GameState::new();
    state.hover_col = Some(1);
    state.hover_row = Some(1);
    assert!(compute_controls_lines(&state)[1].contains(". sets destination at hover"));
    input.key_down(&mut state, ".", false);
    for key in ["q", "H", "?", "*", ".", "Escape", "x"] {
        input.key_down(&mut state, key, false);
        state.apply_message(ServerMessage::State(render_snapshot(2, 2)));
        for line in compute_controls_lines(&state) {
            assert!(!line.contains(". sets destination at hover"));
        }
    }
}

#[test]
fn controls_name_one_thing_to_do_now() {
    let all_used = |state: &mut GameState| {
        state.used_map_cycle = true;
        state.used_tutorial_menu = true;
        state.used_pause = true;
    };
    let now_line = |state: &GameState| compute_controls_lines(state).get(1).cloned();

    let mut msg = render_snapshot(2, 1);
    msg.paused = true;
    let mut state = render_state(msg);
    all_used(&mut state);
    assert_eq!(now_line(&state), Some("Now: SPACE steps one round".to_string()));

    let mut msg = render_snapshot(2, 1);
    msg.pause_requested = true;
    msg.waiting_for_input = true;
    let mut state = render_state(msg);
    all_used(&mut state);
    assert_eq!(now_line(&state), None);

    let mut city = render_cell("city");
    city.cs = Some("player".to_string());
    let mut msg = render_snapshot(2, 1);
    msg.waiting_for_input = true;
    msg.attention_coords = vec![vec![0, 0]];
    msg.cells[0][0] = Some(city.clone());
    let mut state = render_state(msg);
    all_used(&mut state);
    assert_eq!(
        now_line(&state),
        Some("Now: choose production (F/T/P/D/S/C/B/Z), X none, SPACE skip".to_string())
    );

    city.u = Some(render_unit("army", "player", "awake"));
    let mut msg = render_snapshot(2, 1);
    msg.waiting_for_input = true;
    msg.attention_coords = vec![vec![0, 0]];
    msg.cells[0][0] = Some(city);
    let mut state = render_state(msg);
    all_used(&mut state);
    assert_eq!(
        now_line(&state),
        Some(
            "Now: move QWEASDZXC, SPACE skip, U unload/wake, S sentry, L explore".to_string()
        )
    );

    let mut msg = render_snapshot(2, 1);
    msg.waiting_for_input = true;
    msg.attention_coords = vec![vec![1, 0]];
    let mut state = render_state(msg);
    all_used(&mut state);
    assert_eq!(now_line(&state), Some("Now: act on the highlighted item".to_string()));

    let mut msg = render_snapshot(2, 1);
    msg.waiting_for_input = true;
    msg.attention_coords = vec![vec![9, 9]];
    let mut state = render_state(msg);
    all_used(&mut state);
    assert_eq!(now_line(&state), Some("Now: act on the highlighted item".to_string()));
}

#[test]
fn controls_follow_the_priority_of_menus_and_tutorial() {
    let tutorial = |visible: bool| TutorialMsg {
        page_text: "text".to_string(),
        page_index: 0,
        page_count: 2,
        scenario_name: "Basics".to_string(),
        overlay_visible: visible,
    };
    let mut msg = render_snapshot(2, 1);
    msg.paused = true;
    msg.tutorial = Some(tutorial(true));
    let state = render_state(msg);
    assert_eq!(compute_controls_lines(&state)[1], "Tutorial: N next, B back, ESC hide");

    let mut msg = render_snapshot(2, 1);
    msg.tutorial = Some(tutorial(false));
    let state = render_state(msg);
    assert_eq!(compute_controls_lines(&state)[1], "Tutorial: ESC show overlay");

    let mut msg = render_snapshot(2, 1);
    msg.tutorial = Some(tutorial(true));
    msg.tutorial_menu = Some(TutorialMenuMsg { scenarios: vec![] });
    let state = render_state(msg);
    assert_eq!(compute_controls_lines(&state)[1], "Tutorial menu: click a scenario, ESC closes");

    let mut msg = render_snapshot(2, 1);
    msg.tutorial = Some(tutorial(true));
    msg.tutorial_menu = Some(TutorialMenuMsg { scenarios: vec![] });
    msg.load_menu = Some(LoadMenuMsg { files: vec![], hovered: None });
    let state = render_state(msg);
    let lines = compute_controls_lines(&state);
    assert_eq!(lines[1], "Load menu: click a file, ESC closes");
    assert_eq!(lines.len(), 3);
    assert!(lines[2].starts_with("New: "));
}

#[test]
fn tutorial_panel_shows_the_wrapped_page() {
    let tut = TutorialMsg {
        page_text: "Move your army.\nNext, end the turn.".to_string(),
        page_index: 1,
        page_count: 4,
        scenario_name: "Basics".to_string(),
        overlay_visible: true,
    };
    assert_eq!(page_string(&tut), "Page 2/4  [N]ext [B]ack [ESC]hide");
    let mut r = Renderer::new();
    r.draw_tutorial_overlay(&tut, 28_000, &render_measure);
    // The panel is 350 pixels wide and starts 338 pixels from the left.
    let left = 338 * 40;
    assert_eq!(
        r.ops,
        vec![
            DrawOp::SetFont(Font::MenuItem),
            DrawOp::SetGlobalAlpha(920_000),
            render_fill("rgb(22,27,34)"),
            DrawOp::FillRect { x: left, y: 480, w: 14_000, h: 144 * 40 },
            DrawOp::SetGlobalAlpha(1_000_000),
            render_fill("rgb(88,166,255)"),
            DrawOp::FillRect { x: left, y: 480, w: 120, h: 144 * 40 },
            DrawOp::SetStrokeStyle("rgb(48,54,61)".to_string()),
            DrawOp::SetLineWidth(40),
            DrawOp::StrokeRect { x: left, y: 480, w: 14_000, h: 144 * 40 },
            DrawOp::SetFont(Font::MenuTitle),
            render_fill("rgb(88,166,255)"),
            DrawOp::SetTextBaseline(TextBaseline::Top),
            render_text("Basics", left + 800, 28 * 40),
            DrawOp::SetStrokeStyle("rgb(48,54,61)".to_string()),
            DrawOp::BeginPath,
            DrawOp::MoveTo { x: left + 640, y: 52 * 40 },
            DrawOp::LineTo { x: left + 14_000 - 640, y: 52 * 40 },
            DrawOp::Stroke,
            DrawOp::SetFont(Font::MenuItem),
            render_fill("rgb(230,237,243)"),
            render_text("Move your army.", left + 800, 60 * 40),
            render_text("Next, end the turn.", left + 800, 80 * 40),
            DrawOp::SetFont(Font::MenuHint),
            render_fill("rgb(139,148,158)"),
            render_text("Page 2/4  [N]ext [B]ack [ESC]hide", left + 800, 112 * 40),
            DrawOp::SetTextBaseline(TextBaseline::Alphabetic),
        ]
    );
}

#[test]
fn tutorial_panel_wraps_to_its_content_width() {
    let tut = TutorialMsg {
        page_text: "x".repeat(17) + " " + &"y".repeat(17) + " z",
        page_index: 0,
        page_count: 1,
        scenario_name: String::new(),
        overlay_visible: true,
    };
    // The text may take 350 - 32 - 4 = 314 pixels, which is 34 characters and a bit.
    let mut r = Renderer::new();
    r.draw_tutorial_overlay(&tut, 28_000, &render_measure);
    let texts = render_texts(&r.ops);
    assert_eq!(texts[1], "x".repeat(17));
    assert_eq!(texts[2], "y".repeat(17) + " z");
    let tut = TutorialMsg { page_text: "x".repeat(17) + " " + &"y".repeat(16) + " z", ..tut };
    let mut r = Renderer::new();
    r.draw_tutorial_overlay(&tut, 28_000, &render_measure);
    let texts = render_texts(&r.ops);
    assert_eq!(texts[1], "x".repeat(17) + " " + &"y".repeat(16));
    assert_eq!(texts[2], "z");
}

#[test]
fn help_panel_falls_back_to_a_generic_tip() {
    let mut state = GameState::new();
    state.used_map_cycle = true;
    state.used_tutorial_menu = true;
    state.used_pause = true;
    let mut r = Renderer::new();
    r.draw_help_overlay(&state, 28_000, &render_measure);
    // The text may take 315 - 28 - 4 = 283 pixels: 31 characters.
    assert_eq!(
        r.ops,
        vec![
            DrawOp::SetFont(Font::MenuItem),
            DrawOp::SetGlobalAlpha(900_000),
            render_fill("rgb(22,27,34)"),
            DrawOp::FillRect { x: 480, y: 480, w: 12_600, h: (94 + 18 + 36) * 40 },
            DrawOp::SetGlobalAlpha(1_000_000),
            render_fill("rgb(88,166,255)"),
            DrawOp::FillRect { x: 480, y: 480, w: 120, h: (94 + 18 + 36) * 40 },
            DrawOp::SetStrokeStyle("rgb(48,54,61)".to_string()),
            DrawOp::SetLineWidth(40),
            DrawOp::StrokeRect { x: 480, y: 480, w: 12_600, h: (94 + 18 + 36) * 40 },
            DrawOp::SetFont(Font::MenuTitle),
            render_fill("rgb(88,166,255)"),
            DrawOp::SetTextBaseline(TextBaseline::Top),
            render_text("Tip", 30 * 40, 26 * 40),
            DrawOp::SetStrokeStyle("rgb(48,54,61)".to_string()),
            DrawOp::BeginPath,
            DrawOp::MoveTo { x: 26 * 40, y: 46 * 40 },
            DrawOp::LineTo { x: (12 + 315 - 14) * 40, y: 46 * 40 },
            DrawOp::Stroke,
            DrawOp::SetFont(Font::MenuItem),
            render_fill("rgb(230,237,243)"),
            render_text("Use [H] to hide this panel.", 30 * 40, 54 * 40),
            render_fill("rgb(139,148,158)"),
            render_text("Keys: P pause  + map  ?", 30 * 40, 82 * 40),
            render_text("tutorial  h tips on/off", 30 * 40, 100 * 40),
            DrawOp::SetFont(Font::MenuHint),
            render_fill("rgb(139,148,158)"),
            render_text("[H] hide panel", 30 * 40, 128 * 40),
            DrawOp::SetTextBaseline(TextBaseline::Alphabetic),
        ]
    );
}

#[test]
fn help_panel_shows_the_tip_it_is_given() {
    let mut msg = render_snapshot(1, 1);
    msg.tips = Some(TipsMsg {
        id: "t".to_string(),
        title: "Sentry".to_string(),
        text: "Units on sentry wake when an enemy comes near.".to_string(),
    });
    let mut state = render_state(msg);
    state.show_help_overlay = true;
    let mut r = Renderer::new();
    r.draw_help_overlay(&state, 28_000, &render_measure);
    let texts = render_texts(&r.ops);
    assert_eq!(texts[0], "Sentry");
    assert_eq!(texts[1], "Units on sentry wake when an");
    assert_eq!(texts[2], "enemy comes near.");
    assert_eq!(texts.last().unwrap(), "[H] hide panel");
}

#[test]
fn tutorial_menu_lists_every_scenario() {
    let menu = TutorialMenuMsg {
        scenarios: vec![
            TutorialScenarioMsg {
                id: "a".to_string(),
                name: "Basics".to_string(),
                description: "First steps".to_string(),
            },
            TutorialScenarioMsg {
                id: "b".to_string(),
                name: "Navy".to_string(),
                description: "Ships and ports".to_string(),
            },
        ],
    };
    let mut r = Renderer::new();
    r.draw_tutorial_menu(&menu, Some(1), 700, 400);
    // 520 by 214 pixels, centred on 700 by 400.
    let (left, top) = (90 * 40, 93 * 40);
    assert_eq!(
        r.ops,
        vec![
            DrawOp::SetGlobalAlpha(850_000),
            render_fill("rgb(13,17,23)"),
            DrawOp::FillRect { x: 0, y: 0, w: 28_000, h: 16_000 },
            DrawOp::SetGlobalAlpha(1_000_000),
            render_fill("rgba(0,0,0,0.3)"),
            DrawOp::FillRect { x: left + 160, y: top + 160, w: 20_800, h: 214 * 40 },
            render_fill("rgb(22,27,34)"),
            DrawOp::SetStrokeStyle("rgb(48,54,61)".to_string()),
            DrawOp::SetLineWidth(40),
            DrawOp::FillRect { x: left, y: top, w: 20_800, h: 214 * 40 },
            DrawOp::StrokeRect { x: left, y: top, w: 20_800, h: 214 * 40 },
            DrawOp::SetFont(Font::MenuTitle),
            render_fill("rgb(88,166,255)"),
            DrawOp::SetTextBaseline(TextBaseline::Top),
            render_text("Tutorial Scenarios", left + 960, top + 960),
            DrawOp::SetStrokeStyle("rgb(48,54,61)".to_string()),
            DrawOp::BeginPath,
            DrawOp::MoveTo { x: left + 960, y: top + 60 * 40 },
            DrawOp::LineTo { x: left + 20_800 - 960, y: top + 60 * 40 },
            DrawOp::Stroke,
            DrawOp::SetFont(Font::MenuItem),
            render_fill("rgb(230,237,243)"),
            render_text("1. Basics", left + 960, top + 72 * 40),
            DrawOp::SetFont(Font::MenuHint),
            render_fill("rgb(139,148,158)"),
            render_text("First steps", left + 44 * 40, top + 92 * 40),
            render_fill("rgb(31,111,235)"),
            DrawOp::FillRect { x: left, y: top + 112 * 40, w: 20_800, h: 1_920 },
            DrawOp::SetFont(Font::MenuItem),
            render_fill("rgb(255,255,255)"),
            render_text("2. Navy", left + 960, top + 120 * 40),
            DrawOp::SetFont(Font::MenuHint),
            render_fill("rgb(200,210,220)"),
            render_text("Ships and ports", left + 44 * 40, top + 140 * 40),
            DrawOp::SetFont(Font::MenuHint),
            render_fill("rgb(139,148,158)"),
            render_text("Click to start  |  Press ESC to close", left + 960, top + 190 * 40),
            DrawOp::SetTextBaseline(TextBaseline::Alphabetic),
        ]
    );
}

#[test]
fn load_menu_says_when_there_is_nothing_to_load() {
    let menu = LoadMenuMsg { files: vec![], hovered: None };
    let mut r = Renderer::new();
    r.draw_load_menu(&menu, 1000, 800);
    // 500 by 118 pixels, centred on 1000 by 800.
    let (left, top) = (250 * 40, 341 * 40);
    assert_eq!(r.ops.len(), 20 + 1 + 2 + 4);
    assert_eq!(r.ops[9], DrawOp::FillRect { x: left, y: top, w: 20_000, h: 118 * 40 });
    assert_eq!(r.ops[12], render_fill("rgb(230,237,243)"));
    assert_eq!(r.ops[14], render_text("Load Game", left + 960, top + 960));
    assert_eq!(
        &r.ops[20..],
        &[
            DrawOp::SetFont(Font::MenuItem),
            render_fill("rgb(139,148,158)"),
            render_text("No saved games found", left + 960, top + 74 * 40),
            DrawOp::SetFont(Font::MenuHint),
            render_fill("rgb(139,148,158)"),
            render_text("Press ESC to close", left + 960, top + 94 * 40),
            DrawOp::SetTextBaseline(TextBaseline::Alphabetic),
        ]
    );
}

#[test]
fn load_menu_highlights_the_hovered_file() {
    let menu = LoadMenuMsg {
        files: vec!["first.sav".to_string(), "second.sav".to_string()],
        hovered: Some(0),
    };
    let mut r = Renderer::new();
    r.draw_load_menu(&menu, 1000, 800);
    // 500 by 190 pixels, centred on 1000 by 800.
    let (left, top) = (250 * 40, 305 * 40);
    assert_eq!(
        &r.ops[20..],
        &[
            DrawOp::SetFont(Font::MenuItem),
            render_fill("rgb(31,111,235)"),
            DrawOp::FillRect { x: left, y: top + 64 * 40, w: 20_000, h: 1_440 },
            render_fill("white"),
            render_text("first.sav", left + 960, top + 74 * 40),
            render_fill("rgb(230,237,243)"),
            render_text("second.sav", left + 960, top + 110 * 40),
            DrawOp::SetFont(Font::MenuHint),
            render_fill("rgb(139,148,158)"),
            render_text("Press ESC to close", left + 960, top + 166 * 40),
            DrawOp::SetTextBaseline(TextBaseline::Alphabetic),
        ]
    );
}

#[test]
fn nothing_is_rendered_without_a_map() {
    for size in [(0usize, 0usize), (0, 5), (5, 0)] {
        let mut state = render_state(render_snapshot(size.0, size.1));
        state.show_help_overlay = true;
        let mut r = Renderer::new();
        r.render(&state, 0, render_still(), (300, 150), &render_measure);
        assert!(r.ops.is_empty());
    }
}

#[test]
fn canvas_is_resized_only_when_its_size_differs() {
    let state = render_state(render_snapshot(2, 1));
    let mut r = Renderer::new();
    r.render(&state, 0, render_still(), (300, 150), &render_measure);
    assert_eq!(r.ops[0], DrawOp::Resize { width: 700, height: 88 });
    assert_eq!(r.ops[1], render_fill("rgb(13,17,23)"));
    assert_eq!(r.ops[2], DrawOp::FillRect { x: 0, y: 0, w: 28_000, h: 3_520 });
    let resized = r.ops.len();
    let mut r = Renderer::new();
    r.render(&state, 0, render_still(), (700, 88), &render_measure);
    assert_eq!(r.ops[0], render_fill("rgb(13,17,23)"));
    assert_eq!(r.ops.len(), resized - 1);
    let mut r = Renderer::new();
    r.render(&state, 0, render_still(), (700, 87), &render_measure);
    assert_eq!(r.ops[0], DrawOp::Resize { width: 700, height: 88 });
}

#[test]
fn rendering_twice_gives_the_same_frame() {
    let mut msg = render_snapshot(3, 2);
    msg.cells[1][1] = Some(render_cell("sea"));
    msg.debug_message = "fps 60".to_string();
    msg.paused = true;
    let mut state = render_state(msg);
    state.show_help_overlay = true;
    let phases = Phases { attention: 123_456, completion: 654_321, unit: 500_000 };
    let mut one = Renderer::new();
    one.render(&state, 42, phases, (700, 108), &render_measure);
    let mut two = Renderer::new();
    two.render(&state, 42, phases, (700, 108), &render_measure);
    assert_eq!(one.ops, two.ops);
    let metrics = measure_frame(&state, &render_measure);
    let mut three = Renderer::new();
    three.paint_frame(&state, 42, phases, (700, 108), &metrics);
    assert_eq!(one.ops, three.ops);
}

#[test]
fn land_and_city_frame_from_a_snapshot() {
    let mut city = render_cell("city");
    city.cs = Some("player".to_string());
    city.prod = Some(ProductionMsg { item: "army".to_string(), remaining: 5 });
    let mut msg = render_snapshot(2, 1);
    msg.cells = vec![vec![Some(render_cell("land"))], vec![Some(city)]];
    msg.round = 3;
    let state = render_state(msg);
    let mut r = Renderer::new();
    r.render(&state, 1_000, render_still(), (700, 88), &render_measure);
    let cell = |col: i128| DrawOp::FillRect { x: col * 560, y: 0, w: 560, h: 800 };
    // One land cell and one city of the player, each painted once in its own colour.
    assert!(render_has_pair(&r.ops, &render_fill("rgb(61,43,31)"), &cell(0)));
    assert!(render_has_pair(&r.ops, &render_fill("rgb(46,160,67)"), &cell(1)));
    assert_eq!(r.ops.iter().filter(|op| **op == render_fill("rgb(61,43,31)")).count(), 1);
    assert_eq!(r.ops.iter().filter(|op| **op == render_fill("rgb(46,160,67)")).count(), 1);
    // No round of the order is spent yet, so there is no bar: nothing is translucent.
    assert!(!r.ops.iter().any(|op| matches!(op, DrawOp::SetGlobalAlpha(_))));
    assert!(!r.ops.contains(&render_fill("rgb(23,80,33)")));
    // The item's glyph is there all the same, and the status shows the round.
    assert_eq!(render_texts(&r.ops), vec!["A", "A", "Round: 3"]);
    assert!(r.ops.contains(&render_text("A", 560 + 120, 600)));
    assert!(r.ops.contains(&render_text("Round: 3", 27_520, 1_680)));
}

#[test]
fn frame_is_painted_in_order() {
    let mut msg = render_snapshot(1, 1);
    msg.cells[0][0] = Some(render_cell("sea"));
    msg.tutorial = Some(TutorialMsg {
        page_text: "page".to_string(),
        page_index: 0,
        page_count: 1,
        scenario_name: "Name".to_string(),
        overlay_visible: true,
    });
    msg.tutorial_menu = Some(TutorialMenuMsg { scenarios: vec![] });
    msg.load_menu = Some(LoadMenuMsg { files: vec![], hovered: None });
    let mut state = render_state(msg);
    state.show_help_overlay = true;
    let mut r = Renderer::new();
    r.render(&state, 0, render_still(), (700, 88), &render_measure);
    let texts = render_texts(&r.ops);
    let at = |text: &str| texts.iter().position(|t| t == text).unwrap();
    assert!(at("Round: 1") < at("Name"));
    assert!(at("Name") < at("Tip"));
    assert!(at("Tip") < at("Tutorial Scenarios"));
    assert!(at("Tutorial Scenarios") < at("Load Game"));
    let fonts: Vec<Font> = r
        .ops
        .iter()
        .filter_map(|op| match op {
            DrawOp::SetFont(f) => Some(*f),
            _ => None,
        })
        .collect();
    assert_eq!(fonts[0], Font::Cell);
    assert_eq!(fonts[1], Font::Msg);
}

#[test]
fn hidden_tutorial_page_is_not_painted() {
    let mut msg = render_snapshot(1, 1);
    msg.tutorial = Some(TutorialMsg {
        page_text: "page".to_string(),
        page_index: 0,
        page_count: 1,
        scenario_name: "Name".to_string(),
        overlay_visible: false,
    });
    let state = render_state(msg);
    let mut r = Renderer::new();
    r.render(&state, 0, render_still(), (700, 88), &render_measure);
    assert_eq!(render_texts(&r.ops), vec!["Round: 1"]);
}

#[test]
fn cycle_position_repeats_with_the_period() {
    assert_eq!((ATTENTION_PERIOD, COMPLETION_PERIOD, UNIT_PERIOD), (1500, 2000, 800));
    for period in [ATTENTION_PERIOD, COMPLETION_PERIOD, UNIT_PERIOD] {
        assert_eq!(cycle_position(0, period), 0);
        assert_eq!(cycle_position(period, period), 0);
        assert_eq!(cycle_position(period - 1, period), period - 1);
        for now in [1u64, 799, 1_234_567, 1_700_000_000_123] {
            assert_eq!(cycle_position(now + period, period), cycle_position(now, period));
            assert!(cycle_position(now, period) < period);
        }
    }
    assert_eq!(cycle_position(1_700_000_000_123, 1500), 623);
}
