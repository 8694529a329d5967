use empire_client::palette::{
    brighten, cell_color, darken, has_tag, lerp_color, rgb, rgba, unit_color, COLOR_AWAKE,
    COLOR_COMPUTER_CITY, COLOR_EXPLORE, COLOR_FREE_CITY, COLOR_LAND, COLOR_PLAYER_CITY,
    COLOR_SEA, COLOR_SENTRY, COLOR_SLEEPING, COLOR_UNEXPLORED, LAND_COLORS,
};
use empire_client::protocol::{CellMsg, UnitMsg};
use empire_client::renderer::wrap::{chars_of, split_text};
use empire_client::renderer::{item_cost, unit_char, unit_glyph};
use empire_client::text::{decimal_string, push_decimal, push_signed_decimal, str_eq};

fn text_cell(t: &str) -> CellMsg {
    CellMsg {
        t: t.to_string(),
        cs: None,
        u: None,
        wp: None,
        fc: None,
        ac: None,
        af: None,
        aa: None,
        cid: None,
        prod: None,
    }
}

fn text_unit(t: &str, o: &str, m: &str) -> UnitMsg {
    UnitMsg {
        t: t.to_string(),
        o: o.to_string(),
        m: m.to_string(),
        h: None,
        fuel: None,
        marching_orders: None,
        flight_path: None,
        transport_mission: None,
    }
}

#[test]
fn str_eq_compares_characters() {
    assert!(str_eq("", ""));
    assert!(str_eq("city", "city"));
    assert!(!str_eq("city", "cit"));
    assert!(!str_eq("city", "cite"));
    assert!(!str_eq("", "x"));
    assert!(str_eq("grüße", "grüße"));
    assert!(!str_eq("grüße", "grusse"));
}

#[test]
fn decimal_of_small_and_large_numbers() {
    assert_eq!(decimal_string(0), "0");
    assert_eq!(decimal_string(7), "7");
    assert_eq!(decimal_string(10), "10");
    assert_eq!(decimal_string(255), "255");
    assert_eq!(decimal_string(1_000_000), "1000000");
    assert_eq!(decimal_string(u64::MAX), "18446744073709551615");
}

#[test]
fn push_decimal_appends() {
    let mut s = "n=".to_string();
    push_decimal(&mut s, 42);
    assert_eq!(s, "n=42");
}

#[test]
fn signed_decimal_has_minus_sign() {
    let mut s = String::new();
    push_signed_decimal(&mut s, -5);
    s.push(' ');
    push_signed_decimal(&mut s, 0);
    s.push(' ');
    push_signed_decimal(&mut s, 17);
    s.push(' ');
    push_signed_decimal(&mut s, i64::MIN);
    s.push(' ');
    push_signed_decimal(&mut s, i64::MAX);
    assert_eq!(s, "-5 0 17 -9223372036854775808 9223372036854775807");
}

#[test]
fn chars_of_gives_every_character() {
    assert_eq!(chars_of(""), Vec::<char>::new());
    assert_eq!(chars_of("aé→"), vec!['a', 'é', '→']);
}

#[test]
fn split_text_agrees_with_std_split() {
    let cases = ["", "a", "a b", "a  b", " a", "a ", " ", "  ", "one two three", "é ü"];
    for case in cases {
        let want: Vec<String> = case.split(' ').map(|s| s.to_string()).collect();
        assert_eq!(split_text(case, ' '), want, "splitting {:?}", case);
    }
    let lines = "first\n\nthird\n";
    let want: Vec<String> = lines.split('\n').map(|s| s.to_string()).collect();
    assert_eq!(split_text(lines, '\n'), want);
    assert_eq!(split_text(lines, '\n').len(), 4);
}

#[test]
fn rgb_writes_the_three_channels() {
    assert_eq!(rgb([13, 17, 23]), "rgb(13,17,23)");
    assert_eq!(rgb([0, 0, 0]), "rgb(0,0,0)");
    assert_eq!(rgb([255, 255, 255]), "rgb(255,255,255)");
    assert_eq!(rgb([1, 20, 255]), "rgb(1,20,255)");
}

#[test]
fn rgba_writes_the_opacity_as_a_fraction() {
    assert_eq!(rgba([88, 166, 255], 800_000), "rgba(88,166,255,0.8)");
    assert_eq!(rgba([1, 2, 3], 400_000), "rgba(1,2,3,0.4)");
    assert_eq!(rgba([1, 2, 3], 1_000_000), "rgba(1,2,3,1)");
    assert_eq!(rgba([1, 2, 3], 0), "rgba(1,2,3,0)");
    assert_eq!(rgba([1, 2, 3], 250_000), "rgba(1,2,3,0.25)");
    assert_eq!(rgba([1, 2, 3], 50_000), "rgba(1,2,3,0.05)");
    assert_eq!(rgba([1, 2, 3], 1), "rgba(1,2,3,0.000001)");
    assert_eq!(rgba([1, 2, 3], 1_500_000), "rgba(1,2,3,1.5)");
    assert_eq!(rgba([1, 2, 3], 100_100), "rgba(1,2,3,0.1001)");
}

#[test]
fn lerp_color_blends_each_channel() {
    assert_eq!(lerp_color([0, 100, 200], [100, 0, 200], 0, 10), [0, 100, 200]);
    assert_eq!(lerp_color([0, 100, 200], [100, 0, 200], 10, 10), [100, 0, 200]);
    assert_eq!(lerp_color([0, 100, 200], [100, 0, 200], 5, 10), [50, 50, 200]);
    assert_eq!(lerp_color([0, 0, 0], [255, 255, 255], 1, 3), [85, 85, 85]);
    assert_eq!(lerp_color([10, 10, 10], [0, 0, 0], 1, 3), [6, 6, 6]);
}

#[test]
fn lerp_color_matches_floating_point_blend() {
    let a = [61u8, 43, 31];
    let b = [97u8, 68, 49];
    for tenth in 0..=10u32 {
        let got = lerp_color(a, b, tenth, 10);
        for ch in 0..3 {
            let want = (a[ch] as f64 + (b[ch] as f64 - a[ch] as f64) * (tenth as f64 / 10.0)
                + 1e-9) as u8;
            assert_eq!(got[ch], want);
        }
    }
}

#[test]
fn brighten_scales_and_stops_at_255() {
    assert_eq!(brighten([61, 43, 31], 8, 5), [97, 68, 49]);
    assert_eq!(brighten([200, 160, 159], 8, 5), [255, 255, 254]);
    assert_eq!(brighten([46, 160, 67], 5, 4), [57, 200, 83]);
    for c in 0..=255u8 {
        assert_eq!(brighten([c, c, c], 8, 5)[0], (c as f64 * 1.6).min(255.0) as u8);
        assert_eq!(brighten([c, c, c], 5, 4)[0], (c as f64 * 1.25).min(255.0) as u8);
    }
}

#[test]
fn darken_scales_down() {
    assert_eq!(darken([61, 43, 31], 3, 5), [36, 25, 18]);
    assert_eq!(darken([46, 160, 67], 1, 2), [23, 80, 33]);
    for c in 0..=255u8 {
        assert_eq!(darken([c, c, c], 3, 5)[0], (c as f64 * 0.6) as u8);
        assert_eq!(darken([c, c, c], 1, 2)[0], (c as f64 * 0.5) as u8);
    }
}

#[test]
fn has_tag_needs_presence_and_equality() {
    assert!(has_tag(&Some("player".to_string()), "player"));
    assert!(!has_tag(&Some("player".to_string()), "free"));
    assert!(!has_tag(&None, "player"));
}

#[test]
fn cell_color_by_terrain_and_owner() {
    assert_eq!(cell_color(&text_cell("sea")), COLOR_SEA);
    assert_eq!(cell_color(&text_cell("land")), COLOR_LAND);
    assert_eq!(cell_color(&text_cell("unexplored")), COLOR_UNEXPLORED);
    assert_eq!(cell_color(&text_cell("swamp")), COLOR_UNEXPLORED);
    let mut city = text_cell("city");
    assert_eq!(cell_color(&city), COLOR_FREE_CITY);
    city.cs = Some("player".to_string());
    assert_eq!(cell_color(&city), COLOR_PLAYER_CITY);
    city.cs = Some("computer".to_string());
    assert_eq!(cell_color(&city), COLOR_COMPUTER_CITY);
    city.cs = Some("free".to_string());
    assert_eq!(cell_color(&city), COLOR_FREE_CITY);
    city.cs = Some("rebels".to_string());
    assert_eq!(cell_color(&city), COLOR_FREE_CITY);
}

#[test]
fn land_color_cycles_through_regions() {
    let mut land = text_cell("land");
    for cid in [0u32, 1, 7, 8, 9, 15, 4_294_967_295] {
        land.cid = Some(cid);
        assert_eq!(cell_color(&land), LAND_COLORS[(cid % 8) as usize]);
    }
    land.cid = Some(3);
    assert_eq!(cell_color(&land), [82, 62, 45]);
}

#[test]
fn unit_color_by_owner_mission_and_mode() {
    assert_eq!(unit_color(&text_unit("army", "computer", "sleeping")), COLOR_AWAKE);
    assert_eq!(unit_color(&text_unit("army", "player", "sleeping")), COLOR_SLEEPING);
    assert_eq!(unit_color(&text_unit("fighter", "player", "awake")), COLOR_AWAKE);
    assert_eq!(unit_color(&text_unit("fighter", "player", "sentry")), COLOR_SENTRY);
    assert_eq!(unit_color(&text_unit("fighter", "player", "explore")), COLOR_EXPLORE);
    assert_eq!(unit_color(&text_unit("fighter", "player", "coastline-follow")), COLOR_EXPLORE);
    assert_eq!(unit_color(&text_unit("fighter", "computer", "other")), COLOR_SLEEPING);
    let mut loading = text_unit("transport", "player", "awake");
    loading.transport_mission = Some("loading".to_string());
    assert_eq!(unit_color(&loading), COLOR_SLEEPING);
    loading.transport_mission = Some("idle".to_string());
    assert_eq!(unit_color(&loading), COLOR_AWAKE);
    let mut army = text_unit("army", "computer", "awake");
    army.transport_mission = Some("loading".to_string());
    assert_eq!(unit_color(&army), COLOR_AWAKE);
}

#[test]
fn item_cost_per_kind() {
    let table = [
        ("army", 5),
        ("fighter", 10),
        ("transport", 30),
        ("carrier", 30),
        ("patrol-boat", 15),
        ("destroyer", 20),
        ("submarine", 20),
        ("battleship", 40),
        ("satellite", 50),
        ("zeppelin", 10),
        ("", 10),
    ];
    for (kind, cost) in table {
        assert_eq!(item_cost(kind), cost, "cost of {:?}", kind);
    }
}

#[test]
fn unit_char_per_kind() {
    let table = [
        ("army", "A"),
        ("fighter", "F"),
        ("transport", "T"),
        ("carrier", "C"),
        ("destroyer", "D"),
        ("submarine", "S"),
        ("patrol-boat", "P"),
        ("battleship", "B"),
        ("satellite", "Z"),
        ("zeppelin", "?"),
    ];
    for (kind, glyph) in table {
        assert_eq!(unit_char(kind), glyph);
        assert_eq!(unit_glyph(kind, "player"), glyph);
        assert_eq!(unit_glyph(kind, "computer"), glyph.to_lowercase());
    }
}
