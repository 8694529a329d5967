//! The records of the inbound snapshot message, as the remote peer sends them.
//!
//! Tags such as a cell's terrain or a unit's owner stay the strings that the
//! peer wrote; the renderer and the input layer classify them where they read
//! them.

use vstd::prelude::*;

verus! {

/// `serde_json::Value`, declared so that a unit's free-form orders can be
/// carried along. Nothing in this library looks inside such a value.
#[verifier::external_type_specification]
#[verifier::external_body]
pub struct ExJsonValue(serde_json::Value);

/// A message from the remote peer.
#[derive(Debug)]
pub enum ServerMessage {
    /// A full snapshot of the game state.
    State(GameStateMsg),
}

/// A full snapshot of the game state. Coordinate pairs arrive as sequences
/// of any length; only those of length two are coordinates.
#[derive(Debug)]
pub struct GameStateMsg {
    /// Columns and rows of the map.
    pub map_size: (usize, usize),
    /// The cells, indexed by column and by row; `None` where nothing is known.
    pub cells: Vec<Vec<Option<CellMsg>>>,
    pub round: u32,
    pub paused: bool,
    pub pause_requested: bool,
    pub waiting_for_input: bool,
    pub attention_coords: Vec<Vec<usize>>,
    pub attention_message: String,
    pub turn_message: String,
    pub error_message: String,
    /// The time, in milliseconds, at which the error banner has faded out.
    pub error_until: u64,
    pub hover_message: String,
    pub selected_cell: Option<Vec<usize>>,
    pub production_status: String,
    pub destination: Option<Vec<usize>>,
    pub map_to_display: String,
    pub debug_message: String,
    pub load_menu: Option<LoadMenuMsg>,
    pub tutorial: Option<TutorialMsg>,
    pub tutorial_menu: Option<TutorialMenuMsg>,
    pub tips: Option<TipsMsg>,
}

/// A tip for the help panel.
#[derive(Debug, Clone)]
pub struct TipsMsg {
    pub id: String,
    pub title: String,
    pub text: String,
}

/// One cell of the map.
#[derive(Debug, Clone)]
pub struct CellMsg {
    /// Terrain: `unexplored`, `land`, `sea` or `city`.
    pub t: String,
    /// For a city, who holds it: `player`, `computer` or `free`.
    pub cs: Option<String>,
    /// The unit that stands on the cell.
    pub u: Option<UnitMsg>,
    /// Whether the cell is a waypoint.
    pub wp: Option<bool>,
    pub fc: Option<u8>,
    pub ac: Option<u8>,
    /// Awake fighters held by the unit or city on the cell.
    pub af: Option<u8>,
    /// Awake armies held by the transport on the cell.
    pub aa: Option<u8>,
    /// The land region the cell belongs to.
    pub cid: Option<u32>,
    /// What the city is building.
    pub prod: Option<ProductionMsg>,
}

/// A unit on the map.
#[derive(Debug, Clone)]
pub struct UnitMsg {
    /// Kind of unit, such as `army` or `carrier`.
    pub t: String,
    /// Owner: `player` or `computer`.
    pub o: String,
    /// Mode, such as `awake` or `sentry`.
    pub m: String,
    pub h: Option<u32>,
    pub fuel: Option<u32>,
    pub marching_orders: Option<serde_json::Value>,
    pub flight_path: Option<serde_json::Value>,
    pub transport_mission: Option<String>,
}

/// A production order of a city.
#[derive(Debug, Clone)]
pub struct ProductionMsg {
    pub item: String,
    /// Rounds until the item is done.
    pub remaining: u32,
}

/// The menu of saved games.
#[derive(Debug, Clone)]
pub struct LoadMenuMsg {
    pub files: Vec<String>,
    pub hovered: Option<usize>,
}

/// The page of a running tutorial.
#[derive(Debug, Clone)]
pub struct TutorialMsg {
    pub page_text: String,
    pub page_index: u32,
    pub page_count: u32,
    pub scenario_name: String,
    pub overlay_visible: bool,
}

/// The menu of tutorial scenarios.
#[derive(Debug, Clone)]
pub struct TutorialMenuMsg {
    pub scenarios: Vec<TutorialScenarioMsg>,
}

/// One entry of the tutorial menu.
#[derive(Debug, Clone)]
pub struct TutorialScenarioMsg {
    pub id: String,
    pub name: String,
    pub description: String,
}

} // verus!
