//! The view-model of one session and the rule by which a snapshot replaces
//! the part of it that the remote peer owns.

use vstd::prelude::*;
use crate::protocol::{
    CellMsg, GameStateMsg, LoadMenuMsg, ServerMessage, TipsMsg, TutorialMenuMsg, TutorialMsg,
};

verus! {

/// The latest snapshot together with the state that only this client keeps.
pub struct GameState {
    /// Columns and rows; zero until the first snapshot.
    pub map_size: (usize, usize),
    pub cells: Vec<Vec<Option<CellMsg>>>,
    pub round: u32,
    pub paused: bool,
    pub pause_requested: bool,
    pub waiting_for_input: bool,
    /// The cells that ask for attention; the first one is the active cell.
    pub attention_coords: Vec<(usize, usize)>,
    pub attention_message: String,
    pub turn_message: String,
    pub error_message: String,
    /// The time, in milliseconds, at which the error banner has faded out.
    pub error_until: u64,
    pub hover_message: String,
    pub production_status: String,
    pub destination: Option<(usize, usize)>,
    pub debug_message: String,
    pub load_menu: Option<LoadMenuMsg>,
    pub tutorial: Option<TutorialMsg>,
    pub tutorial_menu: Option<TutorialMenuMsg>,
    pub tips: Option<TipsMsg>,
    pub selected_col: Option<usize>,
    pub selected_row: Option<usize>,
    /// The cell under the pointer.
    pub hover_col: Option<usize>,
    pub hover_row: Option<usize>,
    /// The entry of the open tutorial menu under the pointer.
    pub tutorial_menu_hovered: Option<usize>,
    pub show_help_overlay: bool,
    pub show_inspector: bool,
    pub used_pause: bool,
    pub used_tutorial_menu: bool,
    pub used_destination: bool,
    pub used_waypoint: bool,
    pub used_save: bool,
    pub used_load_menu: bool,
    pub used_map_cycle: bool,
}

/// What a snapshot decides: every field that the remote peer owns.
pub ghost struct ServerFields {
    pub map_size: (usize, usize),
    pub cells: Vec<Vec<Option<CellMsg>>>,
    pub round: u32,
    pub paused: bool,
    pub pause_requested: bool,
    pub waiting_for_input: bool,
    pub attention_coords: Seq<(usize, usize)>,
    pub attention_message: String,
    pub turn_message: String,
    pub error_message: String,
    pub error_until: u64,
    pub hover_message: String,
    pub production_status: String,
    pub destination: Option<(usize, usize)>,
    pub debug_message: String,
    pub load_menu: Option<LoadMenuMsg>,
    pub tutorial: Option<TutorialMsg>,
    pub tutorial_menu: Option<TutorialMenuMsg>,
    pub tips: Option<TipsMsg>,
    pub selected_col: Option<usize>,
    pub selected_row: Option<usize>,
}

/// What no snapshot touches: the state that only this client keeps.
pub ghost struct LocalFields {
    pub hover_col: Option<usize>,
    pub hover_row: Option<usize>,
    pub tutorial_menu_hovered: Option<usize>,
    pub show_help_overlay: bool,
    pub show_inspector: bool,
    pub used_pause: bool,
    pub used_tutorial_menu: bool,
    pub used_destination: bool,
    pub used_waypoint: bool,
    pub used_save: bool,
    pub used_load_menu: bool,
    pub used_map_cycle: bool,
}

/// The coordinate that a sequence from the wire stands for: its two entries,
/// if it has exactly two.
pub open spec fn pair_of(c: Seq<usize>) -> Option<(usize, usize)> {
    if c.len() == 2 {
        Some((c[0], c[1]))
    } else {
        None
    }
}

/// The coordinate of an optional sequence from the wire.
pub open spec fn optional_pair(c: Option<Vec<usize>>) -> Option<(usize, usize)> {
    match c {
        Some(v) => pair_of(v@),
        None => None,
    }
}

/// The coordinates among `coords`, in their order; entries that are not of
/// length two are left out.
pub open spec fn valid_pairs(coords: Seq<Vec<usize>>) -> Seq<(usize, usize)>
    decreases coords.len(),
{
    if coords.len() == 0 {
        Seq::empty()
    } else {
        let rest = valid_pairs(coords.drop_last());
        match pair_of(coords.last()@) {
            Some(p) => rest.push(p),
            None => rest,
        }
    }
}

/// The server-owned fields that a snapshot sets.
pub open spec fn snapshot_fields(s: GameStateMsg) -> ServerFields {
    ServerFields {
        map_size: s.map_size,
        cells: s.cells,
        round: s.round,
        paused: s.paused,
        pause_requested: s.pause_requested,
        waiting_for_input: s.waiting_for_input,
        attention_coords: valid_pairs(s.attention_coords@),
        attention_message: s.attention_message,
        turn_message: s.turn_message,
        error_message: s.error_message,
        error_until: s.error_until,
        hover_message: s.hover_message,
        production_status: s.production_status,
        destination: optional_pair(s.destination),
        debug_message: s.debug_message,
        load_menu: s.load_menu,
        tutorial: s.tutorial,
        tutorial_menu: s.tutorial_menu,
        tips: s.tips,
        selected_col: match optional_pair(s.selected_cell) {
            Some(p) => Some(p.0),
            None => None,
        },
        selected_row: match optional_pair(s.selected_cell) {
            Some(p) => Some(p.1),
            None => None,
        },
    }
}

/// Whether the cells of a snapshot are as many columns as its map has, each
/// of as many rows.
pub open spec fn snapshot_is_rectangular(s: GameStateMsg) -> bool {
    &&& s.cells@.len() == s.map_size.0
    &&& forall|col: int| 0 <= col < s.cells@.len() ==> (#[trigger] s.cells@[col])@.len() == s.map_size.1
}

/// Whether `after` is `before` with the message `msg` applied: the
/// server-owned fields are those of the snapshot, the others are untouched.
pub open spec fn reconciled(before: GameState, msg: ServerMessage, after: GameState) -> bool {
    match msg {
        ServerMessage::State(s) => {
            &&& after.server() == snapshot_fields(s)
            &&& after.local() == before.local()
        },
    }
}

/// The coordinate of one sequence from the wire.
pub fn read_pair(c: &Vec<usize>) -> (r: Option<(usize, usize)>)
    ensures
        r == pair_of(c@),
{
    if c.len() == 2 {
        Some((c[0], c[1]))
    } else {
        None
    }
}

/// The coordinate of an optional sequence from the wire.
pub fn read_optional_pair(c: &Option<Vec<usize>>) -> (r: Option<(usize, usize)>)
    ensures
        r == optional_pair(*c),
{
    match c {
        Some(v) => read_pair(v),
        None => None,
    }
}

/// The coordinates among `coords`, in their order.
pub fn read_pairs(coords: &Vec<Vec<usize>>) -> (r: Vec<(usize, usize)>)
    ensures
        r@ == valid_pairs(coords@),
{
    let mut out: Vec<(usize, usize)> = Vec::new();
    let mut i: usize = 0;
    while i < coords.len()
        invariant
            i <= coords.len(),
            out@ == valid_pairs(coords@.take(i as int)),
        decreases coords.len() - i,
    {
        proof {
            assert(coords@.take(i + 1).drop_last() =~= coords@.take(i as int));
        }
        match read_pair(&coords[i]) {
            Some(p) => {
                out.push(p);
            },
            None => {},
        }
        i += 1;
    }
    proof {
        assert(coords@.take(i as int) =~= coords@);
    }
    out
}

impl GameState {
    /// The fields that the remote peer owns.
    pub open spec fn server(&self) -> ServerFields {
        ServerFields {
            map_size: self.map_size,
            cells: self.cells,
            round: self.round,
            paused: self.paused,
            pause_requested: self.pause_requested,
            waiting_for_input: self.waiting_for_input,
            attention_coords: self.attention_coords@,
            attention_message: self.attention_message,
            turn_message: self.turn_message,
            error_message: self.error_message,
            error_until: self.error_until,
            hover_message: self.hover_message,
            production_status: self.production_status,
            destination: self.destination,
            debug_message: self.debug_message,
            load_menu: self.load_menu,
            tutorial: self.tutorial,
            tutorial_menu: self.tutorial_menu,
            tips: self.tips,
            selected_col: self.selected_col,
            selected_row: self.selected_row,
        }
    }

    /// The fields that only this client keeps.
    pub open spec fn local(&self) -> LocalFields {
        LocalFields {
            hover_col: self.hover_col,
            hover_row: self.hover_row,
            tutorial_menu_hovered: self.tutorial_menu_hovered,
            show_help_overlay: self.show_help_overlay,
            show_inspector: self.show_inspector,
            used_pause: self.used_pause,
            used_tutorial_menu: self.used_tutorial_menu,
            used_destination: self.used_destination,
            used_waypoint: self.used_waypoint,
            used_save: self.used_save,
            used_load_menu: self.used_load_menu,
            used_map_cycle: self.used_map_cycle,
        }
    }

    /// Whether the cells are as many columns as the map has, each of as
    /// many rows. A snapshot of that shape leaves the state so.
    pub open spec fn cells_match_map(&self) -> bool {
        &&& self.cells@.len() == self.map_size.0
        &&& forall|col: int|
            0 <= col < self.cells@.len() ==> (#[trigger] self.cells@[col])@.len() == self.map_size.1
    }

    /// Whether the column and the row of the selection are both set or both
    /// unset, and likewise those of the hovered cell.
    pub open spec fn cursors_are_paired(&self) -> bool {
        &&& self.selected_col is Some <==> self.selected_row is Some
        &&& self.hover_col is Some <==> self.hover_row is Some
    }

    /// The state at the start of a session: no map, no messages, nothing
    /// selected or hovered, the help panel shown, no mechanic used yet.
    pub fn new() -> (s: Self)
        ensures
            s.map_size == (0usize, 0usize),
            s.cells@.len() == 0,
            s.round == 0,
            !s.paused && !s.pause_requested && !s.waiting_for_input,
            s.attention_coords@.len() == 0,
            s.attention_message@.len() == 0,
            s.turn_message@.len() == 0,
            s.error_message@.len() == 0,
            s.error_until == 0,
            s.hover_message@.len() == 0,
            s.production_status@.len() == 0,
            s.destination is None,
            s.debug_message@.len() == 0,
            s.load_menu is None,
            s.tutorial is None,
            s.tutorial_menu is None,
            s.tips is None,
            s.selected_col is None && s.selected_row is None,
            s.cursors_are_paired(),
            s.cells_match_map(),
            s.local() == (LocalFields {
                hover_col: None,
                hover_row: None,
                tutorial_menu_hovered: None,
                show_help_overlay: true,
                show_inspector: true,
                used_pause: false,
                used_tutorial_menu: false,
                used_destination: false,
                used_waypoint: false,
                used_save: false,
                used_load_menu: false,
                used_map_cycle: false,
            }),
    {
        GameState {
            map_size: (0, 0),
            cells: Vec::new(),
            round: 0,
            paused: false,
            pause_requested: false,
            waiting_for_input: false,
            attention_coords: Vec::new(),
            attention_message: String::new(),
            turn_message: String::new(),
            error_message: String::new(),
            error_until: 0,
            hover_message: String::new(),
            production_status: String::new(),
            destination: None,
            debug_message: String::new(),
            load_menu: None,
            tutorial: None,
            tutorial_menu: None,
            tips: None,
            selected_col: None,
            selected_row: None,
            hover_col: None,
            hover_row: None,
            tutorial_menu_hovered: None,
            show_help_overlay: true,
            show_inspector: true,
            used_pause: false,
            used_tutorial_menu: false,
            used_destination: false,
            used_waypoint: false,
            used_save: false,
            used_load_menu: false,
            used_map_cycle: false,
        }
    }

    /// Applies a message from the remote peer. A snapshot replaces every
    /// server-owned field; nothing of the earlier snapshot is kept, and the
    /// client's own fields stay as they are.
    pub fn apply_message(&mut self, msg: ServerMessage)
        ensures
            reconciled(*old(self), msg, *final(self)),
            old(self).cursors_are_paired() ==> final(self).cursors_are_paired(),
            msg matches ServerMessage::State(s) && snapshot_is_rectangular(s)
                ==> final(self).cells_match_map(),
    {
        match msg {
            ServerMessage::State(s) => {
                let attention = read_pairs(&s.attention_coords);
                let selected = read_optional_pair(&s.selected_cell);
                let destination = read_optional_pair(&s.destination);
                let (selected_col, selected_row) = match selected {
                    Some((c, r)) => (Some(c), Some(r)),
                    None => (None, None),
                };
                *self = GameState {
                    map_size: s.map_size,
                    cells: s.cells,
                    round: s.round,
                    paused: s.paused,
                    pause_requested: s.pause_requested,
                    waiting_for_input: s.waiting_for_input,
                    attention_coords: attention,
                    attention_message: s.attention_message,
                    turn_message: s.turn_message,
                    error_message: s.error_message,
                    error_until: s.error_until,
                    hover_message: s.hover_message,
                    production_status: s.production_status,
                    destination,
                    debug_message: s.debug_message,
                    load_menu: s.load_menu,
                    tutorial: s.tutorial,
                    tutorial_menu: s.tutorial_menu,
                    tips: s.tips,
                    selected_col,
                    selected_row,
                    hover_col: self.hover_col,
                    hover_row: self.hover_row,
                    tutorial_menu_hovered: self.tutorial_menu_hovered,
                    show_help_overlay: self.show_help_overlay,
                    show_inspector: self.show_inspector,
                    used_pause: self.used_pause,
                    used_tutorial_menu: self.used_tutorial_menu,
                    used_destination: self.used_destination,
                    used_waypoint: self.used_waypoint,
                    used_save: self.used_save,
                    used_load_menu: self.used_load_menu,
                    used_map_cycle: self.used_map_cycle,
                };
            },
        }
    }
}

/// A snapshot replaces and never merges: after two messages in a row the
/// server-owned fields are those of the second snapshot alone, whatever the
/// first one held and whatever the state was before, and the client's own
/// fields are still those from before the first.
pub proof fn reconcile_replaces(
    start: GameState,
    first: ServerMessage,
    middle: GameState,
    second: ServerMessage,
    end: GameState,
)
    requires
        reconciled(start, first, middle),
        reconciled(middle, second, end),
    ensures
        end.local() == start.local(),
        second matches ServerMessage::State(s) ==> end.server() == snapshot_fields(s),
{
}

/// Two sessions that receive the same snapshot last agree on every
/// server-owned field, whatever either of them saw before.
pub proof fn reconcile_forgets_history(
    one: GameState,
    other: GameState,
    last: ServerMessage,
    one_after: GameState,
    other_after: GameState,
)
    requires
        reconciled(one, last, one_after),
        reconciled(other, last, other_after),
    ensures
        one_after.server() == other_after.server(),
{
}

} // verus!
