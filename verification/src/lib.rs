//! The presentation layer of a networked turn-based strategy game.
//!
//! The remote peer owns the game. This library keeps a view-model of what
//! the peer last said, lists the canvas operations that paint it, and maps
//! keys and pointer events to the commands that go back to the peer:
//!
//! - `protocol` holds the records of a snapshot and `state` the view-model
//!   that a snapshot replaces;
//! - `layout` is the one place where the geometry of the grid, the message
//!   strip, the panels and the menus is decided;
//! - `renderer` paints a frame as a list of the operations of `canvas`, in
//!   the colours of `palette`;
//! - `input` handles keys and the pointer and gives the commands of
//!   `command`.
//!
//! Nothing here touches a canvas, a socket or a clock: times and pointer
//! positions come in as values, the widths of texts through a function that
//! the caller hands in, and operations and commands go out as values.

pub mod canvas;
pub mod command;
pub mod input;
pub mod layout;
pub mod palette;
pub mod protocol;
pub mod renderer;
pub mod state;
pub mod text;
