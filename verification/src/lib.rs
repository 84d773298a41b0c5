//! A two-player column-drop game on a rectangular grid: the turn rules, the
//! pending column entry, and the projection of a game onto what a screen shows.

pub mod model;
pub mod number;
pub mod game;
pub mod screen;
pub mod tick;
pub mod laws;

pub use game::{App, Key, Outcome};
pub use model::{Field, Turn};
pub use screen::{Canvas, Color, Panel, Screen, Tile};
