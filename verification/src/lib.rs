//! A keyboard-driven sprite: the rules by which one player figure walks,
//! stops, grows and shrinks, and which part of its sprite sheet is shown.
//!
//! The crate holds no window, canvas or texture. It turns input events into
//! player states, advances the player, and says which rectangle of the sheet
//! goes to which rectangle of the screen; whoever owns the canvas does the
//! drawing.

pub mod entity;
pub mod events;
pub mod geometry;
pub mod player;

pub use entity::Entity;
pub use events::{handle_event_app, handle_event_player, player_command, Event, Key};
pub use geometry::{Blit, Point, Region};
pub use player::{Direction, Player, PlayerState, PlayerView};
