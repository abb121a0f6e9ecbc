//! Input events and what they mean for the application and the player.

use vstd::prelude::*;
use crate::entity::Entity;
use crate::player::{Direction, PlayerState};

verus! {

/// The keys that the game tells apart.
#[derive(Clone, Copy, Debug, PartialEq, Eq, Structural)]
pub enum Key {
    Left,
    Right,
    Up,
    Down,
    KpPlus,
    KpMinus,
    Escape,
    /// Any other key, or a key event that names no key.
    Other,
}

/// An input event, as far as the game reads it.
#[derive(Clone, Copy, Debug, PartialEq, Eq, Structural)]
pub enum Event {
    /// The window was asked to close.
    Quit,
    KeyDown(Key),
    KeyUp(Key),
    /// Any other event.
    Other,
}

/// Whether `event` asks the application to end: the window is closed or
/// Escape is pressed.
pub open spec fn asks_to_quit(event: Event) -> bool {
    event == Event::Quit || event == Event::KeyDown(Key::Escape)
}

impl Key {
    /// The direction in which an arrow key points. No other key has one.
    pub open spec fn direction(self) -> Option<Direction> {
        match self {
            Key::Left => Some(Direction::Left),
            Key::Right => Some(Direction::Right),
            Key::Up => Some(Direction::Up),
            Key::Down => Some(Direction::Down),
            _ => None,
        }
    }
}

/// The state that `event` asks of the player, if any.
///
/// Pressing an arrow key makes the player walk in the arrow's direction, and
/// releasing it makes the player stop, facing that way. Plus and minus on
/// the keypad, when pressed, scale the player up and down. No other event
/// concerns the player.
pub open spec fn command_of(event: Event) -> Option<PlayerState> {
    match event {
        Event::KeyDown(Key::KpPlus) => Some(PlayerState::ScaleUp),
        Event::KeyDown(Key::KpMinus) => Some(PlayerState::ScaleDown),
        Event::KeyDown(key) => match key.direction() {
            Some(direction) => Some(PlayerState::Walk(direction)),
            None => None,
        },
        Event::KeyUp(key) => match key.direction() {
            Some(direction) => Some(PlayerState::Stop(direction)),
            None => None,
        },
        _ => None,
    }
}

/// No event both ends the application and concerns the player.
pub proof fn lemma_quit_is_no_command(event: Event)
    requires
        asks_to_quit(event),
    ensures
        command_of(event) is None,
{
}

/// Sets `quit` when `event` asks the application to end, and leaves it as
/// it is otherwise.
pub fn handle_event_app(event: Event, quit: &mut bool)
    ensures
        *final(quit) == (*old(quit) || asks_to_quit(event)),
{
    match event {
        Event::Quit => {
            *quit = true;
        },
        Event::KeyDown(Key::Escape) => {
            *quit = true;
        },
        _ => {},
    }
}

/// The state that `event` asks of the player, if any.
pub fn player_command(event: Event) -> (command: Option<PlayerState>)
    ensures
        command == command_of(event),
{
    match event {
        Event::KeyDown(Key::Left) => Some(PlayerState::Walk(Direction::Left)),
        Event::KeyDown(Key::Right) => Some(PlayerState::Walk(Direction::Right)),
        Event::KeyDown(Key::Up) => Some(PlayerState::Walk(Direction::Up)),
        Event::KeyDown(Key::Down) => Some(PlayerState::Walk(Direction::Down)),
        Event::KeyDown(Key::KpPlus) => Some(PlayerState::ScaleUp),
        Event::KeyDown(Key::KpMinus) => Some(PlayerState::ScaleDown),
        Event::KeyUp(Key::Left) => Some(PlayerState::Stop(Direction::Left)),
        Event::KeyUp(Key::Right) => Some(PlayerState::Stop(Direction::Right)),
        Event::KeyUp(Key::Up) => Some(PlayerState::Stop(Direction::Up)),
        Event::KeyUp(Key::Down) => Some(PlayerState::Stop(Direction::Down)),
        _ => None,
    }
}

/// Updates `entity` at time `ticks` with the state that `event` asks of the
/// player, and leaves it untouched when the event asks for none.
pub fn handle_event_player<E: Entity<PlayerState>>(event: Event, ticks: u32, entity: &mut E)
    requires
        command_of(event) matches Some(state) ==> old(entity).update_requires(ticks, state),
    ensures
        match command_of(event) {
            Some(state) => old(entity).update_ensures(ticks, state, final(entity)),
            None => *final(entity) == *old(entity),
        },
{
    match player_command(event) {
        Some(state) => {
            entity.update(ticks, state);
        },
        None => {},
    }
}

} // verus!
