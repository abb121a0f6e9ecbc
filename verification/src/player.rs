//! The player: its state, how an update advances it, and how it is drawn.

use vstd::prelude::*;
use crate::entity::Entity;
use crate::geometry::{Blit, Point, Region};

verus! {

/// Width of one frame on the sprite sheet, in pixels.
pub const SPRITE_WIDTH: u32 = 32;

/// Height of one frame on the sprite sheet, in pixels.
pub const SPRITE_HEIGHT: u32 = 32;

/// Frames that the sheet holds for each direction, side by side.
pub const FRAMES_PER_DIRECTION: i32 = 2;

/// Milliseconds after which the animation moves on to its next frame.
pub const FRAME_TIME: u32 = 200;

/// Width and height of a new player, in pixels, before it is doubled on
/// the screen.
pub const INITIAL_SIZE: u32 = 32;

/// Pixels by which one scaling step changes width and height.
pub const SCALE_RATE: u32 = 5;

/// Pixels that the player walks per unit of time.
pub const VELOCITY: i32 = 2;

/// Units of time that one walking update stands for.
pub const STEP_TIME: i32 = 1;

/// How many times its own size the player is drawn.
pub const ZOOM: u32 = 2;

/// One of the four ways the player can face.
#[derive(Clone, Copy, Debug, PartialEq, Eq, Structural)]
pub enum Direction {
    Up,
    Right,
    Down,
    Left,
}

impl Direction {
    /// The place of this direction on the sprite sheet: up, right, down and
    /// left follow each other from 0 to 3.
    pub open spec fn spec_index(self) -> int {
        match self {
            Direction::Up => 0,
            Direction::Right => 1,
            Direction::Down => 2,
            Direction::Left => 3,
        }
    }

    /// The place of this direction on the sprite sheet.
    pub fn index(self) -> (i: i32)
        ensures
            i == self.spec_index(),
    {
        match self {
            Direction::Up => 0,
            Direction::Right => 1,
            Direction::Down => 2,
            Direction::Left => 3,
        }
    }
}

/// What the player is doing.
#[derive(Clone, Copy, Debug, PartialEq, Eq, Structural)]
pub enum PlayerState {
    Walk(Direction),
    Stop(Direction),
    ScaleUp,
    ScaleDown,
}

impl PlayerState {
    /// The direction whose frames show a player in this state. A player
    /// that changes its size is shown with the first frames of the sheet.
    pub open spec fn spec_facing(self) -> Direction {
        match self {
            PlayerState::Walk(direction) => direction,
            PlayerState::Stop(direction) => direction,
            _ => Direction::Up,
        }
    }

    /// The direction whose frames show a player in this state.
    pub fn facing(self) -> (d: Direction)
        ensures
            d == self.spec_facing(),
    {
        match self {
            PlayerState::Walk(direction) => direction,
            PlayerState::Stop(direction) => direction,
            _ => Direction::Up,
        }
    }
}

/// A player as the contracts see it: every number is a mathematical
/// integer, so a step can be described before asking whether it fits.
pub struct PlayerView {
    pub x: int,
    pub y: int,
    pub width: int,
    pub height: int,
    pub state: PlayerState,
    /// The frame of the animation that is shown, counted from 0.
    pub frame: int,
    /// The time, in milliseconds, at which that frame began.
    pub frame_start: int,
}

impl PlayerView {
    /// The values that a player can hold: coordinates and times in the range
    /// of their machine types, a size that is not negative, and a frame that
    /// the sprite sheet has.
    pub open spec fn valid(self) -> bool {
        &&& i32::MIN <= self.x <= i32::MAX
        &&& i32::MIN <= self.y <= i32::MAX
        &&& 0 <= self.width <= u32::MAX
        &&& 0 <= self.height <= u32::MAX
        &&& 0 <= self.frame < FRAMES_PER_DIRECTION
        &&& 0 <= self.frame_start <= u32::MAX
    }

    /// Whether, at time `ticks`, the frame shown has lasted its full time.
    pub open spec fn frame_is_over(self, ticks: int) -> bool {
        ticks - self.frame_start >= FRAME_TIME
    }

    /// How far an update with `state` moves the player to the right.
    pub open spec fn shift_x(state: PlayerState) -> int {
        match state {
            PlayerState::Walk(Direction::Right) => VELOCITY * STEP_TIME,
            PlayerState::Walk(Direction::Left) => -(VELOCITY * STEP_TIME),
            _ => 0,
        }
    }

    /// How far an update with `state` moves the player down.
    pub open spec fn shift_y(state: PlayerState) -> int {
        match state {
            PlayerState::Walk(Direction::Down) => VELOCITY * STEP_TIME,
            PlayerState::Walk(Direction::Up) => -(VELOCITY * STEP_TIME),
            _ => 0,
        }
    }

    /// By how much an update with `state` changes width and height.
    pub open spec fn growth(state: PlayerState) -> int {
        match state {
            PlayerState::ScaleUp => SCALE_RATE as int,
            PlayerState::ScaleDown => -(SCALE_RATE as int),
            _ => 0,
        }
    }

    /// The player after an update with `state` at time `ticks`.
    ///
    /// The player takes the new state. A frame that has lasted `FRAME_TIME`
    /// gives way to the next one, which begins at `ticks`; a player that
    /// stops shows frame 0 in any case. Walking moves the player by
    /// `VELOCITY * STEP_TIME` in its direction, and scaling changes both
    /// width and height by `SCALE_RATE`.
    pub open spec fn step(self, ticks: int, state: PlayerState) -> PlayerView {
        PlayerView {
            x: self.x + Self::shift_x(state),
            y: self.y + Self::shift_y(state),
            width: self.width + Self::growth(state),
            height: self.height + Self::growth(state),
            state,
            frame: if state is Stop {
                0
            } else if self.frame_is_over(ticks) {
                (self.frame + 1) % (FRAMES_PER_DIRECTION as int)
            } else {
                self.frame
            },
            frame_start: if self.frame_is_over(ticks) {
                ticks
            } else {
                self.frame_start
            },
        }
    }

    /// Whether a player may be updated with `state` at time `ticks`: time
    /// has not gone back behind the start of the frame shown, and the
    /// player that results is one that can be held. So a player never walks
    /// out of the coordinates' range, and its size never falls below zero.
    pub open spec fn can_step(self, ticks: int, state: PlayerState) -> bool {
        &&& self.frame_start <= ticks
        &&& self.step(ticks, state).valid()
    }

    /// The column of the sprite sheet that holds the frame shown, where
    /// each column is `SPRITE_WIDTH` wide.
    pub open spec fn sheet_column(self) -> int {
        self.state.spec_facing().spec_index() * FRAMES_PER_DIRECTION + self.frame
    }

    /// Whether the player can be drawn: its size on the screen, `ZOOM`
    /// times its own, is within the range of a `u32`.
    pub open spec fn can_draw(self) -> bool {
        &&& ZOOM * self.width <= u32::MAX
        &&& ZOOM * self.height <= u32::MAX
    }

    /// Whether `blit` shows the player: it takes the frame shown from the
    /// top row of the sheet and puts it at the player's position, `ZOOM`
    /// times the player's size.
    pub open spec fn shown_by(self, blit: Blit) -> bool {
        &&& blit.source.x == self.sheet_column() * SPRITE_WIDTH
        &&& blit.source.y == 0
        &&& blit.source.width == SPRITE_WIDTH
        &&& blit.source.height == SPRITE_HEIGHT
        &&& blit.target.x == self.x
        &&& blit.target.y == self.y
        &&& blit.target.width == ZOOM * self.width
        &&& blit.target.height == ZOOM * self.height
    }
}

impl PlayerView {
    /// Walking to the right adds `VELOCITY * STEP_TIME` to x, walking to the
    /// left takes it away, and walking down or up does the same to y. The
    /// other coordinate and the size stay as they are.
    pub proof fn lemma_walk_moves_by_velocity(self, ticks: int, direction: Direction)
        ensures
            ({
                let next = self.step(ticks, PlayerState::Walk(direction));
                let distance = VELOCITY * STEP_TIME;
                &&& direction == Direction::Right ==> next.x == self.x + distance && next.y == self.y
                &&& direction == Direction::Left ==> next.x == self.x - distance && next.y == self.y
                &&& direction == Direction::Down ==> next.y == self.y + distance && next.x == self.x
                &&& direction == Direction::Up ==> next.y == self.y - distance && next.x == self.x
                &&& next.width == self.width
                &&& next.height == self.height
            }),
    {
    }

    /// When a step may be taken, spelled out for each state: time has not
    /// gone back behind the start of the frame shown; a walking player stays
    /// within the coordinates' range; a growing player stays within the
    /// sizes' range; and a shrinking player has `SCALE_RATE` to give, in
    /// width and in height. A player may always stop.
    pub proof fn lemma_can_step(self, ticks: int, state: PlayerState)
        requires
            self.valid(),
            ticks <= u32::MAX,
        ensures
            self.can_step(ticks, state) <==> (self.frame_start <= ticks && match state {
                PlayerState::Walk(Direction::Up) => i32::MIN <= self.y - VELOCITY * STEP_TIME,
                PlayerState::Walk(Direction::Down) => self.y + VELOCITY * STEP_TIME <= i32::MAX,
                PlayerState::Walk(Direction::Right) => self.x + VELOCITY * STEP_TIME <= i32::MAX,
                PlayerState::Walk(Direction::Left) => i32::MIN <= self.x - VELOCITY * STEP_TIME,
                PlayerState::Stop(_) => true,
                PlayerState::ScaleUp => self.width + SCALE_RATE <= u32::MAX && self.height
                    + SCALE_RATE <= u32::MAX,
                PlayerState::ScaleDown => SCALE_RATE <= self.width && SCALE_RATE <= self.height,
            }),
    {
    }

    /// A step to one side followed by a step to the other side brings the
    /// player back to where it stood, whenever the two steps are taken.
    pub proof fn lemma_walk_there_and_back(self, first: int, second: int)
        ensures
            ({
                let right = PlayerState::Walk(Direction::Right);
                let left = PlayerState::Walk(Direction::Left);
                let down = PlayerState::Walk(Direction::Down);
                let up = PlayerState::Walk(Direction::Up);
                &&& self.step(first, right).step(second, left).x == self.x
                &&& self.step(first, left).step(second, right).x == self.x
                &&& self.step(first, down).step(second, up).y == self.y
                &&& self.step(first, up).step(second, down).y == self.y
            }),
    {
    }

    /// Scaling up and then down, or down and then up, gives the player its
    /// size back.
    pub proof fn lemma_scale_there_and_back(self, first: int, second: int)
        ensures
            ({
                let grown = self.step(first, PlayerState::ScaleUp).step(second, PlayerState::ScaleDown);
                let shrunk = self.step(first, PlayerState::ScaleDown).step(second, PlayerState::ScaleUp);
                &&& grown.width == self.width && grown.height == self.height
                &&& shrunk.width == self.width && shrunk.height == self.height
            }),
    {
    }

    /// The frame shown is always one that the sheet has: a step leads from
    /// such a frame to such a frame, and a player that stops shows frame 0.
    /// Before `FRAME_TIME` has passed, a player that does not stop keeps
    /// its frame and the time at which it began.
    pub proof fn lemma_step_frame(self, ticks: int, state: PlayerState)
        requires
            0 <= self.frame < FRAMES_PER_DIRECTION,
        ensures
            ({
                let next = self.step(ticks, state);
                &&& 0 <= next.frame < FRAMES_PER_DIRECTION
                &&& state is Stop ==> next.frame == 0
                &&& ticks - self.frame_start < FRAME_TIME ==> next.frame_start == self.frame_start
                &&& ticks - self.frame_start < FRAME_TIME && !(state is Stop) ==> next.frame
                    == self.frame
                &&& ticks - self.frame_start >= FRAME_TIME ==> next.frame_start == ticks
                &&& ticks - self.frame_start >= FRAME_TIME && !(state is Stop) ==> next.frame == 1
                    - self.frame
            }),
    {
    }
}

/// The player figure.
#[derive(Debug)]
pub struct Player {
    position: Point,
    sprite_state: i32,
    sprite_frame_start: u32,
    width: u32,
    height: u32,
    state: PlayerState,
}

impl View for Player {
    type V = PlayerView;

    closed spec fn view(&self) -> PlayerView {
        PlayerView {
            x: self.position.x as int,
            y: self.position.y as int,
            width: self.width as int,
            height: self.height as int,
            state: self.state,
            frame: self.sprite_state as int,
            frame_start: self.sprite_frame_start as int,
        }
    }
}

impl Player {
    #[verifier::type_invariant]
    spec fn frame_in_range(&self) -> bool {
        0 <= self.sprite_state < FRAMES_PER_DIRECTION
    }

    /// A player that stands at `position`, of size `INITIAL_SIZE`, walking
    /// up, whose first frame began at `sprite_frame_start`.
    pub fn new(position: Point, sprite_frame_start: u32) -> (player: Player)
        ensures
            player@ == (PlayerView {
                x: position.x as int,
                y: position.y as int,
                width: INITIAL_SIZE as int,
                height: INITIAL_SIZE as int,
                state: PlayerState::Walk(Direction::Up),
                frame: 0,
                frame_start: sprite_frame_start as int,
            }),
    {
        Player {
            position,
            width: INITIAL_SIZE,
            height: INITIAL_SIZE,
            state: PlayerState::Walk(Direction::Up),
            sprite_frame_start,
            sprite_state: 0,
        }
    }
}

impl Player {
    /// Where the player stands.
    pub fn position(&self) -> (position: Point)
        ensures
            position.x == self@.x,
            position.y == self@.y,
            self@.valid(),
    {
        proof {
            use_type_invariant(self);
        }
        self.position
    }

    /// The player's width, before it is multiplied by `ZOOM` on the screen.
    pub fn width(&self) -> (width: u32)
        ensures
            width == self@.width,
            self@.valid(),
    {
        proof {
            use_type_invariant(self);
        }
        self.width
    }

    /// The player's height, before it is multiplied by `ZOOM` on the screen.
    pub fn height(&self) -> (height: u32)
        ensures
            height == self@.height,
            self@.valid(),
    {
        proof {
            use_type_invariant(self);
        }
        self.height
    }

    /// What the player is doing.
    pub fn state(&self) -> (state: PlayerState)
        ensures
            state == self@.state,
            self@.valid(),
    {
        proof {
            use_type_invariant(self);
        }
        self.state
    }

    /// The frame of the animation that is shown, counted from 0.
    pub fn sprite_state(&self) -> (frame: i32)
        ensures
            frame == self@.frame,
            self@.valid(),
    {
        proof {
            use_type_invariant(self);
        }
        self.sprite_state
    }

    /// The time, in milliseconds, at which the frame shown began.
    pub fn sprite_frame_start(&self) -> (start: u32)
        ensures
            start == self@.frame_start,
            self@.valid(),
    {
        proof {
            use_type_invariant(self);
        }
        self.sprite_frame_start
    }

    /// Tells whether `update` may be called with `ticks` and `state`.
    pub fn can_update(&self, ticks: u32, state: PlayerState) -> (allowed: bool)
        ensures
            allowed == self@.can_step(ticks as int, state),
    {
        proof {
            use_type_invariant(self);
        }
        let distance: i32 = VELOCITY * STEP_TIME;
        let in_time = self.sprite_frame_start <= ticks;
        let in_range = match state {
            PlayerState::Walk(Direction::Up) => self.position.y >= i32::MIN + distance,
            PlayerState::Walk(Direction::Down) => self.position.y <= i32::MAX - distance,
            PlayerState::Walk(Direction::Right) => self.position.x <= i32::MAX - distance,
            PlayerState::Walk(Direction::Left) => self.position.x >= i32::MIN + distance,
            PlayerState::Stop(_) => true,
            PlayerState::ScaleUp => self.width <= u32::MAX - SCALE_RATE && self.height <= u32::MAX
                - SCALE_RATE,
            PlayerState::ScaleDown => self.width >= SCALE_RATE && self.height >= SCALE_RATE,
        };
        in_time && in_range
    }

    /// Tells whether `draw` may be called.
    pub fn can_draw(&self) -> (allowed: bool)
        ensures
            allowed == self@.can_draw(),
    {
        self.width <= u32::MAX / ZOOM && self.height <= u32::MAX / ZOOM
    }
}

impl Entity<PlayerState> for Player {
    open spec fn draw_requires(&self) -> bool {
        self@.can_draw()
    }

    open spec fn draw_ensures(&self, blit: Blit) -> bool {
        self@.shown_by(blit)
    }

    open spec fn update_requires(&self, ticks: u32, state: PlayerState) -> bool {
        self@.can_step(ticks as int, state)
    }

    open spec fn update_ensures(&self, ticks: u32, state: PlayerState, next: &Self) -> bool {
        next@ == self@.step(ticks as int, state)
    }

    fn draw(&self) -> (blit: Blit) {
        proof {
            use_type_invariant(self);
        }
        let column: i32 = self.state.facing().index() * FRAMES_PER_DIRECTION + self.sprite_state;
        Blit {
            source: Region {
                x: column * SPRITE_WIDTH as i32,
                y: 0,
                width: SPRITE_WIDTH,
                height: SPRITE_HEIGHT,
            },
            target: Region {
                x: self.position.x,
                y: self.position.y,
                width: ZOOM * self.width,
                height: ZOOM * self.height,
            },
        }
    }

    fn update(&mut self, ticks: u32, state: PlayerState) {
        proof {
            use_type_invariant(&*self);
        }
        self.state = state;
        let delay: u32 = ticks - self.sprite_frame_start;
        if delay >= FRAME_TIME {
            self.sprite_state = (self.sprite_state + 1) % FRAMES_PER_DIRECTION;
            self.sprite_frame_start = ticks;
        }
        match state {
            PlayerState::Walk(direction) => {
                let distance: i32 = VELOCITY * STEP_TIME;
                match direction {
                    Direction::Up => {
                        self.position.y = self.position.y - distance;
                    },
                    Direction::Down => {
                        self.position.y = self.position.y + distance;
                    },
                    Direction::Right => {
                        self.position.x = self.position.x + distance;
                    },
                    Direction::Left => {
                        self.position.x = self.position.x - distance;
                    },
                }
            },
            PlayerState::Stop(_) => {
                self.sprite_state = 0;
            },
            PlayerState::ScaleUp => {
                self.width = self.width + SCALE_RATE;
                self.height = self.height + SCALE_RATE;
            },
            PlayerState::ScaleDown => {
                self.width = self.width - SCALE_RATE;
                self.height = self.height - SCALE_RATE;
            },
        }
    }
}

} // verus!
