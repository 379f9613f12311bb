use crate::engine::input::{
    KeyState, KEY_CODE_ARROW_DOWN, KEY_CODE_ARROW_LEFT, KEY_CODE_ARROW_RIGHT, KEY_CODE_ARROW_UP,
};
use crate::engine::EngineError;
use crate::game::player::{wrap_i16, CYCLE_LENGTH};
use crate::game::{TILE_HEIGHT, TILE_WIDTH};
use vstd::prelude::*;

verus! {

/// The way the player faces.
#[derive(Clone, Copy, Debug, PartialEq, Eq, Structural)]
pub enum Direction {
    Left,
    Up,
    Right,
    Down,
}

/// The input code that walks in direction `d`.
pub open spec fn key_code(d: Direction) -> Seq<char> {
    match d {
        Direction::Left => KEY_CODE_ARROW_LEFT@,
        Direction::Up => KEY_CODE_ARROW_UP@,
        Direction::Right => KEY_CODE_ARROW_RIGHT@,
        Direction::Down => KEY_CODE_ARROW_DOWN@,
    }
}

/// The direction a stopped player turns to: the first of Left, Up, Right,
/// Down that is held, or `d` when none is.
pub open spec fn turned(d: Direction, keys: Set<Seq<char>>) -> Direction {
    if keys.contains(KEY_CODE_ARROW_LEFT@) {
        Direction::Left
    } else if keys.contains(KEY_CODE_ARROW_UP@) {
        Direction::Up
    } else if keys.contains(KEY_CODE_ARROW_RIGHT@) {
        Direction::Right
    } else if keys.contains(KEY_CODE_ARROW_DOWN@) {
        Direction::Down
    } else {
        d
    }
}

/// A player on a map: its tile, the tile it is headed for, and the pixel
/// position it is drawn at, which moves by `move_speed` each tick.
#[derive(Clone, Debug, PartialEq, Eq)]
pub struct Player {
    pub frame: u8,
    pub direction: Direction,
    pub x: i16,
    pub y: i16,
    pub map_id: usize,
    pub next_x: Option<i16>,
    pub next_y: Option<i16>,
    pub next_map_id: Option<usize>,
    pub pixel_x: i16,
    pub pixel_y: i16,
    pub move_speed: i16,
}

impl Player {
    /// At least one pixel coordinate is off a tile boundary.
    pub open spec fn off_grid(&self) -> bool {
        self.pixel_x as int % TILE_WIDTH as int != 0 || self.pixel_y as int % TILE_HEIGHT as int != 0
    }

    /// The player moved by `move_speed` pixels the way it faces, wrapping
    /// around the range of `i16`.
    pub open spec fn stepped(self) -> Player {
        match self.direction {
            Direction::Left => Player { pixel_x: wrap_i16(self.pixel_x - self.move_speed) as i16, ..self },
            Direction::Up => Player { pixel_y: wrap_i16(self.pixel_y - self.move_speed) as i16, ..self },
            Direction::Right => Player { pixel_x: wrap_i16(self.pixel_x + self.move_speed) as i16, ..self },
            Direction::Down => Player { pixel_y: wrap_i16(self.pixel_y + self.move_speed) as i16, ..self },
        }
    }

    /// The player after one tick with `keys` held. Off the grid it advances
    /// the animation and keeps walking; on the grid it walks on when the key
    /// of its direction is held, and otherwise turns to a held direction.
    pub open spec fn ticked(self, keys: Set<Seq<char>>) -> Player {
        if self.off_grid() {
            Player { frame: ((self.frame + 1) % CYCLE_LENGTH as int) as u8, ..self }.stepped()
        } else {
            let rested = Player { frame: 0, ..self };
            let walked = if keys.contains(key_code(self.direction)) {
                rested.stepped()
            } else {
                rested
            };
            if walked.off_grid() {
                Player { frame: 1, ..walked }
            } else {
                Player { direction: turned(self.direction, keys), ..walked }
            }
        }
    }

    /// A player on tile (`x`, `y`) of map `map_id`, facing down, drawn at
    /// the pixel origin, with no move speed yet.
    pub open spec fn spec_new(x: i16, y: i16, map_id: usize) -> Player {
        Player {
            frame: 0,
            direction: Direction::Down,
            x,
            y,
            map_id,
            next_x: None,
            next_y: None,
            next_map_id: None,
            pixel_x: 0,
            pixel_y: 0,
            move_speed: 0,
        }
    }

    /// A player on tile (`x`, `y`) of map `map_id`, facing down, drawn at
    /// the pixel origin, that moves `move_speed` pixels a tick.
    pub fn new(x: i16, y: i16, map_id: usize, move_speed: i16) -> (r: Self)
        ensures
            r == (Player { move_speed, ..Player::spec_new(x, y, map_id) }),
    {
        Self {
            frame: 0,
            direction: Direction::Down,
            x,
            y,
            map_id,
            next_x: None,
            next_y: None,
            next_map_id: None,
            pixel_x: 0,
            pixel_y: 0,
            move_speed,
        }
    }

    fn step(&mut self)
        ensures
            *final(self) == old(self).stepped(),
    {
        match self.direction {
            Direction::Left => {
                self.pixel_x = self.pixel_x.wrapping_sub(self.move_speed);
            },
            Direction::Up => {
                self.pixel_y = self.pixel_y.wrapping_sub(self.move_speed);
            },
            Direction::Right => {
                self.pixel_x = self.pixel_x.wrapping_add(self.move_speed);
            },
            Direction::Down => {
                self.pixel_y = self.pixel_y.wrapping_add(self.move_speed);
            },
        }
    }

    /// Advances the player by one tick with the keys of `key_state` held.
    pub fn update(&mut self, key_state: &KeyState) -> (r: Result<(), EngineError>)
        requires
            old(self).frame < CYCLE_LENGTH,
        ensures
            r is Ok,
            *final(self) == old(self).ticked(key_state@),
            final(self).frame < CYCLE_LENGTH,
    {
        if self.is_moving() {
            self.increment_frame();
            self.step();
            return Ok(());
        }
        self.reset_frame();
        let held = match self.direction {
            Direction::Left => key_state.is_pressed(KEY_CODE_ARROW_LEFT),
            Direction::Up => key_state.is_pressed(KEY_CODE_ARROW_UP),
            Direction::Right => key_state.is_pressed(KEY_CODE_ARROW_RIGHT),
            Direction::Down => key_state.is_pressed(KEY_CODE_ARROW_DOWN),
        };
        if held {
            self.step();
        }
        if self.is_moving() {
            self.increment_frame();
            return Ok(());
        }
        if key_state.is_pressed(KEY_CODE_ARROW_LEFT) {
            self.direction = Direction::Left;
        } else if key_state.is_pressed(KEY_CODE_ARROW_UP) {
            self.direction = Direction::Up;
        } else if key_state.is_pressed(KEY_CODE_ARROW_RIGHT) {
            self.direction = Direction::Right;
        } else if key_state.is_pressed(KEY_CODE_ARROW_DOWN) {
            self.direction = Direction::Down;
        }
        Ok(())
    }

    fn reset_frame(&mut self)
        ensures
            *final(self) == (Player { frame: 0, ..*old(self) }),
    {
        self.frame = 0;
    }

    fn increment_frame(&mut self)
        requires
            old(self).frame < CYCLE_LENGTH,
        ensures
            *final(self) == (Player {
                frame: ((old(self).frame + 1) % CYCLE_LENGTH as int) as u8,
                ..*old(self)
            }),
    {
        self.frame = (self.frame + 1) % CYCLE_LENGTH;
    }

    fn is_moving(&self) -> (r: bool)
        ensures
            r == self.off_grid(),
    {
        self.pixel_x % TILE_WIDTH != 0 || self.pixel_y % TILE_HEIGHT != 0
    }
}

} // verus!
