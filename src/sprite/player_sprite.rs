use super::Sprite;
use crate::engine::Rect;
use crate::game::{SPRITE_SHEET_NAME, TILE_HEIGHT, TILE_WIDTH};
use crate::object::player::{Direction, Player};
use vstd::prelude::*;

verus! {

/// The row of the sheet that holds the poses for direction `d`.
pub open spec fn sheet_row(d: Direction) -> int {
    match d {
        Direction::Down => 0,
        Direction::Left => 1,
        Direction::Right => 2,
        Direction::Up => 3,
    }
}

/// The column of the sheet that holds the pose for animation counter
/// `frame`: the middle one but in the second and fourth quarters of the
/// cycle, which take the columns left and right of it.
pub open spec fn sheet_column(frame: u8) -> int {
    if frame / 4 == 1 {
        0
    } else if frame / 4 == 3 {
        2
    } else {
        1
    }
}

/// The tile of the sheet that shows a player facing `d` at animation
/// counter `frame`.
pub open spec fn sheet_frame(d: Direction, frame: u8) -> Rect {
    Rect {
        x: (sheet_column(frame) * TILE_WIDTH) as i16,
        y: (sheet_row(d) * TILE_HEIGHT) as i16,
        w: TILE_WIDTH,
        h: TILE_HEIGHT,
    }
}

/// How a map player is drawn: a tile of the player sheet at its pixel
/// position.
pub struct PlayerSprite {
    source_image: String,
    frame: Rect,
    destination: Rect,
}

impl PlayerSprite {
    pub closed spec fn spec_source_image(&self) -> Seq<char> {
        self.source_image@
    }

    pub closed spec fn spec_frame(&self) -> Rect {
        self.frame
    }

    pub closed spec fn spec_destination(&self) -> Rect {
        self.destination
    }

    /// The sprite of `from`: the tile for its direction and animation
    /// counter, drawn at its pixel position at tile size.
    pub fn from(from: &Player) -> (r: PlayerSprite)
        ensures
            r.spec_source_image() == SPRITE_SHEET_NAME@,
            r.spec_frame() == sheet_frame(from.direction, from.frame),
            r.spec_destination() == (Rect {
                x: from.pixel_x,
                y: from.pixel_y,
                w: TILE_WIDTH,
                h: TILE_HEIGHT,
            }),
    {
        let mut frame = match from.direction {
            Direction::Left => Rect { x: TILE_WIDTH, y: TILE_HEIGHT, w: TILE_WIDTH, h: TILE_HEIGHT },
            Direction::Up => Rect {
                x: TILE_WIDTH,
                y: 3 * TILE_HEIGHT,
                w: TILE_WIDTH,
                h: TILE_HEIGHT,
            },
            Direction::Right => Rect {
                x: TILE_WIDTH,
                y: 2 * TILE_HEIGHT,
                w: TILE_WIDTH,
                h: TILE_HEIGHT,
            },
            Direction::Down => Rect { x: TILE_WIDTH, y: 0, w: TILE_WIDTH, h: TILE_HEIGHT },
        };
        match from.frame / 4 {
            1 => frame.x = frame.x - TILE_WIDTH,
            3 => frame.x = frame.x + TILE_WIDTH,
            _ => {},
        }
        PlayerSprite {
            source_image: SPRITE_SHEET_NAME.to_owned(),
            frame,
            destination: Rect { x: from.pixel_x, y: from.pixel_y, w: TILE_WIDTH, h: TILE_HEIGHT },
        }
    }
}

impl Sprite for PlayerSprite {
    fn source_image(&self) -> (r: String)
        ensures
            r@ == self.spec_source_image(),
    {
        self.source_image.clone()
    }

    fn frame(&self) -> (r: Rect)
        ensures
            r == self.spec_frame(),
    {
        self.frame
    }

    fn destination(&self) -> (r: Rect)
        ensures
            r == self.spec_destination(),
    {
        self.destination
    }
}

} // verus!
