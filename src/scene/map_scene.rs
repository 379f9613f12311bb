use super::Scene;
use crate::engine::input::KeyState;
use crate::engine::{is_blit, DrawCommand, EngineError, Rect};
use crate::game::player::CYCLE_LENGTH;
use crate::game::{SPRITE_SHEET_NAME, TILE_HEIGHT, TILE_WIDTH};
use crate::object::player::Player;
use crate::sprite::player_sprite::{sheet_frame, PlayerSprite};
use crate::sprite::Sprite;
use vstd::prelude::*;

verus! {

/// The map screen: the player walking on the tile grid.
pub struct MapScene {
    pub player: Player,
}

impl Scene for MapScene {
    open spec fn ready(&self) -> bool {
        self.player.frame < CYCLE_LENGTH
    }

    open spec fn next(&self, keys: Set<Seq<char>>) -> Self {
        MapScene { player: self.player.ticked(keys) }
    }

    open spec fn shows(&self, r: Result<DrawCommand, EngineError>) -> bool {
        r matches Ok(c) && is_blit(
            c,
            SPRITE_SHEET_NAME@,
            sheet_frame(self.player.direction, self.player.frame),
            Rect { x: self.player.pixel_x, y: self.player.pixel_y, w: TILE_WIDTH, h: TILE_HEIGHT },
        )
    }

    fn update(&mut self, key_state: &KeyState) -> (r: Result<(), EngineError>) {
        self.player.update(key_state)?;
        Ok(())
    }

    fn draw(&self) -> (r: Result<DrawCommand, EngineError>) {
        let sprite = PlayerSprite::from(&self.player);
        Ok(
            DrawCommand::Image {
                image: sprite.source_image(),
                source: sprite.frame(),
                destination: sprite.destination(),
            },
        )
    }
}

} // verus!
