pub mod map_scene;

use self::map_scene::MapScene;
use crate::engine::input::KeyState;
use crate::engine::{is_clear, DrawCommand, EngineError, Game, Rect};
use crate::game::{canvas_rect, CANVAS_HEIGHT, CANVAS_WIDTH};
use crate::object::player::Player;
use vstd::prelude::*;

verus! {

/// One screen of the game, stepped each tick and drawn on each refresh.
pub trait Scene: Sized {
    /// The scene's own invariant, which its steps keep.
    spec fn ready(&self) -> bool;

    /// The scene after one tick with the input codes `keys` held.
    spec fn next(&self, keys: Set<Seq<char>>) -> Self;

    /// `r` is what drawing this scene gives, on top of a cleared surface.
    spec fn shows(&self, r: Result<DrawCommand, EngineError>) -> bool;

    fn update(&mut self, key_state: &KeyState) -> (r: Result<(), EngineError>)
        requires
            old(self).ready(),
        ensures
            r is Ok,
            *final(self) == old(self).next(key_state@),
            final(self).ready();

    fn draw(&self) -> (r: Result<DrawCommand, EngineError>)
        requires
            self.ready(),
        ensures
            self.shows(r);
}

/// The scenes there are.
pub enum SceneEnum {
    MapScene(MapScene),
}

/// Runs the current scene.
pub struct SceneManager {
    pub current_scene: SceneEnum,
}

impl SceneManager {
    /// Starts on the map, with a player on tile (0, 0) of map 0 that moves
    /// four pixels a tick.
    pub fn new() -> (r: Self)
        ensures
            r.current_scene matches SceneEnum::MapScene(s) && s.player == (Player {
                move_speed: 4,
                ..Player::spec_new(0, 0, 0)
            }),
            r.ready(),
    {
        Self { current_scene: SceneEnum::MapScene(MapScene { player: Player::new(0, 0, 0, 4) }) }
    }
}

impl Game for SceneManager {
    open spec fn ready(&self) -> bool {
        match self.current_scene {
            SceneEnum::MapScene(s) => s.ready(),
        }
    }

    open spec fn next(&self, keys: Set<Seq<char>>) -> Self {
        match self.current_scene {
            SceneEnum::MapScene(s) => SceneManager { current_scene: SceneEnum::MapScene(s.next(keys)) },
        }
    }

    open spec fn shows(&self, r: Result<Vec<DrawCommand>, EngineError>) -> bool {
        match self.current_scene {
            SceneEnum::MapScene(s) => match r {
                Ok(v) => v@.len() == 2 && is_clear(v@[0], canvas_rect()) && s.shows(Ok(v@[1])),
                Err(e) => s.shows(Err(e)),
            },
        }
    }

    fn update(&mut self, key_state: &KeyState) -> (r: Result<(), EngineError>) {
        match &mut self.current_scene {
            SceneEnum::MapScene(scene) => scene.update(key_state),
        }
    }

    fn draw(&self) -> (r: Result<Vec<DrawCommand>, EngineError>) {
        let mut commands: Vec<DrawCommand> = Vec::new();
        commands.push(DrawCommand::Clear(Rect { x: 0, y: 0, w: CANVAS_WIDTH, h: CANVAS_HEIGHT }));
        let sprite = match &self.current_scene {
            SceneEnum::MapScene(scene) => scene.draw()?,
        };
        commands.push(sprite);
        Ok(commands)
    }
}

} // verus!
