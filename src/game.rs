pub mod actor;
pub mod player;

use self::player::{draws, PlayerStateContext, PlayerStateMachine};
use crate::object::player::Direction;
use crate::engine::input::KeyState;
use crate::engine::sprite_sheet::{SpriteSheet, SpriteSheetStore};
use crate::engine::{is_clear, DrawCommand, EngineError, Game, Point, Rect};
use vstd::prelude::*;

verus! {

pub const CANVAS_WIDTH: i16 = 480;

pub const CANVAS_HEIGHT: i16 = 480;

pub const TILE_WIDTH: i16 = 32;

pub const TILE_HEIGHT: i16 = 32;

/// The sheet that the player is drawn from.
pub const SPRITE_SHEET_NAME: &'static str = "Sprite-0001";

/// The whole drawing surface.
pub open spec fn canvas_rect() -> Rect {
    Rect { x: 0, y: 0, w: CANVAS_WIDTH, h: CANVAS_HEIGHT }
}

/// The player, once the game has given it a state machine.
pub struct Player {
    pub state_machine: Option<PlayerStateMachine>,
}

impl Player {
    /// A player that has no state yet.
    pub fn new() -> (r: Self)
        ensures
            r.state_machine is None,
    {
        Self { state_machine: None }
    }
}

/// The game: one player walking on the tile grid, drawn from a store of
/// sprite sheets.
pub struct RQ {
    pub sprite_sheet_store: SpriteSheetStore,
    pub player: Player,
}

/// A store that holds `sprite_sheet` alone.
pub fn load_sprite_sheet_store(sprite_sheet: SpriteSheet) -> (r: Result<SpriteSheetStore, EngineError>)
    ensures
        r matches Ok(store) && store@ == Map::<Seq<char>, SpriteSheet>::empty().insert(
            sprite_sheet.name@,
            sprite_sheet,
        ),
{
    let mut sprite_sheet_store = SpriteSheetStore::new();
    sprite_sheet_store.add(sprite_sheet)?;
    Ok(sprite_sheet_store)
}

impl RQ {
    /// A game with no sheets and no player state yet.
    pub fn new() -> (r: Self)
        ensures
            r.sprite_sheet_store@ == Map::<Seq<char>, SpriteSheet>::empty(),
            r.player.state_machine is None,
    {
        Self { sprite_sheet_store: SpriteSheetStore::new(), player: Player::new() }
    }

    /// The game ready to start: a player stopped at the origin, facing
    /// down, drawn from the sheet `Sprite-0001` of `sprite_sheet_store`.
    pub fn initialize(sprite_sheet_store: SpriteSheetStore) -> (r: Self)
        ensures
            r.sprite_sheet_store == sprite_sheet_store,
            r.player.state_machine matches Some(m) && m is Stopped && ({
                let c = m.spec_context();
                &&& c.spec_sprite_source() == SPRITE_SHEET_NAME@
                &&& c.spec_position() == (Point { x: 0, y: 0 })
                &&& c.spec_direction() == Direction::Down
                &&& c.spec_frame() == 0
            }),
            r.ready(),
    {
        let player_state_context = PlayerStateContext::new(SPRITE_SHEET_NAME);
        Self {
            sprite_sheet_store,
            player: Player { state_machine: Some(PlayerStateMachine::new(player_state_context)) },
        }
    }
}

impl Game for RQ {
    open spec fn ready(&self) -> bool {
        self.player.state_machine matches Some(m) ==> m.wf()
    }

    open spec fn next(&self, keys: Set<Seq<char>>) -> Self {
        RQ {
            player: Player {
                state_machine: match self.player.state_machine {
                    Some(m) => Some(m.next(keys)),
                    None => None,
                },
            },
            ..*self
        }
    }

    open spec fn shows(&self, r: Result<Vec<DrawCommand>, EngineError>) -> bool {
        match self.player.state_machine {
            None => r matches Ok(v) && v@.len() == 1 && is_clear(v@[0], canvas_rect()),
            Some(m) => match r {
                Ok(v) => v@.len() == 2 && is_clear(v@[0], canvas_rect()) && draws(
                    m.spec_context(),
                    self.sprite_sheet_store@,
                    Ok(v@[1]),
                ),
                Err(e) => draws(m.spec_context(), self.sprite_sheet_store@, Err(e)),
            },
        }
    }

    fn update(&mut self, key_state: &KeyState) -> (r: Result<(), EngineError>) {
        let taken = self.player.state_machine.take();
        if let Some(state_machine) = taken {
            self.player.state_machine = Some(state_machine.update(key_state));
        }
        Ok(())
    }

    fn draw(&self) -> (r: Result<Vec<DrawCommand>, EngineError>) {
        let mut commands: Vec<DrawCommand> = Vec::new();
        commands.push(DrawCommand::Clear(Rect { x: 0, y: 0, w: CANVAS_WIDTH, h: CANVAS_HEIGHT }));
        if let Some(state_machine) = &self.player.state_machine {
            let sprite = state_machine.draw(&self.sprite_sheet_store)?;
            commands.push(sprite);
        }
        Ok(commands)
    }
}

} // verus!
