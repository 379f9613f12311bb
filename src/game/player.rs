use super::{TILE_HEIGHT, TILE_WIDTH};
use crate::engine::input::{
    KeyState, KEY_CODE_ARROW_DOWN, KEY_CODE_ARROW_LEFT, KEY_CODE_ARROW_RIGHT, KEY_CODE_ARROW_UP,
};
use crate::object::player::{key_code, turned, Direction};
use crate::engine::sprite_sheet::{rect_of, SpriteSheet, SpriteSheetStore};
use crate::engine::{is_blit, is_frame_not_found, is_sheet_not_found};
use crate::engine::{DrawCommand, EngineError, Point, Rect};
use std::marker::PhantomData;
use vstd::prelude::*;

verus! {

/// Pixels covered by one movement step.
pub const MOVE_SPEED: i16 = 4;

/// Length of the walking animation cycle, in ticks.
pub const CYCLE_LENGTH: u8 = 16;

/// `v` brought into the range of `i16` the way two's complement wraps it.
pub open spec fn wrap_i16(v: int) -> int {
    if v > i16::MAX {
        v - 0x10000
    } else if v < i16::MIN {
        v + 0x10000
    } else {
        v
    }
}

/// `p` moved by one step in direction `d`; coordinates wrap around the
/// range of `i16`, which keeps tile alignment since that range is a
/// multiple of the tile size.
pub open spec fn step_point(p: Point, d: Direction) -> Point {
    match d {
        Direction::Left => Point { x: wrap_i16(p.x - MOVE_SPEED) as i16, y: p.y },
        Direction::Up => Point { x: p.x, y: wrap_i16(p.y - MOVE_SPEED) as i16 },
        Direction::Right => Point { x: wrap_i16(p.x + MOVE_SPEED) as i16, y: p.y },
        Direction::Down => Point { x: p.x, y: wrap_i16(p.y + MOVE_SPEED) as i16 },
    }
}

/// Both coordinates of `p` lie on a tile boundary.
pub open spec fn aligned(p: Point) -> bool {
    p.x as int % TILE_WIDTH as int == 0 && p.y as int % TILE_HEIGHT as int == 0
}

/// The name's part for direction `d`.
pub open spec fn direction_token(d: Direction) -> Seq<char> {
    match d {
        Direction::Left => "left"@,
        Direction::Up => "up"@,
        Direction::Right => "right"@,
        Direction::Down => "down"@,
    }
}

/// The pose for a quarter of the walking cycle: the rest pose in quarters
/// 0 and 2, one alternate pose in quarter 1 and the other in quarter 3.
pub open spec fn pose_digit(quarter: int) -> Seq<char> {
    if quarter == 0 || quarter == 2 {
        "2"@
    } else if quarter == 1 {
        "3"@
    } else {
        "1"@
    }
}

/// The sprite-sheet frame that shows a player facing `d` at animation
/// counter `frame`, such as `down02.png`.
pub open spec fn frame_name_of(d: Direction, frame: u8) -> Seq<char> {
    direction_token(d) + "0"@ + pose_digit(frame as int / 4) + ".png"@
}

pub(crate) fn pose(quarter: u8) -> (r: &'static str)
    requires
        quarter < 4,
    ensures
        r@ == pose_digit(quarter as int),
{
    match quarter {
        0 | 2 => "2",
        1 => "3",
        _ => "1",
    }
}

/// `r` is what drawing a player in context `c` gives with the sheets
/// `sheets`: a copy of its frame to its position at the frame's size, or the
/// error for the sheet or frame that is missing.
pub open spec fn draws(
    c: PlayerStateContext,
    sheets: Map<Seq<char>, SpriteSheet>,
    r: Result<DrawCommand, EngineError>,
) -> bool {
    let name = frame_name_of(c.spec_direction(), c.spec_frame());
    let source = c.spec_sprite_source();
    let p = c.spec_position();
    if !sheets.contains_key(source) {
        r matches Err(e) && is_sheet_not_found(e, source)
    } else {
        match sheets[source].frame_of(name) {
            Some(cell) => r matches Ok(d) && is_blit(
                d,
                sheets[source].name@,
                rect_of(cell.frame),
                Rect { x: p.x, y: p.y, w: cell.frame.w, h: cell.frame.h },
            ),
            None => r matches Err(e) && is_frame_not_found(e, name),
        }
    }
}

/// What the player is: where it stands, where it faces, how far into the
/// walking animation it is, and which sprite sheet draws it.
pub struct PlayerStateContext {
    pub sprite_source: String,
    pub position: Point,
    pub direction: Direction,
    pub frame: u8,
}

impl PlayerStateContext {
    pub open spec fn spec_sprite_source(&self) -> Seq<char> {
        self.sprite_source@
    }

    pub open spec fn spec_position(&self) -> Point {
        self.position
    }

    pub open spec fn spec_direction(&self) -> Direction {
        self.direction
    }

    pub open spec fn spec_frame(&self) -> u8 {
        self.frame
    }

    /// The context after one tick in the stopped state.
    pub open spec fn stopped_tick(self, keys: Set<Seq<char>>) -> PlayerStateContext {
        let position = if keys.contains(key_code(self.direction)) {
            step_point(self.position, self.direction)
        } else {
            self.position
        };
        if !aligned(position) {
            PlayerStateContext { position, frame: 1, ..self }
        } else {
            PlayerStateContext { position, frame: 0, direction: turned(self.direction, keys), ..self }
        }
    }

    /// The context after one tick in the moving state.
    pub open spec fn moving_tick(self) -> PlayerStateContext {
        PlayerStateContext {
            position: step_point(self.position, self.direction),
            frame: ((self.frame + 1) % CYCLE_LENGTH as int) as u8,
            ..self
        }
    }

    /// A player at the origin, facing down, at the start of the animation,
    /// drawn from the sheet `sprite_source`.
    pub fn new(sprite_source: &str) -> (r: Self)
        ensures
            r.spec_sprite_source() == sprite_source@,
            r.spec_position() == (Point { x: 0, y: 0 }),
            r.spec_direction() == Direction::Down,
            r.spec_frame() == 0,
    {
        Self {
            sprite_source: sprite_source.to_owned(),
            frame: 0,
            position: Point { x: 0, y: 0 },
            direction: Direction::Down,
        }
    }

    pub fn sprite_source(&self) -> (r: &str)
        ensures
            r@ == self.spec_sprite_source(),
    {
        self.sprite_source.as_str()
    }

    pub fn position(&self) -> (r: Point)
        ensures
            r == self.spec_position(),
    {
        self.position
    }

    pub fn direction(&self) -> (r: Direction)
        ensures
            r == self.spec_direction(),
    {
        self.direction
    }

    pub fn frame(&self) -> (r: u8)
        ensures
            r == self.spec_frame(),
    {
        self.frame
    }

    /// The name of the sprite-sheet frame that shows this context.
    pub fn frame_name(&self) -> (r: String)
        requires
            self.spec_frame() < CYCLE_LENGTH,
        ensures
            r@ == frame_name_of(self.spec_direction(), self.spec_frame()),
    {
        let token = match self.direction {
            Direction::Left => "left",
            Direction::Up => "up",
            Direction::Down => "down",
            Direction::Right => "right",
        };
        let mut name = token.to_owned();
        name.append("0");
        name.append(pose(self.frame / 4));
        name.append(".png");
        name
    }

    fn move_(&mut self)
        ensures
            *final(self) == (PlayerStateContext {
                position: step_point(old(self).position, old(self).direction),
                ..*old(self)
            }),
    {
        match self.direction {
            Direction::Left => self.position.x = self.position.x.wrapping_sub(MOVE_SPEED),
            Direction::Up => self.position.y = self.position.y.wrapping_sub(MOVE_SPEED),
            Direction::Down => self.position.y = self.position.y.wrapping_add(MOVE_SPEED),
            Direction::Right => self.position.x = self.position.x.wrapping_add(MOVE_SPEED),
        }
    }

    fn change_direction(&mut self, direction: Direction)
        ensures
            *final(self) == (PlayerStateContext { direction, ..*old(self) }),
    {
        self.direction = direction;
    }

    fn fit(&self) -> (r: bool)
        ensures
            r == aligned(self.position),
    {
        self.position.x % TILE_WIDTH == 0 && self.position.y % TILE_HEIGHT == 0
    }

    fn reset_frame(&mut self)
        ensures
            *final(self) == (PlayerStateContext { frame: 0, ..*old(self) }),
    {
        self.frame = 0;
    }

    fn increment_frame(&mut self)
        requires
            old(self).frame < CYCLE_LENGTH,
        ensures
            *final(self) == (PlayerStateContext {
                frame: ((old(self).frame + 1) % CYCLE_LENGTH as int) as u8,
                ..*old(self)
            }),
    {
        self.frame = (self.frame + 1) % CYCLE_LENGTH;
    }
}

/// Tag of a player standing on a tile.
pub struct Stopped;

/// Tag of a player walking between tiles.
pub struct Moving;

/// A context tagged, by its type, with the state the player is in.
pub struct PlayerState<S> {
    pub context: PlayerStateContext,
    pub state: PhantomData<S>,
}

impl<S> PlayerState<S> {
    pub open spec fn spec_context(&self) -> PlayerStateContext {
        self.context
    }

    pub fn context(&self) -> (r: &PlayerStateContext)
        ensures
            *r == self.spec_context(),
    {
        &self.context
    }

    fn draw(&self, sprite_sheet_store: &SpriteSheetStore) -> (r: Result<DrawCommand, EngineError>)
        requires
            self.context.frame < CYCLE_LENGTH,
        ensures
            draws(self.context, sprite_sheet_store@, r),
    {
        let frame_name = self.context.frame_name();
        let sprite_sheet = sprite_sheet_store.get(self.context.sprite_source.as_str())?;
        sprite_sheet.draw_sprite(frame_name.as_str(), &self.context.position)
    }
}

enum PlayerStoppedEndState {
    Continue(PlayerState<Stopped>),
    Complete(PlayerState<Moving>),
}

enum PlayerMovingEndState {
    Continue(PlayerState<Moving>),
    Complete(PlayerState<Stopped>),
}

impl PlayerState<Stopped> {
    fn new(context: PlayerStateContext) -> (r: Self)
        ensures
            r.context == context,
    {
        Self { context, state: PhantomData::<Stopped> }
    }

    fn update(self, key_state: &KeyState) -> (r: PlayerStoppedEndState)
        requires
            aligned(self.context.position),
        ensures
            ({
                let c = self.context.stopped_tick(key_state@);
                match r {
                    PlayerStoppedEndState::Continue(s) => aligned(c.position) && s.context == c,
                    PlayerStoppedEndState::Complete(s) => !aligned(c.position) && s.context == c,
                }
            }),
    {
        let mut s = self;
        s.context.reset_frame();
        match s.context.direction {
            Direction::Left => {
                if key_state.is_pressed(KEY_CODE_ARROW_LEFT) {
                    s.context.move_();
                }
            },
            Direction::Up => {
                if key_state.is_pressed(KEY_CODE_ARROW_UP) {
                    s.context.move_();
                }
            },
            Direction::Right => {
                if key_state.is_pressed(KEY_CODE_ARROW_RIGHT) {
                    s.context.move_();
                }
            },
            Direction::Down => {
                if key_state.is_pressed(KEY_CODE_ARROW_DOWN) {
                    s.context.move_();
                }
            },
        }
        if !s.context.fit() {
            s.context.increment_frame();
            return PlayerStoppedEndState::Complete(
                PlayerState::<Moving> { context: s.context, state: PhantomData::<Moving> },
            );
        }
        if key_state.is_pressed(KEY_CODE_ARROW_LEFT) {
            s.context.change_direction(Direction::Left);
        } else if key_state.is_pressed(KEY_CODE_ARROW_UP) {
            s.context.change_direction(Direction::Up);
        } else if key_state.is_pressed(KEY_CODE_ARROW_RIGHT) {
            s.context.change_direction(Direction::Right);
        } else if key_state.is_pressed(KEY_CODE_ARROW_DOWN) {
            s.context.change_direction(Direction::Down);
        }
        PlayerStoppedEndState::Continue(s)
    }
}

impl PlayerState<Moving> {
    fn update(self) -> (r: PlayerMovingEndState)
        requires
            self.context.frame < CYCLE_LENGTH,
        ensures
            ({
                let c = self.context.moving_tick();
                match r {
                    PlayerMovingEndState::Continue(s) => !aligned(c.position) && s.context == c,
                    PlayerMovingEndState::Complete(s) => aligned(c.position) && s.context == c,
                }
            }),
    {
        let mut s = self;
        s.context.increment_frame();
        s.context.move_();
        if s.context.fit() {
            return PlayerMovingEndState::Complete(
                PlayerState::<Stopped> { context: s.context, state: PhantomData::<Stopped> },
            );
        }
        PlayerMovingEndState::Continue(s)
    }
}

/// The player's movement state machine.
pub enum PlayerStateMachine {
    Stopped(PlayerState<Stopped>),
    Moving(PlayerState<Moving>),
}

impl PlayerStateMachine {
    pub open spec fn spec_context(&self) -> PlayerStateContext {
        match self {
            PlayerStateMachine::Stopped(s) => s.context,
            PlayerStateMachine::Moving(s) => s.context,
        }
    }

    /// The state holds together: the animation counter is below the cycle
    /// length, a stopped player stands on a tile boundary and a moving one
    /// does not.
    pub open spec fn wf(&self) -> bool {
        &&& self.spec_context().frame < CYCLE_LENGTH
        &&& match self {
            PlayerStateMachine::Stopped(s) => aligned(s.context.position),
            PlayerStateMachine::Moving(s) => !aligned(s.context.position),
        }
    }

    /// The state after one tick with `keys` held.
    pub open spec fn next(self, keys: Set<Seq<char>>) -> PlayerStateMachine {
        match self {
            PlayerStateMachine::Stopped(s) => {
                let c = s.context.stopped_tick(keys);
                if aligned(c.position) {
                    PlayerStateMachine::Stopped(PlayerState { context: c, state: PhantomData })
                } else {
                    PlayerStateMachine::Moving(PlayerState { context: c, state: PhantomData })
                }
            },
            PlayerStateMachine::Moving(s) => {
                let c = s.context.moving_tick();
                if aligned(c.position) {
                    PlayerStateMachine::Stopped(PlayerState { context: c, state: PhantomData })
                } else {
                    PlayerStateMachine::Moving(PlayerState { context: c, state: PhantomData })
                }
            },
        }
    }

    /// Starts stopped, with `context` as given.
    pub fn new(context: PlayerStateContext) -> (r: Self)
        requires
            aligned(context.spec_position()),
            context.spec_frame() < CYCLE_LENGTH,
        ensures
            r is Stopped,
            r.spec_context() == context,
            r.wf(),
    {
        PlayerStateMachine::Stopped(PlayerState::<Stopped>::new(context))
    }

    /// Advances the machine by one tick with the keys of `key_state` held.
    pub fn update(self, key_state: &KeyState) -> (r: Self)
        requires
            self.wf(),
        ensures
            r == self.next(key_state@),
            r.wf(),
    {
        match self {
            PlayerStateMachine::Stopped(state) => match state.update(key_state) {
                PlayerStoppedEndState::Complete(s) => PlayerStateMachine::Moving(s),
                PlayerStoppedEndState::Continue(s) => PlayerStateMachine::Stopped(s),
            },
            PlayerStateMachine::Moving(state) => match state.update() {
                PlayerMovingEndState::Complete(s) => PlayerStateMachine::Stopped(s),
                PlayerMovingEndState::Continue(s) => PlayerStateMachine::Moving(s),
            },
        }
    }

    /// The drawing of the current state: the player's frame copied to its
    /// position. Reads the state and leaves it as it was.
    pub fn draw(&self, sprite_sheet_store: &SpriteSheetStore) -> (r: Result<DrawCommand, EngineError>)
        requires
            self.wf(),
        ensures
            draws(self.spec_context(), sprite_sheet_store@, r),
    {
        match self {
            PlayerStateMachine::Stopped(state) => state.draw(sprite_sheet_store),
            PlayerStateMachine::Moving(state) => state.draw(sprite_sheet_store),
        }
    }

    pub fn is_moving(&self) -> (r: bool)
        ensures
            r == self is Moving,
    {
        match self {
            PlayerStateMachine::Stopped(_) => false,
            PlayerStateMachine::Moving(_) => true,
        }
    }

    pub fn context(&self) -> (r: &PlayerStateContext)
        ensures
            *r == self.spec_context(),
    {
        match self {
            PlayerStateMachine::Stopped(s) => &s.context,
            PlayerStateMachine::Moving(s) => &s.context,
        }
    }
}

/// The state after one tick for each key set of `inputs`, in order.
pub open spec fn run(m: PlayerStateMachine, inputs: Seq<Set<Seq<char>>>) -> PlayerStateMachine
    decreases inputs.len(),
{
    if inputs.len() == 0 {
        m
    } else {
        run(m, inputs.drop_last()).next(inputs.last())
    }
}

proof fn lemma_run_wf(m: PlayerStateMachine, inputs: Seq<Set<Seq<char>>>)
    requires
        m.wf(),
    ensures
        run(m, inputs).wf(),
    decreases inputs.len(),
{
    if inputs.len() > 0 {
        lemma_run_wf(m, inputs.drop_last());
    }
}

/// Grid invariant: from a well-formed state (such as every state that
/// `PlayerStateMachine::new` gives), whatever keys are held on each tick, a
/// stopped player stands on a tile boundary and a moving one has at least
/// one coordinate off it.
pub proof fn lemma_grid_invariant(m: PlayerStateMachine, inputs: Seq<Set<Seq<char>>>)
    requires
        m.wf(),
    ensures
        run(m, inputs) is Stopped ==> aligned(run(m, inputs).spec_context().spec_position()),
        run(m, inputs) is Moving ==> !aligned(run(m, inputs).spec_context().spec_position()),
{
    lemma_run_wf(m, inputs);
}

/// Animation bound: from a well-formed state, whatever keys are held on
/// each tick, the animation counter stays below the cycle length.
pub proof fn lemma_animation_bound(m: PlayerStateMachine, inputs: Seq<Set<Seq<char>>>)
    requires
        m.wf(),
    ensures
        run(m, inputs).spec_context().spec_frame() < CYCLE_LENGTH,
{
    lemma_run_wf(m, inputs);
}

/// Step determinism: equal states with the same keys held step to equal
/// states.
pub proof fn lemma_update_deterministic(
    m1: PlayerStateMachine,
    m2: PlayerStateMachine,
    keys1: Set<Seq<char>>,
    keys2: Set<Seq<char>>,
)
    requires
        m1 == m2,
        keys1 == keys2,
    ensures
        m1.next(keys1) == m2.next(keys2),
{
}

} // verus!
