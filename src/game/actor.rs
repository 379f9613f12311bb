use super::player::{aligned, frame_name_of, pose, step_point, CYCLE_LENGTH, MOVE_SPEED};
use super::{TILE_HEIGHT, TILE_WIDTH};
use crate::engine::input::{
    KeyState, KEY_CODE_ARROW_DOWN, KEY_CODE_ARROW_LEFT, KEY_CODE_ARROW_RIGHT, KEY_CODE_ARROW_UP,
};
use crate::engine::sprite_sheet::{rect_of, SpriteSheet};
use crate::engine::{is_blit, is_frame_not_found};
use crate::engine::{DrawCommand, EngineError, Point, Rect};
use crate::object::player::{key_code, turned, Direction};
use std::marker::PhantomData;
use vstd::prelude::*;

verus! {

/// `r` is what drawing an actor in context `c` gives: a copy of its frame
/// to its position at the frame's size, or the error for the missing frame.
pub open spec fn draws(c: ActorStateContext, r: Result<DrawCommand, EngineError>) -> bool {
    let name = frame_name_of(c.spec_direction(), c.spec_frame());
    let sheet = c.spec_sprite_sheet();
    let p = c.spec_position();
    match sheet.frame_of(name) {
        Some(cell) => r matches Ok(d) && is_blit(
            d,
            sheet.name@,
            rect_of(cell.frame),
            Rect { x: p.x, y: p.y, w: cell.frame.w, h: cell.frame.h },
        ),
        None => r matches Err(e) && is_frame_not_found(e, name),
    }
}

/// What the actor is: where it stands, where it faces, how far into the
/// walking animation it is, and the sprite sheet that draws it.
pub struct ActorStateContext {
    pub sprite_sheet: SpriteSheet,
    pub position: Point,
    pub direction: Direction,
    pub frame: u8,
}

impl ActorStateContext {
    pub open spec fn spec_sprite_sheet(&self) -> SpriteSheet {
        self.sprite_sheet
    }

    pub open spec fn spec_position(&self) -> Point {
        self.position
    }

    pub open spec fn spec_direction(&self) -> Direction {
        self.direction
    }

    pub open spec fn spec_frame(&self) -> u8 {
        self.frame
    }

    /// The context after one tick in the idle state.
    pub open spec fn idle_tick(self, keys: Set<Seq<char>>) -> ActorStateContext {
        let position = if keys.contains(key_code(self.direction)) {
            step_point(self.position, self.direction)
        } else {
            self.position
        };
        if !aligned(position) {
            ActorStateContext { position, frame: 1, ..self }
        } else {
            ActorStateContext { position, frame: 0, direction: turned(self.direction, keys), ..self }
        }
    }

    /// The context after one tick in the moving state.
    pub open spec fn moving_tick(self) -> ActorStateContext {
        ActorStateContext {
            position: step_point(self.position, self.direction),
            frame: ((self.frame + 1) % CYCLE_LENGTH as int) as u8,
            ..self
        }
    }

    /// An actor at the origin, facing down, at the start of the animation,
    /// drawn from `sprite_sheet`.
    pub fn new(sprite_sheet: SpriteSheet) -> (r: Self)
        ensures
            r.spec_sprite_sheet() == sprite_sheet,
            r.spec_position() == (Point { x: 0, y: 0 }),
            r.spec_direction() == Direction::Down,
            r.spec_frame() == 0,
    {
        Self { sprite_sheet, frame: 0, position: Point { x: 0, y: 0 }, direction: Direction::Down }
    }

    /// Copies the frame for the current pose to the actor's position.
    fn draw(&self) -> (r: Result<DrawCommand, EngineError>)
        requires
            self.frame < CYCLE_LENGTH,
        ensures
            draws(*self, r),
    {
        let frame_name = self.frame_name();
        self.sprite_sheet.draw_sprite(frame_name.as_str(), &self.position)
    }

    pub fn position(&self) -> (r: Point)
        ensures
            r == self.spec_position(),
    {
        self.position
    }

    pub fn direction(&self) -> (r: Direction)
        ensures
            r == self.spec_direction(),
    {
        self.direction
    }

    pub fn frame(&self) -> (r: u8)
        ensures
            r == self.spec_frame(),
    {
        self.frame
    }

    /// The name of the sprite-sheet frame that shows this context.
    pub fn frame_name(&self) -> (r: String)
        requires
            self.spec_frame() < CYCLE_LENGTH,
        ensures
            r@ == frame_name_of(self.spec_direction(), self.spec_frame()),
    {
        let token = match self.direction {
            Direction::Left => "left",
            Direction::Up => "up",
            Direction::Down => "down",
            Direction::Right => "right",
        };
        let mut name = token.to_owned();
        name.append("0");
        name.append(pose(self.frame / 4));
        name.append(".png");
        name
    }

    fn move_(&mut self)
        ensures
            *final(self) == (ActorStateContext {
                position: step_point(old(self).position, old(self).direction),
                ..*old(self)
            }),
    {
        match self.direction {
            Direction::Left => self.position.x = self.position.x.wrapping_sub(MOVE_SPEED),
            Direction::Up => self.position.y = self.position.y.wrapping_sub(MOVE_SPEED),
            Direction::Down => self.position.y = self.position.y.wrapping_add(MOVE_SPEED),
            Direction::Right => self.position.x = self.position.x.wrapping_add(MOVE_SPEED),
        }
    }

    fn set_direction(&mut self, direction: Direction)
        ensures
            *final(self) == (ActorStateContext { direction, ..*old(self) }),
    {
        self.direction = direction;
    }

    fn fit(&self) -> (r: bool)
        ensures
            r == aligned(self.position),
    {
        self.position.x % TILE_WIDTH == 0 && self.position.y % TILE_HEIGHT == 0
    }

    fn reset_frame(&mut self)
        ensures
            *final(self) == (ActorStateContext { frame: 0, ..*old(self) }),
    {
        self.frame = 0;
    }

    fn increment_frame(&mut self)
        requires
            old(self).frame < CYCLE_LENGTH,
        ensures
            *final(self) == (ActorStateContext {
                frame: ((old(self).frame + 1) % CYCLE_LENGTH as int) as u8,
                ..*old(self)
            }),
    {
        self.frame = (self.frame + 1) % CYCLE_LENGTH;
    }
}

/// Tag of an actor standing on a tile.
pub struct Idle;

/// Tag of an actor walking between tiles.
pub struct Moving;

/// A context tagged, by its type, with the state the actor is in.
pub struct ActorState<S> {
    pub context: ActorStateContext,
    pub state: PhantomData<S>,
}

impl<S> ActorState<S> {
    pub open spec fn spec_context(&self) -> ActorStateContext {
        self.context
    }

    pub fn context(&self) -> (r: &ActorStateContext)
        ensures
            *r == self.spec_context(),
    {
        &self.context
    }

    fn draw(&self) -> (r: Result<DrawCommand, EngineError>)
        requires
            self.context.frame < CYCLE_LENGTH,
        ensures
            draws(self.context, r),
    {
        self.context.draw()
    }
}

enum ActorIdleEndState {
    Continue(ActorState<Idle>),
    Complete(ActorState<Moving>),
}

enum ActorMovingEndState {
    Continue(ActorState<Moving>),
    Complete(ActorState<Idle>),
}

impl ActorState<Idle> {
    fn new(context: ActorStateContext) -> (r: Self)
        ensures
            r.context == context,
    {
        Self { context, state: PhantomData::<Idle> }
    }

    fn update(self, key_state: &KeyState) -> (r: ActorIdleEndState)
        requires
            aligned(self.context.position),
        ensures
            ({
                let c = self.context.idle_tick(key_state@);
                match r {
                    ActorIdleEndState::Continue(s) => aligned(c.position) && s.context == c,
                    ActorIdleEndState::Complete(s) => !aligned(c.position) && s.context == c,
                }
            }),
    {
        let mut s = self;
        s.context.reset_frame();
        match s.context.direction {
            Direction::Left => {
                if key_state.is_pressed(KEY_CODE_ARROW_LEFT) {
                    s.context.move_();
                }
            },
            Direction::Up => {
                if key_state.is_pressed(KEY_CODE_ARROW_UP) {
                    s.context.move_();
                }
            },
            Direction::Right => {
                if key_state.is_pressed(KEY_CODE_ARROW_RIGHT) {
                    s.context.move_();
                }
            },
            Direction::Down => {
                if key_state.is_pressed(KEY_CODE_ARROW_DOWN) {
                    s.context.move_();
                }
            },
        }
        if !s.context.fit() {
            s.context.increment_frame();
            return ActorIdleEndState::Complete(
                ActorState::<Moving> { context: s.context, state: PhantomData::<Moving> },
            );
        }
        if key_state.is_pressed(KEY_CODE_ARROW_LEFT) {
            s.context.set_direction(Direction::Left);
        } else if key_state.is_pressed(KEY_CODE_ARROW_UP) {
            s.context.set_direction(Direction::Up);
        } else if key_state.is_pressed(KEY_CODE_ARROW_RIGHT) {
            s.context.set_direction(Direction::Right);
        } else if key_state.is_pressed(KEY_CODE_ARROW_DOWN) {
            s.context.set_direction(Direction::Down);
        }
        ActorIdleEndState::Continue(s)
    }
}

impl ActorState<Moving> {
    fn update(self) -> (r: ActorMovingEndState)
        requires
            self.context.frame < CYCLE_LENGTH,
        ensures
            ({
                let c = self.context.moving_tick();
                match r {
                    ActorMovingEndState::Continue(s) => !aligned(c.position) && s.context == c,
                    ActorMovingEndState::Complete(s) => aligned(c.position) && s.context == c,
                }
            }),
    {
        let mut s = self;
        s.context.increment_frame();
        s.context.move_();
        if s.context.fit() {
            return ActorMovingEndState::Complete(
                ActorState::<Idle> { context: s.context, state: PhantomData::<Idle> },
            );
        }
        ActorMovingEndState::Continue(s)
    }
}

/// The actor's movement state machine.
pub enum ActorStateMachine {
    Idle(ActorState<Idle>),
    Moving(ActorState<Moving>),
}

impl ActorStateMachine {
    pub open spec fn spec_context(&self) -> ActorStateContext {
        match self {
            ActorStateMachine::Idle(s) => s.context,
            ActorStateMachine::Moving(s) => s.context,
        }
    }

    /// The state holds together: the animation counter is below the cycle
    /// length, an idle actor stands on a tile boundary and a moving one
    /// does not.
    pub open spec fn wf(&self) -> bool {
        &&& self.spec_context().frame < CYCLE_LENGTH
        &&& match self {
            ActorStateMachine::Idle(s) => aligned(s.context.position),
            ActorStateMachine::Moving(s) => !aligned(s.context.position),
        }
    }

    /// The state after one tick with `keys` held.
    pub open spec fn next(self, keys: Set<Seq<char>>) -> ActorStateMachine {
        match self {
            ActorStateMachine::Idle(s) => {
                let c = s.context.idle_tick(keys);
                if aligned(c.position) {
                    ActorStateMachine::Idle(ActorState { context: c, state: PhantomData })
                } else {
                    ActorStateMachine::Moving(ActorState { context: c, state: PhantomData })
                }
            },
            ActorStateMachine::Moving(s) => {
                let c = s.context.moving_tick();
                if aligned(c.position) {
                    ActorStateMachine::Idle(ActorState { context: c, state: PhantomData })
                } else {
                    ActorStateMachine::Moving(ActorState { context: c, state: PhantomData })
                }
            },
        }
    }

    /// Starts idle, with `context` as given.
    pub fn new(context: ActorStateContext) -> (r: Self)
        requires
            aligned(context.spec_position()),
            context.spec_frame() < CYCLE_LENGTH,
        ensures
            r is Idle,
            r.spec_context() == context,
            r.wf(),
    {
        ActorStateMachine::Idle(ActorState::<Idle>::new(context))
    }

    /// Advances the machine by one tick with the keys of `key_state` held.
    pub fn update(self, key_state: &KeyState) -> (r: Self)
        requires
            self.wf(),
        ensures
            r == self.next(key_state@),
            r.wf(),
    {
        match self {
            ActorStateMachine::Idle(state) => match state.update(key_state) {
                ActorIdleEndState::Complete(s) => ActorStateMachine::Moving(s),
                ActorIdleEndState::Continue(s) => ActorStateMachine::Idle(s),
            },
            ActorStateMachine::Moving(state) => match state.update() {
                ActorMovingEndState::Complete(s) => ActorStateMachine::Idle(s),
                ActorMovingEndState::Continue(s) => ActorStateMachine::Moving(s),
            },
        }
    }

    /// The drawing of the current state: the actor's frame copied to its
    /// position. Reads the state and leaves it as it was.
    pub fn draw(&self) -> (r: Result<DrawCommand, EngineError>)
        requires
            self.wf(),
        ensures
            draws(self.spec_context(), r),
    {
        match self {
            ActorStateMachine::Idle(state) => state.draw(),
            ActorStateMachine::Moving(state) => state.draw(),
        }
    }

    pub fn is_moving(&self) -> (r: bool)
        ensures
            r == self is Moving,
    {
        match self {
            ActorStateMachine::Idle(_) => false,
            ActorStateMachine::Moving(_) => true,
        }
    }

    pub fn context(&self) -> (r: &ActorStateContext)
        ensures
            *r == self.spec_context(),
    {
        match self {
            ActorStateMachine::Idle(s) => &s.context,
            ActorStateMachine::Moving(s) => &s.context,
        }
    }
}

/// An actor, once it has been given a state machine.
pub struct Actor {
    pub state_machine: Option<ActorStateMachine>,
}

impl Actor {
    /// An actor that has no state yet.
    pub fn new() -> (r: Self)
        ensures
            r.state_machine is None,
    {
        Self { state_machine: None }
    }
}

} // verus!
