pub mod asset_loader;
pub mod input;
pub mod sprite_sheet;

use self::input::KeyState;
use vstd::prelude::*;

verus! {

/// An axis-aligned rectangle in integer pixels.
#[derive(Clone, Copy, Debug, PartialEq, Eq, Structural)]
pub struct Rect {
    pub x: i16,
    pub y: i16,
    pub w: i16,
    pub h: i16,
}

/// A point in integer pixels.
#[derive(Clone, Copy, Debug, PartialEq, Eq, Structural)]
pub struct Point {
    pub x: i16,
    pub y: i16,
}

/// What went wrong while drawing.
#[derive(Clone, Debug, PartialEq, Eq)]
pub enum EngineError {
    /// The sheet has no frame of this name.
    FrameNotFound(String),
    /// The store has no sheet of this name.
    SheetNotFound(String),
    /// A sheet of this name was already in the store.
    DuplicateSheet(String),
}

/// One operation on the drawing surface.
#[derive(Clone, Debug, PartialEq, Eq)]
pub enum DrawCommand {
    /// Erase the pixels in the rectangle.
    Clear(Rect),
    /// Copy `source` of the image `image` to `destination`.
    Image { image: String, source: Rect, destination: Rect },
}

/// `c` erases `rect`.
pub open spec fn is_clear(c: DrawCommand, rect: Rect) -> bool {
    c matches DrawCommand::Clear(r) && r == rect
}

/// `c` copies `source` of the image named `image` to `destination`.
pub open spec fn is_blit(c: DrawCommand, image: Seq<char>, source: Rect, destination: Rect) -> bool {
    c matches DrawCommand::Image { image: i, source: s, destination: d } && i@ == image && s
        == source && d == destination
}

/// `e` reports that the frame `name` is missing.
pub open spec fn is_frame_not_found(e: EngineError, name: Seq<char>) -> bool {
    e matches EngineError::FrameNotFound(n) && n@ == name
}

/// `e` reports that the sheet `name` is missing.
pub open spec fn is_sheet_not_found(e: EngineError, name: Seq<char>) -> bool {
    e matches EngineError::SheetNotFound(n) && n@ == name
}

/// `e` reports that a sheet named `name` was already stored.
pub open spec fn is_duplicate_sheet(e: EngineError, name: Seq<char>) -> bool {
    e matches EngineError::DuplicateSheet(n) && n@ == name
}

/// Time is counted in units of a sixtieth of a millisecond, so that one
/// tick at 60 Hz is a whole number of units.
pub const TIME_UNITS_PER_MS: u64 = 60;

/// The length of one simulation tick: 1000 / 60 ms.
pub const FRAME_SIZE: u64 = 1000;

/// The latest timestamp that the loop accepts, so that the accumulated time
/// stays within `u64`.
pub const MAX_TIMESTAMP: u64 = 0xffff_ffff_ffff_ffff - FRAME_SIZE;

/// A game that the loop drives: it steps one tick at a time and draws its
/// current state.
pub trait Game: Sized {
    /// The game's own invariant, which its steps keep.
    spec fn ready(&self) -> bool;

    /// The game after one tick with the input codes `keys` held.
    spec fn next(&self, keys: Set<Seq<char>>) -> Self;

    /// `r` is what drawing this state gives.
    spec fn shows(&self, r: Result<Vec<DrawCommand>, EngineError>) -> bool;

    /// Advances the game by one tick.
    fn update(&mut self, key_state: &KeyState) -> (r: Result<(), EngineError>)
        requires
            old(self).ready(),
        ensures
            r is Ok,
            *final(self) == old(self).next(key_state@),
            final(self).ready();

    /// Draws the current state; the state is left as it was.
    fn draw(&self) -> (r: Result<Vec<DrawCommand>, EngineError>)
        requires
            self.ready(),
        ensures
            self.shows(r);
}

/// `g` after `n` ticks with `keys` held.
pub open spec fn updated_n<G: Game>(g: G, keys: Set<Seq<char>>, n: nat) -> G
    decreases n,
{
    if n == 0 {
        g
    } else {
        updated_n(g, keys, (n - 1) as nat).next(keys)
    }
}

/// How many ticks run on a refresh that finds `total` time accumulated:
/// one for each time that more than a tick is left.
pub open spec fn catch_up_steps(total: nat) -> nat
    decreases total,
{
    if total > FRAME_SIZE {
        1 + catch_up_steps((total - FRAME_SIZE) as nat)
    } else {
        0
    }
}

/// The time left over after those ticks.
pub open spec fn leftover(total: nat) -> nat
    decreases total,
{
    if total > FRAME_SIZE {
        leftover((total - FRAME_SIZE) as nat)
    } else {
        total
    }
}

/// The ticks run on each of a run of refreshes at the timestamps `times`,
/// starting from a loop whose last refresh was at `last` with `acc` time
/// accumulated.
pub open spec fn steps_per_refresh(last: int, acc: int, times: Seq<int>) -> Seq<nat>
    decreases times.len(),
{
    if times.len() == 0 {
        Seq::empty()
    } else {
        let total = (acc + times[0] - last) as nat;
        seq![catch_up_steps(total)] + steps_per_refresh(
            times[0],
            leftover(total) as int,
            times.subrange(1, times.len() as int),
        )
    }
}

/// The fixed-timestep loop: it turns refresh timestamps into whole ticks,
/// carrying what is left of the elapsed time to the next refresh.
pub struct GameLoop {
    last_frame: u64,
    accumulated_delta: u64,
}

impl GameLoop {
    pub closed spec fn spec_last_frame(&self) -> u64 {
        self.last_frame
    }

    pub closed spec fn spec_accumulated(&self) -> u64 {
        self.accumulated_delta
    }

    /// At most one tick of time is held back between refreshes.
    pub open spec fn wf(&self) -> bool {
        self.spec_accumulated() <= FRAME_SIZE
    }

    /// A loop whose last refresh was at `now`, with nothing accumulated.
    pub fn new(now: u64) -> (r: Self)
        ensures
            r.spec_last_frame() == now,
            r.spec_accumulated() == 0,
            r.wf(),
    {
        GameLoop { last_frame: now, accumulated_delta: 0 }
    }

    pub fn last_frame(&self) -> (r: u64)
        ensures
            r == self.spec_last_frame(),
    {
        self.last_frame
    }

    pub fn accumulated_delta(&self) -> (r: u64)
        ensures
            r == self.spec_accumulated(),
    {
        self.accumulated_delta
    }

    /// Takes in a refresh at `now`: adds the time since the last refresh,
    /// and returns how many ticks to run, taking a tick's time off for each.
    pub fn advance(&mut self, now: u64) -> (steps: u64)
        requires
            old(self).wf(),
            old(self).spec_last_frame() <= now <= MAX_TIMESTAMP,
        ensures
            ({
                let total = (old(self).spec_accumulated() + now - old(self).spec_last_frame()) as nat;
                &&& steps == catch_up_steps(total)
                &&& final(self).spec_accumulated() == leftover(total)
                &&& final(self).spec_last_frame() == now
            }),
            final(self).wf(),
    {
        let ghost total = (self.accumulated_delta + now - self.last_frame) as nat;
        self.accumulated_delta = self.accumulated_delta + (now - self.last_frame);
        let mut steps: u64 = 0;
        while self.accumulated_delta > FRAME_SIZE
            invariant
                steps + self.accumulated_delta <= total,
                total <= u64::MAX,
                catch_up_steps(total) == steps + catch_up_steps(self.accumulated_delta as nat),
                leftover(total) == leftover(self.accumulated_delta as nat),
            decreases self.accumulated_delta,
        {
            self.accumulated_delta = self.accumulated_delta - FRAME_SIZE;
            steps = steps + 1;
        }
        self.last_frame = now;
        steps
    }

    /// One display refresh at `now`: runs the ticks that the elapsed time
    /// calls for, with `key_state` held, then draws the game once.
    pub fn refresh<G: Game>(&mut self, now: u64, game: &mut G, key_state: &KeyState) -> (r: Result<
        Vec<DrawCommand>,
        EngineError,
    >)
        requires
            old(self).wf(),
            old(self).spec_last_frame() <= now <= MAX_TIMESTAMP,
            old(game).ready(),
        ensures
            ({
                let total = (old(self).spec_accumulated() + now - old(self).spec_last_frame()) as nat;
                &&& final(self).spec_accumulated() == leftover(total)
                &&& final(self).spec_last_frame() == now
                &&& *final(game) == updated_n(*old(game), key_state@, catch_up_steps(total))
            }),
            final(self).wf(),
            final(game).ready(),
            final(game).shows(r),
    {
        let steps = self.advance(now);
        let mut done: u64 = 0;
        while done < steps
            invariant
                done <= steps,
                game.ready(),
                *game == updated_n(*old(game), key_state@, done as nat),
            decreases steps - done,
        {
            game.update(key_state)?;
            done = done + 1;
        }
        game.draw()
    }
}

/// Tick/draw decoupling: on a run of refreshes whose elapsed time, with what
/// was accumulated before, stays within one tick, no refresh runs a tick
/// (and each still draws once, as `GameLoop::refresh` does on every call).
pub proof fn lemma_small_deltas_run_no_steps(last: int, acc: int, times: Seq<int>)
    requires
        0 <= acc,
        times.len() > 0 ==> last <= times[0],
        forall|i: int, j: int| 0 <= i <= j < times.len() ==> times[i] <= times[j],
        times.len() > 0 ==> acc + times.last() - last <= FRAME_SIZE,
    ensures
        steps_per_refresh(last, acc, times).len() == times.len(),
        forall|i: int| 0 <= i < times.len() ==> #[trigger] steps_per_refresh(last, acc, times)[i] == 0,
    decreases times.len(),
{
    if times.len() > 0 {
        let total = (acc + times[0] - last) as nat;
        let rest = times.subrange(1, times.len() as int);
        assert(catch_up_steps(total) == 0);
        assert(leftover(total) == total);
        if rest.len() > 0 {
            assert(rest.last() == times.last());
            assert(times[0] <= rest[0]);
        }
        assert forall|i: int, j: int| 0 <= i <= j < rest.len() implies rest[i] <= rest[j] by {
            assert(rest[i] == times[i + 1] && rest[j] == times[j + 1]);
        }
        lemma_small_deltas_run_no_steps(times[0], total as int, rest);
        let s = steps_per_refresh(last, acc, times);
        assert forall|i: int| 0 <= i < times.len() implies #[trigger] s[i] == 0 by {
            if i > 0 {
                assert(s[i] == steps_per_refresh(times[0], total as int, rest)[i - 1]);
            }
        }
    }
}

/// Catch-up: a fresh refresh that finds `n` ticks and a part `r` of another
/// accumulated runs exactly `n` ticks. (With `r` zero it runs one fewer:
/// a tick's worth of time left is held back until it is exceeded.)
pub proof fn lemma_catch_up(n: nat, r: nat)
    requires
        0 < r < FRAME_SIZE,
    ensures
        catch_up_steps((n * FRAME_SIZE + r) as nat) == n,
        leftover((n * FRAME_SIZE + r) as nat) == r,
    decreases n,
{
    if n > 0 {
        assert(n * FRAME_SIZE + r - FRAME_SIZE == (n - 1) as nat * FRAME_SIZE + r) by (nonlinear_arith)
            requires
                n > 0,
        ;
        lemma_catch_up((n - 1) as nat, r);
    }
}

} // verus!
