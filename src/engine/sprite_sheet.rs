use super::{is_blit, is_duplicate_sheet, is_frame_not_found, is_sheet_not_found};
use super::{DrawCommand, EngineError, Point, Rect};
use vstd::prelude::*;

verus! {

/// The map that a list of keyed entries stands for: a later entry for a key
/// replaces an earlier one.
pub open spec fn keyed<V>(s: Seq<(Seq<char>, V)>) -> Map<Seq<char>, V>
    decreases s.len(),
{
    if s.len() == 0 {
        Map::empty()
    } else {
        keyed(s.drop_last()).insert(s.last().0, s.last().1)
    }
}

/// Entries at `i` and after do not name `k`, so they leave its entry in the
/// map as the first `i` entries have it.
proof fn lemma_keyed_prefix<V>(s: Seq<(Seq<char>, V)>, i: int, k: Seq<char>)
    requires
        0 <= i <= s.len(),
        forall|j: int| i <= j < s.len() ==> #[trigger] s[j].0 != k,
    ensures
        keyed(s).contains_key(k) == keyed(s.take(i)).contains_key(k),
        keyed(s).contains_key(k) ==> keyed(s)[k] == keyed(s.take(i))[k],
    decreases s.len(),
{
    if i == s.len() {
        assert(s.take(i) =~= s);
    } else {
        let t = s.drop_last();
        assert(s[s.len() - 1].0 != k);
        assert forall|j: int| i <= j < t.len() implies #[trigger] t[j].0 != k by {
            assert(t[j] == s[j]);
        }
        lemma_keyed_prefix(t, i, k);
        assert(t.take(i) =~= s.take(i));
    }
}

/// Entry `i` names `k` and no later one does, so the map holds its value.
proof fn lemma_keyed_last<V>(s: Seq<(Seq<char>, V)>, i: int, k: Seq<char>)
    requires
        0 <= i < s.len(),
        s[i].0 == k,
        forall|j: int| i < j < s.len() ==> #[trigger] s[j].0 != k,
    ensures
        keyed(s).contains_key(k),
        keyed(s)[k] == s[i].1,
{
    lemma_keyed_prefix(s, i + 1, k);
    assert(s.take(i + 1).drop_last() =~= s.take(i));
}

/// The source rectangle of a frame in the sheet's image.
#[derive(Clone, Copy, Debug, PartialEq, Eq, Structural)]
pub struct SheetRect {
    pub x: i16,
    pub y: i16,
    pub w: i16,
    pub h: i16,
}

/// One frame of a sheet.
#[derive(Clone, Copy, Debug, PartialEq, Eq, Structural)]
pub struct Cell {
    pub frame: SheetRect,
}

/// The frames of a sprite sheet, by name.
pub struct Sheet {
    frames: Vec<(String, Cell)>,
}

impl View for Sheet {
    type V = Map<Seq<char>, Cell>;

    closed spec fn view(&self) -> Map<Seq<char>, Cell> {
        keyed(self.frames@.map_values(|e: (String, Cell)| (e.0@, e.1)))
    }
}

impl Sheet {
    /// A sheet without frames.
    pub fn new() -> (r: Self)
        ensures
            r@ == Map::<Seq<char>, Cell>::empty(),
    {
        let r = Sheet { frames: Vec::new() };
        assert(r.frames@.map_values(|e: (String, Cell)| (e.0@, e.1)) =~= Seq::empty());
        r
    }

    /// Gives the frame `name` the cell `cell`, in place of any it had.
    pub fn insert(&mut self, name: &str, cell: Cell)
        ensures
            final(self)@ == old(self)@.insert(name@, cell),
    {
        self.frames.push((name.to_owned(), cell));
        assert(self.frames@.map_values(|e: (String, Cell)| (e.0@, e.1)).drop_last() =~= old(
            self,
        ).frames@.map_values(|e: (String, Cell)| (e.0@, e.1)));
    }

    /// The cell of the frame `name`, if the sheet has one.
    pub fn get(&self, name: &str) -> (r: Option<Cell>)
        ensures
            r == (if self@.contains_key(name@) {
                Some(self@[name@])
            } else {
                None
            }),
    {
        let ghost s = self.frames@.map_values(|e: (String, Cell)| (e.0@, e.1));
        let target = name.to_owned();
        let mut i: usize = self.frames.len();
        while i > 0
            invariant
                i <= self.frames@.len(),
                s == self.frames@.map_values(|e: (String, Cell)| (e.0@, e.1)),
                target@ == name@,
                forall|j: int| i <= j < s.len() ==> #[trigger] s[j].0 != name@,
            decreases i,
        {
            i = i - 1;
            if self.frames[i].0 == target {
                proof {
                    lemma_keyed_last(s, i as int, name@);
                }
                return Some(self.frames[i].1);
            }
        }
        proof {
            lemma_keyed_prefix(s, 0, name@);
        }
        None
    }
}

/// A named sprite sheet; its image is held by whoever draws.
pub struct SpriteSheet {
    pub name: String,
    pub sheet: Option<Sheet>,
}

/// `r` as a rectangle of the drawing surface.
pub open spec fn rect_of(r: SheetRect) -> Rect {
    Rect { x: r.x, y: r.y, w: r.w, h: r.h }
}

impl SpriteSheet {
    /// The cell of the frame `name`, if there is a sheet and it has one.
    pub open spec fn frame_of(&self, name: Seq<char>) -> Option<Cell> {
        match self.sheet {
            Some(sheet) => if sheet@.contains_key(name) {
                Some(sheet@[name])
            } else {
                None
            },
            None => None,
        }
    }

    /// Copies the frame `frame_name` of this sheet's image to `destination`,
    /// at the frame's own size; fails when the sheet has no such frame.
    pub fn draw_sprite(&self, frame_name: &str, destination: &Point) -> (r: Result<
        DrawCommand,
        EngineError,
    >)
        ensures
            match self.frame_of(frame_name@) {
                Some(cell) => r matches Ok(c) && is_blit(
                    c,
                    self.name@,
                    rect_of(cell.frame),
                    Rect { x: destination.x, y: destination.y, w: cell.frame.w, h: cell.frame.h },
                ),
                None => r matches Err(e) && is_frame_not_found(e, frame_name@),
            },
    {
        let cell = match &self.sheet {
            Some(sheet) => sheet.get(frame_name),
            None => None,
        };
        match cell {
            Some(cell) => Ok(
                DrawCommand::Image {
                    image: self.name.clone(),
                    source: Rect {
                        x: cell.frame.x,
                        y: cell.frame.y,
                        w: cell.frame.w,
                        h: cell.frame.h,
                    },
                    destination: Rect {
                        x: destination.x,
                        y: destination.y,
                        w: cell.frame.w,
                        h: cell.frame.h,
                    },
                },
            ),
            None => Err(EngineError::FrameNotFound(frame_name.to_owned())),
        }
    }
}

/// Sprite sheets by name.
pub struct SpriteSheetStore {
    sprite_sheets: Vec<SpriteSheet>,
}

impl View for SpriteSheetStore {
    type V = Map<Seq<char>, SpriteSheet>;

    closed spec fn view(&self) -> Map<Seq<char>, SpriteSheet> {
        keyed(self.sprite_sheets@.map_values(|e: SpriteSheet| (e.name@, e)))
    }
}

impl SpriteSheetStore {
    /// A store without sheets.
    pub fn new() -> (r: Self)
        ensures
            r@ == Map::<Seq<char>, SpriteSheet>::empty(),
    {
        let r = SpriteSheetStore { sprite_sheets: Vec::new() };
        assert(r.sprite_sheets@.map_values(|e: SpriteSheet| (e.name@, e)) =~= Seq::empty());
        r
    }

    /// Stores `sprite_sheet` under its name. A sheet already stored under
    /// that name is replaced, and the call reports it as an error.
    pub fn add(&mut self, sprite_sheet: SpriteSheet) -> (r: Result<(), EngineError>)
        ensures
            final(self)@ == old(self)@.insert(sprite_sheet.name@, sprite_sheet),
            old(self)@.contains_key(sprite_sheet.name@) ==> (r matches Err(e)
                && is_duplicate_sheet(e, sprite_sheet.name@)),
            !old(self)@.contains_key(sprite_sheet.name@) ==> r is Ok,
    {
        let present = self.get(sprite_sheet.name.as_str()).is_ok();
        let name = sprite_sheet.name.clone();
        self.sprite_sheets.push(sprite_sheet);
        assert(self.sprite_sheets@.map_values(|e: SpriteSheet| (e.name@, e)).drop_last() =~= old(
            self,
        ).sprite_sheets@.map_values(|e: SpriteSheet| (e.name@, e)));
        if present {
            Err(EngineError::DuplicateSheet(name))
        } else {
            Ok(())
        }
    }

    /// The sheet stored under `name`.
    pub fn get(&self, name: &str) -> (r: Result<&SpriteSheet, EngineError>)
        ensures
            self@.contains_key(name@) ==> (r matches Ok(s) && *s == self@[name@]),
            !self@.contains_key(name@) ==> (r matches Err(e) && is_sheet_not_found(e, name@)),
    {
        let ghost s = self.sprite_sheets@.map_values(|e: SpriteSheet| (e.name@, e));
        let target = name.to_owned();
        let mut i: usize = self.sprite_sheets.len();
        while i > 0
            invariant
                i <= self.sprite_sheets@.len(),
                s == self.sprite_sheets@.map_values(|e: SpriteSheet| (e.name@, e)),
                target@ == name@,
                forall|j: int| i <= j < s.len() ==> #[trigger] s[j].0 != name@,
            decreases i,
        {
            i = i - 1;
            if self.sprite_sheets[i].name == target {
                proof {
                    lemma_keyed_last(s, i as int, name@);
                }
                return Ok(&self.sprite_sheets[i]);
            }
        }
        proof {
            lemma_keyed_prefix(s, 0, name@);
        }
        Err(EngineError::SheetNotFound(target))
    }
}

} // verus!
