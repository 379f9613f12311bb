use vstd::prelude::*;

verus! {

pub const KEY_CODE_ARROW_LEFT: &'static str = "ArrowLeft";

pub const KEY_CODE_ARROW_UP: &'static str = "ArrowUp";

pub const KEY_CODE_ARROW_RIGHT: &'static str = "ArrowRight";

pub const KEY_CODE_ARROW_DOWN: &'static str = "ArrowDown";

/// The input codes that are held down right now.
///
/// A code is present exactly when a press of it has been recorded and no
/// release since.
pub struct KeyState {
    pressed_keys: Vec<String>,
}

impl View for KeyState {
    type V = Set<Seq<char>>;

    closed spec fn view(&self) -> Set<Seq<char>> {
        Set::new(|code: Seq<char>| self.holds(code))
    }
}

/// Whether some string of `s` has the characters `c`.
spec fn listed(s: Seq<String>, c: Seq<char>) -> bool {
    exists|i: int| 0 <= i < s.len() && #[trigger] s[i]@ == c
}

proof fn lemma_listed_push(s: Seq<String>, x: String, c: Seq<char>)
    ensures
        listed(s.push(x), c) <==> (listed(s, c) || x@ == c),
{
    if listed(s, c) {
        let j = choose|j: int| 0 <= j < s.len() && #[trigger] s[j]@ == c;
        assert(s.push(x)[j] == s[j]);
    }
    if listed(s.push(x), c) {
        let j = choose|j: int| 0 <= j < s.push(x).len() && #[trigger] s.push(x)[j]@ == c;
        if j < s.len() {
            assert(s.push(x)[j] == s[j]);
        }
    }
    if x@ == c {
        assert(s.push(x)[s.len() as int] == x);
    }
}

impl KeyState {
    /// Whether some entry of the backing list is `code`.
    spec fn holds(&self, code: Seq<char>) -> bool {
        listed(self.pressed_keys@, code)
    }

    /// No key is held.
    pub fn new() -> (r: Self)
        ensures
            r@ == Set::<Seq<char>>::empty(),
    {
        let r = KeyState { pressed_keys: Vec::new() };
        assert(r@ =~= Set::<Seq<char>>::empty());
        r
    }

    /// Whether `code` is held down.
    pub fn is_pressed(&self, code: &str) -> (r: bool)
        ensures
            r == self@.contains(code@),
    {
        let target = code.to_owned();
        let mut i: usize = 0;
        while i < self.pressed_keys.len()
            invariant
                i <= self.pressed_keys@.len(),
                target@ == code@,
                forall|j: int| 0 <= j < i ==> #[trigger] self.pressed_keys@[j]@ != code@,
            decreases self.pressed_keys@.len() - i,
        {
            if self.pressed_keys[i] == target {
                return true;
            }
            i = i + 1;
        }
        false
    }

    /// Records that `code` was released: it is no longer held.
    pub fn set_released(&mut self, code: &str)
        ensures
            final(self)@ == old(self)@.remove(code@),
    {
        let target = code.to_owned();
        let mut kept: Vec<String> = Vec::new();
        let mut i: usize = 0;
        while i < self.pressed_keys.len()
            invariant
                i <= self.pressed_keys@.len(),
                target@ == code@,
                forall|c: Seq<char>|
                    #[trigger] listed(kept@, c) <==> (c != code@ && listed(
                        self.pressed_keys@.take(i as int),
                        c,
                    )),
            decreases self.pressed_keys@.len() - i,
        {
            let ghost before = kept@;
            let ghost seen = self.pressed_keys@.take(i as int);
            if self.pressed_keys[i] != target {
                kept.push(self.pressed_keys[i].clone());
            }
            proof {
                assert(self.pressed_keys@.take(i + 1) =~= seen.push(self.pressed_keys@[i as int]));
                assert forall|c: Seq<char>|
                    #[trigger] listed(kept@, c) <==> (c != code@ && listed(
                        self.pressed_keys@.take(i + 1),
                        c,
                    )) by {
                    lemma_listed_push(seen, self.pressed_keys@[i as int], c);
                    if kept@.len() > before.len() {
                        assert(kept@ =~= before.push(self.pressed_keys@[i as int]));
                        lemma_listed_push(before, self.pressed_keys@[i as int], c);
                    }
                }
            }
            i = i + 1;
        }
        self.pressed_keys = kept;
        proof {
            assert(old(self).pressed_keys@.take(i as int) =~= old(self).pressed_keys@);
            assert forall|c: Seq<char>| final(self).holds(c) <==> #[trigger] listed(kept@, c) by {}
            assert forall|c: Seq<char>| old(self).holds(c) <==> #[trigger] listed(old(self).pressed_keys@, c) by {}
            assert(final(self)@ =~= old(self)@.remove(code@));
        }
    }

    /// Records that `code` was pressed: it is held.
    pub fn set_pressed(&mut self, code: &str)
        ensures
            final(self)@ == old(self)@.insert(code@),
    {
        if !self.is_pressed(code) {
            let ghost before = self.pressed_keys@;
            self.pressed_keys.push(code.to_owned());
            proof {
                assert forall|c: Seq<char>| #[trigger] self.holds(c) <==> (old(self).holds(c) || c == code@) by {
                    lemma_listed_push(before, self.pressed_keys@.last(), c);
                    assert(self.pressed_keys@ =~= before.push(self.pressed_keys@.last()));
                }
            }
        }
        proof {
            assert(final(self)@ =~= old(self)@.insert(code@));
        }
    }
}

} // verus!
