//! The sixteen keys of the hexadecimal keypad.

use vstd::prelude::*;

verus! {

/// Which of the sixteen keys are down.
#[derive(Clone, Copy, Debug)]
pub struct Keymap {
    inner: [bool; 16],
}

impl View for Keymap {
    type V = Seq<bool>;

    /// The sixteen key-down flags, by key number.
    closed spec fn view(&self) -> Seq<bool> {
        self.inner@
    }
}

/// The keypad with no key down.
pub open spec fn no_keys() -> Seq<bool> {
    Seq::new(16, |k: int| false)
}

/// The keys that are down in `a` or in `b`.
pub open spec fn merged(a: Seq<bool>, b: Seq<bool>) -> Seq<bool> {
    Seq::new(16, |k: int| a[k] || b[k])
}

/// Key `k` is down in `held` and up in `live`: it has been released.
pub open spec fn released(held: Seq<bool>, live: Seq<bool>, k: int) -> bool {
    0 <= k < 16 && held[k] && !live[k]
}

/// The lowest-numbered key that is down in `held` and up in `live`.
pub open spec fn first_released(held: Seq<bool>, live: Seq<bool>) -> Option<usize> {
    if exists|k: int| released(held, live, k) {
        let k = choose|k: int|
            released(held, live, k) && forall|j: int| 0 <= j < k ==> !released(held, live, j);
        Some(k as usize)
    } else {
        None
    }
}

/// `first_released` is `Some(k)` for the one `k` that is released with no
/// released key below it, and `None` when no key is released.
pub proof fn lemma_first_released(held: Seq<bool>, live: Seq<bool>)
    ensures
        match first_released(held, live) {
            Some(k) => released(held, live, k as int) && forall|j: int|
                0 <= j < k ==> !released(held, live, j),
            None => forall|j: int| !released(held, live, j),
        },
{
    if exists|k: int| released(held, live, k) {
        let w = choose|k: int| released(held, live, k);
        lemma_least(held, live, w);
    }
}

/// Some key at or below the released key `w` is released with none released
/// below it.
proof fn lemma_least(held: Seq<bool>, live: Seq<bool>, w: int)
    requires
        released(held, live, w),
    ensures
        exists|k: int|
            released(held, live, k) && forall|j: int| 0 <= j < k ==> !released(held, live, j),
    decreases w,
{
    if exists|j: int| 0 <= j < w && released(held, live, j) {
        let j0 = choose|j: int| 0 <= j < w && released(held, live, j);
        lemma_least(held, live, j0);
    }
}

/// The view of a keymap has sixteen flags.
pub broadcast proof fn lemma_keymap_len(keys: Keymap)
    ensures
        (#[trigger] keys@).len() == 16,
{
}

impl Default for Keymap {
    fn default() -> (keys: Keymap)
        ensures
            keys@ == no_keys(),
    {
        let keys = Keymap { inner: [false; 16] };
        assert(keys@ =~= no_keys());
        keys
    }
}

impl Keymap {
    /// Marks key `index` as down.
    pub fn set(&mut self, index: usize)
        requires
            index < 16,
        ensures
            final(self)@ == old(self)@.update(index as int, true),
    {
        self.inner[index] = true;
    }

    /// Whether key `index` is down.
    pub fn is_down(&self, index: usize) -> (down: bool)
        requires
            index < 16,
        ensures
            down == self@[index as int],
    {
        self.inner[index]
    }

    /// The keys that are down in `self` or in `other`.
    pub fn or(&self, other: &Keymap) -> (both: Keymap)
        ensures
            both@ == merged(self@, other@),
    {
        let mut inner: [bool; 16] = [false; 16];
        let mut k: usize = 0;
        while k < 16
            invariant
                k <= 16,
                forall|j: int| 0 <= j < k ==> inner@[j] == (self@[j] || other@[j]),
            decreases 16 - k,
        {
            inner[k] = self.inner[k] || other.inner[k];
            k += 1;
        }
        let both = Keymap { inner };
        assert(both@ =~= merged(self@, other@));
        both
    }

    /// The lowest-numbered key that is down in `self` and up in `other`.
    pub fn down_to_up(&self, other: &Keymap) -> (key: Option<usize>)
        ensures
            key == first_released(self@, other@),
            key matches Some(k) ==> k < 16,
    {
        proof {
            lemma_first_released(self@, other@);
        }
        let mut k: usize = 0;
        while k < 16
            invariant
                k <= 16,
                forall|j: int| 0 <= j < k ==> !released(self@, other@, j),
            decreases 16 - k,
        {
            if self.inner[k] && !other.inner[k] {
                assert(released(self@, other@, k as int));
                return Some(k);
            }
            k += 1;
        }
        None
    }
}

} // verus!
