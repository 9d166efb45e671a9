//! From the keys of the host keyboard to the keypad of the machine.

use vstd::prelude::*;
use crate::keymap::Keymap;

verus! {

/// The key that stops the machine.
pub const ESCAPE: char = '\u{1b}';

/// What one poll of the keyboard tells the machine.
#[derive(Clone, Copy, Debug)]
pub enum PollResult {
    /// The machine is to stop.
    Stop,
    /// The machine goes on, with these keys down.
    Keymap(Keymap),
}

/// The key of the keypad that a key of the keyboard stands for. The block
/// `1234`, `qwer`, `asdf`, `zxcv` of the keyboard is the keypad
///
/// ```text
/// 1 2 3 C
/// 4 5 6 D
/// 7 8 9 E
/// A 0 B F
/// ```
pub open spec fn keypad_index(key: char) -> Option<usize> {
    if key == '1' {
        Some(0x1)
    } else if key == '2' {
        Some(0x2)
    } else if key == '3' {
        Some(0x3)
    } else if key == '4' {
        Some(0xC)
    } else if key == 'q' {
        Some(0x4)
    } else if key == 'w' {
        Some(0x5)
    } else if key == 'e' {
        Some(0x6)
    } else if key == 'r' {
        Some(0xD)
    } else if key == 'a' {
        Some(0x7)
    } else if key == 's' {
        Some(0x8)
    } else if key == 'd' {
        Some(0x9)
    } else if key == 'f' {
        Some(0xE)
    } else if key == 'z' {
        Some(0xA)
    } else if key == 'x' {
        Some(0x0)
    } else if key == 'c' {
        Some(0xB)
    } else if key == 'v' {
        Some(0xF)
    } else {
        None
    }
}

/// Key `k` of the keypad is down when some pressed key stands for it.
pub open spec fn key_down(pressed: Seq<char>, k: int) -> bool {
    exists|j: int| 0 <= j < pressed.len() && #[trigger] keypad_index(pressed[j]) == Some(k as usize)
}

/// The keypad while the keys `pressed` of the keyboard are down.
pub open spec fn keys_down(pressed: Seq<char>) -> Seq<bool> {
    Seq::new(16, |k: int| key_down(pressed, k))
}

/// The machine is to stop: the window was closed or escape is down.
pub open spec fn stop_requested(quit: bool, pressed: Seq<char>) -> bool {
    quit || pressed.contains(ESCAPE)
}

/// The key of the keypad that `key` stands for, if any.
pub fn key_index(key: char) -> (index: Option<usize>)
    ensures
        index == keypad_index(key),
        index matches Some(k) ==> k < 16,
{
    match key {
        '1' => Some(0x1),
        '2' => Some(0x2),
        '3' => Some(0x3),
        '4' => Some(0xC),
        'q' => Some(0x4),
        'w' => Some(0x5),
        'e' => Some(0x6),
        'r' => Some(0xD),
        'a' => Some(0x7),
        's' => Some(0x8),
        'd' => Some(0x9),
        'f' => Some(0xE),
        'z' => Some(0xA),
        'x' => Some(0x0),
        'c' => Some(0xB),
        'v' => Some(0xF),
        _ => None,
    }
}

/// What the machine is told when the keys `pressed` are down and `quit` says
/// whether the window was closed.
pub fn poll(quit: bool, pressed: &[char]) -> (res: PollResult)
    ensures
        res is Stop <==> stop_requested(quit, pressed@),
        res matches PollResult::Keymap(keys) ==> keys@ == keys_down(pressed@),
{
    if quit {
        return PollResult::Stop;
    }
    let mut keymap = Keymap::default();
    let mut j: usize = 0;
    while j < pressed.len()
        invariant
            j <= pressed.len(),
            keymap@.len() == 16,
            forall|i: int| 0 <= i < j ==> pressed@[i] != ESCAPE,
            forall|k: int|
                0 <= k < 16 ==> keymap@[k] == exists|i: int|
                    0 <= i < j && #[trigger] keypad_index(pressed@[i]) == Some(k as usize),
        decreases pressed.len() - j,
    {
        let key = pressed[j];
        if key == ESCAPE {
            return PollResult::Stop;
        }
        match key_index(key) {
            Some(k) => {
                keymap.set(k);
            },
            None => {},
        }
        j += 1;
    }
    assert(keymap@ =~= keys_down(pressed@));
    PollResult::Keymap(keymap)
}

} // verus!
