//! The sixteen-key keyboard.
use vstd::prelude::*;

verus! {

/// Number of keys on the keypad.
pub const KEY_COUNT: usize = 16;

/// The key that keyboard character `c` stands for, on the usual layout:
///
/// ```text
/// 1 2 3 4        0 1 2 3
/// q w e r   ->   4 5 6 7
/// a s d f        8 9 A B
/// z x c v        C D E F
/// ```
pub open spec fn key_index_of(c: char) -> Option<u8> {
    match c {
        '1' => Some(0u8),
        '2' => Some(1u8),
        '3' => Some(2u8),
        '4' => Some(3u8),
        'q' => Some(4u8),
        'w' => Some(5u8),
        'e' => Some(6u8),
        'r' => Some(7u8),
        'a' => Some(8u8),
        's' => Some(9u8),
        'd' => Some(10u8),
        'f' => Some(11u8),
        'z' => Some(12u8),
        'x' => Some(13u8),
        'c' => Some(14u8),
        'v' => Some(15u8),
        _ => None,
    }
}

/// Index of the key that keyboard character `c` stands for, if any.
pub fn get_key_index(c: char) -> (r: Option<u8>)
    ensures
        r == key_index_of(c),
        r matches Some(i) ==> i < KEY_COUNT,
{
    match c {
        '1' => Some(0u8),
        '2' => Some(1u8),
        '3' => Some(2u8),
        '4' => Some(3u8),
        'q' => Some(4u8),
        'w' => Some(5u8),
        'e' => Some(6u8),
        'r' => Some(7u8),
        'a' => Some(8u8),
        's' => Some(9u8),
        'd' => Some(10u8),
        'f' => Some(11u8),
        'z' => Some(12u8),
        'x' => Some(13u8),
        'c' => Some(14u8),
        'v' => Some(15u8),
        _ => None,
    }
}

/// Which of the sixteen keys are held down.
pub struct Keypad {
    pub keys: [bool; 16],
}

impl Keypad {
    /// A keypad with every key up.
    pub fn new() -> (k: Keypad)
        ensures
            forall|i: int| 0 <= i < KEY_COUNT ==> !k.keys@[i],
    {
        Keypad { keys: [false; 16] }
    }

    /// Marks `key` down; returns whether it was up before, that is whether
    /// this is a key-down transition.
    pub fn press(&mut self, key: u8) -> (transition: bool)
        requires
            key < KEY_COUNT,
        ensures
            transition == !old(self).keys@[key as int],
            final(self).keys@ == old(self).keys@.update(key as int, true),
    {
        let was_down = self.keys[key as usize];
        self.keys[key as usize] = true;
        !was_down
    }

    /// Marks `key` up.
    pub fn release(&mut self, key: u8)
        requires
            key < KEY_COUNT,
        ensures
            final(self).keys@ == old(self).keys@.update(key as int, false),
    {
        self.keys[key as usize] = false;
    }

    /// Whether `key` is held down.
    pub fn is_pressed(&self, key: u8) -> (r: bool)
        requires
            key < KEY_COUNT,
        ensures
            r == self.keys@[key as int],
    {
        self.keys[key as usize]
    }
}

} // verus!
