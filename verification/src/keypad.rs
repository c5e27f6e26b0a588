//! The keypad: which keyboard key stands for which of the machine's sixteen
//! keys, and which of them are down.

use vstd::prelude::*;

verus! {

/// The sixteen keys of the machine, as the host's keyboard holds them down.
#[derive(Debug)]
pub struct Keypad {
    /// Which keys are down, by the machine's key number.
    pub key_map: [bool; 16],
}

/// The machine's key for the keyboard key with code `key`, if it has one. The
/// keypad lies on the left of the keyboard:
///
/// ```text
/// 1 2 3 4      0 1 2 3
/// Q W E R  --> 4 5 6 7
/// A S D F      8 9 A B
/// Z X C V      C D E F
/// ```
///
/// Key codes are those of SDL: the code of the character that the key types
/// unshifted.
pub open spec fn key_index(key: u32) -> Option<u8> {
    match key {
        0x31 => Some(0x0u8),
        0x32 => Some(0x1u8),
        0x33 => Some(0x2u8),
        0x34 => Some(0x3u8),
        0x71 => Some(0x4u8),
        0x77 => Some(0x5u8),
        0x65 => Some(0x6u8),
        0x72 => Some(0x7u8),
        0x61 => Some(0x8u8),
        0x73 => Some(0x9u8),
        0x64 => Some(0xAu8),
        0x66 => Some(0xBu8),
        0x7A => Some(0xCu8),
        0x78 => Some(0xDu8),
        0x63 => Some(0xEu8),
        0x76 => Some(0xFu8),
        _ => None,
    }
}

/// The keys after the keyboard key `key` went down (`down`) or up.
pub open spec fn keys_after(keys: Seq<bool>, key: u32, down: bool) -> Seq<bool> {
    match key_index(key) {
        Some(index) => keys.update(index as int, down),
        None => keys,
    }
}

/// The machine's key for the keyboard key with code `key`, if it has one.
pub fn keypad_index(key: u32) -> (index: Option<u8>)
    ensures
        index == key_index(key),
        index matches Some(i) ==> i < 16,
{
    match key {
        0x31 => Some(0x0),
        0x32 => Some(0x1),
        0x33 => Some(0x2),
        0x34 => Some(0x3),
        0x71 => Some(0x4),
        0x77 => Some(0x5),
        0x65 => Some(0x6),
        0x72 => Some(0x7),
        0x61 => Some(0x8),
        0x73 => Some(0x9),
        0x64 => Some(0xA),
        0x66 => Some(0xB),
        0x7A => Some(0xC),
        0x78 => Some(0xD),
        0x63 => Some(0xE),
        0x76 => Some(0xF),
        _ => None,
    }
}

impl Keypad {
    /// A keypad with every key up.
    pub fn new() -> (keypad: Keypad)
        ensures
            forall|k: int| 0 <= k < 16 ==> !keypad.key_map[k],
    {
        Keypad { key_map: [false; 16] }
    }

    /// The keys as the processor takes them.
    pub fn map_keys(&self) -> (keys: &[bool; 16])
        ensures
            *keys == self.key_map,
    {
        &self.key_map
    }

    /// The keyboard key `key` went down: its key of the machine, if it has
    /// one, is down from now on.
    pub fn presse_key(&mut self, key: u32)
        ensures
            final(self).key_map@ == keys_after(old(self).key_map@, key, true),
    {
        match keypad_index(key) {
            Some(index) => {
                self.key_map[index as usize] = true;
            },
            None => {},
        }
    }

    /// The keyboard key `key` went up: its key of the machine, if it has one,
    /// is up from now on.
    pub fn release_key(&mut self, key: u32)
        ensures
            final(self).key_map@ == keys_after(old(self).key_map@, key, false),
    {
        match keypad_index(key) {
            Some(index) => {
                self.key_map[index as usize] = false;
            },
            None => {},
        }
    }
}

} // verus!
