//! Keys and keypad
use vstd::prelude::*;

use crate::errors::Chip8Error;

verus! {

/// Possible state for each key
#[derive(Clone, Copy, Debug, PartialEq, Eq, Structural)]
pub enum KeyState {
    /// Key not pressed
    NotPressed,
    /// Key pressed
    Pressed,
}

impl Default for KeyState {
    fn default() -> (r: KeyState)
        ensures
            r == KeyState::NotPressed,
    {
        KeyState::NotPressed
    }
}

/// Individual key on the [`Keypad`]
#[derive(Clone, Copy, Debug, PartialEq, Eq, Structural)]
pub enum Key {
    /// Key `0`
    Key0,
    /// Key `1`
    Key1,
    /// Key `2`
    Key2,
    /// Key `3`
    Key3,
    /// Key `4`
    Key4,
    /// Key `5`
    Key5,
    /// Key `6`
    Key6,
    /// Key `7`
    Key7,
    /// Key `8`
    Key8,
    /// Key `9`
    Key9,
    /// Key `A`
    KeyA,
    /// Key `B`
    KeyB,
    /// Key `C`
    KeyC,
    /// Key `D`
    KeyD,
    /// Key `E`
    KeyE,
    /// Key `F`
    KeyF,
}

impl Key {
    /// The hexadecimal digit of the key
    #[verifier::opaque]
    pub open spec fn spec_ordinal(self) -> u8 {
        match self {
            Key::Key0 => 0,
            Key::Key1 => 1,
            Key::Key2 => 2,
            Key::Key3 => 3,
            Key::Key4 => 4,
            Key::Key5 => 5,
            Key::Key6 => 6,
            Key::Key7 => 7,
            Key::Key8 => 8,
            Key::Key9 => 9,
            Key::KeyA => 10,
            Key::KeyB => 11,
            Key::KeyC => 12,
            Key::KeyD => 13,
            Key::KeyE => 14,
            Key::KeyF => 15,
        }
    }

    /// The key for hexadecimal digit `n` (`KeyF` for every `n` above `0xE`)
    #[verifier::opaque]
    pub open spec fn from_ordinal(n: u8) -> Key {
        match n {
            0 => Key::Key0,
            1 => Key::Key1,
            2 => Key::Key2,
            3 => Key::Key3,
            4 => Key::Key4,
            5 => Key::Key5,
            6 => Key::Key6,
            7 => Key::Key7,
            8 => Key::Key8,
            9 => Key::Key9,
            10 => Key::KeyA,
            11 => Key::KeyB,
            12 => Key::KeyC,
            13 => Key::KeyD,
            14 => Key::KeyE,
            _ => Key::KeyF,
        }
    }

    /// Keys and their digits correspond one to one
    pub broadcast proof fn lemma_ordinal(k: Key)
        ensures
            #[trigger] k.spec_ordinal() < 16,
            Key::from_ordinal(k.spec_ordinal()) == k,
    {
        reveal(Key::spec_ordinal);
        reveal(Key::from_ordinal);
    }

    /// The key built from a digit in `0x0` .. `0xF` has that digit
    pub broadcast proof fn lemma_from_ordinal(n: u8)
        requires
            n < 16,
        ensures
            #[trigger] Key::from_ordinal(n).spec_ordinal() == n,
    {
        reveal(Key::spec_ordinal);
        reveal(Key::from_ordinal);
    }

    /// The hexadecimal digit of the key
    #[verifier::when_used_as_spec(spec_ordinal)]
    pub fn ordinal(self) -> (r: u8)
        ensures
            r == self.spec_ordinal(),
            r < 16,
    {
        reveal(Key::spec_ordinal);
        match self {
            Key::Key0 => 0,
            Key::Key1 => 1,
            Key::Key2 => 2,
            Key::Key3 => 3,
            Key::Key4 => 4,
            Key::Key5 => 5,
            Key::Key6 => 6,
            Key::Key7 => 7,
            Key::Key8 => 8,
            Key::Key9 => 9,
            Key::KeyA => 10,
            Key::KeyB => 11,
            Key::KeyC => 12,
            Key::KeyD => 13,
            Key::KeyE => 14,
            Key::KeyF => 15,
        }
    }
}

pub broadcast group group_key {
    Key::lemma_ordinal,
    Key::lemma_from_ordinal,
}

impl TryFrom<u8> for Key {
    type Error = Chip8Error;

    /// Checked conversion from a hexadecimal digit
    fn try_from(value: u8) -> (r: Result<Key, Chip8Error>) {
        reveal(Key::from_ordinal);
        match value {
            0x0 => Ok(Key::Key0),
            0x1 => Ok(Key::Key1),
            0x2 => Ok(Key::Key2),
            0x3 => Ok(Key::Key3),
            0x4 => Ok(Key::Key4),
            0x5 => Ok(Key::Key5),
            0x6 => Ok(Key::Key6),
            0x7 => Ok(Key::Key7),
            0x8 => Ok(Key::Key8),
            0x9 => Ok(Key::Key9),
            0xA => Ok(Key::KeyA),
            0xB => Ok(Key::KeyB),
            0xC => Ok(Key::KeyC),
            0xD => Ok(Key::KeyD),
            0xE => Ok(Key::KeyE),
            0xF => Ok(Key::KeyF),
            _ => Err(Chip8Error::InvalidKey(value)),
        }
    }
}

impl vstd::std_specs::convert::TryFromSpecImpl<u8> for Key {
    open spec fn obeys_try_from_spec() -> bool {
        true
    }

    open spec fn try_from_spec(value: u8) -> Result<Key, Chip8Error> {
        if value < 16 {
            Ok(Key::from_ordinal(value))
        } else {
            Err(Chip8Error::InvalidKey(value))
        }
    }
}

/// 16-key hexadecimal keypad
///
/// # Key layout
///
/// ```text
/// 1 2 3 C
/// 4 5 6 D
/// 7 8 9 E
/// A 0 B F
/// ```
#[derive(Clone, Copy, Debug, PartialEq, Eq)]
pub struct Keypad {
    state: [KeyState; 16],
}

impl View for Keypad {
    type V = Seq<KeyState>;

    /// The state of each key, indexed by its digit
    closed spec fn view(&self) -> Seq<KeyState> {
        self.state@
    }
}

impl Keypad {
    /// A keypad holds the state of 16 keys
    pub broadcast proof fn lemma_len(k: Keypad)
        ensures
            #[trigger] k@.len() == 16,
    {
    }

    /// Creates a new instance with default state for each key
    pub fn new() -> (r: Keypad)
        ensures
            r@ == Seq::new(16, |k: int| KeyState::NotPressed),
    {
        let r = Keypad { state: [KeyState::NotPressed; 16] };
        assert(r@ =~= Seq::new(16, |k: int| KeyState::NotPressed));
        r
    }

    /// The state of `key`
    pub fn state(&self, key: Key) -> (r: KeyState)
        ensures
            r == self@[key.spec_ordinal() as int],
    {
        self.state[key.ordinal() as usize]
    }

    /// Sets the state of `key`
    pub fn set_state(&mut self, key: Key, state: KeyState)
        ensures
            final(self)@ == old(self)@.update(key.spec_ordinal() as int, state),
    {
        self.state[key.ordinal() as usize] = state;
    }
}

impl core::ops::Index<Key> for Keypad {
    type Output = KeyState;

    /// The state of `key`
    fn index(&self, key: Key) -> (r: &KeyState)
        ensures
            *r == self@[key.spec_ordinal() as int],
    {
        &self.state[key.ordinal() as usize]
    }
}

impl core::ops::IndexMut<Key> for Keypad {
    /// The state of `key`, to be changed in place
    fn index_mut(&mut self, key: Key) -> (r: &mut KeyState)
        ensures
            *r == old(self)@[key.spec_ordinal() as int],
            final(self)@ == old(self)@.update(key.spec_ordinal() as int, *final(r)),
    {
        &mut self.state[key.ordinal() as usize]
    }
}

impl Default for Keypad {
    fn default() -> (r: Keypad)
        ensures
            r@ == Seq::new(16, |k: int| KeyState::NotPressed),
    {
        Keypad::new()
    }
}

} // verus!
