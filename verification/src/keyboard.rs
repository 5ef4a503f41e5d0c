use crate::memory::{put16, Memory};
use vstd::prelude::*;

verus! {

/// A key of the host's keyboard.
#[derive(Clone, Copy, Debug, PartialEq, Eq, Structural)]
pub enum Key {
    Key0,
    Key1,
    Key2,
    Key3,
    Key4,
    Key5,
    Key6,
    Key7,
    Key8,
    Key9,
    A,
    B,
    C,
    D,
    E,
    F,
    G,
    H,
    I,
    J,
    K,
    L,
    M,
    N,
    O,
    P,
    Q,
    R,
    S,
    T,
    U,
    V,
    W,
    X,
    Y,
    Z,
    F1,
    F2,
    F3,
    F4,
    F5,
    F6,
    F7,
    F8,
    F9,
    F10,
    F11,
    F12,
    F13,
    F14,
    F15,
    Down,
    Left,
    Right,
    Up,
    Apostrophe,
    Backquote,
    Backslash,
    Comma,
    Equal,
    LeftBracket,
    Minus,
    Period,
    RightBracket,
    Semicolon,
    Slash,
    Backspace,
    Delete,
    End,
    Enter,
    Escape,
    Home,
    Insert,
    Menu,
    PageDown,
    PageUp,
    Pause,
    Space,
    Tab,
    NumLock,
    CapsLock,
    ScrollLock,
    LeftShift,
    RightShift,
    LeftCtrl,
    RightCtrl,
    NumPad0,
    NumPad1,
    NumPad2,
    NumPad3,
    NumPad4,
    NumPad5,
    NumPad6,
    NumPad7,
    NumPad8,
    NumPad9,
    NumPadDot,
    NumPadSlash,
    NumPadAsterisk,
    NumPadMinus,
    NumPadPlus,
    NumPadEnter,
    LeftAlt,
    RightAlt,
    LeftSuper,
    RightSuper,
    Unknown,
    Count,
}

/// The place on the 16-key pad that a key of the host stands for, if it
/// stands for one.
pub open spec fn key_index(key: Key) -> Option<u8> {
    match key {
        Key::Key1 => Some(0x1u8),
        Key::Key2 => Some(0x2u8),
        Key::Key3 => Some(0x3u8),
        Key::Key4 => Some(0xCu8),
        Key::Q => Some(0x4u8),
        Key::W => Some(0x5u8),
        Key::E => Some(0x6u8),
        Key::R => Some(0xDu8),
        Key::A => Some(0x7u8),
        Key::S => Some(0x8u8),
        Key::D => Some(0x9u8),
        Key::F => Some(0xEu8),
        Key::Z => Some(0xAu8),
        Key::X => Some(0x0u8),
        Key::C => Some(0xBu8),
        Key::V => Some(0xFu8),
        _ => None,
    }
}

/// In `mask`, the bit of pad key `index` is set.
pub open spec fn key_held(mask: u16, index: u8) -> bool {
    mask & (1u16 << index) != 0
}

/// The mask of the first `n` pad keys: bit `i` is set where `keys[i]`
/// says that key `i` is held.
pub open spec fn keys_mask(keys: Seq<bool>, n: nat) -> u16
    decreases n,
{
    if n == 0 {
        0
    } else if keys[n - 1] {
        keys_mask(keys, (n - 1) as nat) | (1u16 << ((n - 1) as u8))
    } else {
        keys_mask(keys, (n - 1) as nat)
    }
}

/// In the mask of the first `n` pad keys, a key's bit is set exactly
/// where the key is among them and held.
pub proof fn lemma_keys_mask_bits(keys: Seq<bool>, n: nat, index: u8)
    requires
        n <= 16,
        index < 16,
    ensures
        key_held(keys_mask(keys, n), index) == (index < n && keys[index as int]),
    decreases n,
{
    if n == 0 {
        assert(0u16 & (1u16 << index) == 0) by (bit_vector);
    } else {
        lemma_keys_mask_bits(keys, (n - 1) as nat, index);
        let before = keys_mask(keys, (n - 1) as nat);
        let last = (n - 1) as u8;
        if keys[n - 1] {
            let after = before | (1u16 << last);
            assert((after & (1u16 << index) != 0) == (index == last || (before & (1u16 << index)
                != 0))) by (bit_vector)
                requires
                    after == before | (1u16 << last),
                    last < 16,
                    index < 16,
            ;
        }
    }
}

/// One of `keys` stands for pad key `index`.
pub open spec fn names(keys: Seq<Key>, index: u8) -> bool {
    exists|j: int| 0 <= j < keys.len() && key_index(#[trigger] keys[j]) == Some(index)
}

/// The first `k + 1` keys name what the first `k` name, and what the
/// key after them stands for.
proof fn lemma_names_next(keys: Seq<Key>, k: int, index: u8)
    requires
        0 <= k < keys.len(),
    ensures
        names(keys.take(k + 1), index) == (names(keys.take(k), index) || key_index(keys[k])
            == Some(index)),
{
    let longer = keys.take(k + 1);
    let shorter = keys.take(k);
    if names(shorter, index) {
        let j = choose|j: int| 0 <= j < shorter.len() && key_index(#[trigger] shorter[j]) == Some(index);
        assert(longer[j] == shorter[j]);
    }
    if key_index(keys[k]) == Some(index) {
        assert(longer[k] == keys[k]);
    }
    if names(longer, index) {
        let j = choose|j: int| 0 <= j < longer.len() && key_index(#[trigger] longer[j]) == Some(index);
        if j < k {
            assert(shorter[j] == longer[j]);
        }
    }
}

/// Keeps the 16 bits of the keypad, and stores them in memory where it
/// has been told to.
pub struct KeyboardHandler {
    keyboard_state: u16,
    memory_register_addr: Option<usize>,
}

impl KeyboardHandler {
    /// The bits of the keys that are held.
    pub closed spec fn state(&self) -> u16 {
        self.keyboard_state
    }

    /// Where the bits are stored in memory, once that has been said.
    pub closed spec fn register(&self) -> Option<usize> {
        self.memory_register_addr
    }

    /// A handler with no key held, that stores nothing yet.
    pub fn new() -> (handler: KeyboardHandler)
        ensures
            handler.state() == 0,
            handler.register() is None,
    {
        KeyboardHandler { keyboard_state: 0, memory_register_addr: None }
    }

    /// From now on the bits are stored at `memory_register_addr`.
    pub fn attach_memory(&mut self, memory_register_addr: usize)
        ensures
            final(self).state() == old(self).state(),
            final(self).register() == Some(memory_register_addr),
    {
        self.memory_register_addr = Some(memory_register_addr);
    }

    /// Where the bits are stored in memory, once that has been said.
    pub fn memory_register_addr(&self) -> (addr: Option<usize>)
        ensures
            addr == self.register(),
    {
        self.memory_register_addr
    }

    /// The bits of the keys that are held.
    pub fn keyboard_state(&self) -> (mask: u16)
        ensures
            mask == self.state(),
    {
        self.keyboard_state
    }

    /// Takes in the keys that went down and the keys that came up since
    /// the last call: a pad key is held afterwards if it did not come
    /// up, and either went down or was held before. The bits are then
    /// stored in `memory`, where a register has been attached.
    pub fn handle_events(&mut self, pressed: &[Key], released: &[Key], memory: &mut Memory)
        requires
            old(self).register() matches Some(addr) ==> addr + 2 <= old(memory)@.len(),
        ensures
            final(self).register() == old(self).register(),
            forall|index: u8|
                index < 16 ==> #[trigger] key_held(final(self).state(), index) == (!names(
                    released@,
                    index,
                ) && (names(pressed@, index) || key_held(old(self).state(), index))),
            final(memory)@ == match old(self).register() {
                Some(addr) => put16(old(memory)@, addr as int, final(self).state() as int),
                None => old(memory)@,
            },
    {
        let mut i: usize = 0;
        while i < pressed.len()
            invariant
                i <= pressed@.len(),
                self.memory_register_addr == old(self).memory_register_addr,
                forall|index: u8|
                    index < 16 ==> #[trigger] key_held(self.keyboard_state, index) == (names(
                        pressed@.take(i as int),
                        index,
                    ) || key_held(old(self).keyboard_state, index)),
            decreases pressed@.len() - i,
        {
            let ghost before = self.keyboard_state;
            if let Some(hex) = Self::key_to_hex(pressed[i]) {
                self.keyboard_state |= 1 << hex;
                assert forall|index: u8| index < 16 implies #[trigger] key_held(
                    self.keyboard_state,
                    index,
                ) == (index == hex || key_held(before, index)) by {
                    let after = self.keyboard_state;
                    assert((after & (1u16 << index) != 0) == (index == hex || (before & (1u16
                        << index) != 0))) by (bit_vector)
                        requires
                            after == before | (1u16 << hex),
                            hex < 16,
                            index < 16,
                    ;
                }
            }
            proof {
                assert forall|index: u8| index < 16 implies #[trigger] key_held(
                    self.keyboard_state,
                    index,
                ) == (names(pressed@.take(i + 1), index) || key_held(
                    old(self).keyboard_state,
                    index,
                )) by {
                    lemma_names_next(pressed@, i as int, index);
                }
            }
            i += 1;
        }
        assert(pressed@.take(pressed@.len() as int) =~= pressed@);
        let ghost down = self.keyboard_state;
        let mut i: usize = 0;
        while i < released.len()
            invariant
                i <= released@.len(),
                self.memory_register_addr == old(self).memory_register_addr,
                forall|index: u8|
                    index < 16 ==> #[trigger] key_held(self.keyboard_state, index) == (!names(
                        released@.take(i as int),
                        index,
                    ) && key_held(down, index)),
            decreases released@.len() - i,
        {
            let ghost before = self.keyboard_state;
            if let Some(hex) = Self::key_to_hex(released[i]) {
                self.keyboard_state &= !(1 << hex);
                assert forall|index: u8| index < 16 implies #[trigger] key_held(
                    self.keyboard_state,
                    index,
                ) == (index != hex && key_held(before, index)) by {
                    let after = self.keyboard_state;
                    assert((after & (1u16 << index) != 0) == (index != hex && (before & (1u16
                        << index) != 0))) by (bit_vector)
                        requires
                            after == before & !(1u16 << hex),
                            hex < 16,
                            index < 16,
                    ;
                }
            }
            proof {
                assert forall|index: u8| index < 16 implies #[trigger] key_held(
                    self.keyboard_state,
                    index,
                ) == (!names(released@.take(i + 1), index) && key_held(down, index)) by {
                    lemma_names_next(released@, i as int, index);
                }
            }
            i += 1;
        }
        assert(released@.take(released@.len() as int) =~= released@);
        if let Some(addr) = self.memory_register_addr {
            memory.write_16_bits(addr, self.keyboard_state);
        }
    }

    /// The place on the 16-key pad that a key of the host stands for, if
    /// it stands for one.
    pub fn key_to_hex(key: Key) -> (hex: Option<u8>)
        ensures
            hex == key_index(key),
            hex matches Some(index) ==> index < 16,
    {
        match key {
            Key::Key1 => Some(0x1),
            Key::Key2 => Some(0x2),
            Key::Key3 => Some(0x3),
            Key::Key4 => Some(0xC),
            Key::Q => Some(0x4),
            Key::W => Some(0x5),
            Key::E => Some(0x6),
            Key::R => Some(0xD),
            Key::A => Some(0x7),
            Key::S => Some(0x8),
            Key::D => Some(0x9),
            Key::F => Some(0xE),
            Key::Z => Some(0xA),
            Key::X => Some(0x0),
            Key::C => Some(0xB),
            Key::V => Some(0xF),
            _ => None,
        }
    }
}

} // verus!
