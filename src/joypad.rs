use crate::intf::{flag_mask, Flag, Intf};
use vstd::prelude::*;

verus! {

/// The eight buttons.
#[derive(Clone, Copy, Debug, PartialEq, Eq, Structural)]
pub enum JoypadKey {
    Right,
    Left,
    Up,
    Down,
    A,
    B,
    Select,
    Start,
}

/// The bit of the key matrix that holds `k` (directions in the low nibble, buttons in the high one).
pub open spec fn key_mask(k: JoypadKey) -> u8 {
    match k {
        JoypadKey::Right => 0x01,
        JoypadKey::Left => 0x02,
        JoypadKey::Up => 0x04,
        JoypadKey::Down => 0x08,
        JoypadKey::A => 0x10,
        JoypadKey::B => 0x20,
        JoypadKey::Select => 0x40,
        JoypadKey::Start => 0x80,
    }
}

fn key_bit(k: JoypadKey) -> (r: u8)
    ensures
        r == key_mask(k),
{
    match k {
        JoypadKey::Right => 0x01,
        JoypadKey::Left => 0x02,
        JoypadKey::Up => 0x04,
        JoypadKey::Down => 0x08,
        JoypadKey::A => 0x10,
        JoypadKey::B => 0x20,
        JoypadKey::Select => 0x40,
        JoypadKey::Start => 0x80,
    }
}

/// The value read from 0xff00 for a selector and an active-low key matrix.
pub open spec fn joypad_read(select: u8, matrix: u8) -> u8 {
    if select & 0x10 == 0 {
        select | (matrix & 0x0f)
    } else if select & 0x20 == 0 {
        select | (matrix >> 4)
    } else {
        select
    }
}

/// The key matrix (0 = pressed) and the selector written to 0xff00.
pub struct Joypad {
    pub matrix: u8,
    pub select: u8,
}

impl Joypad {
    pub fn power_up() -> (r: Self)
        ensures
            r.matrix == 0xff,
            r.select == 0,
    {
        Self { matrix: 0xff, select: 0x00 }
    }

    /// Presses `key` and requests the Joypad interrupt.
    pub fn keydown(&mut self, intf: &mut Intf, key: JoypadKey)
        ensures
            final(self).matrix == old(self).matrix & !key_mask(key),
            final(self).select == old(self).select,
            final(intf).data == old(intf).data | flag_mask(Flag::Joypad),
    {
        self.matrix = self.matrix & !key_bit(key);
        intf.hi(Flag::Joypad);
    }

    /// Releases `key`.
    pub fn keyup(&mut self, key: JoypadKey)
        ensures
            final(self).matrix == old(self).matrix | key_mask(key),
            final(self).select == old(self).select,
    {
        self.matrix = self.matrix | key_bit(key);
    }

    pub fn get(&self, a: u16) -> (r: u8)
        requires
            a == 0xff00,
        ensures
            r == joypad_read(self.select, self.matrix),
    {
        if (self.select & 0x10) == 0x00 {
            return self.select | (self.matrix & 0x0f);
        }
        if (self.select & 0x20) == 0x00 {
            return self.select | (self.matrix >> 4);
        }
        self.select
    }

    pub fn set(&mut self, a: u16, v: u8)
        requires
            a == 0xff00,
        ensures
            final(self).select == v,
            final(self).matrix == old(self).matrix,
    {
        self.select = v;
    }
}

} // verus!
