use vstd::prelude::*;

verus! {

/// The five interrupt lines, in priority order.
#[derive(Clone, Copy, Debug, PartialEq, Eq, Structural)]
pub enum Flag {
    VBlank,
    LCDStat,
    Timer,
    Serial,
    Joypad,
}

/// Bit mask of an interrupt line in IF and IE.
pub open spec fn flag_mask(f: Flag) -> u8 {
    match f {
        Flag::VBlank => 0x01,
        Flag::LCDStat => 0x02,
        Flag::Timer => 0x04,
        Flag::Serial => 0x08,
        Flag::Joypad => 0x10,
    }
}

/// The interrupt flag register (IF).
pub struct Intf {
    pub data: u8,
}

impl Intf {
    pub fn power_up() -> (r: Self)
        ensures
            r.data == 0,
    {
        Self { data: 0x00 }
    }

    /// Raises the request bit of `flag`.
    pub fn hi(&mut self, flag: Flag)
        ensures
            final(self).data == old(self).data | flag_mask(flag),
    {
        let m: u8 = match flag {
            Flag::VBlank => 0x01,
            Flag::LCDStat => 0x02,
            Flag::Timer => 0x04,
            Flag::Serial => 0x08,
            Flag::Joypad => 0x10,
        };
        self.data = self.data | m;
    }
}

} // verus!
