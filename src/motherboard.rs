use crate::cartridge::Cartridge;
use crate::cpu::{next_result, stepped, Cpu, CpuError};
use crate::intf::{flag_mask, Flag};
use crate::joypad::{key_mask, JoypadKey};
use crate::convention::Term;
use crate::mmunit::{advanced, Mmunit, Speed};
use crate::register::Register;
use vstd::prelude::*;

verus! {

/// The whole machine: the CPU and the bus with every device on it.
pub struct MotherBoard {
    pub mmu: Mmunit,
    pub cpu: Cpu,
}

impl MotherBoard {
    pub open spec fn wf(&self) -> bool {
        self.mmu.wf() && self.cpu.wf()
    }

    /// Powers the machine up around a loaded cartridge, in its post-boot state.
    pub fn power_up(cartridge: Cartridge) -> (r: Self)
        requires
            cartridge.wf(),
        ensures
            r.wf(),
            r.cpu.reg == Register::power_up_spec(r.mmu.term),
            !r.cpu.halted && r.cpu.enable_interrupts,
            r.mmu.cartridge == cartridge,
            r.mmu.term == if cartridge.peek(0x0143) & 0x80 == 0x80 { Term::GBC } else { Term::GB },
            r.mmu.speed == Speed::Normal && !r.mmu.shift && r.mmu.inte == 0 && r.mmu.intf.data == 0,
            r.mmu.gpu.lcdc.data == 0x91 && r.mmu.gpu.bgp == 0xfc && r.mmu.timer.tac == 0,
            r.mmu.apu.powered() && r.mmu.apu.reg.nrx0 == 0x77 && r.mmu.apu.reg.nrx1 == 0xf3,
            forall|i: int| 0 <= i < 0x8000 ==> r.mmu.wram@[i] == 0,
            forall|i: int| 0 <= i < 0x7f ==> r.mmu.hram@[i] == 0,
    {
        let mmu = Mmunit::power_up(cartridge);
        let cpu = Cpu::power_up(mmu.term);
        Self { mmu, cpu }
    }

    /// One step: performs an armed speed switch when the next opcode is STOP, runs the CPU for
    /// one instruction (or interrupt, or halted cycle) and advances the devices by its cost.
    pub fn next(&mut self) -> (r: Result<u32, CpuError>)
        requires
            old(self).wf(),
        ensures
            final(self).wf(),
            r is Ok ==> r->Ok_0 <= 96,
            ({
                let m0 = if old(self).mmu.peek(old(self).cpu.reg.pc) == 0x10 {
                    old(self).mmu.stop_switched()
                } else {
                    old(self).mmu
                };
                &&& r == next_result(old(self).cpu, m0)
                &&& final(self).mmu.speed == m0.speed
                &&& (r is Err) ==> stepped(old(self).cpu, m0, final(self).cpu, final(self).mmu, r)
                &&& (r is Ok) ==> (exists|m: Mmunit, g: u32|
                    stepped(old(self).cpu, m0, final(self).cpu, m, r) && #[trigger] advanced(m, final(self).mmu, r->Ok_0, g))
            }),
    {
        if self.mmu.get(self.cpu.reg.pc) == 0x10 {
            self.mmu.switch_speed();
        }
        let ghost m0 = self.mmu;
        let cycles = match self.cpu.next(&mut self.mmu) {
            Ok(c) => c,
            Err(e) => {
                return Err(e);
            },
        };
        let ghost m1 = self.mmu;
        let g = self.mmu.next(cycles);
        assert(advanced(m1, self.mmu, cycles, g));
        Ok(cycles)
    }

    /// Whether a frame was completed since the last call; clears the flag.
    pub fn check_and_reset_gpu_updated(&mut self) -> (r: bool)
        requires
            old(self).wf(),
        ensures
            final(self).wf(),
            r == old(self).mmu.gpu.v_blank,
            !final(self).mmu.gpu.v_blank,
    {
        let result = self.mmu.gpu.v_blank;
        self.mmu.gpu.v_blank = false;
        result
    }

    /// Presses a key and requests the Joypad interrupt.
    pub fn key_down(&mut self, key: JoypadKey)
        requires
            old(self).wf(),
        ensures
            final(self).wf(),
            final(self).mmu.joypad.matrix == old(self).mmu.joypad.matrix & !key_mask(key),
            final(self).mmu.intf.data == old(self).mmu.intf.data | flag_mask(Flag::Joypad),
    {
        self.mmu.joypad.keydown(&mut self.mmu.intf, key);
    }

    /// Releases a key.
    pub fn key_up(&mut self, key: JoypadKey)
        requires
            old(self).wf(),
        ensures
            final(self).wf(),
            final(self).mmu.joypad.matrix == old(self).mmu.joypad.matrix | key_mask(key),
    {
        self.mmu.joypad.keyup(key);
    }
}

} // verus!
