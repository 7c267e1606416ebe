//! The extended (bit-manipulation) opcode page, dispatched from the
//! CB-prefix byte of the primary table and verified against
//! [`crate::step::spec_cb`].

use vstd::prelude::*;

use crate::alu::{alu_bit, alu_rlc, alu_sla, alu_swap};
use crate::cpu::{machine, Cpu};
use crate::mmu::{read_byte, write_byte, Memory};
use crate::step::{spec_cb, Fault, StepResult};

verus! {

impl Cpu {
    /// Decodes and executes one opcode of the extended page, returning its
    /// m-cycle cost; an opcode with no table entry is a fault naming the
    /// byte.
    pub fn cb_prefix(&mut self, opcode: u8, mem: &mut Memory) -> (r: Result<u16, Fault>)
        ensures
            ({
                let post = machine(*final(self), final(mem)@);
                match spec_cb(machine(*old(self), old(mem)@), opcode) {
                    StepResult::Step { m, cycles } => r == Ok::<u16, Fault>(cycles) && post == m,
                    StepResult::Fault { m, fault } => r == Err::<u16, Fault>(fault) && post == m,
                }
            }),
    {
        if opcode == 0x06 {
            // RLC (HL)
            let adr = self.reg.hl();
            let val = alu_rlc(&mut self.reg, read_byte(adr, mem));
            write_byte(adr, val, mem);
            Ok(4)
        } else if opcode == 0x27 {
            // SLA A
            let n = self.reg.a;
            let val = alu_sla(&mut self.reg, n);
            self.reg.a = val;
            Ok(2)
        } else if opcode == 0x37 {
            // SWAP A
            let n = self.reg.a;
            self.reg.a = alu_swap(&mut self.reg, n);
            Ok(2)
        } else if opcode == 0x41 {
            // BIT 0, C
            let r = self.reg.c;
            alu_bit(&mut self.reg, 0, r);
            Ok(2)
        } else if opcode == 0x6F {
            // BIT 5, A
            let r = self.reg.a;
            alu_bit(&mut self.reg, 5, r);
            Ok(2)
        } else if opcode == 0x77 {
            // BIT 6, A
            let r = self.reg.a;
            alu_bit(&mut self.reg, 6, r);
            Ok(2)
        } else if opcode == 0x87 {
            // RES 0, A
            self.reg.a = self.reg.a & 0xFE;
            Ok(2)
        } else if opcode == 0xFE {
            // SET 7, (HL)
            let adr = self.reg.hl();
            let val = read_byte(adr, mem) | 0x80;
            write_byte(adr, val, mem);
            Ok(4)
        } else {
            Err(Fault::UnknownExtendedOpcode { opcode })
        }
    }
}

} // verus!
