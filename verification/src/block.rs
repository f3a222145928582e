//! The mathematical model of the register block: what its registers hold
//! and which accesses were made to it, in order.

use crate::field::spec_write_field;
use crate::layout::{
    spec_bank_bit, spec_clear_register, spec_level_register, spec_pull_clock_register,
    spec_select_register, spec_select_shift, spec_set_register, PULLUPDN_OFFSET, PULL_BITS,
    REGISTER_COUNT, SELECT_BITS,
};
use crate::pin::{Direction, Pud, Status};
use crate::word::word_of_bytes;
use vstd::prelude::*;

verus! {

/// One access to a register of the block.
pub enum Access {
    /// The register at `index` was read.
    Read { index: u32 },
    /// `value` was written to the register at `index`.
    Write { index: u32, value: u32 },
}

/// The registers of a block of bytes: register `i` is the little-endian
/// word at byte offset `4 * i`.
pub open spec fn registers_of(bytes: Seq<u8>) -> Seq<u32> {
    Seq::new(REGISTER_COUNT as nat, |i: int| word_of_bytes(bytes.subrange(4 * i, 4 * i + 4)))
}

/// A register block and the history of accesses to it.
pub struct RegisterBlock {
    /// What each register holds, by index.
    pub registers: Seq<u32>,
    /// Every access made so far, oldest first.
    pub accesses: Seq<Access>,
}

impl RegisterBlock {
    /// The block after the register at `index` was read.
    pub open spec fn read(self, index: u32) -> RegisterBlock {
        RegisterBlock {
            registers: self.registers,
            accesses: self.accesses.push(Access::Read { index }),
        }
    }

    /// The block after `value` was written to the register at `index`.
    pub open spec fn write(self, index: u32, value: u32) -> RegisterBlock {
        RegisterBlock {
            registers: self.registers.update(index as int, value),
            accesses: self.accesses.push(Access::Write { index, value }),
        }
    }

    /// The block after the pull-control register was read and written back
    /// with its pull-mode field replaced by `code`.
    pub open spec fn stage_pull(self, code: u32) -> RegisterBlock {
        self.read(PULLUPDN_OFFSET).write(
            PULLUPDN_OFFSET,
            spec_write_field(self.registers[PULLUPDN_OFFSET as int], 0, PULL_BITS, code),
        )
    }

    /// The block after the latch sequence that gives `pin` the pull mode
    /// `pud`: the mode is staged, the pin's clock bit is strobed, the staged
    /// mode is cleared again, and the strobe is taken back.
    pub open spec fn set_pull(self, pin: u32, pud: Pud) -> RegisterBlock {
        let clock = spec_pull_clock_register(pin);
        self.stage_pull(pud.spec_code()).write(clock, spec_bank_bit(pin)).stage_pull(0).write(
            clock,
            0,
        )
    }

    /// The block after the function-select register of `pin` was read and
    /// written back with the pin's field replaced by the code of `direction`.
    pub open spec fn select(self, pin: u32, direction: Direction) -> RegisterBlock {
        let index = spec_select_register(pin);
        self.read(index).write(
            index,
            spec_write_field(
                self.registers[index as int],
                spec_select_shift(pin),
                SELECT_BITS,
                direction.spec_code(),
            ),
        )
    }

    /// The block after `pin` was given the pull mode `pud` and then the
    /// direction `direction`.
    pub open spec fn setup(self, pin: u32, direction: Direction, pud: Pud) -> RegisterBlock {
        self.set_pull(pin, pud).select(pin, direction)
    }

    /// The register that drives `pin` to `status`.
    pub open spec fn drive_register(pin: u32, status: Status) -> u32 {
        match status {
            Status::High => spec_set_register(pin),
            Status::Low => spec_clear_register(pin),
        }
    }

    /// The block after `pin` was driven to `status`: the pin's bit, alone,
    /// was written to the register that drives to that level.
    pub open spec fn output(self, pin: u32, status: Status) -> RegisterBlock {
        self.write(Self::drive_register(pin, status), spec_bank_bit(pin))
    }

    /// The level of `pin` that the level registers report.
    pub open spec fn level(self, pin: u32) -> Status {
        Status::spec_from_bits(
            self.registers[spec_level_register(pin) as int] & spec_bank_bit(pin),
        )
    }

    /// The block after the level of `pin` was read.
    pub open spec fn input(self, pin: u32) -> RegisterBlock {
        self.read(spec_level_register(pin))
    }
}

} // verus!
