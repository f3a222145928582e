//! The handle on the register block and the operations on pins.

use crate::block::{registers_of, Access, RegisterBlock};
use crate::error::GpioError;
use crate::field::write_field;
use crate::layout::{
    bank_bit, clear_register, level_register, pull_clock_register, select_register, select_shift,
    set_register, BLOCK_SIZE, PULLUPDN_OFFSET, PULL_BITS, REGISTER_COUNT, SELECT_BITS,
};
use crate::mapping::{bytes, bytes_mut, mapped_bytes};
use crate::pin::{Direction, Pud, Status};
use crate::word::{bytes_of_word, lemma_word_round_trip, read_u32, write_u32};
use memmap::MmapMut;
use vstd::prelude::*;

verus! {

/// Exclusive owner of the mapped register block.
///
/// Its view is the model of the block: what each of its registers holds,
/// and every access made through this handle since it was created, oldest
/// first. The region it owns is unmapped when the handle is dropped.
pub struct Gpio {
    map: MmapMut,
    log: Ghost<Seq<Access>>,
}

impl View for Gpio {
    type V = RegisterBlock;

    closed spec fn view(&self) -> RegisterBlock {
        RegisterBlock { registers: registers_of(mapped_bytes(self.map)), accesses: self.log@ }
    }
}

impl Gpio {
    #[verifier::type_invariant]
    spec fn maps_one_block(&self) -> bool {
        mapped_bytes(self.map).len() == BLOCK_SIZE
    }

    /// A handle has a register at every index below the register count.
    pub proof fn has_all_registers(&self)
        ensures
            self@.registers.len() == REGISTER_COUNT,
    {
    }

    /// Takes ownership of a mapped region as the register block. The region
    /// must be exactly one block long; any other is refused. No access has
    /// been made through a new handle.
    pub fn new(map: MmapMut) -> (made: Result<Gpio, GpioError>)
        ensures
            made is Ok <==> mapped_bytes(map).len() == BLOCK_SIZE,
            made matches Ok(gpio) ==> gpio@.registers == registers_of(mapped_bytes(map))
                && gpio@.accesses == Seq::<Access>::empty(),
            made matches Err(e) ==> e == GpioError::BadLength,
    {
        if bytes(&map).len() != BLOCK_SIZE {
            return Err(GpioError::BadLength);
        }
        Ok(Gpio { map, log: Ghost(Seq::empty()) })
    }

    /// Gives the mapped region back, holding what the registers hold.
    pub fn into_map(self) -> (map: MmapMut)
        ensures
            mapped_bytes(map).len() == BLOCK_SIZE,
            registers_of(mapped_bytes(map)) == self@.registers,
    {
        proof {
            use_type_invariant(&self);
        }
        self.map
    }

    /// Reads the register at `index`: the little-endian word at byte offset
    /// `4 * index` of the block. Fails, without an access, when the block has
    /// no such register.
    pub fn read_register(&mut self, index: u32) -> (got: Result<u32, GpioError>)
        ensures
            final(self)@.registers.len() == REGISTER_COUNT,
            index < REGISTER_COUNT ==> got == Ok::<u32, GpioError>(old(self)@.registers[index as int])
                && final(self)@ == old(self)@.read(index),
            index >= REGISTER_COUNT ==> got == Err::<u32, GpioError>(GpioError::OutOfBounds)
                && final(self)@ == old(self)@,
    {
        if index >= REGISTER_COUNT {
            return Err(GpioError::OutOfBounds);
        }
        proof {
            use_type_invariant(&*self);
        }
        let offset: usize = index as usize * 4;
        let region = bytes(&self.map);
        let value = read_u32(&region[offset..offset + 4]);
        self.log = Ghost(self.log@.push(Access::Read { index }));
        Ok(value)
    }

    /// Writes `value` to the register at `index`, as a little-endian word at
    /// byte offset `4 * index` of the block; no other register changes.
    /// Fails, without an access, when the block has no such register.
    pub fn write_register(&mut self, index: u32, value: u32) -> (done: Result<(), GpioError>)
        ensures
            final(self)@.registers.len() == REGISTER_COUNT,
            index < REGISTER_COUNT ==> done == Ok::<(), GpioError>(()) && final(self)@ == old(
                self,
            )@.write(index, value),
            index >= REGISTER_COUNT ==> done == Err::<(), GpioError>(GpioError::OutOfBounds)
                && final(self)@ == old(self)@,
    {
        if index >= REGISTER_COUNT {
            return Err(GpioError::OutOfBounds);
        }
        proof {
            use_type_invariant(&*self);
        }
        let offset: usize = index as usize * 4;
        let ghost before = mapped_bytes(self.map);
        let region = bytes_mut(&mut self.map);
        let (_head, tail) = region.split_at_mut(offset);
        let (word, _rest) = tail.split_at_mut(4);
        write_u32(word, value);
        self.log = Ghost(self.log@.push(Access::Write { index, value }));
        proof {
            let after = mapped_bytes(self.map);
            assert(after =~= before.subrange(0, offset as int) + bytes_of_word(value)
                + before.subrange(offset + 4, BLOCK_SIZE as int));
            lemma_word_round_trip(value);
            assert forall|i: int| 0 <= i < REGISTER_COUNT implies #[trigger] registers_of(after)[i]
                == registers_of(before).update(index as int, value)[i] by {
                if i == index {
                    assert(after.subrange(4 * i, 4 * i + 4) =~= bytes_of_word(value));
                } else {
                    assert(after.subrange(4 * i, 4 * i + 4) =~= before.subrange(4 * i, 4 * i + 4));
                }
            }
            assert(registers_of(after) =~= registers_of(before).update(index as int, value));
        }
        Ok(())
    }

    /// Reads the pull-control register and writes it back with its pull-mode
    /// field replaced by `code`. The register lies within every block, so
    /// this cannot fail.
    fn stage_pull(&mut self, code: u32) -> (done: Result<(), GpioError>)
        ensures
            done == Ok::<(), GpioError>(()),
            final(self)@ == old(self)@.stage_pull(code),
            final(self)@.registers.len() == REGISTER_COUNT,
    {
        let orig: u32 = self.read_register(PULLUPDN_OFFSET)?;
        self.write_register(PULLUPDN_OFFSET, write_field(orig, 0, PULL_BITS, code))
    }

    /// Gives `pin` the pull mode `pud` by the latch sequence: stage the mode
    /// in the pull-control register, strobe the pin's bit in its clock
    /// register, clear the staged mode, take the strobe back.
    ///
    /// Fails when the pin's clock register lies outside the block; the mode
    /// is then left staged.
    pub fn set_pullupdn(&mut self, pin: u32, pud: Pud) -> (done: Result<(), GpioError>)
        ensures
            final(self)@.registers.len() == REGISTER_COUNT,
            pull_clock_register(pin) < REGISTER_COUNT ==> done == Ok::<(), GpioError>(())
                && final(self)@ == old(self)@.set_pull(pin, pud),
            pull_clock_register(pin) >= REGISTER_COUNT ==> done == Err::<(), GpioError>(
                GpioError::OutOfBounds,
            ) && final(self)@ == old(self)@.stage_pull(pud.code()),
    {
        let clk_offset: u32 = pull_clock_register(pin);
        let strobe: u32 = bank_bit(pin);

        self.stage_pull(pud.code())?;
        self.write_register(clk_offset, strobe)?;
        self.stage_pull(0)?;
        self.write_register(clk_offset, 0)
    }

    /// Configures `pin`: first its pull mode, by the latch sequence, then
    /// its direction, by replacing the pin's field in its function-select
    /// register.
    ///
    /// Fails when a register of the pin lies outside the block. What was
    /// written before the failing access stays written.
    pub fn setup(&mut self, pin: u32, direction: Direction, pud: Pud) -> (done: Result<
        (),
        GpioError,
    >)
        ensures
            final(self)@.registers.len() == REGISTER_COUNT,
            select_register(pin) < REGISTER_COUNT ==> done == Ok::<(), GpioError>(())
                && final(self)@ == old(self)@.setup(pin, direction, pud),
            select_register(pin) >= REGISTER_COUNT && pull_clock_register(pin) < REGISTER_COUNT
                ==> done == Err::<(), GpioError>(GpioError::OutOfBounds) && final(self)@ == old(
                self,
            )@.set_pull(pin, pud),
            pull_clock_register(pin) >= REGISTER_COUNT ==> done == Err::<(), GpioError>(
                GpioError::OutOfBounds,
            ) && final(self)@ == old(self)@.stage_pull(pud.code()),
    {
        let offset: u32 = select_register(pin);
        let shift: u32 = select_shift(pin);
        self.set_pullupdn(pin, pud)?;

        let orig: u32 = self.read_register(offset)?;
        self.write_register(offset, write_field(orig, shift, SELECT_BITS, direction.code()))
    }

    /// Drives `pin` to `status` by writing the pin's bit, alone, to the
    /// register that drives to that level.
    pub fn output(&mut self, pin: u32, status: Status) -> (done: Result<(), GpioError>)
        ensures
            final(self)@.registers.len() == REGISTER_COUNT,
            RegisterBlock::drive_register(pin, status) < REGISTER_COUNT ==> done == Ok::<
                (),
                GpioError,
            >(()) && final(self)@ == old(self)@.output(pin, status),
            RegisterBlock::drive_register(pin, status) >= REGISTER_COUNT ==> done == Err::<
                (),
                GpioError,
            >(GpioError::OutOfBounds) && final(self)@ == old(self)@,
    {
        let offset: u32 = match status {
            Status::High => set_register(pin),
            Status::Low => clear_register(pin),
        };
        self.write_register(offset, bank_bit(pin))
    }

    /// Reads the level of `pin` from its level register. Nothing is
    /// written.
    pub fn input(&mut self, pin: u32) -> (got: Result<Status, GpioError>)
        ensures
            final(self)@.registers.len() == REGISTER_COUNT,
            level_register(pin) < REGISTER_COUNT ==> got == Ok::<Status, GpioError>(
                old(self)@.level(pin),
            ) && final(self)@ == old(self)@.input(pin),
            level_register(pin) >= REGISTER_COUNT ==> got == Err::<Status, GpioError>(
                GpioError::OutOfBounds,
            ) && final(self)@ == old(self)@,
    {
        let offset: u32 = level_register(pin);
        let mask: u32 = bank_bit(pin);
        let orig: u32 = self.read_register(offset)?;
        Ok(Status::from_bits(orig & mask))
    }
}

} // verus!
