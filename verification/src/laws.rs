//! What holds of the register arithmetic and of the operations on pins,
//! stated over the model of the register block.

use crate::block::{Access, RegisterBlock};
use crate::field::{
    lemma_field_round_trip, lemma_field_write_keeps_others, spec_read_field, spec_write_field,
};
use crate::layout::{
    spec_bank_bit, spec_clear_register, spec_level_register, spec_pull_clock_register,
    spec_select_register, spec_select_shift, spec_set_register, PULLUPDN_OFFSET, PULL_BITS,
    REGISTER_COUNT, SELECT_BITS,
};
use crate::pin::{Direction, Pud, Status};
use vstd::prelude::*;

verus! {

/// The pull-clock register of a pin is register 38 for pins 0 to 31 and
/// register 39 for pins 32 to 53.
pub proof fn pull_clock_register_by_bank(pin: u32)
    ensures
        pin <= 31 ==> spec_pull_clock_register(pin) == 38,
        32 <= pin <= 53 ==> spec_pull_clock_register(pin) == 39,
{
}

/// The set, clear and level registers of a pin are registers 7, 10 and 13
/// for pins 0 to 31, and registers 8, 11 and 14 for pins 32 to 53.
pub proof fn drive_and_level_registers_by_bank(pin: u32)
    ensures
        pin <= 31 ==> spec_set_register(pin) == 7 && spec_clear_register(pin) == 10
            && spec_level_register(pin) == 13,
        32 <= pin <= 53 ==> spec_set_register(pin) == 8 && spec_clear_register(pin) == 11
            && spec_level_register(pin) == 14,
{
}

/// Which pins have each of their registers within the block. Every register
/// of a pin up to 53 lies within it, so no operation on such a pin fails.
pub proof fn registers_within_block(pin: u32)
    ensures
        spec_select_register(pin) < REGISTER_COUNT <==> pin < 10240,
        spec_pull_clock_register(pin) < REGISTER_COUNT <==> pin < 31552,
        spec_level_register(pin) < REGISTER_COUNT <==> pin < 32352,
        spec_clear_register(pin) < REGISTER_COUNT <==> pin < 32448,
        spec_set_register(pin) < REGISTER_COUNT <==> pin < 32544,
{
}

/// The word written to a banked register for a pin has exactly one bit set,
/// the pin's, and so is never zero.
pub proof fn bank_bit_is_one_bit(pin: u32)
    ensures
        spec_bank_bit(pin) != 0,
        spec_bank_bit(pin) & ((spec_bank_bit(pin) - 1) as u32) == 0,
        spec_read_field(spec_bank_bit(pin), (pin % 32) as u32, 1) == 1,
{
    let shift: u32 = (pin % 32) as u32;
    assert((1u32 << shift) != 0 && (1u32 << shift) & (((1u32 << shift) - 1) as u32) == 0 && ((1u32
        << shift) >> shift) & !(0xffff_ffffu32 << 1u32) == 1) by (bit_vector)
        requires
            shift < 32,
    ;
}

/// Once the latch sequence has run for a pin, whatever the pull mode, the
/// pull-mode field of the pull-control register is zero again, the pin's
/// clock register is zero, the other bits of the pull-control register are
/// as before, and no other register has changed.
pub proof fn set_pull_returns_to_neutral(block: RegisterBlock, pin: u32, pud: Pud)
    requires
        block.registers.len() == REGISTER_COUNT,
        spec_pull_clock_register(pin) < REGISTER_COUNT,
    ensures
        spec_read_field(
            block.set_pull(pin, pud).registers[PULLUPDN_OFFSET as int],
            0,
            PULL_BITS,
        ) == 0,
        block.set_pull(pin, pud).registers[PULLUPDN_OFFSET as int] & 3 == 0,
        block.set_pull(pin, pud).registers[PULLUPDN_OFFSET as int]
            == block.registers[PULLUPDN_OFFSET as int] & !3u32,
        block.set_pull(pin, pud).registers[spec_pull_clock_register(pin) as int] == 0,
        forall|i: int|
            0 <= i < REGISTER_COUNT && i != PULLUPDN_OFFSET && i != spec_pull_clock_register(pin)
                ==> block.set_pull(pin, pud).registers[i] == block.registers[i],
{
    let orig: u32 = block.registers[PULLUPDN_OFFSET as int];
    let code: u32 = pud.spec_code();
    let staged: u32 = spec_write_field(orig, 0, PULL_BITS, code);
    let neutral: u32 = spec_write_field(staged, 0, PULL_BITS, 0);
    assert(block.set_pull(pin, pud).registers[PULLUPDN_OFFSET as int] == neutral);
    assert({
        let s = (orig & !(!(0xffff_ffffu32 << 2u32) << 0u32)) | ((code & !(0xffff_ffffu32 << 2u32))
            << 0u32);
        let n = (s & !(!(0xffff_ffffu32 << 2u32) << 0u32)) | ((0u32 & !(0xffff_ffffu32 << 2u32))
            << 0u32);
        n & 3 == 0 && n == orig & !3u32 && (n >> 0u32) & !(0xffff_ffffu32 << 2u32) == 0
    }) by (bit_vector);
}

/// The latch sequence is exactly six accesses, in this order: read the
/// pull-control register, write it with the mode staged, write the pin's
/// bit to its clock register, read the pull-control register, write it with
/// the mode cleared, write zero to the clock register.
pub proof fn set_pull_is_six_accesses(block: RegisterBlock, pin: u32, pud: Pud)
    requires
        block.registers.len() == REGISTER_COUNT,
        spec_pull_clock_register(pin) < REGISTER_COUNT,
    ensures
        block.set_pull(pin, pud).accesses == block.accesses + seq![
            Access::Read { index: PULLUPDN_OFFSET },
            Access::Write {
                index: PULLUPDN_OFFSET,
                value: (block.registers[PULLUPDN_OFFSET as int] & !3u32) | pud.spec_code(),
            },
            Access::Write { index: spec_pull_clock_register(pin), value: spec_bank_bit(pin) },
            Access::Read { index: PULLUPDN_OFFSET },
            Access::Write {
                index: PULLUPDN_OFFSET,
                value: block.registers[PULLUPDN_OFFSET as int] & !3u32,
            },
            Access::Write { index: spec_pull_clock_register(pin), value: 0 },
        ],
{
    let orig: u32 = block.registers[PULLUPDN_OFFSET as int];
    let code: u32 = pud.spec_code();
    let staged: u32 = spec_write_field(orig, 0, PULL_BITS, code);
    let neutral: u32 = spec_write_field(staged, 0, PULL_BITS, 0);
    assert({
        let s = (orig & !(!(0xffff_ffffu32 << 2u32) << 0u32)) | ((code & !(0xffff_ffffu32 << 2u32))
            << 0u32);
        let n = (s & !(!(0xffff_ffffu32 << 2u32) << 0u32)) | ((0u32 & !(0xffff_ffffu32 << 2u32))
            << 0u32);
        s == (orig & !3u32) | code && n == orig & !3u32
    }) by (bit_vector)
        requires
            code <= 2,
    ;
    assert(staged == (orig & !3u32) | code);
    assert(neutral == orig & !3u32);
    let after = block.set_pull(pin, pud);
    assert(after.accesses =~= block.accesses + seq![
        Access::Read { index: PULLUPDN_OFFSET },
        Access::Write { index: PULLUPDN_OFFSET, value: staged },
        Access::Write { index: spec_pull_clock_register(pin), value: spec_bank_bit(pin) },
        Access::Read { index: PULLUPDN_OFFSET },
        Access::Write { index: PULLUPDN_OFFSET, value: neutral },
        Access::Write { index: spec_pull_clock_register(pin), value: 0 },
    ]);
}

/// Setting the direction of a pin replaces only that pin's three-bit field:
/// the field of every other pin of the same function-select register reads
/// as before, and no other register changes.
pub proof fn select_keeps_other_pins(
    block: RegisterBlock,
    pin: u32,
    direction: Direction,
    other: u32,
)
    requires
        block.registers.len() == REGISTER_COUNT,
        spec_select_register(pin) < REGISTER_COUNT,
        other != pin,
        spec_select_register(other) == spec_select_register(pin),
    ensures
        spec_read_field(
            block.select(pin, direction).registers[spec_select_register(other) as int],
            spec_select_shift(other),
            SELECT_BITS,
        ) == spec_read_field(
            block.registers[spec_select_register(other) as int],
            spec_select_shift(other),
            SELECT_BITS,
        ),
        forall|i: int|
            0 <= i < REGISTER_COUNT && i != spec_select_register(pin) ==> block.select(
                pin,
                direction,
            ).registers[i] == block.registers[i],
{
    lemma_field_write_keeps_others(
        block.registers[spec_select_register(pin) as int],
        spec_select_shift(pin),
        SELECT_BITS,
        direction.spec_code(),
        spec_select_shift(other),
        SELECT_BITS,
    );
}

/// After the direction of a pin was set, the pin's three-bit field in its
/// function-select register reads as the code of that direction.
pub proof fn select_round_trip(block: RegisterBlock, pin: u32, direction: Direction)
    requires
        block.registers.len() == REGISTER_COUNT,
        spec_select_register(pin) < REGISTER_COUNT,
    ensures
        spec_read_field(
            block.select(pin, direction).registers[spec_select_register(pin) as int],
            spec_select_shift(pin),
            SELECT_BITS,
        ) == direction.spec_code(),
{
    let code: u32 = direction.spec_code();
    lemma_field_round_trip(
        block.registers[spec_select_register(pin) as int],
        spec_select_shift(pin),
        SELECT_BITS,
        code,
    );
    assert(code & !(0xffff_ffffu32 << 3u32) == code) by (bit_vector)
        requires
            code <= 1,
    ;
}

/// After a pin was set up, whatever the pull mode, the pin's three-bit
/// field in its function-select register reads as the code of the direction
/// it was given.
pub proof fn setup_round_trip(block: RegisterBlock, pin: u32, direction: Direction, pud: Pud)
    requires
        block.registers.len() == REGISTER_COUNT,
        spec_select_register(pin) < REGISTER_COUNT,
    ensures
        spec_read_field(
            block.setup(pin, direction, pud).registers[spec_select_register(pin) as int],
            spec_select_shift(pin),
            SELECT_BITS,
        ) == direction.spec_code(),
{
    select_round_trip(block.set_pull(pin, pud), pin, direction);
}

/// Setting up a pin leaves the three-bit field of every other pin of the
/// same function-select register as it was, unless that register is one of
/// the two that the latch sequence itself writes.
pub proof fn setup_keeps_other_pins(
    block: RegisterBlock,
    pin: u32,
    direction: Direction,
    pud: Pud,
    other: u32,
)
    requires
        block.registers.len() == REGISTER_COUNT,
        spec_select_register(pin) < REGISTER_COUNT,
        spec_select_register(pin) != PULLUPDN_OFFSET,
        spec_select_register(pin) != spec_pull_clock_register(pin),
        other != pin,
        spec_select_register(other) == spec_select_register(pin),
    ensures
        spec_read_field(
            block.setup(pin, direction, pud).registers[spec_select_register(other) as int],
            spec_select_shift(other),
            SELECT_BITS,
        ) == spec_read_field(
            block.registers[spec_select_register(other) as int],
            spec_select_shift(other),
            SELECT_BITS,
        ),
{
    set_pull_returns_to_neutral(block, pin, pud);
    select_keeps_other_pins(block.set_pull(pin, pud), pin, direction, other);
}

/// Reading the level of a pin changes no register, and the one access made
/// is the read of the pin's level register.
pub proof fn input_writes_nothing(block: RegisterBlock, pin: u32)
    ensures
        block.input(pin).registers == block.registers,
        block.input(pin).accesses == block.accesses.push(
            Access::Read { index: spec_level_register(pin) },
        ),
{
}

/// Driving a pin low writes to its clear register and to nothing else;
/// driving it high writes to its set register and to nothing else. The two
/// registers are never the same, and the one access made is that write.
pub proof fn output_writes_one_register(block: RegisterBlock, pin: u32, status: Status)
    requires
        block.registers.len() == REGISTER_COUNT,
        RegisterBlock::drive_register(pin, status) < REGISTER_COUNT,
    ensures
        spec_set_register(pin) != spec_clear_register(pin),
        status == Status::Low ==> RegisterBlock::drive_register(pin, status)
            == spec_clear_register(pin),
        status == Status::High ==> RegisterBlock::drive_register(pin, status) == spec_set_register(
            pin,
        ),
        block.output(pin, status).accesses == block.accesses.push(
            Access::Write {
                index: RegisterBlock::drive_register(pin, status),
                value: spec_bank_bit(pin),
            },
        ),
        block.output(pin, status).registers[RegisterBlock::drive_register(pin, status) as int]
            == spec_bank_bit(pin),
        forall|i: int|
            0 <= i < REGISTER_COUNT && i != RegisterBlock::drive_register(pin, status)
                ==> block.output(pin, status).registers[i] == block.registers[i],
{
}

} // verus!
