//! Where each register lies in the block, and which register and bit a pin
//! falls on.

use vstd::prelude::*;

verus! {

/// Length of the register block in bytes: one memory page.
pub const BLOCK_SIZE: usize = 4096;

/// Number of 32-bit registers in the block.
pub const REGISTER_COUNT: u32 = 1024;

/// First function-select register; each one packs ten pins, three bits each.
pub const FSEL_OFFSET: u32 = 0;

/// First pin-set register; a written bit drives its pin high.
pub const SET_OFFSET: u32 = 7;

/// First pin-clear register; a written bit drives its pin low.
pub const CLR_OFFSET: u32 = 10;

/// First pin-level register; read-only.
pub const PINLEVEL_OFFSET: u32 = 13;

/// The pull-control register, which stages a pull mode in its low two bits.
pub const PULLUPDN_OFFSET: u32 = 37;

/// First pull-clock register; a written bit latches the staged pull mode
/// into its pin.
pub const PULLUPDNCLK_OFFSET: u32 = 38;

/// Pins per banked register.
pub const BANK_PINS: u32 = 32;

/// Pins per function-select register.
pub const SELECT_PINS: u32 = 10;

/// Bits of a pin's function-select field.
pub const SELECT_BITS: u32 = 3;

/// Bits of the pull mode in the pull-control register.
pub const PULL_BITS: u32 = 2;

/// The word with only the pin's bit set, as written to a banked register.
pub open spec fn spec_bank_bit(pin: u32) -> u32 {
    1u32 << (pin % BANK_PINS)
}

/// The word with only the pin's bit set, as written to a banked register.
#[verifier::when_used_as_spec(spec_bank_bit)]
pub fn bank_bit(pin: u32) -> (bit: u32)
    ensures
        bit == spec_bank_bit(pin),
        bit != 0,
{
    let shift: u32 = pin % BANK_PINS;
    assert((1u32 << shift) != 0) by (bit_vector)
        requires
            shift < 32,
    ;
    1u32 << shift
}

/// Index of the register that drives the pin high.
pub open spec fn spec_set_register(pin: u32) -> u32 {
    (SET_OFFSET + pin / BANK_PINS) as u32
}

/// Index of the register that drives the pin high.
#[verifier::when_used_as_spec(spec_set_register)]
pub fn set_register(pin: u32) -> (index: u32)
    ensures
        index == spec_set_register(pin),
        index == 7 + pin / 32,
{
    SET_OFFSET + pin / BANK_PINS
}

/// Index of the register that drives the pin low.
pub open spec fn spec_clear_register(pin: u32) -> u32 {
    (CLR_OFFSET + pin / BANK_PINS) as u32
}

/// Index of the register that drives the pin low.
#[verifier::when_used_as_spec(spec_clear_register)]
pub fn clear_register(pin: u32) -> (index: u32)
    ensures
        index == spec_clear_register(pin),
        index == 10 + pin / 32,
{
    CLR_OFFSET + pin / BANK_PINS
}

/// Index of the register that reports the pin's level.
pub open spec fn spec_level_register(pin: u32) -> u32 {
    (PINLEVEL_OFFSET + pin / BANK_PINS) as u32
}

/// Index of the register that reports the pin's level.
#[verifier::when_used_as_spec(spec_level_register)]
pub fn level_register(pin: u32) -> (index: u32)
    ensures
        index == spec_level_register(pin),
        index == 13 + pin / 32,
{
    PINLEVEL_OFFSET + pin / BANK_PINS
}

/// Index of the register whose strobe latches the pin's pull mode.
pub open spec fn spec_pull_clock_register(pin: u32) -> u32 {
    (PULLUPDNCLK_OFFSET + pin / BANK_PINS) as u32
}

/// Index of the register whose strobe latches the pin's pull mode.
#[verifier::when_used_as_spec(spec_pull_clock_register)]
pub fn pull_clock_register(pin: u32) -> (index: u32)
    ensures
        index == spec_pull_clock_register(pin),
        index == 38 + pin / 32,
{
    PULLUPDNCLK_OFFSET + pin / BANK_PINS
}

/// Index of the function-select register that holds the pin's field.
pub open spec fn spec_select_register(pin: u32) -> u32 {
    (FSEL_OFFSET + pin / SELECT_PINS) as u32
}

/// Index of the function-select register that holds the pin's field.
#[verifier::when_used_as_spec(spec_select_register)]
pub fn select_register(pin: u32) -> (index: u32)
    ensures
        index == spec_select_register(pin),
        index == pin / 10,
{
    FSEL_OFFSET + pin / SELECT_PINS
}

/// Position of the lowest bit of the pin's field in its function-select
/// register.
pub open spec fn spec_select_shift(pin: u32) -> u32 {
    (pin % SELECT_PINS * SELECT_BITS) as u32
}

/// Position of the lowest bit of the pin's field in its function-select
/// register.
#[verifier::when_used_as_spec(spec_select_shift)]
pub fn select_shift(pin: u32) -> (shift: u32)
    ensures
        shift == spec_select_shift(pin),
        shift == (pin % 10) * 3,
        shift <= 27,
{
    (pin % SELECT_PINS) * SELECT_BITS
}

} // verus!
