//! The three small vocabularies of a pin: pull resistor, direction, level.

use vstd::prelude::*;
use vstd::std_specs::convert::FromSpecImpl;

verus! {

/// State of a pin's internal pull resistor.
#[derive(Clone, Copy, Debug, PartialEq, Eq, Structural)]
pub enum Pud {
    Off,
    Down,
    Up,
}

/// Whether a pin is driven or sensed.
#[derive(Clone, Copy, Debug, PartialEq, Eq, Structural)]
pub enum Direction {
    Output,
    Input,
}

/// Logic level of a pin.
#[derive(Clone, Copy, Debug, PartialEq, Eq, Structural)]
pub enum Status {
    High,
    Low,
}

impl Pud {
    /// The two-bit value that the pull-control register takes for this mode.
    pub open spec fn spec_code(self) -> u32 {
        match self {
            Pud::Off => 0,
            Pud::Down => 1,
            Pud::Up => 2,
        }
    }

    /// The two-bit value that the pull-control register takes for this mode.
    #[verifier::when_used_as_spec(spec_code)]
    pub fn code(self) -> (c: u32)
        ensures
            c == self.spec_code(),
            c <= 2,
    {
        match self {
            Pud::Off => 0,
            Pud::Down => 1,
            Pud::Up => 2,
        }
    }
}

impl From<Pud> for u32 {
    fn from(pud: Pud) -> (c: u32) {
        pud.code()
    }
}

impl FromSpecImpl<Pud> for u32 {
    open spec fn obeys_from_spec() -> bool {
        true
    }

    open spec fn from_spec(pud: Pud) -> u32 {
        pud.spec_code()
    }
}

impl Direction {
    /// The value of a pin's three-bit function-select field for this direction.
    pub open spec fn spec_code(self) -> u32 {
        match self {
            Direction::Output => 1,
            Direction::Input => 0,
        }
    }

    /// The value of a pin's three-bit function-select field for this direction.
    #[verifier::when_used_as_spec(spec_code)]
    pub fn code(self) -> (c: u32)
        ensures
            c == self.spec_code(),
            c <= 1,
    {
        match self {
            Direction::Output => 1,
            Direction::Input => 0,
        }
    }
}

impl From<Direction> for u32 {
    fn from(direction: Direction) -> (c: u32) {
        direction.code()
    }
}

impl FromSpecImpl<Direction> for u32 {
    open spec fn obeys_from_spec() -> bool {
        true
    }

    open spec fn from_spec(direction: Direction) -> u32 {
        direction.spec_code()
    }
}

impl Status {
    /// The level that a masked register word stands for: low when no bit is
    /// set, high otherwise.
    pub open spec fn spec_from_bits(bits: u32) -> Status {
        if bits == 0 {
            Status::Low
        } else {
            Status::High
        }
    }

    /// The level that a masked register word stands for: low when no bit is
    /// set, high otherwise.
    #[verifier::when_used_as_spec(spec_from_bits)]
    pub fn from_bits(bits: u32) -> (level: Status)
        ensures
            level == Status::spec_from_bits(bits),
    {
        match bits {
            0 => Status::Low,
            _ => Status::High,
        }
    }
}

impl From<u32> for Status {
    fn from(bits: u32) -> (level: Status) {
        Status::from_bits(bits)
    }
}

impl FromSpecImpl<u32> for Status {
    open spec fn obeys_from_spec() -> bool {
        true
    }

    open spec fn from_spec(bits: u32) -> Status {
        Status::spec_from_bits(bits)
    }
}

} // verus!
