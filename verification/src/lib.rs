//! Control of general-purpose I/O pins through a memory-mapped register block.
//!
//! The register block is one page of 32-bit little-endian words. A pin's
//! direction, pull resistor, output level and input level are all reached by
//! reading and writing words of that page at indices computed from the pin
//! number.
//!
//! [`Gpio`] owns the mapped page and offers the operations on pins. Its
//! contracts are stated over [`RegisterBlock`], the model of the page: what
//! each register holds and the accesses made so far, in order.

pub mod block;
pub mod device;
pub mod error;
pub mod field;
pub mod laws;
pub mod layout;
pub mod mapping;
pub mod pin;
pub mod word;

pub use block::{Access, RegisterBlock};
pub use device::Gpio;
pub use error::GpioError;
pub use pin::{Direction, Pud, Status};
