//! Mathematical definitions of evaluation, read-back and elaboration.
//! Each is a total function of a fuel bound: when a computation would
//! need deeper recursion than the fuel allows, its result is
//! `Err(Error::OutOfFuel)`.
pub mod eval;
pub mod names;
pub mod readback;
pub mod alpha;
pub mod typing;
