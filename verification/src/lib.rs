//! A verified interpreter for Malbolge, the self-modifying ternary
//! esoteric language.
//!
//! The crate is organised as the machine is: [`trits`] holds the two pure
//! numeric primitives (single-trit rotation and the digit-wise "crazy"
//! operation), [`tables`] the two fixed 94-entry translation tables,
//! [`loader`] the validator that turns source bytes into a memory image,
//! and [`machine`] the fetch-decode-execute cycle itself.

pub mod loader;
pub mod machine;
pub mod tables;
pub mod trits;

pub use loader::init;
pub use loader::InitError;
pub use machine::Machine;
pub use machine::RunStatus;
pub use machine::StepResult;
pub use trits::crazy_op;
pub use trits::is_printable;
pub use trits::tri_rotate;
