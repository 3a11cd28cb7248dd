//! Primality over Arrow columns of unsigned 64-bit integers.
//!
//! [`primality`] decides whether a single number is prime, and [`evaluate`]
//! applies that test to every slot of a nullable column, either slot by slot
//! (a mask) or as one verdict for the whole column. [`column`] holds what is
//! taken on trust from the `arrow2` crate, whose arrays the columns are.

pub mod column;
pub mod evaluate;
pub mod primality;

pub use column::UInt64Column;
pub use evaluate::{evaluate_all, evaluate_mask, slot_refutes, slot_verdict};
pub use primality::{integer_sqrt, is_prime_scalar};
