//! Timeflake: a 128-bit, roughly time-ordered, URL-safe unique identifier.
//!
//! An identifier packs a 48-bit millisecond timestamp above an 80-bit random
//! component. Its sixteen bytes have the layout of a UUID, and it can be
//! written as 22 Base62 characters or as 32 hexadecimal characters.
//!
//! The library builds identifiers from components, bytes, integers, strings
//! and UUIDs, and converts them back. Every operation is a pure function of
//! its arguments: reading the clock and drawing the random bytes is left to
//! the caller, who passes both to [`Timeflake::new_random`].
//!
//! Each operation carries a contract that says exactly what it returns, and
//! the contracts are proved of the code. What is assumed of the crates that
//! the library calls (`num-bigint`, `num-traits`, `base62`, `hex`, `uuid`) is
//! declared where the call is made, in [`bigint`], [`encoding`] and
//! [`interop`].
//!
//! - [`flake`]: the identifier and its operations;
//! - [`order`]: equality and order;
//! - [`layout`]: the limits, and how the two components share the 128 bits;
//! - [`bytes`]: big-endian byte strings and the numbers they denote;
//! - [`encoding`]: the Base62 and the hexadecimal form;
//! - [`bigint`], [`interop`]: integers of any size, and UUIDs;
//! - [`error`], [`text`]: failures and their messages;
//! - [`laws`]: what holds between the operations.

pub mod bigint;
pub mod bytes;
pub mod encoding;
pub mod error;
pub mod flake;
pub mod interop;
pub mod laws;
pub mod layout;
pub mod order;
pub mod text;

pub use crate::bigint::{max_random_biguint, max_timeflake_biguint};
pub use crate::encoding::radix16::HEX;
pub use crate::encoding::radix62::BASE62;
pub use crate::flake::Timeflake;
pub use crate::layout::{MAX_RANDOM, MAX_TIMEFLAKE, MAX_TIMESTAMP};
