//! Typed register access for the AT86RF215 transceiver.
//!
//! The device is reached through header-prefixed bus transactions: a two-byte
//! big-endian header that carries the operation kind and a 14-bit register
//! address, followed by the register's bytes in little-endian order.
//!
//! * [`header`] builds the transaction headers.
//! * [`codec`] converts register values to and from their wire bytes.
//! * [`bits`] extracts and replaces bit fields inside a register value.
//! * [`registers`] holds the capability-typed register slots and the catalog
//!   of register layouts.
//! * [`radio`] is the register map of one device.
//! * [`bulk`] merges pending writes into the fewest bus transactions.

pub mod bits;
pub mod bulk;
pub mod codec;
pub mod header;
pub mod radio;
pub mod registers;
