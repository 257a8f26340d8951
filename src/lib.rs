//! Register access for the MP2667 single-cell Li-ion battery charger over a two-wire bus.
//!
//! `registers` holds the nine registers as typed values with their bit layouts, proved to
//! encode and decode without loss. `MP2667` reads and writes them through a `Transport`,
//! one bus transaction per access; read-only registers have no setter.
pub mod driver;
pub mod fields;
pub mod register;
pub mod registers;

pub use driver::{decode_reply, read_request, write_request, Transport, DEVICE_ADDRESS, MP2667};
pub use register::{ReadOnlyRegister, ReadWriteRegister};
