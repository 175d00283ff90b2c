//! Portable encoding and decoding of kernel device-control (ioctl) command
//! words.
//!
//! A command word packs four fields — number, type, size and direction —
//! into one 32-bit integer. The widths of the size and direction fields and
//! the numeric direction flags differ between the historical kernel ABIs,
//! so the active layout is chosen by an explicit architecture class that is
//! passed to every packing and unpacking function.

pub mod codec;
pub mod layout;
pub mod wrapper;
