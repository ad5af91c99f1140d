//! Resource-safety and journaling core of a file-system framework that runs
//! inside a host kernel.
//!
//! The crate never calls the host itself. Every operation is split in two:
//! the library decides which entry point of the host has to be invoked, as a
//! [`ffi::HostCall`] value, and a driver outside this crate performs the call
//! and hands the host's answer back as a plain value. What the library decides
//! from state and answer is verified; the driver only moves values.
//!
//! * [`errno`]: the error kind of this layer.
//! * [`ffi`]: the entry points of the host, and the convention by which a
//!   host reference doubles as an error code.
//! * [`kobj`]: typed references to host resources, released at most once, and
//!   the view over a null-terminated byte string.
//! * [`journal`]: the journal bound to a log region, and its transactions.

pub mod errno;
pub mod ffi;
pub mod kobj;
pub mod journal;
