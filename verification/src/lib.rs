//! Verified control core for a bench signal generator reached over a serial
//! line.
//!
//! The crate covers the device-facing logic: the fixed-width ASCII command
//! encoder, the connection registry that keeps at most one live handle per
//! port identifier, and the discovery session that probes candidate ports,
//! validates the device by handshake and routes every typed parameter change
//! through the one accepted handle.  The serial calls themselves go through a
//! handful of trusted wrappers around the `serialport` crate; everything
//! around them is specified and proved.

use vstd::prelude::*;

pub mod encode;
pub mod errors;
mod ports;
pub mod registry;
pub mod session;
