use vstd::prelude::*;

verus! {

/// Failure taxonomy of the control core.
///
/// Every operation surfaces one of these to its immediate caller; none is
/// fatal to the process.  Discovery failure degrades to the simulated
/// fallback port instead of aborting.
#[derive(Debug, PartialEq, Eq)]
pub enum SgError {
    /// The named port has no registry entry to close.
    PortNotFound,
    /// `open` was asked for an identifier that already has a live handle.
    PortAlreadyOpen,
    /// A write was attempted on an identifier without a live handle.
    PortNotOpen,
    /// A channel or waveform code outside the supported set, or a value the
    /// wire format cannot represent at its fixed field width.
    InvalidParameter,
    /// The operating system reported an open, write, flush or read error;
    /// the payload carries its description.
    IoFailure(String),
    /// Discovery exhausted every candidate without an accepted handshake.
    NoDeviceFound,
}

impl SgError {
    /// Human-readable description of the failure, for the front end; the
    /// I/O rendering embeds the operating system's own message.
    pub fn describe(&self) -> (r: String)
        ensures
            r@ == match self {
                SgError::PortNotFound => "port not found"@,
                SgError::PortAlreadyOpen => "port already open"@,
                SgError::PortNotOpen => "port not open"@,
                SgError::InvalidParameter => "invalid parameter"@,
                SgError::IoFailure(m) => "i/o failure: "@ + m@,
                SgError::NoDeviceFound => "no device found"@,
            },
    {
        match self {
            SgError::PortNotFound => String::from_str("port not found"),
            SgError::PortAlreadyOpen => String::from_str("port already open"),
            SgError::PortNotOpen => String::from_str("port not open"),
            SgError::InvalidParameter => String::from_str("invalid parameter"),
            SgError::IoFailure(m) => String::from_str("i/o failure: ").concat(m.as_str()),
            SgError::NoDeviceFound => String::from_str("no device found"),
        }
    }
}

} // verus!
