//! Trusted boundary to the `serialport` crate.
//!
//! Everything that actually touches a serial device lives here, behind
//! wrappers whose contracts Verus believes.  Each wrapper makes one outside
//! call and converts its arguments and result; all decisions about what the
//! outcomes mean are taken by verified code in the registry and the session.

use vstd::prelude::*;

verus! {

/// Declares serialport's native port type so verified code can own and pass
/// around an open handle; its inside stays opaque.
#[verifier::external_type_specification]
#[verifier::external_body]
pub struct ExTTYPort(serialport::TTYPort);

/// Relies on std::path::Path::read_dir: whether the Linux tty class
/// directory, the place serialport's non-libudev enumerator lists, can be
/// read at all.  That enumerator aborts the process — it does not err —
/// when this directory is missing or unreadable, as in some locked-down
/// containers, so the session asks this first and treats an unreadable
/// listing as an enumeration failure.
#[verifier::external_body]
pub(crate) fn tty_class_listable() -> (r: bool) {
    std::path::Path::new("/sys/class/tty").read_dir().is_ok()
}

/// Relies on serialport::available_ports: the operating system's current
/// serial devices, by name, or the enumeration error.  Nothing can be
/// promised of the machine-dependent result; what an error means is the
/// caller's decision.  Call only where [`tty_class_listable`] held: on a
/// build without the libudev feature the enumerator aborts, instead of
/// erring, when the tty class directory cannot be listed.
#[verifier::external_body]
pub(crate) fn available_port_names() -> (r: Result<Vec<String>, String>) {
    match serialport::available_ports() {
        Ok(list) => Ok(list.into_iter().map(|p| p.port_name).collect()),
        Err(e) => Err(e.to_string()),
    }
}

/// Relies on serialport::new and SerialPortBuilder::open_native: opens
/// `path` at `baud` with eight data bits, no parity, one stop bit, no flow
/// control and a read/write timeout of `timeout_ms` milliseconds.  Whether
/// it succeeds depends on the machine, so nothing is promised of the result.
#[verifier::external_body]
pub(crate) fn open_serial(path: &str, baud: u32, timeout_ms: u64) -> (r: Result<
    serialport::TTYPort,
    String,
>) {
    serialport::new(path, baud)
        .timeout(std::time::Duration::from_millis(timeout_ms))
        .data_bits(serialport::DataBits::Eight)
        .parity(serialport::Parity::None)
        .stop_bits(serialport::StopBits::One)
        .flow_control(serialport::FlowControl::None)
        .open_native()
        .map_err(|e| e.to_string())
}

/// Relies on std::io::Write::write_all for serialport's TTYPort: writes the
/// whole buffer or reports the first error.
#[verifier::external_body]
pub(crate) fn serial_write_all(port: &mut serialport::TTYPort, data: &[u8]) -> (r: Result<
    (),
    String,
>) {
    std::io::Write::write_all(port, data).map_err(|e| e.to_string())
}

/// Relies on std::io::Write::flush for serialport's TTYPort: drains the
/// transmit buffer or reports the error.
#[verifier::external_body]
pub(crate) fn serial_flush(port: &mut serialport::TTYPort) -> (r: Result<(), String>) {
    std::io::Write::flush(port).map_err(|e| e.to_string())
}

/// Relies on std::io::Read::read for serialport's TTYPort: hands back the
/// bytes one read call yielded.  Its documentation guarantees no more than
/// the buffer's length, here `max`.
#[verifier::external_body]
pub(crate) fn serial_read_some(port: &mut serialport::TTYPort, max: usize) -> (r: Result<
    Vec<u8>,
    String,
>)
    ensures
        r matches Ok(v) ==> v@.len() <= max,
{
    let mut buf = vec![0u8; max];
    match std::io::Read::read(port, &mut buf) {
        Ok(n) => {
            buf.truncate(n);
            Ok(buf)
        },
        Err(e) => Err(e.to_string()),
    }
}

} // verus!
