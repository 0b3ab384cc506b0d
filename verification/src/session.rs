//! The device session: discovery, the active port, and typed operations.
//!
//! A session owns the connection registry, the single active port name and
//! the observer log.  Discovery probes every candidate port with the
//! identity query, accepts the first one whose response carries a known
//! device-family prefix, and falls back to the simulated port when the scan
//! is exhausted, so a caller without hardware still has a usable target.
//! Every typed operation encodes its command, routes it through the active
//! handle and appends exactly one whole record to the observer log, which is
//! what serializes and reconstructs the order of concurrent writers.

use vstd::prelude::*;

use vstd::slice::slice_to_vec;
use vstd::string::StringSliceAdditionalSpecFns;

use crate::encode::{
    atten_command, duty_command, encode_enable_output, encode_set_amplitude,
    encode_set_attenuation, encode_set_duty_cycle, encode_set_frequency, encode_set_offset,
    encode_set_phase, encode_set_waveform, fixed2_command, freq_command, output_command,
    digit_byte, phase_command, valid_channel, waveform_command, Waveform, BYTE_CR, BYTE_DIGIT_2,
    BYTE_DIGIT_3, BYTE_DIGIT_6, BYTE_NEWLINE, BYTE_UPPER_A, BYTE_UPPER_F, BYTE_UPPER_M,
    BYTE_UPPER_O, BYTE_UPPER_S, BYTE_UPPER_U, BYTE_UPPER_Y, MAX_WAVEFORM_CODE,
};
use crate::errors::SgError;
use crate::ports::{
    available_port_names, open_serial, serial_read_some, serial_write_all, tty_class_listable,
};
use crate::registry::{
    sim_id, sim_write_next, sim_write_ok, simulated_port_name, ConnectionHandle,
    ConnectionRegistry, SimPort,
};

verus! {

/// Baud rate every candidate is probed at during discovery; the accepted
/// port is then reopened at the caller's operating baud rate.
pub const DISCOVERY_BAUD_RATE: u32 = 115200;

/// Milliseconds a probe waits for the device's identity response.
pub const PROBE_TIMEOUT_MS: u64 = 500;

/// Most bytes a probe reads of the identity response.
pub const PROBE_RESPONSE_MAX: usize = 100;

/// Milliseconds of settling time between the steps of a scripted sequence.
pub const SCRIPT_SETTLE_MS: u64 = 600;

/// Milliseconds of settling time after a frequency change.
pub const FREQUENCY_SETTLE_MS: u64 = 50;

/// Milliseconds of settling time after an amplitude change.
pub const AMPLITUDE_SETTLE_MS: u64 = 200;

/// The identity query sent to every candidate during discovery.
pub open spec fn probe_query() -> Seq<u8> {
    seq![BYTE_UPPER_U, BYTE_UPPER_M, BYTE_UPPER_O, BYTE_CR, BYTE_NEWLINE]
}

/// First device-family prefix an identity response may start with.
pub open spec fn fy23_prefix() -> Seq<u8> {
    seq![BYTE_UPPER_F, BYTE_UPPER_Y, BYTE_DIGIT_2, BYTE_DIGIT_3]
}

/// Second device-family prefix an identity response may start with.
pub open spec fn fy63_prefix() -> Seq<u8> {
    seq![BYTE_UPPER_F, BYTE_UPPER_Y, BYTE_DIGIT_6, BYTE_DIGIT_3]
}

/// Whether an identity response identifies the device: it must begin with
/// one of the known family prefixes.
pub open spec fn is_device_response(s: Seq<u8>) -> bool {
    s.len() >= 4 && (s.subrange(0, 4) == fy23_prefix() || s.subrange(0, 4) == fy63_prefix())
}

/// Accepts a candidate iff its identity response begins with a known
/// device-family prefix.
pub fn classify_response(resp: &Vec<u8>) -> (r: bool)
    ensures
        r == is_device_response(resp@),
{
    if resp.len() < 4 {
        return false;
    }
    let family23 = resp[0] == BYTE_UPPER_F && resp[1] == BYTE_UPPER_Y && resp[2] == BYTE_DIGIT_2
        && resp[3] == BYTE_DIGIT_3;
    let family63 = resp[0] == BYTE_UPPER_F && resp[1] == BYTE_UPPER_Y && resp[2] == BYTE_DIGIT_6
        && resp[3] == BYTE_DIGIT_3;
    proof {
        assert(resp@.subrange(0, 4) =~= seq![resp@[0], resp@[1], resp@[2], resp@[3]]);
        if resp@.subrange(0, 4) == fy23_prefix() {
            assert(resp@[0] == BYTE_UPPER_F && resp@[1] == BYTE_UPPER_Y && resp@[2] == BYTE_DIGIT_2
                && resp@[3] == BYTE_DIGIT_3);
        }
        if resp@.subrange(0, 4) == fy63_prefix() {
            assert(resp@[0] == BYTE_UPPER_F && resp@[1] == BYTE_UPPER_Y && resp@[2] == BYTE_DIGIT_6
                && resp@[3] == BYTE_DIGIT_3);
        }
    }
    family23 || family63
}

/// The identity query as owned bytes.
fn probe_query_bytes() -> (r: Vec<u8>)
    ensures
        r@ == probe_query(),
{
    let mut v: Vec<u8> = Vec::new();
    v.push(BYTE_UPPER_U);
    v.push(BYTE_UPPER_M);
    v.push(BYTE_UPPER_O);
    v.push(BYTE_CR);
    v.push(BYTE_NEWLINE);
    proof {
        assert(v@ =~= probe_query());
    }
    v
}

/// One record of the observer log: whether the write was accepted, and the
/// whole command as it went out (never a fragment).
pub struct WriteEvent {
    /// Whether the write succeeded.
    pub ok: bool,
    /// The complete command bytes of this write.
    pub data: Vec<u8>,
}

/// One step of a scripted sequence: the command to write and the settling
/// time the firmware needs before the next step; the delay is data for the
/// driver, the session itself never sleeps.
pub struct CommandStep {
    /// The complete command bytes of this step.
    pub data: Vec<u8>,
    /// Milliseconds to wait after this step before issuing the next.
    pub settle_ms: u64,
}

/// Which step of a scripted sequence failed, and how; steps before it took
/// effect on the device and are not rolled back.
#[derive(Debug, PartialEq, Eq)]
pub struct SequenceFailure {
    /// Index of the failing step within the script.
    pub step: usize,
    /// The failing step's error.
    pub cause: SgError,
}

/// The device session: the registry of handles, the single active port
/// name, and the observer log of write outcomes.
pub struct Session {
    registry: ConnectionRegistry,
    active: String,
    events: Vec<WriteEvent>,
}

impl Session {
    /// The registry invariant: at most one handle per port identifier.
    pub closed spec fn wf(self) -> bool {
        self.registry.wf()
    }

    /// The registry as a map from port name to handle.
    pub closed spec fn registry_map(self) -> Map<Seq<char>, ConnectionHandle> {
        self.registry.as_map()
    }

    /// How many ports currently have a handle.
    pub closed spec fn port_count(self) -> nat {
        self.registry.port_count()
    }

    /// The currently selected port identifier.
    pub closed spec fn active_name(self) -> Seq<char> {
        self.active@
    }

    /// The observer log so far.
    pub closed spec fn events_seq(self) -> Seq<WriteEvent> {
        self.events@
    }
}

/// Whether the observer log of `s` holds, at `i`, a record with outcome
/// `ok` and the whole command `data`.
pub open spec fn event_is(s: Session, i: int, ok: bool, data: Seq<u8>) -> bool {
    &&& 0 <= i < s.events_seq().len()
    &&& s.events_seq()[i].ok == ok
    &&& s.events_seq()[i].data@ == data
}

/// What one write through the active port does: exactly one whole record is
/// appended to the observer log (the serialization point for concurrent
/// writers), a missing handle is reported as `PortNotOpen`, the simulated
/// handle succeeds unless scripted to fail, and a real handle either
/// transfers the bytes or surfaces the I/O error.
pub open spec fn write_outcome(
    pre: Session,
    post: Session,
    cmd: Seq<u8>,
    r: Result<bool, SgError>,
) -> bool {
    &&& post.wf()
    &&& post.active_name() == pre.active_name()
    &&& post.port_count() == pre.port_count()
    &&& post.events_seq().len() == pre.events_seq().len() + 1
    &&& (forall|i: int|
        0 <= i < pre.events_seq().len() ==> post.events_seq()[i] == pre.events_seq()[i])
    &&& event_is(post, pre.events_seq().len() as int, r is Ok, cmd)
    &&& (r is Ok ==> r == Ok::<bool, SgError>(true))
    &&& (!pre.registry_map().contains_key(pre.active_name()) ==> r == Err::<bool, SgError>(
        SgError::PortNotOpen,
    ) && post.registry_map() == pre.registry_map())
    &&& (pre.registry_map().contains_key(pre.active_name())
        ==> match pre.registry_map()[pre.active_name()] {
        ConnectionHandle::Simulated(sp) => {
            &&& (r is Ok <==> sim_write_ok(sp))
            &&& (!sim_write_ok(sp) ==> r matches Err(SgError::IoFailure(_)))
            &&& post.registry_map() == pre.registry_map().insert(
                pre.active_name(),
                ConnectionHandle::Simulated(sim_write_next(sp)),
            )
        },
        ConnectionHandle::Real(_) => {
            &&& (r is Err ==> r matches Err(SgError::IoFailure(_)))
            &&& post.registry_map().dom() == pre.registry_map().dom()
            &&& (post.registry_map()[pre.active_name()] matches ConnectionHandle::Real(_))
            &&& (forall|n: Seq<char>|
                n != pre.active_name() && pre.registry_map().contains_key(n)
                    ==> post.registry_map()[n] == pre.registry_map()[n])
        },
    })
}

/// What running a script does: it issues the steps in order, stops at the
/// first failure and reports that step's identity and error, leaving the
/// earlier steps' effects in place; steps after the failing one are never
/// attempted.  A session whose active port is the unscripted simulated
/// handle is owed success.
pub open spec fn sequence_outcome(
    pre: Session,
    post: Session,
    script: Seq<Seq<u8>>,
    r: Result<bool, SequenceFailure>,
) -> bool {
    &&& post.wf()
    &&& post.active_name() == pre.active_name()
    &&& post.port_count() == pre.port_count()
    &&& (forall|i: int|
        0 <= i < pre.events_seq().len() ==> post.events_seq()[i] == pre.events_seq()[i])
    &&& (r matches Ok(b) ==> b && post.events_seq().len() == pre.events_seq().len()
        + script.len() && (forall|i: int|
        0 <= i < script.len() ==> event_is(post, pre.events_seq().len() + i, true, script[i])))
    &&& (r matches Err(f) ==> {
        &&& f.step < script.len()
        &&& (f.cause == SgError::PortNotOpen || f.cause matches SgError::IoFailure(_))
        &&& post.events_seq().len() == pre.events_seq().len() + f.step + 1
        &&& (forall|i: int|
            0 <= i < f.step ==> event_is(post, pre.events_seq().len() + i, true, script[i]))
        &&& event_is(post, pre.events_seq().len() + f.step as int, false, script[f.step as int])
    })
    &&& (!pre.registry_map().contains_key(pre.active_name()) && script.len() > 0 ==> (r matches
    Err(f) && f.step == 0 && f.cause == SgError::PortNotOpen))
    &&& (pre.registry_map().contains_key(pre.active_name()) && pre.registry_map()[pre.active_name()]
        == ConnectionHandle::Simulated((SimPort { fail_in: None })) ==> r is Ok)
}

/// The operating system's serial ports, freshly queried.  An enumeration
/// failure — an unreadable device listing as much as an error from the
/// enumerator — degrades to "no hardware found", the empty list, never to a
/// fatal condition.
fn enumerate_candidates() -> Vec<String> {
    if !tty_class_listable() {
        return Vec::new();
    }
    match available_port_names() {
        Ok(names) => names,
        Err(_) => Vec::new(),
    }
}

/// The candidate ports discovery walks: the operating system's list, freshly
/// queried, with the simulated identifier appended last so a caller without
/// hardware still has a target.
pub fn list_candidates() -> (r: Vec<String>)
    ensures
        r@.len() >= 1,
        r@.last()@ == sim_id(),
{
    let mut names = enumerate_candidates();
    names.push(simulated_port_name());
    names
}

/// Probes one candidate: opens it at the discovery baud rate, sends the
/// identity query, reads what the device answers within the probe timeout,
/// and accepts iff the response begins with a known family prefix.  The
/// probe handle is dropped before returning.  Any failure along the way
/// rejects the candidate; the scan then simply moves on.
fn probe_candidate(name: &String) -> bool {
    match open_serial(name.as_str(), DISCOVERY_BAUD_RATE, PROBE_TIMEOUT_MS) {
        Ok(mut port) => {
            let query = probe_query_bytes();
            match serial_write_all(&mut port, query.as_slice()) {
                Ok(_) => match serial_read_some(&mut port, PROBE_RESPONSE_MAX) {
                    Ok(resp) => classify_response(&resp),
                    Err(_) => false,
                },
                Err(_) => false,
            }
        },
        Err(_) => false,
    }
}

impl Session {
    /// A fresh session: empty registry, empty observer log, and the
    /// simulated identifier selected.
    pub fn new() -> (r: Session)
        ensures
            r.wf(),
            r.port_count() == 0,
            r.registry_map() == Map::<Seq<char>, ConnectionHandle>::empty(),
            r.active_name() == sim_id(),
            r.events_seq() == Seq::<WriteEvent>::empty(),
    {
        Session {
            registry: ConnectionRegistry::new(),
            active: simulated_port_name(),
            events: Vec::new(),
        }
    }

    /// The currently selected port identifier.
    pub fn active_port_name(&self) -> (r: String)
        ensures
            r@ == self.active_name(),
    {
        self.active.clone()
    }

    /// The observer log.
    pub fn events(&self) -> (r: &Vec<WriteEvent>)
        ensures
            r@ == self.events_seq(),
    {
        &self.events
    }

    /// How many ports currently have a handle.
    pub fn open_count(&self) -> (r: usize)
        ensures
            r == self.port_count(),
    {
        self.registry.open_count()
    }

    /// Whether `name` currently has a handle.
    pub fn is_open(&self, name: &String) -> (r: bool)
        ensures
            r == self.registry_map().contains_key(name@),
    {
        self.registry.contains(name)
    }

    /// Opens the active port: the simulated sentinel for the reserved
    /// identifier, a real device otherwise.  An identifier that is already
    /// open is refused with `PortAlreadyOpen` and its handle is never
    /// replaced.
    pub fn open(&mut self, baud_rate: u32) -> (r: Result<bool, SgError>)
        requires
            old(self).wf(),
        ensures
            final(self).wf(),
            final(self).active_name() == old(self).active_name(),
            final(self).events_seq() == old(self).events_seq(),
            old(self).registry_map().contains_key(old(self).active_name()) ==> r == Err::<
                bool,
                SgError,
            >(SgError::PortAlreadyOpen) && final(self).registry_map() == old(self).registry_map(),
            !old(self).registry_map().contains_key(old(self).active_name()) && old(self).active_name() == sim_id() ==> r == Ok::<bool, SgError>(true) && final(self).registry_map() == old(self).registry_map().insert(
                old(self).active_name(),
                ConnectionHandle::Simulated((SimPort { fail_in: None })),
            ),
            !old(self).registry_map().contains_key(old(self).active_name()) && old(self).active_name() != sim_id() ==> match r {
                Ok(b) => b && final(self).registry_map().contains_key(old(self).active_name())
                    && (final(self).registry_map()[old(self).active_name()] matches
                ConnectionHandle::Real(_)) && final(self).registry_map() == old(self).registry_map().insert(
                    old(self).active_name(),
                    final(self).registry_map()[old(self).active_name()],
                ),
                Err(e) => (e matches SgError::IoFailure(_)) && final(self).registry_map() == old(self).registry_map(),
            },
            r is Ok ==> final(self).port_count() == old(self).port_count() + 1,
            r is Err ==> final(self).port_count() == old(self).port_count() && final(self).registry_map() == old(self).registry_map(),
    {
        let name = self.active.clone();
        self.registry.open(name, baud_rate)
    }

    /// Closes the active port by removing its entry, the handle's sole
    /// destructor; every other entry is untouched, so a later `open` of the
    /// same identifier starts fresh.
    pub fn close(&mut self) -> (r: Result<bool, SgError>)
        requires
            old(self).wf(),
        ensures
            final(self).wf(),
            final(self).active_name() == old(self).active_name(),
            final(self).events_seq() == old(self).events_seq(),
            old(self).registry_map().contains_key(old(self).active_name()) ==> r == Ok::<
                bool,
                SgError,
            >(true) && final(self).registry_map() == old(self).registry_map().remove(
                old(self).active_name(),
            ) && final(self).port_count() == old(self).port_count() - 1,
            !old(self).registry_map().contains_key(old(self).active_name()) ==> r == Err::<
                bool,
                SgError,
            >(SgError::PortNotFound) && final(self).registry_map() == old(self).registry_map()
                && final(self).port_count() == old(self).port_count(),
    {
        self.registry.close(&self.active)
    }

    /// Scripts the simulated handle of the active port so that the
    /// `after`-th write from now fails (`0` fails the very next write);
    /// reports whether the active port is the simulated one.  This is the
    /// test-mode hook that drives the failure paths without hardware.
    pub fn script_simulated_failure(&mut self, after: u64) -> (r: bool)
        requires
            old(self).wf(),
        ensures
            final(self).wf(),
            final(self).active_name() == old(self).active_name(),
            final(self).events_seq() == old(self).events_seq(),
            final(self).port_count() == old(self).port_count(),
            r <==> old(self).registry_map().contains_key(old(self).active_name()) && (old(self).registry_map()[old(self).active_name()] matches ConnectionHandle::Simulated(_)),
            r ==> final(self).registry_map() == old(self).registry_map().insert(
                old(self).active_name(),
                ConnectionHandle::Simulated((SimPort { fail_in: Some(after) })),
            ),
            !r ==> final(self).registry_map() == old(self).registry_map(),
    {
        self.registry.script_simulated_failure(&self.active, after)
    }

    fn write_bytes(&mut self, data: &[u8]) -> (r: Result<bool, SgError>)
        requires
            old(self).wf(),
        ensures
            write_outcome(*old(self), *final(self), data@, r),
    {
        let res = self.registry.write_data(&self.active, data);
        let ok = res.is_ok();
        self.events.push(WriteEvent { ok, data: slice_to_vec(data) });
        res
    }

    /// Writes `data` through the active port as one whole command, with no
    /// added framing, and records the outcome in the observer log.
    pub fn write(&mut self, data: &str) -> (r: Result<bool, SgError>)
        requires
            old(self).wf(),
        ensures
            write_outcome(*old(self), *final(self), data.spec_bytes(), r),
    {
        self.write_bytes(data.as_bytes())
    }

    /// Sets the frequency of a channel: integral hertz plus a micro-hertz
    /// fraction, encoded at the profile's exact widths and written through
    /// the active port.
    pub fn set_frequency(&mut self, channel: u8, hz: u64, micro_hz: u64) -> (r: Result<
        bool,
        SgError,
    >)
        requires
            old(self).wf(),
        ensures
            !(valid_channel(channel) && hz < 10_000_000 && micro_hz < 1_000_000) ==> r == Err::<
                bool,
                SgError,
            >(SgError::InvalidParameter) && *final(self) == *old(self),
            valid_channel(channel) && hz < 10_000_000 && micro_hz < 1_000_000 ==> write_outcome(
                *old(self),
                *final(self),
                freq_command(channel, hz as nat, micro_hz as nat),
                r,
            ),
    {
        match encode_set_frequency(channel, hz, micro_hz) {
            Ok(cmd) => self.write_bytes(cmd.as_slice()),
            Err(e) => Err(e),
        }
    }

    /// Sets the amplitude of a channel, in hundredths of a volt.
    pub fn set_amplitude(&mut self, channel: u8, centivolts: u64) -> (r: Result<bool, SgError>)
        requires
            old(self).wf(),
        ensures
            !(valid_channel(channel) && centivolts < 10_000) ==> r == Err::<bool, SgError>(
                SgError::InvalidParameter,
            ) && *final(self) == *old(self),
            valid_channel(channel) && centivolts < 10_000 ==> write_outcome(
                *old(self),
                *final(self),
                fixed2_command(BYTE_UPPER_A, channel, centivolts as nat),
                r,
            ),
    {
        match encode_set_amplitude(channel, centivolts) {
            Ok(cmd) => self.write_bytes(cmd.as_slice()),
            Err(e) => Err(e),
        }
    }

    /// Sets the offset of a channel, in hundredths of a volt.
    pub fn set_offset(&mut self, channel: u8, centivolts: u64) -> (r: Result<bool, SgError>)
        requires
            old(self).wf(),
        ensures
            !(valid_channel(channel) && centivolts < 10_000) ==> r == Err::<bool, SgError>(
                SgError::InvalidParameter,
            ) && *final(self) == *old(self),
            valid_channel(channel) && centivolts < 10_000 ==> write_outcome(
                *old(self),
                *final(self),
                fixed2_command(BYTE_UPPER_O, channel, centivolts as nat),
                r,
            ),
    {
        match encode_set_offset(channel, centivolts) {
            Ok(cmd) => self.write_bytes(cmd.as_slice()),
            Err(e) => Err(e),
        }
    }

    /// Sets the duty cycle of a channel, in tenths of a percent.
    pub fn set_duty_cycle(&mut self, channel: u8, tenths: u64) -> (r: Result<bool, SgError>)
        requires
            old(self).wf(),
        ensures
            !(valid_channel(channel) && tenths < 1_000) ==> r == Err::<bool, SgError>(
                SgError::InvalidParameter,
            ) && *final(self) == *old(self),
            valid_channel(channel) && tenths < 1_000 ==> write_outcome(
                *old(self),
                *final(self),
                duty_command(channel, tenths as nat),
                r,
            ),
    {
        match encode_set_duty_cycle(channel, tenths) {
            Ok(cmd) => self.write_bytes(cmd.as_slice()),
            Err(e) => Err(e),
        }
    }

    /// Sets the phase of a channel, in whole degrees.
    pub fn set_phase(&mut self, channel: u8, degrees: u64) -> (r: Result<bool, SgError>)
        requires
            old(self).wf(),
        ensures
            !(valid_channel(channel) && degrees < 1_000) ==> r == Err::<bool, SgError>(
                SgError::InvalidParameter,
            ) && *final(self) == *old(self),
            valid_channel(channel) && degrees < 1_000 ==> write_outcome(
                *old(self),
                *final(self),
                phase_command(channel, degrees as nat),
                r,
            ),
    {
        match encode_set_phase(channel, degrees) {
            Ok(cmd) => self.write_bytes(cmd.as_slice()),
            Err(e) => Err(e),
        }
    }

    /// Sets the attenuation of a channel: a single-digit level.
    pub fn set_attenuation(&mut self, channel: u8, level: u64) -> (r: Result<bool, SgError>)
        requires
            old(self).wf(),
        ensures
            !(valid_channel(channel) && level < 10) ==> r == Err::<bool, SgError>(
                SgError::InvalidParameter,
            ) && *final(self) == *old(self),
            valid_channel(channel) && level < 10 ==> write_outcome(
                *old(self),
                *final(self),
                atten_command(channel, level as nat),
                r,
            ),
    {
        match encode_set_attenuation(channel, level) {
            Ok(cmd) => self.write_bytes(cmd.as_slice()),
            Err(e) => Err(e),
        }
    }

    /// Switches a channel's output on or off: one of two alternative
    /// commands selected by `on`.
    pub fn enable_output(&mut self, channel: u8, on: bool) -> (r: Result<bool, SgError>)
        requires
            old(self).wf(),
        ensures
            !valid_channel(channel) ==> r == Err::<bool, SgError>(SgError::InvalidParameter)
                && *final(self) == *old(self),
            valid_channel(channel) ==> write_outcome(
                *old(self),
                *final(self),
                output_command(channel, on),
                r,
            ),
    {
        match encode_enable_output(channel, on) {
            Ok(cmd) => self.write_bytes(cmd.as_slice()),
            Err(e) => Err(e),
        }
    }

    /// Selects a channel's waveform by wire code; codes outside the closed
    /// enumeration are rejected, never passed through.
    pub fn set_waveform(&mut self, channel: u8, code: u8) -> (r: Result<bool, SgError>)
        requires
            old(self).wf(),
        ensures
            !(valid_channel(channel) && code <= MAX_WAVEFORM_CODE) ==> r == Err::<bool, SgError>(
                SgError::InvalidParameter,
            ) && *final(self) == *old(self),
            valid_channel(channel) && code <= MAX_WAVEFORM_CODE ==> write_outcome(
                *old(self),
                *final(self),
                waveform_command(channel, code as nat),
                r,
            ),
    {
        match Waveform::from_code(code) {
            None => Err(SgError::InvalidParameter),
            Some(w) => match encode_set_waveform(channel, w) {
                Ok(cmd) => self.write_bytes(cmd.as_slice()),
                Err(e) => Err(e),
            },
        }
    }

    /// Issues the steps of a script in order through the active port,
    /// stopping at the first failure and reporting which step failed and
    /// how.  The settling times in the steps are data for the caller; the
    /// session itself never sleeps.
    pub fn run_sequence(&mut self, steps: &Vec<CommandStep>) -> (r: Result<bool, SequenceFailure>)
        requires
            old(self).wf(),
        ensures
            final(self).wf(),
            sequence_outcome(
                *old(self),
                *final(self),
                steps@.map_values(|s: CommandStep| s.data@),
                r,
            ),
    {
        let ghost script = steps@.map_values(|s: CommandStep| s.data@);
        let mut k: usize = 0;
        while k < steps.len()
            invariant
                old(self).wf(),
                self.wf(),
                k <= steps@.len(),
                script == steps@.map_values(|s: CommandStep| s.data@),
                self.active_name() == old(self).active_name(),
                self.port_count() == old(self).port_count(),
                self.events_seq().len() == old(self).events_seq().len() + k,
                forall|i: int|
                    0 <= i < old(self).events_seq().len() ==> self.events_seq()[i] == old(self).events_seq()[i],
                forall|i: int|
                    0 <= i < k ==> event_is(
                        *self,
                        old(self).events_seq().len() + i,
                        true,
                        script[i],
                    ),
                !old(self).registry_map().contains_key(old(self).active_name()) ==> k == 0
                    && self.registry_map() == old(self).registry_map(),
                old(self).registry_map().contains_key(old(self).active_name()) && old(self).registry_map()[old(self).active_name()] == ConnectionHandle::Simulated(
                    (SimPort { fail_in: None }),
                ) ==> self.registry_map().contains_key(old(self).active_name())
                    && self.registry_map()[old(self).active_name()] == ConnectionHandle::Simulated(
                    (SimPort { fail_in: None }),
                ),
            decreases steps@.len() - k,
        {
            let step_data = &steps[k].data;
            let res = self.write_bytes(step_data.as_slice());
            match res {
                Ok(_) => {
                    proof {
                        assert(event_is(
                            *self,
                            old(self).events_seq().len() + k as int,
                            true,
                            script[k as int],
                        ));
                    }
                    k = k + 1;
                },
                Err(e) => {
                    return Err(SequenceFailure { step: k, cause: e });
                },
            }
        }
        Ok(true)
    }

    /// Probes every real candidate port in order and accepts the first one
    /// whose identity response carries a known device-family prefix: the
    /// probe handle is dropped and the port is reopened at the operating
    /// baud rate, installed in the registry, and made the active port.  A
    /// candidate's open, write or read failure just advances the scan; only
    /// exhausting every candidate yields `NoDeviceFound`, with the session
    /// unchanged.
    pub fn find_device(&mut self, baud_rate: u32) -> (r: Result<String, SgError>)
        requires
            old(self).wf(),
        ensures
            final(self).wf(),
            final(self).events_seq() == old(self).events_seq(),
            r matches Err(e) ==> e == SgError::NoDeviceFound && final(self).active_name() == old(self).active_name() && final(self).registry_map() == old(self).registry_map() && final(self).port_count() == old(self).port_count(),
            r matches Ok(name) ==> {
                &&& name@ != sim_id()
                &&& final(self).active_name() == name@
                &&& !old(self).registry_map().contains_key(name@)
                &&& final(self).registry_map().contains_key(name@)
                &&& (final(self).registry_map()[name@] matches ConnectionHandle::Real(_))
                &&& final(self).registry_map() == old(self).registry_map().insert(
                    name@,
                    final(self).registry_map()[name@],
                )
                &&& final(self).port_count() == old(self).port_count() + 1
            },
    {
        let candidates = enumerate_candidates();
        let sim = simulated_port_name();
        let mut idx: usize = 0;
        while idx < candidates.len()
            invariant
                old(self).wf(),
                self.wf(),
                sim@ == sim_id(),
                self.active_name() == old(self).active_name(),
                self.events_seq() == old(self).events_seq(),
                self.registry_map() == old(self).registry_map(),
                self.port_count() == old(self).port_count(),
            decreases candidates@.len() - idx,
        {
            let name = &candidates[idx];
            if !name.eq(&sim) && probe_candidate(name) {
                if !self.registry.contains(name) {
                    match self.registry.open(name.clone(), baud_rate) {
                        Ok(_) => {
                            self.active = name.clone();
                            return Ok(name.clone());
                        },
                        Err(_) => {},
                    }
                }
            }
            idx = idx + 1;
        }
        Err(SgError::NoDeviceFound)
    }

    /// Reconnects: evicts every handle, scans for the device, and falls
    /// back to the simulated port when no candidate is accepted.  Whatever
    /// the outcome, it returns the connected identifier, the registry holds
    /// exactly that one entry, and the active port names it.
    pub fn reconnect(&mut self, baud_rate: u32) -> (r: Result<String, SgError>)
        requires
            old(self).wf(),
        ensures
            final(self).wf(),
            final(self).events_seq() == old(self).events_seq(),
            r is Ok,
            final(self).port_count() == 1,
            r matches Ok(name) ==> {
                &&& final(self).active_name() == name@
                &&& final(self).registry_map().contains_key(name@)
                &&& final(self).registry_map() == Map::<Seq<char>, ConnectionHandle>::empty().insert(
                    name@,
                    final(self).registry_map()[name@],
                )
                &&& (name@ == sim_id() ==> final(self).registry_map()[name@]
                    == ConnectionHandle::Simulated((SimPort { fail_in: None })))
                &&& (name@ != sim_id() ==> (final(self).registry_map()[name@] matches
                ConnectionHandle::Real(_)))
            },
    {
        self.registry.evict_all();
        match self.find_device(baud_rate) {
            Ok(name) => Ok(name),
            Err(_) => {
                let res = self.registry.open(simulated_port_name(), baud_rate);
                proof {
                    assert(res is Ok);
                }
                self.active = simulated_port_name();
                Ok(simulated_port_name())
            },
        }
    }

    /// Law: `close` followed by `open` on the same identifier succeeds and
    /// installs a fresh handle with no residual state, shown here for the
    /// simulated identifier; whether a real identifier reopens is decided
    /// by the operating system, so no more can be promised of it.
    pub fn close_then_reopen(&mut self, baud_rate: u32) -> (r: (
        Result<bool, SgError>,
        Result<bool, SgError>,
    ))
        requires
            old(self).wf(),
            old(self).registry_map().contains_key(old(self).active_name()),
            old(self).active_name() == sim_id(),
        ensures
            final(self).wf(),
            r.0 == Ok::<bool, SgError>(true),
            r.1 == Ok::<bool, SgError>(true),
            final(self).registry_map()[sim_id()] == ConnectionHandle::Simulated(
                (SimPort { fail_in: None }),
            ),
            final(self).registry_map() == old(self).registry_map().insert(
                sim_id(),
                ConnectionHandle::Simulated((SimPort { fail_in: None })),
            ),
    {
        let closed = self.close();
        let opened = self.open(baud_rate);
        proof {
            assert(old(self).registry_map().remove(sim_id()).insert(
                sim_id(),
                ConnectionHandle::Simulated(SimPort { fail_in: None }),
            ) =~= old(self).registry_map().insert(
                sim_id(),
                ConnectionHandle::Simulated(SimPort { fail_in: None }),
            ));
        }
        (closed, opened)
    }

    /// The initial scripted sequence: configures the auxiliary wave (sine,
    /// zero offset, half duty cycle, zero phase, no attenuation, the start
    /// frequency) and switches its output on.
    pub fn send_initial_commands(&mut self) -> (r: Result<bool, SequenceFailure>)
        requires
            old(self).wf(),
        ensures
            final(self).wf(),
            sequence_outcome(*old(self), *final(self), initial_script(), r),
    {
        let steps = initial_command_steps();
        let r = self.run_sequence(&steps);
        proof {
            assert(steps@.map_values(|s: CommandStep| s.data@) =~= initial_script());
        }
        r
    }

    /// The secondary scripted sequence: configures the main wave (square,
    /// zero offset, half duty cycle, zero phase, no attenuation), switches
    /// its output on, sets its amplitude and selects the sync mode.
    pub fn send_secondary_commands(&mut self) -> (r: Result<bool, SequenceFailure>)
        requires
            old(self).wf(),
        ensures
            final(self).wf(),
            sequence_outcome(*old(self), *final(self), secondary_script(), r),
    {
        let steps = secondary_command_steps();
        let r = self.run_sequence(&steps);
        proof {
            assert(steps@.map_values(|s: CommandStep| s.data@) =~= secondary_script());
        }
        r
    }

    /// The stop sequence: switches both outputs off, auxiliary first.
    pub fn stop_and_reset(&mut self) -> (r: Result<bool, SequenceFailure>)
        requires
            old(self).wf(),
        ensures
            final(self).wf(),
            sequence_outcome(*old(self), *final(self), stop_script(), r),
    {
        let steps = stop_command_steps();
        let r = self.run_sequence(&steps);
        proof {
            assert(steps@.map_values(|s: CommandStep| s.data@) =~= stop_script());
        }
        r
    }
}

/// Law: two writes through the session, in whichever order the writers won
/// exclusive access, append their whole payloads as two ordered records
/// with nothing interleaved between or inside them; the observer log
/// reconstructs the write order.
pub proof fn lemma_writes_serialize(
    s0: Session,
    s1: Session,
    s2: Session,
    a: Seq<u8>,
    b: Seq<u8>,
    ra: Result<bool, SgError>,
    rb: Result<bool, SgError>,
)
    requires
        write_outcome(s0, s1, a, ra),
        write_outcome(s1, s2, b, rb),
    ensures
        s2.events_seq().len() == s0.events_seq().len() + 2,
        forall|i: int| 0 <= i < s0.events_seq().len() ==> s2.events_seq()[i] == s0.events_seq()[i],
        event_is(s2, s0.events_seq().len() as int, ra is Ok, a),
        event_is(s2, s0.events_seq().len() as int + 1, rb is Ok, b),
{
}

/// The sync command: `USA` and a one-digit mode.
pub open spec fn sync_command(mode: nat) -> Seq<u8> {
    seq![BYTE_UPPER_U, BYTE_UPPER_S, BYTE_UPPER_A, digit_byte(mode), BYTE_NEWLINE]
}

/// The commands of the initial sequence, in order.
pub open spec fn initial_script() -> Seq<Seq<u8>> {
    seq![
        waveform_command(2, 0),
        fixed2_command(BYTE_UPPER_O, 2, 0),
        duty_command(2, 500),
        phase_command(2, 0),
        atten_command(2, 0),
        freq_command(2, 3_100_000, 0),
        output_command(2, true),
    ]
}

/// The commands of the secondary sequence, in order.
pub open spec fn secondary_script() -> Seq<Seq<u8>> {
    seq![
        waveform_command(1, 1),
        fixed2_command(BYTE_UPPER_O, 1, 0),
        duty_command(1, 500),
        phase_command(1, 0),
        atten_command(1, 0),
        output_command(1, true),
        fixed2_command(BYTE_UPPER_A, 1, 500),
        sync_command(2),
    ]
}

/// The commands of the stop sequence, in order.
pub open spec fn stop_script() -> Seq<Seq<u8>> {
    seq![output_command(2, false), output_command(1, false)]
}

/// The sync command as owned bytes.
fn sync_command_bytes(mode: u64) -> (r: Vec<u8>)
    requires
        mode < 10,
    ensures
        r@ == sync_command(mode as nat),
{
    let mut v: Vec<u8> = Vec::new();
    v.push(BYTE_UPPER_U);
    v.push(BYTE_UPPER_S);
    v.push(BYTE_UPPER_A);
    v.push(48 + mode as u8);
    v.push(BYTE_NEWLINE);
    proof {
        assert(v@ =~= sync_command(mode as nat));
    }
    v
}

/// The initial sequence as steps with their settling times.
pub fn initial_command_steps() -> (r: Vec<CommandStep>)
    ensures
        r@.len() == initial_script().len(),
        forall|i: int|
            0 <= i < r@.len() ==> (#[trigger] r@[i]).data@ == initial_script()[i]
                && r@[i].settle_ms == SCRIPT_SETTLE_MS,
{
    let mut steps: Vec<CommandStep> = Vec::new();
    let d0 = encode_set_waveform(2, Waveform::Sine).unwrap();
    steps.push(CommandStep { data: d0, settle_ms: SCRIPT_SETTLE_MS });
    let d1 = encode_set_offset(2, 0).unwrap();
    steps.push(CommandStep { data: d1, settle_ms: SCRIPT_SETTLE_MS });
    let d2 = encode_set_duty_cycle(2, 500).unwrap();
    steps.push(CommandStep { data: d2, settle_ms: SCRIPT_SETTLE_MS });
    let d3 = encode_set_phase(2, 0).unwrap();
    steps.push(CommandStep { data: d3, settle_ms: SCRIPT_SETTLE_MS });
    let d4 = encode_set_attenuation(2, 0).unwrap();
    steps.push(CommandStep { data: d4, settle_ms: SCRIPT_SETTLE_MS });
    let d5 = encode_set_frequency(2, 3_100_000, 0).unwrap();
    steps.push(CommandStep { data: d5, settle_ms: SCRIPT_SETTLE_MS });
    let d6 = encode_enable_output(2, true).unwrap();
    steps.push(CommandStep { data: d6, settle_ms: SCRIPT_SETTLE_MS });
    proof {
        assert forall|i: int| 0 <= i < steps@.len() implies (#[trigger] steps@[i]).data@
            == initial_script()[i] && steps@[i].settle_ms == SCRIPT_SETTLE_MS by {
        }
    }
    steps
}

/// The secondary sequence as steps with their settling times.
pub fn secondary_command_steps() -> (r: Vec<CommandStep>)
    ensures
        r@.len() == secondary_script().len(),
        forall|i: int|
            0 <= i < r@.len() ==> (#[trigger] r@[i]).data@ == secondary_script()[i]
                && r@[i].settle_ms == SCRIPT_SETTLE_MS,
{
    let mut steps: Vec<CommandStep> = Vec::new();
    let d0 = encode_set_waveform(1, Waveform::Square).unwrap();
    steps.push(CommandStep { data: d0, settle_ms: SCRIPT_SETTLE_MS });
    let d1 = encode_set_offset(1, 0).unwrap();
    steps.push(CommandStep { data: d1, settle_ms: SCRIPT_SETTLE_MS });
    let d2 = encode_set_duty_cycle(1, 500).unwrap();
    steps.push(CommandStep { data: d2, settle_ms: SCRIPT_SETTLE_MS });
    let d3 = encode_set_phase(1, 0).unwrap();
    steps.push(CommandStep { data: d3, settle_ms: SCRIPT_SETTLE_MS });
    let d4 = encode_set_attenuation(1, 0).unwrap();
    steps.push(CommandStep { data: d4, settle_ms: SCRIPT_SETTLE_MS });
    let d5 = encode_enable_output(1, true).unwrap();
    steps.push(CommandStep { data: d5, settle_ms: SCRIPT_SETTLE_MS });
    let d6 = encode_set_amplitude(1, 500).unwrap();
    steps.push(CommandStep { data: d6, settle_ms: SCRIPT_SETTLE_MS });
    let d7 = sync_command_bytes(2);
    steps.push(CommandStep { data: d7, settle_ms: SCRIPT_SETTLE_MS });
    proof {
        assert forall|i: int| 0 <= i < steps@.len() implies (#[trigger] steps@[i]).data@
            == secondary_script()[i] && steps@[i].settle_ms == SCRIPT_SETTLE_MS by {
        }
    }
    steps
}

/// The stop sequence as steps with their settling times.
pub fn stop_command_steps() -> (r: Vec<CommandStep>)
    ensures
        r@.len() == stop_script().len(),
        forall|i: int|
            0 <= i < r@.len() ==> (#[trigger] r@[i]).data@ == stop_script()[i]
                && r@[i].settle_ms == SCRIPT_SETTLE_MS,
{
    let mut steps: Vec<CommandStep> = Vec::new();
    let d0 = encode_enable_output(2, false).unwrap();
    steps.push(CommandStep { data: d0, settle_ms: SCRIPT_SETTLE_MS });
    let d1 = encode_enable_output(1, false).unwrap();
    steps.push(CommandStep { data: d1, settle_ms: SCRIPT_SETTLE_MS });
    proof {
        assert forall|i: int| 0 <= i < steps@.len() implies (#[trigger] steps@[i]).data@
            == stop_script()[i] && steps@[i].settle_ms == SCRIPT_SETTLE_MS by {
        }
    }
    steps
}

} // verus!
