use siggen_core::errors::SgError;
use siggen_core::session::{
    classify_response, initial_command_steps, list_candidates, secondary_command_steps,
    stop_command_steps, Session, SCRIPT_SETTLE_MS,
};

fn step_ascii(data: &[u8]) -> String {
    String::from_utf8(data.to_vec()).unwrap()
}

#[test]
fn candidates_end_with_simulated_port() {
    let names = list_candidates();
    assert!(!names.is_empty());
    assert_eq!(names.last().unwrap(), "TEST");
}

#[test]
fn classify_accepts_known_family_prefixes() {
    assert!(classify_response(&b"FY2300 rest of banner".to_vec()));
    assert!(classify_response(&b"FY6300".to_vec()));
    assert!(classify_response(&b"FY63".to_vec()));
}

#[test]
fn classify_rejects_everything_else() {
    assert!(!classify_response(&b"".to_vec()));
    assert!(!classify_response(&b"FY6".to_vec()));
    assert!(!classify_response(&b"XY2300".to_vec()));
    assert!(!classify_response(&b"FY7300".to_vec()));
}

#[test]
fn open_already_open_is_refused() {
    // The active port starts as the simulated identifier.
    let mut session = Session::new();
    assert_eq!(session.open(9600), Ok(true));
    assert_eq!(session.open_count(), 1);
    assert_eq!(session.open(9600), Err(SgError::PortAlreadyOpen));
    assert_eq!(session.open_count(), 1);
}

#[test]
fn close_without_open_reports_not_found() {
    let mut session = Session::new();
    assert_eq!(session.close(), Err(SgError::PortNotFound));
}

#[test]
fn close_then_open_yields_fresh_handle() {
    let mut session = Session::new();
    assert_eq!(session.open(9600), Ok(true));
    // Poison the current handle: the very next write through it would fail.
    assert!(session.script_simulated_failure(0));
    assert_eq!(session.close(), Ok(true));
    assert_eq!(session.open_count(), 0);
    // Reopening the same identifier succeeds and carries no residual state:
    // the fresh handle's writes succeed.
    assert_eq!(session.open(9600), Ok(true));
    assert_eq!(session.write("WMN1\n"), Ok(true));
}

#[test]
fn write_without_open_reports_port_not_open() {
    let mut session = Session::new();
    assert_eq!(session.write("WMN1\n"), Err(SgError::PortNotOpen));
    // The refused write is still recorded as a failed observer event.
    let events = session.events();
    assert_eq!(events.len(), 1);
    assert!(!events[0].ok);
}

#[test]
fn invalid_parameters_are_rejected_before_any_write() {
    let mut session = Session::new();
    session.open(9600).unwrap();
    assert_eq!(session.set_frequency(3, 1000, 0), Err(SgError::InvalidParameter));
    assert_eq!(session.set_waveform(1, 7), Err(SgError::InvalidParameter));
    assert_eq!(session.set_amplitude(1, 10_000), Err(SgError::InvalidParameter));
    assert_eq!(session.events().len(), 0);
}

#[test]
fn typed_operations_record_exact_commands() {
    let mut session = Session::new();
    session.open(9600).unwrap();
    assert_eq!(session.set_frequency(1, 3_100_000, 0), Ok(true));
    assert_eq!(session.set_amplitude(1, 100), Ok(true));
    assert_eq!(session.set_waveform(1, 0), Ok(true));
    assert_eq!(session.enable_output(1, true), Ok(true));
    let events = session.events();
    assert_eq!(events.len(), 4);
    assert_eq!(step_ascii(&events[0].data), "WMF3100000.000000\n");
    assert_eq!(step_ascii(&events[1].data), "WMA01.00\n");
    assert_eq!(step_ascii(&events[2].data), "WMW00\n");
    assert_eq!(step_ascii(&events[3].data), "WMN1\n");
    assert!(events.iter().all(|e| e.ok));
}

#[test]
fn set_amplitude_channel_1_encodes_01_00() {
    // 1.00 volt in the two-decimal fixed-point profile.
    let mut session = Session::new();
    session.open(9600).unwrap();
    assert_eq!(session.set_amplitude(1, 100), Ok(true));
    let events = session.events();
    assert_eq!(step_ascii(&events[0].data), "WMA01.00\n");
}

#[test]
fn reconnect_without_hardware_falls_back_to_simulated() {
    let mut session = Session::new();
    let connected = session.reconnect(9600).unwrap();
    assert_eq!(connected, "TEST");
    assert_eq!(session.active_port_name(), "TEST");
    // A subsequent write succeeds and is recorded by the observer.
    assert_eq!(session.write("WMN1"), Ok(true));
    let events = session.events();
    assert_eq!(events.len(), 1);
    assert!(events[0].ok);
    assert_eq!(step_ascii(&events[0].data), "WMN1");
}

#[test]
fn reconnect_leaves_exactly_one_entry() {
    let mut session = Session::new();
    // Populate the registry first; reconnect must evict it.
    assert_eq!(session.open(9600), Ok(true));
    let connected = session.reconnect(9600).unwrap();
    assert_eq!(session.open_count(), 1);
    assert!(session.is_open(&connected));
    assert_eq!(session.active_port_name(), connected);
}

#[test]
fn no_device_scan_reports_no_device_found() {
    let mut session = Session::new();
    assert_eq!(session.find_device(9600), Err(SgError::NoDeviceFound));
}

#[test]
fn two_writers_serialize_through_the_observer_log() {
    let mut session = Session::new();
    session.reconnect(9600).unwrap();
    // Two writers with distinguishable payloads; exclusive access hands the
    // session to one at a time, and the log reconstructs the order.
    assert_eq!(session.write("AAAA"), Ok(true));
    assert_eq!(session.write("BBBB"), Ok(true));
    let events = session.events();
    assert_eq!(events.len(), 2);
    assert_eq!(step_ascii(&events[0].data), "AAAA");
    assert_eq!(step_ascii(&events[1].data), "BBBB");
    assert!(events[0].ok && events[1].ok);
}

#[test]
fn initial_sequence_sends_all_steps_in_order() {
    let mut session = Session::new();
    session.open(9600).unwrap();
    assert_eq!(session.send_initial_commands(), Ok(true));
    let events = session.events();
    assert_eq!(events.len(), 7);
    assert_eq!(step_ascii(&events[0].data), "WFW00\n");
    assert_eq!(step_ascii(&events[1].data), "WFO00.00\n");
    assert_eq!(step_ascii(&events[2].data), "WFD50.0\n");
    assert_eq!(step_ascii(&events[3].data), "WFP000\n");
    assert_eq!(step_ascii(&events[4].data), "WFT0\n");
    assert_eq!(step_ascii(&events[5].data), "WFF3100000.000000\n");
    assert_eq!(step_ascii(&events[6].data), "WFN1\n");
    assert!(events.iter().all(|e| e.ok));
}

#[test]
fn sequence_stops_at_first_failure_and_reports_it() {
    let mut session = Session::new();
    session.open(9600).unwrap();
    // Script the third write to fail.
    assert!(session.script_simulated_failure(2));
    let failure = session.send_initial_commands().unwrap_err();
    assert_eq!(failure.step, 2);
    assert!(matches!(failure.cause, SgError::IoFailure(_)));
    // The first two steps took effect, the third failed, the fourth was
    // never attempted.
    let events = session.events();
    assert_eq!(events.len(), 3);
    assert!(events[0].ok);
    assert!(events[1].ok);
    assert!(!events[2].ok);
    assert_eq!(step_ascii(&events[2].data), "WFD50.0\n");
}

#[test]
fn sequence_on_unopened_port_fails_at_step_zero() {
    let mut session = Session::new();
    let failure = session.send_initial_commands().unwrap_err();
    assert_eq!(failure.step, 0);
    assert_eq!(failure.cause, SgError::PortNotOpen);
    assert_eq!(session.events().len(), 1);
}

#[test]
fn secondary_sequence_steps_match_the_script() {
    let steps = secondary_command_steps();
    let texts: Vec<String> = steps.iter().map(|s| step_ascii(&s.data)).collect();
    assert_eq!(
        texts,
        vec![
            "WMW01\n",
            "WMO00.00\n",
            "WMD50.0\n",
            "WMP000\n",
            "WMT0\n",
            "WMN1\n",
            "WMA05.00\n",
            "USA2\n",
        ]
    );
    assert!(steps.iter().all(|s| s.settle_ms == SCRIPT_SETTLE_MS));
}

#[test]
fn stop_sequence_switches_both_outputs_off() {
    let steps = stop_command_steps();
    let texts: Vec<String> = steps.iter().map(|s| step_ascii(&s.data)).collect();
    assert_eq!(texts, vec!["WFN0\n", "WMN0\n"]);
}

#[test]
fn initial_steps_carry_settling_times() {
    let steps = initial_command_steps();
    assert_eq!(steps.len(), 7);
    assert!(steps.iter().all(|s| s.settle_ms == SCRIPT_SETTLE_MS));
}

#[test]
fn stop_and_reset_runs_both_steps() {
    let mut session = Session::new();
    session.open(9600).unwrap();
    assert_eq!(session.stop_and_reset(), Ok(true));
    let events = session.events();
    assert_eq!(events.len(), 2);
    assert_eq!(step_ascii(&events[0].data), "WFN0\n");
    assert_eq!(step_ascii(&events[1].data), "WMN0\n");
}

#[test]
fn send_secondary_commands_records_all_steps() {
    let mut session = Session::new();
    session.open(9600).unwrap();
    assert_eq!(session.send_secondary_commands(), Ok(true));
    assert_eq!(session.events().len(), 8);
    assert_eq!(step_ascii(&session.events()[7].data), "USA2\n");
}

#[test]
fn close_then_reopen_law_holds_at_runtime() {
    let mut session = Session::new();
    assert_eq!(session.open(9600), Ok(true));
    let (closed, opened) = session.close_then_reopen(9600);
    assert_eq!(closed, Ok(true));
    assert_eq!(opened, Ok(true));
    assert_eq!(session.open_count(), 1);
    assert_eq!(session.write("WMN1"), Ok(true));
}
