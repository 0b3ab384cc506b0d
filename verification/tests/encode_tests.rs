use siggen_core::encode::{
    encode_enable_output, encode_set_amplitude, encode_set_attenuation, encode_set_duty_cycle,
    encode_set_frequency, encode_set_offset, encode_set_phase, encode_set_waveform, Waveform,
};
use siggen_core::errors::SgError;

fn ascii(cmd: Vec<u8>) -> String {
    String::from_utf8(cmd).unwrap()
}

#[test]
fn frequency_channel_1_exact_width() {
    let cmd = encode_set_frequency(1, 3_100_000, 0).unwrap();
    assert_eq!(ascii(cmd), "WMF3100000.000000\n");
}

#[test]
fn frequency_channel_2_exact_width() {
    let cmd = encode_set_frequency(2, 3_100_000, 0).unwrap();
    assert_eq!(ascii(cmd), "WFF3100000.000000\n");
}

#[test]
fn frequency_zero_padding() {
    let cmd = encode_set_frequency(1, 42, 5).unwrap();
    assert_eq!(ascii(cmd), "WMF0000042.000005\n");
}

#[test]
fn frequency_largest_representable() {
    let cmd = encode_set_frequency(1, 9_999_999, 999_999).unwrap();
    assert_eq!(ascii(cmd), "WMF9999999.999999\n");
}

#[test]
fn frequency_reparse_recovers_value() {
    // Re-parsing the numeric portion recovers the encoded value exactly.
    let cmd = ascii(encode_set_frequency(2, 1_234_567, 89).unwrap());
    let integral: u64 = cmd[3..10].parse().unwrap();
    let fractional: u64 = cmd[11..17].parse().unwrap();
    assert_eq!(integral, 1_234_567);
    assert_eq!(fractional, 89);
}

#[test]
fn frequency_rejects_bad_channel() {
    assert_eq!(encode_set_frequency(0, 1000, 0), Err(SgError::InvalidParameter));
    assert_eq!(encode_set_frequency(3, 1000, 0), Err(SgError::InvalidParameter));
}

#[test]
fn frequency_rejects_width_overflow() {
    assert_eq!(encode_set_frequency(1, 10_000_000, 0), Err(SgError::InvalidParameter));
    assert_eq!(encode_set_frequency(1, 0, 1_000_000), Err(SgError::InvalidParameter));
}

#[test]
fn amplitude_two_decimal_profile() {
    // 1.00 volt on channel 1: the channel-1 amplitude prefix and `01.00`.
    let cmd = encode_set_amplitude(1, 100).unwrap();
    assert_eq!(ascii(cmd), "WMA01.00\n");
}

#[test]
fn amplitude_channel_2_prefix() {
    let cmd = encode_set_amplitude(2, 500).unwrap();
    assert_eq!(ascii(cmd), "WFA05.00\n");
}

#[test]
fn amplitude_rejects_width_overflow() {
    assert_eq!(encode_set_amplitude(1, 10_000), Err(SgError::InvalidParameter));
}

#[test]
fn offset_zero_is_all_zeros() {
    let cmd = encode_set_offset(2, 0).unwrap();
    assert_eq!(ascii(cmd), "WFO00.00\n");
}

#[test]
fn duty_cycle_one_decimal_profile() {
    let cmd = encode_set_duty_cycle(2, 500).unwrap();
    assert_eq!(ascii(cmd), "WFD50.0\n");
}

#[test]
fn duty_cycle_rejects_width_overflow() {
    assert_eq!(encode_set_duty_cycle(1, 1_000), Err(SgError::InvalidParameter));
}

#[test]
fn phase_three_digits() {
    assert_eq!(ascii(encode_set_phase(2, 0).unwrap()), "WFP000\n");
    assert_eq!(ascii(encode_set_phase(1, 359).unwrap()), "WMP359\n");
}

#[test]
fn attenuation_single_digit() {
    assert_eq!(ascii(encode_set_attenuation(2, 0).unwrap()), "WFT0\n");
    assert_eq!(ascii(encode_set_attenuation(1, 9).unwrap()), "WMT9\n");
}

#[test]
fn output_enable_two_alternatives() {
    assert_eq!(ascii(encode_enable_output(1, true).unwrap()), "WMN1\n");
    assert_eq!(ascii(encode_enable_output(1, false).unwrap()), "WMN0\n");
    assert_eq!(ascii(encode_enable_output(2, true).unwrap()), "WFN1\n");
    assert_eq!(ascii(encode_enable_output(2, false).unwrap()), "WFN0\n");
}

#[test]
fn waveform_two_digit_codes() {
    assert_eq!(ascii(encode_set_waveform(1, Waveform::Sine).unwrap()), "WMW00\n");
    assert_eq!(ascii(encode_set_waveform(1, Waveform::Square).unwrap()), "WMW01\n");
    assert_eq!(ascii(encode_set_waveform(2, Waveform::Arbitrary).unwrap()), "WFW06\n");
}

#[test]
fn waveform_codes_round_trip() {
    let all = [
        Waveform::Sine,
        Waveform::Square,
        Waveform::Triangle,
        Waveform::Sawtooth,
        Waveform::ReverseSawtooth,
        Waveform::Pulse,
        Waveform::Arbitrary,
    ];
    for (want, w) in all.iter().enumerate() {
        assert_eq!(w.code() as usize, want);
        assert_eq!(Waveform::from_code(w.code()), Some(*w));
    }
}

#[test]
fn waveform_unknown_codes_rejected() {
    assert_eq!(Waveform::from_code(7), None);
    assert_eq!(Waveform::from_code(255), None);
}

#[test]
fn error_descriptions() {
    assert_eq!(SgError::PortNotFound.describe(), "port not found");
    assert_eq!(SgError::PortAlreadyOpen.describe(), "port already open");
    assert_eq!(SgError::PortNotOpen.describe(), "port not open");
    assert_eq!(SgError::InvalidParameter.describe(), "invalid parameter");
    assert_eq!(SgError::NoDeviceFound.describe(), "no device found");
    assert_eq!(
        SgError::IoFailure(String::from("broken pipe")).describe(),
        "i/o failure: broken pipe"
    );
}
