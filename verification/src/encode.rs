//! Fixed-width ASCII command encoding.
//!
//! Every parameter change the session offers is turned into one
//! newline-terminated command line: a three-byte head (`'W'`, the channel
//! letter, the parameter letter) followed by a zero-padded numeric payload
//! whose field widths the device firmware fixes per parameter.  The widths
//! of the chosen protocol profile are gathered here as named constants, and
//! each encoder's contract states the produced byte sequence exactly.

use vstd::prelude::*;

use crate::errors::SgError;

verus! {

/// ASCII bytes the wire format is spelled with.
pub const BYTE_UPPER_W: u8 = 87;

/// ASCII `'M'`: the main-wave channel letter.
pub const BYTE_UPPER_M: u8 = 77;

/// ASCII `'F'`: the auxiliary-wave channel letter, and the frequency letter.
pub const BYTE_UPPER_F: u8 = 70;

/// ASCII `'A'`: the amplitude parameter letter.
pub const BYTE_UPPER_A: u8 = 65;

/// ASCII `'O'`: the offset parameter letter.
pub const BYTE_UPPER_O: u8 = 79;

/// ASCII `'D'`: the duty-cycle parameter letter.
pub const BYTE_UPPER_D: u8 = 68;

/// ASCII `'P'`: the phase parameter letter.
pub const BYTE_UPPER_P: u8 = 80;

/// ASCII `'T'`: the attenuation parameter letter.
pub const BYTE_UPPER_T: u8 = 84;

/// ASCII `'N'`: the output-enable parameter letter.
pub const BYTE_UPPER_N: u8 = 78;

/// ASCII `'.'`: joins the integral and fractional fields.
pub const BYTE_DOT: u8 = 46;

/// ASCII line feed: the command terminator of this profile.
pub const BYTE_NEWLINE: u8 = 10;

/// ASCII `'U'`: starts the identity query and the sync command.
pub const BYTE_UPPER_U: u8 = 85;

/// ASCII `'S'`: second letter of the sync command.
pub const BYTE_UPPER_S: u8 = 83;

/// ASCII `'Y'`: second letter of the device-family prefixes.
pub const BYTE_UPPER_Y: u8 = 89;

/// ASCII carriage return: part of the identity query's terminator.
pub const BYTE_CR: u8 = 13;

/// ASCII `'0'`.
pub const BYTE_DIGIT_0: u8 = 48;

/// ASCII `'2'`.
pub const BYTE_DIGIT_2: u8 = 50;

/// ASCII `'3'`.
pub const BYTE_DIGIT_3: u8 = 51;

/// ASCII `'6'`.
pub const BYTE_DIGIT_6: u8 = 54;

/// ASCII `'1'`.
pub const BYTE_DIGIT_1: u8 = 49;

/// Digits the integral hertz field of a frequency command carries.
pub const FREQ_INT_WIDTH: u64 = 7;

/// Digits the fractional (micro-hertz) field of a frequency command carries.
pub const FREQ_FRAC_WIDTH: u64 = 6;

/// Digits before the point in an amplitude or offset command.
pub const FIXED2_INT_WIDTH: u64 = 2;

/// Digits after the point in an amplitude or offset command.
pub const FIXED2_FRAC_WIDTH: u64 = 2;

/// Digits before the point in a duty-cycle command.
pub const DUTY_INT_WIDTH: u64 = 2;

/// Digits after the point in a duty-cycle command.
pub const DUTY_FRAC_WIDTH: u64 = 1;

/// Digits of a phase command's payload.
pub const PHASE_WIDTH: u64 = 3;

/// Digits of an attenuation command's payload.
pub const ATTEN_WIDTH: u64 = 1;

/// Digits of a waveform command's payload.
pub const WAVEFORM_WIDTH: u64 = 2;

/// Largest waveform code of the closed enumeration.
pub const MAX_WAVEFORM_CODE: u8 = 6;

/// The two supported output channels.
pub open spec fn valid_channel(ch: u8) -> bool {
    ch == 1 || ch == 2
}

/// Channel letter of a command head: `'M'` selects the main wave, `'F'` the
/// auxiliary wave.
pub open spec fn channel_letter(ch: u8) -> u8 {
    if ch == 1 {
        BYTE_UPPER_M
    } else {
        BYTE_UPPER_F
    }
}

/// Three-byte head of every command: `'W'`, the channel letter, and the
/// parameter letter.
pub open spec fn cmd_head(ch: u8, param: u8) -> Seq<u8> {
    seq![BYTE_UPPER_W, channel_letter(ch), param]
}

/// `10^w`.
pub open spec fn pow10(w: nat) -> nat
    decreases w,
{
    if w == 0 {
        1
    } else {
        10 * pow10((w - 1) as nat)
    }
}

/// ASCII digit of `d % 10`.
pub open spec fn digit_byte(d: nat) -> u8 {
    (48 + (d % 10)) as u8
}

/// `n` in decimal, zero-padded to exactly `w` digits (most significant
/// first); wraps modulo `10^w` if `n` does not fit.
pub open spec fn dec_bytes(n: nat, w: nat) -> Seq<u8>
    decreases w,
{
    if w == 0 {
        Seq::empty()
    } else {
        dec_bytes(n / 10, (w - 1) as nat).push(digit_byte(n % 10))
    }
}

/// Value of a big-endian decimal digit string.
pub open spec fn parse_dec(s: Seq<u8>) -> nat
    decreases s.len(),
{
    if s.len() == 0 {
        0
    } else {
        parse_dec(s.drop_last()) * 10 + (s.last() - 48) as nat
    }
}

/// A frequency command: head, integral hertz, `'.'`, micro-hertz, newline.
pub open spec fn freq_command(ch: u8, hz: nat, micro: nat) -> Seq<u8> {
    cmd_head(ch, BYTE_UPPER_F) + dec_bytes(hz, FREQ_INT_WIDTH as nat) + seq![BYTE_DOT] + dec_bytes(
        micro,
        FREQ_FRAC_WIDTH as nat,
    ) + seq![BYTE_NEWLINE]
}

/// A two-decimal fixed-point command (amplitude with `param == BYTE_UPPER_A`,
/// offset with `param == BYTE_UPPER_O`); `centi` is the value in hundredths.
pub open spec fn fixed2_command(param: u8, ch: u8, centi: nat) -> Seq<u8> {
    cmd_head(ch, param) + dec_bytes(centi / 100, FIXED2_INT_WIDTH as nat) + seq![BYTE_DOT] + dec_bytes(
        centi % 100,
        FIXED2_FRAC_WIDTH as nat,
    ) + seq![BYTE_NEWLINE]
}

/// A duty-cycle command; `tenths` is the value in tenths of a percent.
pub open spec fn duty_command(ch: u8, tenths: nat) -> Seq<u8> {
    cmd_head(ch, BYTE_UPPER_D) + dec_bytes(tenths / 10, DUTY_INT_WIDTH as nat) + seq![BYTE_DOT] + dec_bytes(
        tenths % 10,
        DUTY_FRAC_WIDTH as nat,
    ) + seq![BYTE_NEWLINE]
}

/// A phase command; `deg` is whole degrees.
pub open spec fn phase_command(ch: u8, deg: nat) -> Seq<u8> {
    cmd_head(ch, BYTE_UPPER_P) + dec_bytes(deg, PHASE_WIDTH as nat) + seq![BYTE_NEWLINE]
}

/// An attenuation command; a single digit.
pub open spec fn atten_command(ch: u8, level: nat) -> Seq<u8> {
    cmd_head(ch, BYTE_UPPER_T) + dec_bytes(level, ATTEN_WIDTH as nat) + seq![BYTE_NEWLINE]
}

/// An output-enable command: one of two alternatives selected by `on`.
pub open spec fn output_command(ch: u8, on: bool) -> Seq<u8> {
    cmd_head(ch, BYTE_UPPER_N) + seq![if on { BYTE_DIGIT_1 } else { BYTE_DIGIT_0 }] + seq![BYTE_NEWLINE]
}

/// A waveform-select command; `code` is the two-digit waveform code.
pub open spec fn waveform_command(ch: u8, code: nat) -> Seq<u8> {
    cmd_head(ch, BYTE_UPPER_W) + dec_bytes(code, WAVEFORM_WIDTH as nat) + seq![BYTE_NEWLINE]
}

/// The closed set of waveforms the firmware offers.
#[derive(Clone, Copy, Debug, PartialEq, Eq, Structural)]
pub enum Waveform {
    Sine,
    Square,
    Triangle,
    Sawtooth,
    ReverseSawtooth,
    Pulse,
    Arbitrary,
}

impl Waveform {
    /// Wire code of the waveform.
    pub open spec fn spec_code(self) -> u8 {
        match self {
            Waveform::Sine => 0,
            Waveform::Square => 1,
            Waveform::Triangle => 2,
            Waveform::Sawtooth => 3,
            Waveform::ReverseSawtooth => 4,
            Waveform::Pulse => 5,
            Waveform::Arbitrary => 6,
        }
    }

    /// Wire code of the waveform.
    #[verifier::when_used_as_spec(spec_code)]
    pub fn code(self) -> (r: u8)
        ensures
            r == self.spec_code(),
    {
        match self {
            Waveform::Sine => 0,
            Waveform::Square => 1,
            Waveform::Triangle => 2,
            Waveform::Sawtooth => 3,
            Waveform::ReverseSawtooth => 4,
            Waveform::Pulse => 5,
            Waveform::Arbitrary => 6,
        }
    }

    /// The waveform of a wire code; codes outside the closed enumeration
    /// are rejected, never passed through.
    pub fn from_code(code: u8) -> (r: Option<Waveform>)
        ensures
            r is Some <==> code <= MAX_WAVEFORM_CODE,
            r matches Some(w) ==> w.spec_code() == code,
    {
        match code {
            0 => Some(Waveform::Sine),
            1 => Some(Waveform::Square),
            2 => Some(Waveform::Triangle),
            3 => Some(Waveform::Sawtooth),
            4 => Some(Waveform::ReverseSawtooth),
            5 => Some(Waveform::Pulse),
            6 => Some(Waveform::Arbitrary),
            _ => None,
        }
    }
}

/// Exec mirror of [`channel_letter`].
fn channel_letter_ex(ch: u8) -> (r: u8)
    requires
        valid_channel(ch),
    ensures
        r == channel_letter(ch),
{
    if ch == 1 {
        BYTE_UPPER_M
    } else {
        BYTE_UPPER_F
    }
}

/// Starts a command buffer with its three-byte head.
fn begin_command(ch: u8, param: u8) -> (r: Vec<u8>)
    requires
        valid_channel(ch),
    ensures
        r@ == cmd_head(ch, param),
{
    let mut v: Vec<u8> = Vec::new();
    v.push(BYTE_UPPER_W);
    v.push(channel_letter_ex(ch));
    v.push(param);
    proof {
        assert(v@ =~= cmd_head(ch, param));
    }
    v
}

/// Appends `n` in decimal, zero-padded to exactly `width` digits.
fn push_decimal(out: &mut Vec<u8>, n: u64, width: u64)
    ensures
        final(out)@ == old(out)@ + dec_bytes(n as nat, width as nat),
    decreases width,
{
    if width == 0 {
        proof {
            assert(out@ =~= old(out)@ + dec_bytes(n as nat, 0));
        }
    } else {
        push_decimal(out, n / 10, width - 1);
        out.push(BYTE_DIGIT_0 + (n % 10) as u8);
        proof {
            assert(out@ =~= old(out)@ + dec_bytes(n as nat, width as nat));
        }
    }
}

/// Encodes a frequency change: integral hertz and a micro-hertz fraction,
/// each at its fixed width.  Fails exactly on an unsupported channel or a
/// value the fields cannot hold.
pub fn encode_set_frequency(channel: u8, hz: u64, micro_hz: u64) -> (r: Result<Vec<u8>, SgError>)
    ensures
        r is Ok <==> valid_channel(channel) && hz < 10_000_000 && micro_hz < 1_000_000,
        r matches Ok(c) ==> c@ == freq_command(channel, hz as nat, micro_hz as nat),
        r is Err ==> r == Err::<Vec<u8>, SgError>(SgError::InvalidParameter),
{
    if !(channel == 1 || channel == 2) {
        return Err(SgError::InvalidParameter);
    }
    if hz >= 10_000_000 || micro_hz >= 1_000_000 {
        return Err(SgError::InvalidParameter);
    }
    let mut cmd = begin_command(channel, BYTE_UPPER_F);
    push_decimal(&mut cmd, hz, FREQ_INT_WIDTH);
    cmd.push(BYTE_DOT);
    push_decimal(&mut cmd, micro_hz, FREQ_FRAC_WIDTH);
    cmd.push(BYTE_NEWLINE);
    proof {
        assert(cmd@ =~= freq_command(channel, hz as nat, micro_hz as nat));
    }
    Ok(cmd)
}

/// Encodes a two-decimal fixed-point payload after the given parameter
/// letter; `centi` is the value in hundredths, below `100.00`.
fn encode_fixed2(param: u8, channel: u8, centi: u64) -> (r: Result<Vec<u8>, SgError>)
    ensures
        r is Ok <==> valid_channel(channel) && centi < 10_000,
        r matches Ok(c) ==> c@ == fixed2_command(param, channel, centi as nat),
        r is Err ==> r == Err::<Vec<u8>, SgError>(SgError::InvalidParameter),
{
    if !(channel == 1 || channel == 2) {
        return Err(SgError::InvalidParameter);
    }
    if centi >= 10_000 {
        return Err(SgError::InvalidParameter);
    }
    let mut cmd = begin_command(channel, param);
    push_decimal(&mut cmd, centi / 100, FIXED2_INT_WIDTH);
    cmd.push(BYTE_DOT);
    push_decimal(&mut cmd, centi % 100, FIXED2_FRAC_WIDTH);
    cmd.push(BYTE_NEWLINE);
    proof {
        assert(cmd@ =~= fixed2_command(param, channel, centi as nat));
    }
    Ok(cmd)
}

/// Encodes an amplitude change; `centivolts` is the amplitude in hundredths
/// of a volt.
pub fn encode_set_amplitude(channel: u8, centivolts: u64) -> (r: Result<Vec<u8>, SgError>)
    ensures
        r is Ok <==> valid_channel(channel) && centivolts < 10_000,
        r matches Ok(c) ==> c@ == fixed2_command(BYTE_UPPER_A, channel, centivolts as nat),
        r is Err ==> r == Err::<Vec<u8>, SgError>(SgError::InvalidParameter),
{
    encode_fixed2(BYTE_UPPER_A, channel, centivolts)
}

/// Encodes an offset change; `centivolts` is the offset in hundredths of a
/// volt.
pub fn encode_set_offset(channel: u8, centivolts: u64) -> (r: Result<Vec<u8>, SgError>)
    ensures
        r is Ok <==> valid_channel(channel) && centivolts < 10_000,
        r matches Ok(c) ==> c@ == fixed2_command(BYTE_UPPER_O, channel, centivolts as nat),
        r is Err ==> r == Err::<Vec<u8>, SgError>(SgError::InvalidParameter),
{
    encode_fixed2(BYTE_UPPER_O, channel, centivolts)
}

/// Encodes a duty-cycle change; `tenths` is the duty cycle in tenths of a
/// percent, below `100.0`.
pub fn encode_set_duty_cycle(channel: u8, tenths: u64) -> (r: Result<Vec<u8>, SgError>)
    ensures
        r is Ok <==> valid_channel(channel) && tenths < 1_000,
        r matches Ok(c) ==> c@ == duty_command(channel, tenths as nat),
        r is Err ==> r == Err::<Vec<u8>, SgError>(SgError::InvalidParameter),
{
    if !(channel == 1 || channel == 2) {
        return Err(SgError::InvalidParameter);
    }
    if tenths >= 1_000 {
        return Err(SgError::InvalidParameter);
    }
    let mut cmd = begin_command(channel, BYTE_UPPER_D);
    push_decimal(&mut cmd, tenths / 10, DUTY_INT_WIDTH);
    cmd.push(BYTE_DOT);
    push_decimal(&mut cmd, tenths % 10, DUTY_FRAC_WIDTH);
    cmd.push(BYTE_NEWLINE);
    proof {
        assert(cmd@ =~= duty_command(channel, tenths as nat));
    }
    Ok(cmd)
}

/// Encodes a phase change; `degrees` is the phase in whole degrees, below
/// `1000`.
pub fn encode_set_phase(channel: u8, degrees: u64) -> (r: Result<Vec<u8>, SgError>)
    ensures
        r is Ok <==> valid_channel(channel) && degrees < 1_000,
        r matches Ok(c) ==> c@ == phase_command(channel, degrees as nat),
        r is Err ==> r == Err::<Vec<u8>, SgError>(SgError::InvalidParameter),
{
    if !(channel == 1 || channel == 2) {
        return Err(SgError::InvalidParameter);
    }
    if degrees >= 1_000 {
        return Err(SgError::InvalidParameter);
    }
    let mut cmd = begin_command(channel, BYTE_UPPER_P);
    push_decimal(&mut cmd, degrees, PHASE_WIDTH);
    cmd.push(BYTE_NEWLINE);
    proof {
        assert(cmd@ =~= phase_command(channel, degrees as nat));
    }
    Ok(cmd)
}

/// Encodes an attenuation change; a single-digit level.
pub fn encode_set_attenuation(channel: u8, level: u64) -> (r: Result<Vec<u8>, SgError>)
    ensures
        r is Ok <==> valid_channel(channel) && level < 10,
        r matches Ok(c) ==> c@ == atten_command(channel, level as nat),
        r is Err ==> r == Err::<Vec<u8>, SgError>(SgError::InvalidParameter),
{
    if !(channel == 1 || channel == 2) {
        return Err(SgError::InvalidParameter);
    }
    if level >= 10 {
        return Err(SgError::InvalidParameter);
    }
    let mut cmd = begin_command(channel, BYTE_UPPER_T);
    push_decimal(&mut cmd, level, ATTEN_WIDTH);
    cmd.push(BYTE_NEWLINE);
    proof {
        assert(cmd@ =~= atten_command(channel, level as nat));
    }
    Ok(cmd)
}

/// Encodes one of the two output-enable alternatives, selected by `on`.
pub fn encode_enable_output(channel: u8, on: bool) -> (r: Result<Vec<u8>, SgError>)
    ensures
        r is Ok <==> valid_channel(channel),
        r matches Ok(c) ==> c@ == output_command(channel, on),
        r is Err ==> r == Err::<Vec<u8>, SgError>(SgError::InvalidParameter),
{
    if !(channel == 1 || channel == 2) {
        return Err(SgError::InvalidParameter);
    }
    let mut cmd = begin_command(channel, BYTE_UPPER_N);
    cmd.push(if on {
        BYTE_DIGIT_1
    } else {
        BYTE_DIGIT_0
    });
    cmd.push(BYTE_NEWLINE);
    proof {
        assert(cmd@ =~= output_command(channel, on));
    }
    Ok(cmd)
}

/// Encodes a waveform selection.
pub fn encode_set_waveform(channel: u8, wave: Waveform) -> (r: Result<Vec<u8>, SgError>)
    ensures
        r is Ok <==> valid_channel(channel),
        r matches Ok(c) ==> c@ == waveform_command(channel, wave.spec_code() as nat),
        r is Err ==> r == Err::<Vec<u8>, SgError>(SgError::InvalidParameter),
{
    if !(channel == 1 || channel == 2) {
        return Err(SgError::InvalidParameter);
    }
    let mut cmd = begin_command(channel, BYTE_UPPER_W);
    push_decimal(&mut cmd, wave.code() as u64, WAVEFORM_WIDTH);
    cmd.push(BYTE_NEWLINE);
    proof {
        assert(cmd@ =~= waveform_command(channel, wave.spec_code() as nat));
    }
    Ok(cmd)
}

/// A zero-padded decimal field has exactly its requested width.
pub proof fn lemma_dec_bytes_len(n: nat, w: nat)
    ensures
        dec_bytes(n, w).len() == w,
    decreases w,
{
    if w > 0 {
        lemma_dec_bytes_len(n / 10, (w - 1) as nat);
    }
}

/// Law: for every supported channel and every value its fields can hold, a
/// frequency command has exactly the profile's width, and re-parsing its
/// integral and fractional fields recovers the encoded values exactly; the
/// encoder rounds nothing.
pub proof fn lemma_frequency_round_trip(ch: u8, hz: nat, micro: nat)
    requires
        valid_channel(ch),
        hz < 10_000_000,
        micro < 1_000_000,
    ensures
        freq_command(ch, hz, micro).len() == 18,
        parse_dec(freq_command(ch, hz, micro).subrange(3, 10)) == hz,
        parse_dec(freq_command(ch, hz, micro).subrange(11, 17)) == micro,
{
    reveal_with_fuel(pow10, 8);
    assert(pow10(7) == 10_000_000);
    assert(pow10(6) == 1_000_000);
    lemma_dec_bytes_len(hz, 7);
    lemma_dec_bytes_len(micro, 6);
    assert(freq_command(ch, hz, micro).subrange(3, 10) =~= dec_bytes(hz, 7));
    assert(freq_command(ch, hz, micro).subrange(11, 17) =~= dec_bytes(micro, 6));
    lemma_parse_dec_bytes(hz, 7);
    lemma_parse_dec_bytes(micro, 6);
}

/// Law: for every supported channel and every value below `100.00`, a
/// two-decimal fixed-point command has exactly the profile's width, and
/// re-parsing its integral and fractional fields recovers the encoded
/// hundredths exactly.
pub proof fn lemma_fixed2_round_trip(param: u8, ch: u8, centi: nat)
    requires
        valid_channel(ch),
        centi < 10_000,
    ensures
        fixed2_command(param, ch, centi).len() == 9,
        parse_dec(fixed2_command(param, ch, centi).subrange(3, 5)) * 100 + parse_dec(
            fixed2_command(param, ch, centi).subrange(6, 8),
        ) == centi,
{
    reveal_with_fuel(pow10, 3);
    assert(pow10(2) == 100);
    lemma_dec_bytes_len(centi / 100, 2);
    lemma_dec_bytes_len(centi % 100, 2);
    assert(fixed2_command(param, ch, centi).subrange(3, 5) =~= dec_bytes(centi / 100, 2));
    assert(fixed2_command(param, ch, centi).subrange(6, 8) =~= dec_bytes(centi % 100, 2));
    assert(centi / 100 < 100);
    assert(centi % 100 < 100);
    lemma_parse_dec_bytes(centi / 100, 2);
    lemma_parse_dec_bytes(centi % 100, 2);
    vstd::arithmetic::div_mod::lemma_fundamental_div_mod(centi as int, 100);
}

/// Re-parsing a zero-padded decimal field recovers the encoded value, for
/// every value the field can hold.
pub proof fn lemma_parse_dec_bytes(n: nat, w: nat)
    requires
        n < pow10(w),
    ensures
        parse_dec(dec_bytes(n, w)) == n,
    decreases w,
{
    if w == 0 {
        assert(n == 0);
    } else {
        let s = dec_bytes(n / 10, (w - 1) as nat);
        let d = digit_byte(n % 10);
        assert(s.push(d).drop_last() =~= s);
        assert(n / 10 < pow10((w - 1) as nat)) by {
            vstd::arithmetic::div_mod::lemma_multiply_divide_lt(
                n as int,
                10,
                pow10((w - 1) as nat) as int,
            );
        }
        lemma_parse_dec_bytes(n / 10, (w - 1) as nat);
        assert((d - 48) as nat == n % 10);
        vstd::arithmetic::div_mod::lemma_fundamental_div_mod(n as int, 10);
    }
}

} // verus!
