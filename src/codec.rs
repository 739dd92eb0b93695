//! Fixed-offset encoding and decoding of command and response frames.
use vstd::prelude::*;
use vstd::arithmetic::div_mod::{lemma_fundamental_div_mod, lemma_mod_breakdown};
use vstd::utf8::{decode_utf8, valid_utf8};

use crate::Error;

verus! {

/// Length of every report exchanged with the generator.
pub const FRAME_LEN: usize = 64;

/// `256^n`, the number of values that `n` bytes can hold.
pub open spec fn byte_span(n: nat) -> nat
    decreases n,
{
    if n == 0 {
        1
    } else {
        256 * byte_span((n - 1) as nat)
    }
}

/// The unsigned integer that `s` spells out, most significant byte first.
pub open spec fn be_value(s: Seq<u8>) -> nat
    decreases s.len(),
{
    if s.len() == 0 {
        0
    } else {
        be_value(s.drop_last()) * 256 + s.last() as nat
    }
}

/// The low `n` bytes of `v`, most significant first.
pub open spec fn be_bytes(v: nat, n: nat) -> Seq<u8>
    decreases n,
{
    if n == 0 {
        Seq::empty()
    } else {
        be_bytes(v / 256, (n - 1) as nat).push((v % 256) as u8)
    }
}

/// `s` spells a value below `256^len`.
pub proof fn lemma_be_value_bound(s: Seq<u8>)
    ensures
        be_value(s) < byte_span(s.len()),
    decreases s.len(),
{
    if s.len() > 0 {
        lemma_be_value_bound(s.drop_last());
        let a = be_value(s.drop_last());
        let b = byte_span((s.len() - 1) as nat);
        assert(a * 256 + (s.last() as nat) < 256 * b) by (nonlinear_arith)
            requires
                a < b,
                s.last() < 256,
        ;
    }
}

/// `256^n` is positive.
pub proof fn lemma_byte_span_pos(n: nat)
    ensures
        byte_span(n) > 0,
    decreases n,
{
    if n > 0 {
        lemma_byte_span_pos((n - 1) as nat);
    }
}

/// `256^n` grows with `n`.
pub proof fn lemma_byte_span_mono(a: nat, b: nat)
    requires
        a <= b,
    ensures
        byte_span(a) <= byte_span(b),
    decreases b,
{
    if a < b {
        lemma_byte_span_mono(a, (b - 1) as nat);
    }
}

/// Reading back the low `n` bytes of `v` gives `v` modulo `256^n`.
pub proof fn lemma_be_round_trip(v: nat, n: nat)
    ensures
        be_value(be_bytes(v, n)) == v % byte_span(n),
        be_bytes(v, n).len() == n,
    decreases n,
{
    if n > 0 {
        let rest = be_bytes(v / 256, (n - 1) as nat);
        lemma_be_round_trip(v / 256, (n - 1) as nat);
        assert(be_bytes(v, n).drop_last() =~= rest);
        lemma_byte_span_pos((n - 1) as nat);
        lemma_mod_breakdown(v as int, 256, byte_span((n - 1) as nat) as int);
    }
}

/// Reads `width` bytes of `frame` starting at `start` as a big-endian integer.
pub fn decode_be(frame: &[u8], start: usize, width: usize) -> (r: u64)
    requires
        start + width <= frame@.len(),
        width <= 8,
    ensures
        r as nat == be_value(frame@.subrange(start as int, start + width)),
{
    let len: usize = frame.len();
    let end: usize = start + width;
    let mut acc: u64 = 0;
    let mut i: usize = start;
    proof {
        assert(frame@.subrange(start as int, start as int) =~= Seq::<u8>::empty());
    }
    while i < end
        invariant
            start <= i <= end,
            end == start + width,
            end <= len,
            len == frame@.len(),
            width <= 8,
            acc as nat == be_value(frame@.subrange(start as int, i as int)),
        decreases end - i,
    {
        proof {
            let s = frame@.subrange(start as int, i as int);
            lemma_be_value_bound(s);
            lemma_byte_span_mono(s.len(), 7);
            reveal_with_fuel(byte_span, 8);
            assert(byte_span(7) == 0x100_0000_0000_0000);
            assert(frame@.subrange(start as int, i + 1).drop_last() =~= s);
        }
        acc = acc * 256 + frame[i] as u64;
        i = i + 1;
    }
    acc
}

/// Opcodes of the commands the generator understands; the reply to a command
/// starts with the same opcode.
#[derive(Clone, Copy, Debug, PartialEq, Eq)]
pub enum InterruptCode {
    DeviceModelName,
    DeviceSerialNumber,
    GeneratorMinimumFrequency,
    GeneratorMaximumFrequency,
    GeneratorMinimumPower,
    GeneratorMaximumPower,
    SetFreqAndPower,
    SetRfPowerOnOff,
    GetGeneratorOutputStatus,
}

/// The byte that stands for `c` on the wire.
pub open spec fn code_byte(c: InterruptCode) -> u8 {
    match c {
        InterruptCode::DeviceModelName => 40,
        InterruptCode::DeviceSerialNumber => 41,
        InterruptCode::GeneratorMinimumFrequency => 42,
        InterruptCode::GeneratorMaximumFrequency => 43,
        InterruptCode::GeneratorMinimumPower => 45,
        InterruptCode::GeneratorMaximumPower => 46,
        InterruptCode::SetFreqAndPower => 103,
        InterruptCode::SetRfPowerOnOff => 104,
        InterruptCode::GetGeneratorOutputStatus => 105,
    }
}

impl InterruptCode {
    pub fn byte(&self) -> (r: u8)
        ensures
            r == code_byte(*self),
    {
        match self {
            InterruptCode::DeviceModelName => 40,
            InterruptCode::DeviceSerialNumber => 41,
            InterruptCode::GeneratorMinimumFrequency => 42,
            InterruptCode::GeneratorMaximumFrequency => 43,
            InterruptCode::GeneratorMinimumPower => 45,
            InterruptCode::GeneratorMaximumPower => 46,
            InterruptCode::SetFreqAndPower => 103,
            InterruptCode::SetRfPowerOnOff => 104,
            InterruptCode::GetGeneratorOutputStatus => 105,
        }
    }
}

/// A zero-filled frame whose first byte is the opcode of `c`.
pub open spec fn blank_frame(c: InterruptCode) -> Seq<u8> {
    Seq::new(FRAME_LEN as nat, |i: int| if i == 0 { code_byte(c) } else { 0u8 })
}

/// Builds the command frame for `c`, payload left zero.
pub fn pack(c: InterruptCode) -> (r: Vec<u8>)
    ensures
        r@ == blank_frame(c),
{
    let mut r: Vec<u8> = Vec::new();
    r.push(c.byte());
    while r.len() < FRAME_LEN
        invariant
            1 <= r@.len() <= FRAME_LEN,
            r@[0] == code_byte(c),
            forall|i: int| 1 <= i < r@.len() ==> r@[i] == 0,
        decreases FRAME_LEN - r@.len(),
    {
        r.push(0);
    }
    assert(r@ =~= blank_frame(c));
    r
}

/// Power in hundredths of a dBm carried by a sign byte and a big-endian
/// 16-bit magnitude; an odd sign byte means negative.
pub open spec fn power_value(sign: u8, hi: u8, lo: u8) -> int {
    let m = 256 * hi + lo;
    if sign % 2 == 1 {
        -m
    } else {
        m
    }
}

/// The three bytes sent for a power of `p` hundredths of a dBm: the sign, then
/// the magnitude truncated to a count of 256s and what remains after
/// subtracting them. A count above 255 saturates.
pub open spec fn power_bytes(p: int) -> Seq<u8> {
    let m = if p < 0 {
        -p
    } else {
        p
    };
    let hi = m / 256;
    seq![
        if p < 0 { 1u8 } else { 0u8 },
        if hi > 255 { 255u8 } else { hi as u8 },
        (m - hi * 256) as u8,
    ]
}

/// Decodes a power field, in hundredths of a dBm, from its three bytes.
pub fn bytes_to_power(bytes: &[u8]) -> (r: i32)
    requires
        bytes@.len() >= 3,
    ensures
        r as int == power_value(bytes@[0], bytes@[1], bytes@[2]),
{
    let m: i32 = 256 * (bytes[1] as i32) + bytes[2] as i32;
    if bytes[0] % 2 == 1 {
        -m
    } else {
        m
    }
}

/// Encodes a power of `power` hundredths of a dBm into its three wire bytes.
pub fn power_to_bytes(power: i32) -> (r: Vec<u8>)
    ensures
        r@ == power_bytes(power as int),
{
    let m: i64 = if power < 0 {
        -(power as i64)
    } else {
        power as i64
    };
    let hi: i64 = m / 256;
    let lo: i64 = m - hi * 256;
    let sign: u8 = if power < 0 {
        1
    } else {
        0
    };
    let hi_byte: u8 = if hi > 255 {
        255
    } else {
        hi as u8
    };
    let r = vec![sign, hi_byte, lo as u8];
    assert(r@ =~= power_bytes(power as int));
    r
}

/// Encoding then decoding a power whose magnitude fits in 16 bits gives the
/// same value back, to the hundredth of a dBm.
pub proof fn lemma_power_round_trip(p: int)
    requires
        -65535 <= p <= 65535,
    ensures
        power_value(power_bytes(p)[0], power_bytes(p)[1], power_bytes(p)[2]) == p,
{
    let m = if p < 0 {
        -p
    } else {
        p
    };
    lemma_fundamental_div_mod(m, 256);
    assert(0 <= m % 256 < 256);
    assert(m / 256 <= 255);
}

/// The low five bytes of a frequency, most significant first: the width a
/// frequency has in command frames.
pub fn frequency_to_bytes(freq: u64) -> (r: Vec<u8>)
    ensures
        r@ == be_bytes(freq as nat, 5),
        r@.len() == 5,
{
    let v1: u64 = freq / 256;
    let v2: u64 = v1 / 256;
    let v3: u64 = v2 / 256;
    let v4: u64 = v3 / 256;
    let r = vec![
        (v4 % 256) as u8,
        (v3 % 256) as u8,
        (v2 % 256) as u8,
        (v1 % 256) as u8,
        (freq % 256) as u8,
    ];
    proof {
        reveal_with_fuel(be_bytes, 6);
    }
    assert(r@ =~= be_bytes(freq as nat, 5));
    r
}

/// Index of the first zero byte of `s` at or after `from`.
pub open spec fn zero_index(s: Seq<u8>, from: int) -> Option<int>
    decreases s.len() - from,
{
    if from >= s.len() || from < 0 {
        None
    } else if s[from] == 0 {
        Some(from)
    } else {
        zero_index(s, from + 1)
    }
}

/// The text of a zero-terminated string field that starts after the opcode.
pub open spec fn cstr_text(frame: Seq<u8>) -> Result<Seq<char>, Error> {
    match zero_index(frame, 1) {
        None => Err(Error::MalformedFrame),
        Some(j) => {
            let b = frame.subrange(1, j);
            if valid_utf8(b) {
                Ok(decode_utf8(b))
            } else {
                Err(Error::InvalidString)
            }
        },
    }
}

proof fn lemma_zero_index_none(s: Seq<u8>, from: int)
    requires
        0 <= from,
        forall|i: int| from <= i < s.len() ==> s[i] != 0,
    ensures
        zero_index(s, from) is None,
    decreases s.len() - from,
{
    if from < s.len() {
        lemma_zero_index_none(s, from + 1);
    }
}

/// A string field with no zero byte after the opcode is rejected as malformed.
pub proof fn lemma_unterminated_cstr(frame: Seq<u8>)
    requires
        forall|i: int| 1 <= i < frame.len() ==> frame[i] != 0,
    ensures
        cstr_text(frame) == Err::<Seq<char>, Error>(Error::MalformedFrame),
{
    lemma_zero_index_none(frame, 1);
}

/// Relies on String::from_utf8: it succeeds exactly on valid UTF-8 and then
/// holds the characters that the bytes encode.
#[verifier::external_body]
fn utf8_string(bytes: Vec<u8>) -> (r: Option<String>)
    ensures
        r is Some <==> valid_utf8(bytes@),
        r matches Some(s) ==> s@ == decode_utf8(bytes@),
{
    String::from_utf8(bytes).ok()
}

/// Decodes the zero-terminated string that follows the opcode of `frame`.
pub fn decode_cstr(frame: &[u8]) -> (r: Result<String, Error>)
    ensures
        match r {
            Ok(t) => cstr_text(frame@) == Ok::<Seq<char>, Error>(t@),
            Err(e) => cstr_text(frame@) == Err::<Seq<char>, Error>(e),
        },
{
    let len: usize = frame.len();
    let mut j: usize = 1;
    while j < len && frame[j] != 0
        invariant
            1 <= j,
            len == frame@.len(),
            zero_index(frame@, 1) == zero_index(frame@, j as int),
        decreases len - j,
    {
        j = j + 1;
    }
    if j >= len {
        return Err(Error::MalformedFrame);
    }
    let mut text: Vec<u8> = Vec::new();
    let mut i: usize = 1;
    while i < j
        invariant
            1 <= i <= j < len,
            len == frame@.len(),
            text@ == frame@.subrange(1, i as int),
        decreases j - i,
    {
        text.push(frame[i]);
        i = i + 1;
        assert(text@ =~= frame@.subrange(1, i as int));
    }
    match utf8_string(text) {
        Some(t) => Ok(t),
        None => Err(Error::InvalidString),
    }
}

} // verus!
