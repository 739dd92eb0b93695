//! Checking a reply against its command and reading the values it carries.
use vstd::prelude::*;

use crate::codec::{
    be_value, bytes_to_power, code_byte, cstr_text, decode_be, decode_cstr, lemma_be_value_bound,
    byte_span, power_value, InterruptCode, FRAME_LEN,
};
use crate::Error;

verus! {

/// A decoded output-status snapshot.
#[derive(Clone, Copy, Debug, PartialEq, Eq, Structural)]
pub struct Status {
    /// Whether the RF output is enabled.
    pub enabled: bool,
    /// Whether the frequency is locked to a reference.
    pub locked: bool,
    /// Frequency in Hz.
    pub freq: u64,
    /// Power in hundredths of a dBm.
    pub power: i32,
}

/// A reply answers a command exactly when it starts with the command's opcode.
pub open spec fn answers(code: u8, reply: Seq<u8>) -> bool {
    reply.len() > 0 && reply[0] == code
}

/// Accepts `reply` as the answer to the command with opcode `code`.
pub fn check_response(code: u8, reply: &[u8]) -> (r: Result<(), Error>)
    ensures
        r is Ok <==> answers(code, reply@),
        r is Err ==> r == Err::<(), Error>(Error::BadHidRead),
{
    if reply.len() > 0 && reply[0] == code {
        Ok(())
    } else {
        Err(Error::BadHidRead)
    }
}

/// The text a reply to the command `c` carries.
pub open spec fn text_reply(c: InterruptCode, reply: Seq<u8>) -> Result<Seq<char>, Error> {
    if answers(code_byte(c), reply) {
        cstr_text(reply)
    } else {
        Err(Error::BadHidRead)
    }
}

/// Reads the string that a reply to `c` carries after its opcode.
pub fn read_text(c: InterruptCode, reply: &[u8]) -> (r: Result<String, Error>)
    ensures
        match r {
            Ok(t) => text_reply(c, reply@) == Ok::<Seq<char>, Error>(t@),
            Err(e) => text_reply(c, reply@) == Err::<Seq<char>, Error>(e),
        },
{
    match check_response(c.byte(), reply) {
        Err(e) => Err(e),
        Ok(()) => decode_cstr(reply),
    }
}

/// The minimum frequency a reply states: four bytes after the opcode.
pub open spec fn min_freq_reply(reply: Seq<u8>) -> Result<u64, Error> {
    if answers(code_byte(InterruptCode::GeneratorMinimumFrequency), reply) {
        Ok(be_value(reply.subrange(1, 5)) as u64)
    } else {
        Err(Error::BadHidRead)
    }
}

/// The maximum frequency a reply states: five bytes after the opcode.
pub open spec fn max_freq_reply(reply: Seq<u8>) -> Result<u64, Error> {
    if answers(code_byte(InterruptCode::GeneratorMaximumFrequency), reply) {
        Ok(be_value(reply.subrange(1, 6)) as u64)
    } else {
        Err(Error::BadHidRead)
    }
}

/// The power a reply to `c` states in its three bytes after the opcode.
pub open spec fn power_reply(c: InterruptCode, reply: Seq<u8>) -> Result<i32, Error> {
    if answers(code_byte(c), reply) {
        Ok(power_value(reply[1], reply[2], reply[3]) as i32)
    } else {
        Err(Error::BadHidRead)
    }
}

/// The status snapshot a reply states: the two flags, a five-byte frequency
/// at offset 3 and a power at offset 8.
pub open spec fn status_reply(reply: Seq<u8>) -> Result<Status, Error> {
    if answers(code_byte(InterruptCode::GetGeneratorOutputStatus), reply) {
        Ok(
            Status {
                enabled: reply[1] != 0,
                locked: reply[2] != 0,
                freq: be_value(reply.subrange(3, 8)) as u64,
                power: power_value(reply[8], reply[9], reply[10]) as i32,
            },
        )
    } else {
        Err(Error::BadHidRead)
    }
}

/// Reads the minimum frequency, in Hz, from its reply.
pub fn read_min_freq(reply: &[u8]) -> (r: Result<u64, Error>)
    requires
        reply@.len() == FRAME_LEN,
    ensures
        r == min_freq_reply(reply@),
        r matches Ok(f) ==> f < 0x1_0000_0000,
{
    check_response(InterruptCode::GeneratorMinimumFrequency.byte(), reply)?;
    let f = decode_be(reply, 1, 4);
    proof {
        lemma_frequency_widths(reply@);
    }
    Ok(f)
}

/// Reads the maximum frequency, in Hz, from its reply.
pub fn read_max_freq(reply: &[u8]) -> (r: Result<u64, Error>)
    requires
        reply@.len() == FRAME_LEN,
    ensures
        r == max_freq_reply(reply@),
        r matches Ok(f) ==> f < 0x100_0000_0000,
{
    check_response(InterruptCode::GeneratorMaximumFrequency.byte(), reply)?;
    let f = decode_be(reply, 1, 5);
    proof {
        lemma_frequency_widths(reply@);
    }
    Ok(f)
}

/// Reads a power limit, in hundredths of a dBm, from the reply to `c`.
pub fn read_power(c: InterruptCode, reply: &[u8]) -> (r: Result<i32, Error>)
    requires
        reply@.len() == FRAME_LEN,
    ensures
        r == power_reply(c, reply@),
{
    check_response(c.byte(), reply)?;
    Ok(bytes_to_power(&reply[1..4]))
}

/// Reads the output status from its reply.
pub fn read_status(reply: &[u8]) -> (r: Result<Status, Error>)
    requires
        reply@.len() == FRAME_LEN,
    ensures
        r == status_reply(reply@),
{
    check_response(InterruptCode::GetGeneratorOutputStatus.byte(), reply)?;
    let enabled = reply[1] != 0;
    let locked = reply[2] != 0;
    let freq = decode_be(reply, 3, 5);
    let power = bytes_to_power(&reply[8..11]);
    Ok(Status { enabled, locked, freq, power })
}

/// The minimum frequency of a frame never spans more than four payload
/// bytes, the maximum frequency never more than five.
pub proof fn lemma_frequency_widths(reply: Seq<u8>)
    requires
        reply.len() >= 6,
    ensures
        be_value(reply.subrange(1, 5)) < 0x1_0000_0000,
        be_value(reply.subrange(1, 6)) < 0x100_0000_0000,
{
    lemma_be_value_bound(reply.subrange(1, 5));
    lemma_be_value_bound(reply.subrange(1, 6));
    reveal_with_fuel(byte_span, 6);
}

/// A reply whose opcode differs from its command's is refused as
/// `BadHidRead`, whatever its payload holds: nothing of it is decoded.
pub proof fn lemma_mismatched_reply(c: InterruptCode, reply: Seq<u8>)
    requires
        reply.len() > 0,
        reply[0] != code_byte(c),
    ensures
        text_reply(c, reply) == Err::<Seq<char>, Error>(Error::BadHidRead),
        power_reply(c, reply) == Err::<i32, Error>(Error::BadHidRead),
        c == InterruptCode::GeneratorMinimumFrequency ==> min_freq_reply(reply) == Err::<
            u64,
            Error,
        >(Error::BadHidRead),
        c == InterruptCode::GeneratorMaximumFrequency ==> max_freq_reply(reply) == Err::<
            u64,
            Error,
        >(Error::BadHidRead),
        c == InterruptCode::GetGeneratorOutputStatus ==> status_reply(reply) == Err::<
            Status,
            Error,
        >(Error::BadHidRead),
{
}

} // verus!
