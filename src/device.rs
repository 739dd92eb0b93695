//! The device handle: cached limits, the generic command set, and the
//! frequency/power command that only the SSG-6000 family accepts.
use vstd::prelude::*;

use core::marker::PhantomData;

use crate::codec::{
    be_bytes, be_value, blank_frame, byte_span, lemma_be_round_trip, frequency_to_bytes, lemma_power_round_trip, pack, power_bytes, power_value, power_to_bytes, InterruptCode,
    FRAME_LEN,
};
use crate::reply::{read_status, read_text, status_reply, text_reply, Status};
use crate::Error;

verus! {

/// Marker for the SSG-6000 series.
pub struct Ssg6000;

/// Marker for the SSG-XG series.
pub struct SsgXg;

/// A generator of the family `T`, with the limits it reported when it was
/// connected.
pub struct MclSsg<T> {
    model: PhantomData<T>,
    min_freq: u64,
    max_freq: u64,
    min_power: i32,
    max_power: i32,
}

/// The frame that sets frequency, power and trigger output.
pub open spec fn freq_power_frame(freq: u64, power: i32, trigger: bool) -> Seq<u8> {
    let f = be_bytes(freq as nat, 5);
    let p = power_bytes(power as int);
    blank_frame(InterruptCode::SetFreqAndPower).update(1, f[0]).update(2, f[1]).update(3, f[2])
        .update(4, f[3]).update(5, f[4]).update(6, p[0]).update(7, p[1]).update(8, p[2]).update(
        9,
        if trigger {
            1u8
        } else {
            0u8
        },
    )
}

/// The frame that switches the RF output on or off.
pub open spec fn rf_power_frame(enabled: bool) -> Seq<u8> {
    blank_frame(InterruptCode::SetRfPowerOnOff).update(
        1,
        if enabled {
            1u8
        } else {
            0u8
        },
    )
}

/// The frequency field of a set-frequency frame reads back as the requested
/// frequency, which arrives whole when it fits in five bytes; the power field
/// reads back as the requested power when its magnitude fits in 16 bits.
pub proof fn lemma_freq_power_frame_round_trip(freq: u64, power: i32, trigger: bool)
    ensures
        be_value(freq_power_frame(freq, power, trigger).subrange(1, 6)) == freq as nat
            % 0x100_0000_0000,
        freq < 0x100_0000_0000 ==> be_value(freq_power_frame(freq, power, trigger).subrange(1, 6))
            == freq,
        -65535 <= power <= 65535 ==> power_value(
            freq_power_frame(freq, power, trigger)[6],
            freq_power_frame(freq, power, trigger)[7],
            freq_power_frame(freq, power, trigger)[8],
        ) == power,
{
    let f = freq_power_frame(freq, power, trigger);
    lemma_be_round_trip(freq as nat, 5);
    reveal_with_fuel(byte_span, 6);
    assert(f.subrange(1, 6) =~= be_bytes(freq as nat, 5));
    if -65535 <= power <= 65535 {
        lemma_power_round_trip(power as int);
    }
}

impl<T> MclSsg<T> {
    /// A handle whose limits are the given values.
    pub(crate) fn from_limits(min_freq: u64, max_freq: u64, min_power: i32, max_power: i32) -> (r:
        Self)
        ensures
            r.spec_min_freq() == min_freq,
            r.spec_max_freq() == max_freq,
            r.spec_min_power() == min_power,
            r.spec_max_power() == max_power,
    {
        MclSsg { model: PhantomData, min_freq, max_freq, min_power, max_power }
    }

    pub closed spec fn spec_min_freq(&self) -> u64 {
        self.min_freq
    }

    pub closed spec fn spec_max_freq(&self) -> u64 {
        self.max_freq
    }

    pub closed spec fn spec_min_power(&self) -> i32 {
        self.min_power
    }

    pub closed spec fn spec_max_power(&self) -> i32 {
        self.max_power
    }

    /// The command that asks for the model name.
    pub fn model_name_request(&self) -> (r: Vec<u8>)
        ensures
            r@ == blank_frame(InterruptCode::DeviceModelName),
    {
        pack(InterruptCode::DeviceModelName)
    }

    /// The model name that the reply to `model_name_request` carries.
    pub fn get_model_name(&self, reply: &[u8]) -> (r: Result<String, Error>)
        ensures
            match r {
                Ok(t) => text_reply(InterruptCode::DeviceModelName, reply@) == Ok::<
                    Seq<char>,
                    Error,
                >(t@),
                Err(e) => text_reply(InterruptCode::DeviceModelName, reply@) == Err::<
                    Seq<char>,
                    Error,
                >(e),
            },
    {
        read_text(InterruptCode::DeviceModelName, reply)
    }

    /// The command that asks for the serial number.
    pub fn serial_number_request(&self) -> (r: Vec<u8>)
        ensures
            r@ == blank_frame(InterruptCode::DeviceSerialNumber),
    {
        pack(InterruptCode::DeviceSerialNumber)
    }

    /// The serial number that the reply to `serial_number_request` carries.
    pub fn get_serial_number(&self, reply: &[u8]) -> (r: Result<String, Error>)
        ensures
            match r {
                Ok(t) => text_reply(InterruptCode::DeviceSerialNumber, reply@) == Ok::<
                    Seq<char>,
                    Error,
                >(t@),
                Err(e) => text_reply(InterruptCode::DeviceSerialNumber, reply@) == Err::<
                    Seq<char>,
                    Error,
                >(e),
            },
    {
        read_text(InterruptCode::DeviceSerialNumber, reply)
    }

    /// The command that asks for the output status.
    pub fn status_request(&self) -> (r: Vec<u8>)
        ensures
            r@ == blank_frame(InterruptCode::GetGeneratorOutputStatus),
    {
        pack(InterruptCode::GetGeneratorOutputStatus)
    }

    /// The output status that the reply to `status_request` carries.
    pub fn get_status(&self, reply: &[u8]) -> (r: Result<Status, Error>)
        requires
            reply@.len() == FRAME_LEN,
        ensures
            r == status_reply(reply@),
    {
        read_status(reply)
    }

    /// The command that enables or disables the RF output.
    pub fn set_rf_power_on(&self, enabled: bool) -> (r: Vec<u8>)
        ensures
            r@ == rf_power_frame(enabled),
    {
        let mut bytes = pack(InterruptCode::SetRfPowerOnOff);
        bytes.set(1, if enabled { 1 } else { 0 });
        bytes
    }

    /// Minimum supported frequency in Hz.
    pub fn get_min_freq(&self) -> (r: u64)
        ensures
            r == self.spec_min_freq(),
    {
        self.min_freq
    }

    /// Maximum supported frequency in Hz.
    pub fn get_max_freq(&self) -> (r: u64)
        ensures
            r == self.spec_max_freq(),
    {
        self.max_freq
    }

    /// Minimum supported power in hundredths of a dBm.
    pub fn get_min_power(&self) -> (r: i32)
        ensures
            r == self.spec_min_power(),
    {
        self.min_power
    }

    /// Maximum supported power in hundredths of a dBm.
    pub fn get_max_power(&self) -> (r: i32)
        ensures
            r == self.spec_max_power(),
    {
        self.max_power
    }

    /// Whether `freq` and `power` lie within the cached limits, both ends
    /// included.
    pub open spec fn in_limits(&self, freq: u64, power: i32) -> bool {
        self.spec_min_freq() <= freq <= self.spec_max_freq() && self.spec_min_power() <= power
            <= self.spec_max_power()
    }
}

impl MclSsg<Ssg6000> {
    /// The command that sets the output frequency in Hz, the power in
    /// hundredths of a dBm and the trigger output; `OutOfRange`, and no
    /// command, when either value lies outside the cached limits.
    pub fn set_frequency_power_trigger(&self, freq: u64, power: i32, trigger: bool) -> (r: Result<
        Vec<u8>,
        Error,
    >)
        ensures
            r is Ok <==> self.in_limits(freq, power),
            r matches Ok(f) ==> f@ == freq_power_frame(freq, power, trigger),
            r matches Err(e) ==> e == Error::OutOfRange,
    {
        if freq < self.min_freq || freq > self.max_freq || power < self.min_power || power
            > self.max_power {
            return Err(Error::OutOfRange);
        }
        let mut bytes = pack(InterruptCode::SetFreqAndPower);
        let freq_bytes = frequency_to_bytes(freq);
        let power_bytes = power_to_bytes(power);
        let mut i: usize = 0;
        while i < 5
            invariant
                0 <= i <= 5,
                freq_bytes@.len() == 5,
                bytes@.len() == FRAME_LEN,
                forall|k: int| 0 <= k < 64 ==> bytes@[k] == if 1 <= k < 1 + i {
                    freq_bytes@[k - 1]
                } else {
                    blank_frame(InterruptCode::SetFreqAndPower)[k]
                },
            decreases 5 - i,
        {
            bytes.set(i + 1, freq_bytes[i]);
            i = i + 1;
        }
        bytes.set(6, power_bytes[0]);
        bytes.set(7, power_bytes[1]);
        bytes.set(8, power_bytes[2]);
        bytes.set(9, if trigger { 1 } else { 0 });
        assert(bytes@ =~= freq_power_frame(freq, power, trigger));
        Ok(bytes)
    }
}

} // verus!
