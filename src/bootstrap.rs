//! Connecting to an SSG-6000: the model-name check and the four limit queries,
//! as a state machine fed one reply at a time.
use vstd::prelude::*;

use crate::codec::{blank_frame, pack, InterruptCode, FRAME_LEN};
use crate::device::{MclSsg, Ssg6000};
use crate::reply::{
    max_freq_reply, min_freq_reply, power_reply, read_max_freq, read_min_freq, read_power,
    read_text, text_reply,
};
use crate::Error;

verus! {

/// Model names of the SSG-6000 family start with this.
pub const MODEL_PREFIX: &'static str = "SSG-6000";

/// Whether `s` begins with `p`.
pub open spec fn has_prefix(s: Seq<char>, p: Seq<char>) -> bool {
    p.len() <= s.len() && s.subrange(0, p.len() as int) == p
}

/// Whether the text `s` begins with `p`.
pub fn starts_with(s: &str, p: &str) -> (r: bool)
    ensures
        r == has_prefix(s@, p@),
{
    let n = p.unicode_len();
    let m = s.unicode_len();
    if n > m {
        return false;
    }
    let mut i: usize = 0;
    while i < n
        invariant
            0 <= i <= n <= m,
            n == p@.len(),
            m == s@.len(),
            forall|k: int| 0 <= k < i ==> s@[k] == p@[k],
        decreases n - i,
    {
        if s.get_char(i) != p.get_char(i) {
            assert(s@.subrange(0, n as int)[i as int] != p@[i as int]);
            return false;
        }
        i = i + 1;
    }
    assert(s@.subrange(0, n as int) =~= p@);
    true
}

/// The query that connecting waits on.
#[derive(Clone, Copy, Debug, PartialEq, Eq, Structural)]
pub enum Stage {
    ModelName,
    MinFreq,
    MaxFreq,
    MinPower,
    MaxPower,
}

/// The command each stage sends.
pub open spec fn stage_code(s: Stage) -> InterruptCode {
    match s {
        Stage::ModelName => InterruptCode::DeviceModelName,
        Stage::MinFreq => InterruptCode::GeneratorMinimumFrequency,
        Stage::MaxFreq => InterruptCode::GeneratorMaximumFrequency,
        Stage::MinPower => InterruptCode::GeneratorMinimumPower,
        Stage::MaxPower => InterruptCode::GeneratorMaximumPower,
    }
}

/// Progress of connecting to an SSG-6000: the stage reached and the limits
/// read so far.
pub struct Bootstrap {
    stage: Stage,
    min_freq: u64,
    max_freq: u64,
    min_power: i32,
}

/// What a reply leads to: the next query, or the finished handle.
pub enum Progress {
    Next(Bootstrap),
    Ready(MclSsg<Ssg6000>),
}

impl Bootstrap {
    pub closed spec fn spec_stage(&self) -> Stage {
        self.stage
    }

    pub closed spec fn spec_min_freq(&self) -> u64 {
        self.min_freq
    }

    pub closed spec fn spec_max_freq(&self) -> u64 {
        self.max_freq
    }

    pub closed spec fn spec_min_power(&self) -> i32 {
        self.min_power
    }

    /// Starts by asking for the model name.
    pub fn new() -> (r: Bootstrap)
        ensures
            r.spec_stage() == Stage::ModelName,
    {
        Bootstrap { stage: Stage::ModelName, min_freq: 0, max_freq: 0, min_power: 0 }
    }

    /// The stage this state waits on.
    pub fn stage(&self) -> (r: Stage)
        ensures
            r == self.spec_stage(),
    {
        self.stage
    }

    /// The command to send next.
    pub fn request(&self) -> (r: Vec<u8>)
        ensures
            r@ == blank_frame(stage_code(self.spec_stage())),
    {
        let c = match self.stage {
            Stage::ModelName => InterruptCode::DeviceModelName,
            Stage::MinFreq => InterruptCode::GeneratorMinimumFrequency,
            Stage::MaxFreq => InterruptCode::GeneratorMaximumFrequency,
            Stage::MinPower => InterruptCode::GeneratorMinimumPower,
            Stage::MaxPower => InterruptCode::GeneratorMaximumPower,
        };
        pack(c)
    }

    /// Takes the reply to `request`: a model name outside the family ends
    /// with `WrongDevice` before any limit is asked for; each limit is kept;
    /// the last one yields the handle.
    pub fn advance(self, reply: &[u8]) -> (r: Result<Progress, Error>)
        requires
            reply@.len() == FRAME_LEN,
        ensures
            match self.spec_stage() {
                Stage::ModelName => match text_reply(InterruptCode::DeviceModelName, reply@) {
                    Err(e) => r == Err::<Progress, Error>(e),
                    Ok(t) => if has_prefix(t, MODEL_PREFIX@) {
                        (r matches Ok(Progress::Next(b)) && b.spec_stage() == Stage::MinFreq)
                    } else {
                        r == Err::<Progress, Error>(Error::WrongDevice)
                    },
                },
                Stage::MinFreq => match min_freq_reply(reply@) {
                    Err(e) => r == Err::<Progress, Error>(e),
                    Ok(v) => (r matches Ok(Progress::Next(b)) && b.spec_stage() == Stage::MaxFreq
                        && b.spec_min_freq() == v),
                },
                Stage::MaxFreq => match max_freq_reply(reply@) {
                    Err(e) => r == Err::<Progress, Error>(e),
                    Ok(v) => (r matches Ok(Progress::Next(b)) && b.spec_stage() == Stage::MinPower
                        && b.spec_min_freq() == self.spec_min_freq() && b.spec_max_freq() == v),
                },
                Stage::MinPower => match power_reply(InterruptCode::GeneratorMinimumPower, reply@) {
                    Err(e) => r == Err::<Progress, Error>(e),
                    Ok(v) => (r matches Ok(Progress::Next(b)) && b.spec_stage() == Stage::MaxPower
                        && b.spec_min_freq() == self.spec_min_freq() && b.spec_max_freq()
                        == self.spec_max_freq() && b.spec_min_power() == v),
                },
                Stage::MaxPower => match power_reply(InterruptCode::GeneratorMaximumPower, reply@) {
                    Err(e) => r == Err::<Progress, Error>(e),
                    Ok(v) => (r matches Ok(Progress::Ready(h)) && h.spec_min_freq()
                        == self.spec_min_freq() && h.spec_max_freq() == self.spec_max_freq()
                        && h.spec_min_power() == self.spec_min_power() && h.spec_max_power() == v),
                },
            },
    {
        match self.stage {
            Stage::ModelName => {
                let name = read_text(InterruptCode::DeviceModelName, reply)?;
                if starts_with(name.as_str(), MODEL_PREFIX) {
                    Ok(Progress::Next(Bootstrap { stage: Stage::MinFreq, ..self }))
                } else {
                    Err(Error::WrongDevice)
                }
            },
            Stage::MinFreq => {
                let v = read_min_freq(reply)?;
                Ok(Progress::Next(Bootstrap { stage: Stage::MaxFreq, min_freq: v, ..self }))
            },
            Stage::MaxFreq => {
                let v = read_max_freq(reply)?;
                Ok(Progress::Next(Bootstrap { stage: Stage::MinPower, max_freq: v, ..self }))
            },
            Stage::MinPower => {
                let v = read_power(InterruptCode::GeneratorMinimumPower, reply)?;
                Ok(Progress::Next(Bootstrap { stage: Stage::MaxPower, min_power: v, ..self }))
            },
            Stage::MaxPower => {
                let v = read_power(InterruptCode::GeneratorMaximumPower, reply)?;
                Ok(
                    Progress::Ready(
                        MclSsg::from_limits(self.min_freq, self.max_freq, self.min_power, v),
                    ),
                )
            },
        }
    }
}

} // verus!
