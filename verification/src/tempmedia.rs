//! Naming of the scoped temporary WAV files that carry in-memory samples
//! to the file-oriented backend. Uniqueness combines an explicit
//! process-wide monotonic counter — modeled here as injectable state
//! rather than a hidden global — with a wall-clock nanosecond timestamp
//! supplied by the caller.

use vstd::prelude::*;

use crate::text::{dec_spec, dec_u128, dec_u64};

verus! {

/// The monotonic counter behind temporary file names: created once per
/// process, ticked once per file.
pub struct TempNameCounter {
    value: u64,
}

impl TempNameCounter {
    /// The value the next tick will yield.
    pub closed spec fn current(&self) -> u64 {
        self.value
    }

    pub fn new() -> (r: Self)
        ensures
            r.current() == 0,
    {
        TempNameCounter { value: 0 }
    }

    /// Yield the current value and advance, wrapping at the top.
    pub fn next(&mut self) -> (c: u64)
        ensures
            c == old(self).current(),
            final(self).current() == (if old(self).current() == u64::MAX {
                0u64
            } else {
                (old(self).current() + 1) as u64
            }),
    {
        let c = self.value;
        self.value = if c == u64::MAX {
            0
        } else {
            c + 1
        };
        c
    }
}

/// The unique file name for one temporary WAV: timestamp then counter.
pub open spec fn temp_wav_name_spec(counter: u64, nanos: u128) -> Seq<char> {
    "glimpse-speech-fluid-"@ + dec_spec(nanos as nat) + "-"@ + dec_spec(counter as nat)
        + ".wav"@
}

/// Build the unique file name for one temporary WAV from one counter tick
/// and one wall-clock nanosecond reading.
pub fn unique_temp_wav_name(counter: u64, nanos: u128) -> (r: String)
    ensures
        r@ == temp_wav_name_spec(counter, nanos),
{
    let mut out = String::new();
    out.append("glimpse-speech-fluid-");
    out.append(dec_u128(nanos).as_str());
    out.append("-");
    out.append(dec_u64(counter).as_str());
    out.append(".wav");
    proof {
        assert(out@ =~= temp_wav_name_spec(counter, nanos));
    }
    out
}

} // verus!
