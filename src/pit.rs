use vstd::prelude::*;

verus! {

/// The input clock of the programmable interval timer, in Hz.
pub const PIT_FREQ: u64 = 1_193_180;

/// The length of one timer tick, in nanoseconds (rounded down).
pub const PIT_TICK_NS: u64 = 1_000_000_000 / 1_193_180;

/// The highest frequency the timer is set up for.
pub const MAX_FREQ: u64 = PIT_FREQ / 2;

/// The lowest frequency the timer is set up for.
pub const MIN_FREQ: u64 = 1;

/// The command that puts channel 0 in square-wave mode, binary counting, with
/// the divisor written low byte first.
pub const SQUARE_WAVE_COMMAND: u8 = 0x36;

/// The command that latches the current count of channel 0.
pub const LATCH_COMMAND: u8 = 0;

/// The programmable interval timer, set to fire at a given frequency.
pub struct Pit {
    frequency: u64,
    latch: u64,
}

impl Pit {
    #[verifier::type_invariant]
    spec fn inv(self) -> bool {
        MIN_FREQ <= self.frequency <= MAX_FREQ && self.latch == PIT_FREQ / self.frequency
    }

    /// The frequency the timer was made with, in Hz.
    pub closed spec fn frequency_spec(&self) -> u64 {
        self.frequency
    }

    /// The divisor of the input clock: the count the timer starts from.
    pub closed spec fn latch_spec(&self) -> u64 {
        self.latch
    }

    /// A timer that fires `freq` times per second, from 1 Hz to 596590 Hz.
    /// Nothing is written to the hardware yet.
    pub fn new(freq: u64) -> (r: Self)
        requires
            MIN_FREQ <= freq <= MAX_FREQ,
        ensures
            r.frequency_spec() == freq,
            r.latch_spec() == PIT_FREQ / freq,
    {
        Self { frequency: freq, latch: PIT_FREQ / freq }
    }

    /// The frequency of the timer, in Hz.
    pub fn get_frequency(&self) -> (r: u64)
        ensures
            r == self.frequency_spec(),
    {
        self.frequency
    }

    /// The divisor of the input clock: the count the timer starts from.
    pub fn latch(&self) -> (r: u64)
        ensures
            r == self.latch_spec(),
            r <= PIT_FREQ,
    {
        proof { use_type_invariant(self); }
        self.latch
    }

    /// The two bytes of the divisor, low then high, that set the timer up
    /// after the square-wave command.
    pub fn divisor_bytes(&self) -> (r: (u8, u8))
        ensures
            r.0 == self.latch_spec() % 256,
            r.1 == (self.latch_spec() / 256) % 256,
    {
        let latch = self.latch;
        proof {
            assert((latch & 0xFF) as u8 == latch % 256 && ((latch >> 8u64) & 0xFF) as u8 == (latch
                / 256) % 256) by (bit_vector);
        }
        ((latch & 0xFF) as u8, ((latch >> 8u64) & 0xFF) as u8)
    }

    /// The time since the last tick, in nanoseconds, given the count that
    /// the timer has latched (its two bytes, low then high). The count runs
    /// down from the divisor, so it is never above it.
    pub fn nano_offset(&self, low: u8, high: u8) -> (r: u64)
        requires
            (high as u64) * 256 + low as u64 <= self.latch_spec(),
        ensures
            r == (self.latch_spec() - ((high as u64) * 256 + low as u64)) * PIT_TICK_NS,
    {
        proof { use_type_invariant(self); }
        let counter = (high as u64) << 8u64 | low as u64;
        proof {
            assert((high as u64) << 8u64 | low as u64 == (high as u64) * 256 + low as u64)
                by (bit_vector);
        }
        let elapsed = self.latch - counter;
        elapsed * PIT_TICK_NS
    }
}

} // verus!
