//! Per-channel synthesis parameters and the phase accumulator.
//!
//! Real-valued parameters are carried as integers in thousandths of their
//! unit (a frequency of 440 Hz is `440_000`), so that every update and the
//! phase arithmetic are exact. The conversion to floating point happens
//! outside the library, next to the audio backend.

use vstd::prelude::*;
use vstd::arithmetic::div_mod::{
    lemma_add_mod_noop_right, lemma_fundamental_div_mod, lemma_mod_division_less_than_divisor,
    lemma_mod_multiples_vanish, lemma_small_mod,
};

verus! {

/// Shape of the synthesized waveform.
#[derive(Debug, Copy, Clone, PartialEq, Eq, Structural)]
pub enum WaveformType {
    Sine,
    Square,
    Triangle,
    Sawtooth,
    Noise,
}

/// Position of a waveform shape in the shape order.
pub open spec fn waveform_index(t: WaveformType) -> int {
    match t {
        WaveformType::Sine => 0,
        WaveformType::Square => 1,
        WaveformType::Triangle => 2,
        WaveformType::Sawtooth => 3,
        WaveformType::Noise => 4,
    }
}

impl Default for WaveformType {
    fn default() -> (r: Self)
        ensures
            r == WaveformType::Sine,
    {
        WaveformType::Sine
    }
}

impl WaveformType {
    /// This shape's position in the shape order.
    pub fn index(&self) -> (i: usize)
        ensures
            i == waveform_index(*self),
    {
        match self {
            WaveformType::Sine => 0,
            WaveformType::Square => 1,
            WaveformType::Triangle => 2,
            WaveformType::Sawtooth => 3,
            WaveformType::Noise => 4,
        }
    }

    /// The shape at a position, if the position is in range.
    pub fn from_index(value: usize) -> (r: Option<WaveformType>)
        ensures
            match r {
                Some(t) => value <= 4 && waveform_index(t) == value,
                None => value > 4,
            },
    {
        match value {
            0 => Some(WaveformType::Sine),
            1 => Some(WaveformType::Square),
            2 => Some(WaveformType::Triangle),
            3 => Some(WaveformType::Sawtooth),
            4 => Some(WaveformType::Noise),
            _ => None,
        }
    }
}

/// One synthesis channel: its parameters and its phase accumulator.
///
/// The phase accumulator counts in units of `1 / (sample_rate * 1000)` of a
/// cycle, so advancing by the frequency (in thousandths of a hertz) once per
/// sample moves the phase by exactly `frequency / sample_rate` cycles.
#[derive(Debug, Copy, Clone, PartialEq, Eq, Structural)]
pub struct WaveformState {
    /// Shape of the waveform.
    pub waveform_type: WaveformType,
    /// Frequency in thousandths of a hertz.
    pub frequency: i64,
    /// Amplitude in thousandths; nominal full scale is 1000, not clamped here.
    pub amplitude: i64,
    /// Phase offset in thousandths, applied by the synthesizer.
    pub phase_offset: i64,
    /// Offset added after synthesis, in thousandths.
    pub dc_offset: i64,
    /// Output sample rate in hertz.
    pub sample_rate: u32,
    /// Phase accumulator, always in `[0, sample_rate * 1000)`; advanced once
    /// per processed sample and reset only by an explicit reset.
    pub phase_accumulator: u64,
}

impl WaveformState {
    /// The period of the phase accumulator: one full cycle.
    pub open spec fn phase_modulus(self) -> int {
        self.sample_rate * 1000
    }

    /// Well-formed: a real sample rate, and the accumulator within one cycle.
    pub open spec fn wf(self) -> bool {
        &&& 1 <= self.sample_rate
        &&& self.phase_accumulator < self.phase_modulus()
    }

    /// The accumulator value after processing one sample.
    pub open spec fn advanced_phase(self) -> int {
        (self.phase_accumulator + self.frequency) % self.phase_modulus()
    }

    /// The whole state after processing one sample: only the phase moves.
    pub open spec fn advanced(self) -> WaveformState {
        WaveformState { phase_accumulator: self.advanced_phase() as u64, ..self }
    }

    /// The state after processing `n` samples with no parameter writes.
    pub open spec fn advanced_n(self, n: nat) -> WaveformState
        decreases n,
    {
        if n == 0 {
            self
        } else {
            self.advanced_n((n - 1) as nat).advanced()
        }
    }

    /// A fresh channel: sine shape, full amplitude, no offsets, phase zero.
    pub fn new(sample_rate: u32, frequency: i64) -> (w: WaveformState)
        requires
            1 <= sample_rate,
        ensures
            w == (WaveformState {
                waveform_type: WaveformType::Sine,
                frequency,
                amplitude: 1000,
                phase_offset: 0,
                dc_offset: 0,
                sample_rate,
                phase_accumulator: 0,
            }),
            w.wf(),
    {
        WaveformState {
            waveform_type: WaveformType::Sine,
            frequency,
            amplitude: 1000,
            phase_offset: 0,
            dc_offset: 0,
            sample_rate,
            phase_accumulator: 0,
        }
    }

    /// Advance the phase accumulator by one sample; every other field is
    /// untouched. Parameter changes therefore take effect on the next
    /// processed sample and never move the phase themselves.
    pub fn advance_phase(&mut self)
        requires
            old(self).wf(),
        ensures
            *final(self) == old(self).advanced(),
            final(self).wf(),
    {
        let modulus: u64 = (self.sample_rate as u64) * 1000;
        let f: i64 = self.frequency;
        let ghost m = modulus as int;
        let ghost p0 = self.phase_accumulator as int;
        let delta: u64;
        if f >= 0 {
            delta = (f as u64) % modulus;
            proof {
                lemma_add_mod_noop_right(p0, f as int, m);
            }
        } else {
            let neg: u64 = if f == i64::MIN {
                9223372036854775808u64
            } else {
                (-f) as u64
            };
            let rem: u64 = neg % modulus;
            delta = if rem == 0 {
                0
            } else {
                modulus - rem
            };
            proof {
                lemma_fundamental_div_mod(neg as int, m);
                let q = neg as int / m;
                assert(neg == m * q + rem);
                if rem == 0 {
                    assert(m * q + (p0 + f) == p0 + delta);
                    lemma_mod_multiples_vanish(q, p0 + f, m);
                } else {
                    assert(m * (q + 1) == m * q + m) by (nonlinear_arith);
                    assert(m * (q + 1) + (p0 + f) == p0 + delta);
                    lemma_mod_multiples_vanish(q + 1, p0 + f, m);
                }
            }
        }
        proof {
            lemma_mod_division_less_than_divisor(p0 + f, m);
        }
        self.phase_accumulator = (self.phase_accumulator + delta) % modulus;
    }

    /// Reset the phase accumulator to the start of the cycle.
    pub fn reset(&mut self)
        ensures
            *final(self) == (WaveformState { phase_accumulator: 0, ..*old(self) }),
    {
        self.phase_accumulator = 0;
    }
}

/// Phase continuity: with a fixed shape, frequency and sample rate and no
/// parameter writes, the channel after `n` processed samples differs from the
/// start only in its phase accumulator, and that accumulator is the exact
/// function `(start + n * frequency) mod cycle` of the sample count — the
/// phase advances strictly with the sample count, never jumping.
pub proof fn lemma_phase_continuity(s: WaveformState, n: nat)
    requires
        s.wf(),
    ensures
        s.advanced_n(n) == (WaveformState {
            phase_accumulator: (((s.phase_accumulator + n * s.frequency)
                % s.phase_modulus()) as u64),
            ..s
        }),
    decreases n,
{
    let m = s.phase_modulus();
    let f = s.frequency as int;
    let p0 = s.phase_accumulator as int;
    if n == 0 {
        assert(n * f == 0) by (nonlinear_arith)
            requires
                n == 0,
        ;
        lemma_small_mod(s.phase_accumulator as nat, m as nat);
    } else {
        let k = (n - 1) as nat;
        lemma_phase_continuity(s, k);
        let prev = (p0 + k * f) % m;
        lemma_mod_division_less_than_divisor(p0 + k * f, m);
        assert(s.advanced_n(n) == s.advanced_n(k).advanced());
        // (f + prev) % m == (f + (p0 + k*f)) % m, and addition commutes.
        lemma_add_mod_noop_right(f, p0 + k * f, m);
        assert(k * f + f == n * f) by (nonlinear_arith)
            requires
                n == k + 1,
        ;
    }
}

} // verus!
