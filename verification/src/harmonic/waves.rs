use vstd::prelude::*;

use crate::harmonic::{or_silent, Harmonic, Ratio, Sound};

verus! {

/// A sine: its fundamental alone, at full amplitude.
pub struct SineWave {}

impl Sound for SineWave {
    open spec fn partial(&self, index: u32) -> Option<Harmonic> {
        if index == 1 {
            Some(Harmonic::spec_max())
        } else {
            None
        }
    }

    fn compute(&self, index: u32) -> (h: Option<Harmonic>) {
        if index == 1 {
            return Some(Harmonic::max());
        }
        None
    }
}

/// A sawtooth: every partial `n`, at amplitude `1 / n`.
pub struct SawWave {}

impl Sound for SawWave {
    open spec fn partial(&self, index: u32) -> Option<Harmonic> {
        Some(Harmonic::spec_overtone(index as u64))
    }

    fn compute(&self, index: u32) -> (h: Option<Harmonic>) {
        Some(Harmonic::overtone(index as u64))
    }
}

/// A square: the odd partials `n`, at amplitude `1 / n`.
pub struct SquareWave {}

impl Sound for SquareWave {
    open spec fn partial(&self, index: u32) -> Option<Harmonic> {
        if index % 2 == 0 {
            None
        } else {
            Some(Harmonic::spec_overtone(index as u64))
        }
    }

    fn compute(&self, index: u32) -> (h: Option<Harmonic>) {
        if index % 2 == 0 {
            return None;
        }
        Some(Harmonic::overtone(index as u64))
    }
}

/// A triangle: the odd partials `n` up to the eighth, at amplitude `1 / n²`;
/// the others are silent.
pub struct TriWave {}

impl Sound for TriWave {
    open spec fn partial(&self, index: u32) -> Option<Harmonic> {
        if index > 8 || index % 2 == 0 {
            Some(Harmonic::spec_silent())
        } else {
            Some(Harmonic::spec_overtone((index * index) as u64))
        }
    }

    fn compute(&self, index: u32) -> (h: Option<Harmonic>) {
        if index > 8 || index % 2 == 0 {
            return Some(Harmonic::silent());
        }
        assert((index as u64) * (index as u64) <= 64) by (nonlinear_arith)
            requires
                index <= 8,
        ;
        let square: u64 = (index as u64) * (index as u64);
        Some(Harmonic::overtone(square))
    }
}

/// The square wave has the sawtooth's odd partials and no even one.
pub proof fn lemma_square_is_odd_saw(index: u32)
    ensures
        (SquareWave {}).partial(index) == if index % 2 == 1 {
            (SawWave {}).partial(index)
        } else {
            None
        },
{
}

/// The sine wave sounds its fundamental at full amplitude and nothing else.
pub proof fn lemma_sine_is_fundamental_only(index: u32)
    ensures
        or_silent((SineWave {}).partial(index)) == if index == 1 {
            Harmonic::spec_max()
        } else {
            Harmonic::spec_silent()
        },
{
}

/// The triangle wave always has a partial; it sounds only at odd indices up
/// to seven, where its amplitude's denominator is the square of the
/// sawtooth's.
pub proof fn lemma_tri_is_saw_squared(index: u32)
    ensures
        (TriWave {}).partial(index) is Some,
        (TriWave {}).partial(index).unwrap().amplitude.num != 0 <==> (index % 2 == 1 && index
            <= 7),
        index % 2 == 1 && index <= 7 ==> (TriWave {}).partial(index).unwrap().amplitude.den == (
        SawWave {}).partial(index).unwrap().amplitude.den * (SawWave {}).partial(
            index,
        ).unwrap().amplitude.den,
{
    if index % 2 == 1 && index <= 7 {
        assert((index * index) as u64 == (index as u64) * (index as u64)) by (nonlinear_arith)
            requires
                index <= 7,
        ;
    }
}

/// Every partial of the four waves is in phase with the fundamental.
pub proof fn lemma_waves_in_phase(index: u32)
    ensures
        (SineWave {}).partial(index) matches Some(h) ==> h.phase == Ratio::spec_zero(),
        (SawWave {}).partial(index) matches Some(h) ==> h.phase == Ratio::spec_zero(),
        (SquareWave {}).partial(index) matches Some(h) ==> h.phase == Ratio::spec_zero(),
        (TriWave {}).partial(index) matches Some(h) ==> h.phase == Ratio::spec_zero(),
{
}

/// Partial `n` of the sawtooth, for every `n`, even or odd: amplitude
/// `1 / n`, phase zero.
pub proof fn lemma_saw_partials(index: u32)
    ensures
        (SawWave {}).partial(index) == Some(
            (Harmonic {
                amplitude: (Ratio { num: 1, den: index as u64 }),
                phase: (Ratio { num: 0, den: 1 }),
            }),
        ),
{
}

/// Partial `n` of the square wave: amplitude `1 / n` and phase zero for
/// every odd `n`, and none for every even `n`.
pub proof fn lemma_square_partials(index: u32)
    ensures
        index % 2 == 1 ==> (SquareWave {}).partial(index) == Some(
            (Harmonic {
                amplitude: (Ratio { num: 1, den: index as u64 }),
                phase: (Ratio { num: 0, den: 1 }),
            }),
        ),
        index % 2 == 0 ==> (SquareWave {}).partial(index) is None,
{
}

/// The sine wave: amplitude one at index one, no partial anywhere else.
pub proof fn lemma_sine_partials(index: u32)
    ensures
        index == 1 ==> (SineWave {}).partial(index) == Some(
            (Harmonic {
                amplitude: (Ratio { num: 1, den: 1 }),
                phase: (Ratio { num: 0, den: 1 }),
            }),
        ),
        index != 1 ==> (SineWave {}).partial(index) is None,
{
}

/// Partial `n` of the triangle wave: amplitude `1 / n²` and phase zero for
/// odd `n` up to seven; exactly zero (`0 / 1`) at every even `n` and every
/// `n` above seven. Every amplitude it gives is a finite fraction.
pub proof fn lemma_tri_partials(index: u32)
    ensures
        index % 2 == 1 && index <= 7 ==> (TriWave {}).partial(index) == Some(
            (Harmonic {
                amplitude: (Ratio { num: 1, den: ((index as int) * (index as int)) as u64 }),
                phase: (Ratio { num: 0, den: 1 }),
            }),
        ),
        index % 2 == 0 || index > 7 ==> (TriWave {}).partial(index) == Some(
            (Harmonic {
                amplitude: (Ratio { num: 0, den: 1 }),
                phase: (Ratio { num: 0, den: 1 }),
            }),
        ),
        (TriWave {}).partial(index) matches Some(h) && h.amplitude.den != 0,
{
    if index % 2 == 1 && index <= 7 {
        assert(1 <= index * index <= 49) by (nonlinear_arith)
            requires
                1 <= index <= 7,
        ;
    }
}

} // verus!
