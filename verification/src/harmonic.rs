use vstd::prelude::*;

pub mod waves;

verus! {

/// An exact fraction `num / den`.
///
/// A denominator of zero stands for a division by zero: the value is
/// infinite with the sign of `num` (or not a number when `num` is zero too),
/// as it is when the fraction is taken as a float.
#[derive(Clone, Copy, Debug, PartialEq, Eq, Structural)]
pub struct Ratio {
    pub num: i64,
    pub den: u64,
}

impl Ratio {
    /// The fraction `num / den`.
    pub open spec fn spec_new(num: i64, den: u64) -> Ratio {
        Ratio { num, den }
    }

    /// The fraction `1 / den`.
    pub open spec fn spec_reciprocal(den: u64) -> Ratio {
        Ratio { num: 1, den }
    }

    /// Zero, written `0 / 1`.
    pub open spec fn spec_zero() -> Ratio {
        Ratio { num: 0, den: 1 }
    }

    pub fn new(num: i64, den: u64) -> (r: Ratio)
        ensures
            r == Ratio::spec_new(num, den),
    {
        Ratio { num, den }
    }

    pub fn reciprocal(den: u64) -> (r: Ratio)
        ensures
            r == Ratio::spec_reciprocal(den),
    {
        Ratio { num: 1, den }
    }

    pub fn zero() -> (r: Ratio)
        ensures
            r == Ratio::spec_zero(),
    {
        Ratio { num: 0, den: 1 }
    }

    /// Whether the fraction stands for a finite number.
    pub open spec fn is_finite(self) -> bool {
        self.den != 0
    }
}

/// One partial of a sound: its amplitude, relative to the loudest a partial
/// can be, and its phase in radians.
#[derive(Clone, Copy, Debug, PartialEq, Eq, Structural)]
pub struct Harmonic {
    pub amplitude: Ratio,
    pub phase: Ratio,
}

impl Harmonic {
    /// A partial that makes no sound.
    pub open spec fn spec_silent() -> Harmonic {
        Harmonic { amplitude: Ratio::spec_zero(), phase: Ratio::spec_zero() }
    }

    /// A partial at full positive amplitude.
    pub open spec fn spec_max() -> Harmonic {
        Harmonic { amplitude: Ratio::spec_new(1, 1), phase: Ratio::spec_zero() }
    }

    /// A partial at full negative amplitude.
    pub open spec fn spec_min() -> Harmonic {
        Harmonic { amplitude: Ratio::spec_new(-1i64, 1), phase: Ratio::spec_zero() }
    }

    /// A partial of amplitude `1 / den` and phase zero.
    pub open spec fn spec_overtone(den: u64) -> Harmonic {
        Harmonic { amplitude: Ratio::spec_reciprocal(den), phase: Ratio::spec_zero() }
    }

    pub fn silent() -> (h: Harmonic)
        ensures
            h == Harmonic::spec_silent(),
    {
        Harmonic { amplitude: Ratio::zero(), phase: Ratio::zero() }
    }

    pub fn max() -> (h: Harmonic)
        ensures
            h == Harmonic::spec_max(),
    {
        Harmonic { amplitude: Ratio::new(1, 1), phase: Ratio::zero() }
    }

    pub fn min() -> (h: Harmonic)
        ensures
            h == Harmonic::spec_min(),
    {
        Harmonic { amplitude: Ratio::new(-1, 1), phase: Ratio::zero() }
    }

    pub fn overtone(den: u64) -> (h: Harmonic)
        ensures
            h == Harmonic::spec_overtone(den),
    {
        Harmonic { amplitude: Ratio::reciprocal(den), phase: Ratio::zero() }
    }
}

/// The partial that stands in for a missing one: the given partial if there
/// is one, else silence.
pub open spec fn or_silent(h: Option<Harmonic>) -> Harmonic {
    match h {
        Some(h) => h,
        None => Harmonic::spec_silent(),
    }
}

/// A sound described by its partials: partial `index` is the one at `index`
/// times the fundamental frequency.
pub trait Sound {
    /// The partial at `index`, if the sound has one there.
    spec fn partial(&self, index: u32) -> Option<Harmonic>;

    fn compute(&self, index: u32) -> (h: Option<Harmonic>)
        ensures
            h == self.partial(index),
    ;

    fn reset(&self) {
    }

    /// The partial at `index`, silence where the sound has none.
    fn get_harmonic(&self, index: u32) -> (h: Harmonic)
        ensures
            h == or_silent(self.partial(index)),
    {
        self.compute(index).unwrap_or(Harmonic::silent())
    }
}

/// A transformation of the partials of a sound.
pub trait Effect {
    /// What becomes of `harmonic`, the partial at `index`; `None` drops it.
    spec fn transformed(&self, index: u32, harmonic: Harmonic) -> Option<Harmonic>;

    fn process(&self, index: u32, harmonic: Harmonic) -> (h: Option<Harmonic>)
        ensures
            h == self.transformed(index, harmonic),
    ;

    fn reset(&self) {
    }

    /// What becomes of `harmonic`, silence where the effect drops it.
    fn get_harmonic(&self, index: u32, harmonic: Harmonic) -> (h: Harmonic)
        ensures
            h == or_silent(self.transformed(index, harmonic)),
    {
        self.process(index, harmonic).unwrap_or(Harmonic::silent())
    }
}

} // verus!
