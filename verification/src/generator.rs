//! Sample generators: endless sources of synthetic telemetry, each drawing
//! from a random generator of its own.

use rand::rngs::StdRng;
use rand::Rng;
use rand::SeedableRng;
use vstd::prelude::*;

verus! {

/// Noise of a wave sample ranges over `[-NOISE_BOUND, NOISE_BOUND)` millionths.
pub const NOISE_BOUND: i64 = 100_000;

/// How many values the noise of a wave sample can take.
pub const NOISE_SPAN: u64 = 200_000;

/// `rand::rngs::StdRng`, the random generator that each source owns. Nothing
/// inside it is visible here.
#[verifier::external_type_specification]
#[verifier::external_body]
pub struct ExStdRng(StdRng);

/// `SeedableRng::from_entropy` of `StdRng`: a generator seeded by the
/// operating system. Nothing is claimed of it.
#[verifier::external_body]
pub(crate) fn entropy_rng() -> StdRng {
    StdRng::from_entropy()
}

/// `SeedableRng::seed_from_u64` of `StdRng`: a generator that starts from
/// `seed`. Nothing is claimed of it.
#[verifier::external_body]
pub(crate) fn seeded_rng(seed: u64) -> StdRng {
    StdRng::seed_from_u64(seed)
}

/// `Rng::gen_range` on the half-open range `lower..upper`, which panics on an
/// empty range: the number drawn is in the range. Which number it is nobody
/// can say.
#[verifier::external_body]
pub(crate) fn draw_between(rng: &mut StdRng, lower: u64, upper: u64) -> (drawn: u64)
    requires
        lower < upper,
    ensures
        lower <= drawn < upper,
{
    rng.gen_range(lower..upper)
}

/// An endless source of samples.
pub trait SampleSource: Sized {
    type Item;

    /// What the source was made with.
    type Settings;

    /// Every sample that the source has handed out, oldest first.
    spec fn emitted(&self) -> Seq<Self::Item>;

    /// What the source was made with. It does not change over the source's
    /// life.
    spec fn settings(&self) -> Self::Settings;

    /// Whether `item` is a sample that a source with these settings may hand
    /// out.
    spec fn admits(settings: Self::Settings, item: Self::Item) -> bool;

    /// Whether `item` may be the next sample that the source hands out.
    spec fn may_emit(&self, item: Self::Item) -> bool;

    /// Whether a source with these settings may hand out `next` directly
    /// after `previous`.
    spec fn follows(settings: Self::Settings, previous: Self::Item, next: Self::Item) -> bool;

    /// Hands out the next sample. All that the source has handed out by then
    /// is in order: each sample follows the one before it.
    fn next_sample(&mut self) -> (sample: Self::Item)
        ensures
            final(self).emitted() == old(self).emitted().push(sample),
            final(self).settings() == old(self).settings(),
            Self::admits(old(self).settings(), sample),
            old(self).may_emit(sample),
            forall|i: int, j: int|
                0 <= i && j == i + 1 && j < final(self).emitted().len() ==> Self::follows(
                    final(self).settings(),
                    #[trigger] final(self).emitted()[i],
                    #[trigger] final(self).emitted()[j],
                ),
    ;
}

/// Whether each sample of `stream` but the first follows the one before it.
pub open spec fn in_order<S: SampleSource>(settings: S::Settings, stream: Seq<S::Item>) -> bool {
    forall|i: int, j: int|
        0 <= i && j == i + 1 && j < stream.len() ==> S::follows(
            settings,
            #[trigger] stream[i],
            #[trigger] stream[j],
        )
}

/// A half-open range of integers that holds at least one.
struct Bounds {
    lower: u64,
    upper: u64,
}

impl Bounds {
    #[verifier::type_invariant]
    spec fn not_empty(self) -> bool {
        self.lower < self.upper
    }
}

/// The range that a random source draws from: `lower` and every number up
/// to `upper`, but not `upper`.
pub struct RangeSettings {
    pub lower: u64,
    pub upper: u64,
}

/// Random integers of a half-open range.
pub struct RandomSignal {
    bounds: Bounds,
    rng: StdRng,
    history: Ghost<Seq<u64>>,
}

impl RandomSignal {
    /// A source of numbers in `[lower, upper)`, seeded by the operating system.
    pub fn new(lower: u64, upper: u64) -> (signal: RandomSignal)
        requires
            lower < upper,
        ensures
            signal.settings() == (RangeSettings { lower, upper }),
            signal.emitted() == Seq::<u64>::empty(),
    {
        RandomSignal {
            bounds: Bounds { lower, upper },
            rng: entropy_rng(),
            history: Ghost(Seq::empty()),
        }
    }

    /// A source of numbers in `[lower, upper)` that hands out the same numbers
    /// for the same `seed`.
    pub fn with_seed(lower: u64, upper: u64, seed: u64) -> (signal: RandomSignal)
        requires
            lower < upper,
        ensures
            signal.settings() == (RangeSettings { lower, upper }),
            signal.emitted() == Seq::<u64>::empty(),
    {
        RandomSignal {
            bounds: Bounds { lower, upper },
            rng: seeded_rng(seed),
            history: Ghost(Seq::empty()),
        }
    }
}

impl SampleSource for RandomSignal {
    type Item = u64;

    type Settings = RangeSettings;

    closed spec fn emitted(&self) -> Seq<u64> {
        self.history@
    }

    closed spec fn settings(&self) -> RangeSettings {
        RangeSettings { lower: self.bounds.lower, upper: self.bounds.upper }
    }

    open spec fn admits(settings: RangeSettings, item: u64) -> bool {
        settings.lower <= item < settings.upper
    }

    open spec fn may_emit(&self, item: u64) -> bool {
        Self::admits(self.settings(), item)
    }

    open spec fn follows(settings: RangeSettings, previous: u64, next: u64) -> bool {
        true
    }

    fn next_sample(&mut self) -> (sample: u64) {
        proof {
            use_type_invariant(&self.bounds);
        }
        let sample: u64 = draw_between(&mut self.rng, self.bounds.lower, self.bounds.upper);
        self.history = Ghost(self.history@.push(sample));
        sample
    }
}

/// One sample of a noisy sine wave. The wave's value at the sample is
/// `(sin(x / period) + noise / 1_000_000) * scale`.
#[derive(Clone, Copy, Debug, PartialEq, Eq)]
pub struct WavePoint {
    /// Position on the time axis, in thousandths.
    pub x: u64,
    /// Noise, in millionths of the wave's scale.
    pub noise: i64,
}

/// Sum of two positions that stops at the largest position there is.
pub open spec fn position_after(x: u64, interval: u64) -> u64 {
    if x + interval <= u64::MAX {
        (x + interval) as u64
    } else {
        u64::MAX
    }
}

/// Distance between two samples of a wave, and the period and the amplitude
/// of its sine, each in thousandths.
pub struct WaveSettings {
    pub interval: u64,
    pub period: u64,
    pub scale: u64,
}

/// A sine wave with noise on it, sampled at a fixed interval. Positions,
/// interval, period and scale are whole thousandths.
pub struct CorruptedSinSignal {
    phase: Phase,
    period: u64,
    scale: u64,
    rng: StdRng,
}

/// Where a wave stands, and the samples that brought it there.
struct Phase {
    x: u64,
    interval: u64,
    history: Ghost<Seq<WavePoint>>,
}

impl Phase {
    #[verifier::type_invariant]
    spec fn evenly_spaced(self) -> bool {
        &&& forall|i: int, j: int|
            0 <= i && j == i + 1 && j < self.history@.len() ==> (#[trigger] self.history@[j]).x
                == position_after((#[trigger] self.history@[i]).x, self.interval)
        &&& self.history@.len() > 0 ==> self.x == position_after(
            self.history@.last().x,
            self.interval,
        )
    }
}

impl CorruptedSinSignal {
    /// Position of the next sample.
    pub closed spec fn position(&self) -> u64 {
        self.phase.x
    }

    /// A wave that starts at position 0, with noise seeded by the operating
    /// system.
    pub fn new(interval: u64, period: u64, scale: u64) -> (signal: CorruptedSinSignal)
        ensures
            signal.position() == 0,
            signal.settings() == (WaveSettings { interval, period, scale }),
            signal.emitted() == Seq::<WavePoint>::empty(),
    {
        CorruptedSinSignal {
            phase: Phase { x: 0, interval, history: Ghost(Seq::empty()) },
            period,
            scale,
            rng: entropy_rng(),
        }
    }

    /// A wave that starts at position 0 and carries the same noise for the
    /// same `seed`.
    pub fn with_seed(interval: u64, period: u64, scale: u64, seed: u64) -> (signal:
        CorruptedSinSignal)
        ensures
            signal.position() == 0,
            signal.settings() == (WaveSettings { interval, period, scale }),
            signal.emitted() == Seq::<WavePoint>::empty(),
    {
        CorruptedSinSignal {
            phase: Phase { x: 0, interval, history: Ghost(Seq::empty()) },
            period,
            scale,
            rng: seeded_rng(seed),
        }
    }

    /// Distance between two samples, in thousandths.
    pub fn interval(&self) -> (interval: u64)
        ensures
            interval == self.settings().interval,
    {
        self.phase.interval
    }

    /// Period of the sine, in thousandths.
    pub fn period(&self) -> (period: u64)
        ensures
            period == self.settings().period,
    {
        self.period
    }

    /// Amplitude of the sine, in thousandths.
    pub fn scale(&self) -> (scale: u64)
        ensures
            scale == self.settings().scale,
    {
        self.scale
    }
}

impl SampleSource for CorruptedSinSignal {
    type Item = WavePoint;

    type Settings = WaveSettings;

    closed spec fn emitted(&self) -> Seq<WavePoint> {
        self.phase.history@
    }

    closed spec fn settings(&self) -> WaveSettings {
        WaveSettings { interval: self.phase.interval, period: self.period, scale: self.scale }
    }

    open spec fn admits(settings: WaveSettings, item: WavePoint) -> bool {
        -NOISE_BOUND <= item.noise < NOISE_BOUND
    }

    open spec fn may_emit(&self, item: WavePoint) -> bool {
        item.x == self.position() && Self::admits(self.settings(), item)
    }

    /// A sample stands one interval after the one before it (and no further
    /// than the largest position).
    open spec fn follows(settings: WaveSettings, previous: WavePoint, next: WavePoint) -> bool {
        next.x == position_after(previous.x, settings.interval)
    }

    /// The sample stands at the wave's position, and the wave moves on by its
    /// interval (and no further than the largest position).
    fn next_sample(&mut self) -> (sample: WavePoint)
        ensures
            final(self).position() == position_after(
                old(self).position(),
                old(self).settings().interval,
            ),
    {
        proof {
            use_type_invariant(&self.phase);
        }
        let drawn: u64 = draw_between(&mut self.rng, 0, NOISE_SPAN);
        let noise: i64 = drawn as i64 - NOISE_BOUND;
        let x: u64 = self.phase.x;
        let interval: u64 = self.phase.interval;
        let sample = WavePoint { x, noise };
        let next: u64 = if x <= u64::MAX - interval {
            x + interval
        } else {
            u64::MAX
        };
        let ghost before = self.phase.history@;
        let ghost after = before.push(sample);
        proof {
            assert forall|i: int, j: int| 0 <= i && j == i + 1 && j < after.len() implies (
            #[trigger] after[j]).x == position_after((#[trigger] after[i]).x, interval) by {
                if j < before.len() {
                    assert(after[i] == before[i]);
                    assert(after[j] == before[j]);
                }
            }
        }
        self.phase = Phase { x: next, interval, history: Ghost(after) };
        sample
    }
}

} // verus!
