//! Sliding windows over the output of a sample source.

use crate::generator::CorruptedSinSignal;
use crate::generator::in_order;
use crate::generator::SampleSource;
use vstd::prelude::*;

verus! {

/// What a window is, as far as its contracts go.
pub struct SignalView<T> {
    /// Every sample that the window's source has handed out, oldest first.
    pub stream: Seq<T>,
    /// The samples in the window, oldest first.
    pub window: Seq<T>,
    /// How many samples a tick replaces.
    pub rate: nat,
}

impl<T> SignalView<T> {
    /// The window holds the newest samples of the stream.
    pub open spec fn in_step(self) -> bool {
        &&& self.window.len() <= self.stream.len()
        &&& self.window =~= self.stream.skip(self.stream.len() - self.window.len())
    }
}

/// How one tick changes a window: the `rate` oldest samples leave, the
/// others keep their order, and the `rate` samples that the source hands out
/// during the tick follow them. A window shorter than `rate` stays as it is,
/// and so does its source.
pub open spec fn ticked<T>(before: SignalView<T>, after: SignalView<T>) -> bool {
    &&& after.rate == before.rate
    &&& if before.rate <= before.window.len() {
        &&& after.stream.len() == before.stream.len() + before.rate
        &&& after.stream.take(before.stream.len() as int) =~= before.stream
        &&& after.window =~= before.window.skip(before.rate as int) + after.stream.skip(
            before.stream.len() as int,
        )
    } else {
        &&& after.stream == before.stream
        &&& after.window == before.window
    }
}

/// A window of fixed length over the samples of a source.
pub struct Signal<S: SampleSource> {
    source: S,
    points: Vec<S::Item>,
    tick_rate: usize,
}

impl<S: SampleSource> View for Signal<S> {
    type V = SignalView<S::Item>;

    closed spec fn view(&self) -> SignalView<S::Item> {
        SignalView {
            stream: self.source.emitted(),
            window: self.points@,
            rate: self.tick_rate as nat,
        }
    }
}

impl<S: SampleSource> Signal<S> {
    /// What the window's source was made with.
    pub closed spec fn settings(&self) -> S::Settings {
        self.source.settings()
    }

    /// Every sample in the window is one that the source may hand out.
    pub open spec fn all_admitted(&self) -> bool {
        forall|i: int|
            0 <= i < self@.window.len() ==> S::admits(self.settings(), #[trigger] self@.window[i])
    }

    /// The window holds the newest samples of its stream, each of them one
    /// that the source may hand out, and each but the first one that follows
    /// the sample before it.
    pub open spec fn wf(&self) -> bool {
        &&& self@.in_step()
        &&& self.all_admitted()
        &&& in_order::<S>(self.settings(), self@.window)
    }

    /// A window of the next `capacity` samples of `source`, which a tick moves
    /// on by `tick_rate` samples.
    pub fn new(source: S, capacity: usize, tick_rate: usize) -> (signal: Signal<S>)
        ensures
            signal@.window.len() == capacity,
            signal@.stream == source.emitted() + signal@.window,
            signal@.rate == tick_rate,
            signal.wf(),
            signal.settings() == source.settings(),
            capacity > 0 ==> source.may_emit(signal@.window[0]),
    {
        let ghost start = source;
        let mut source = source;
        let mut points: Vec<S::Item> = Vec::new();
        let mut filled: usize = 0;
        while filled < capacity
            invariant
                filled <= capacity,
                points@.len() == filled,
                source.emitted() =~= start.emitted() + points@,
                forall|i: int|
                    0 <= i < points@.len() ==> S::admits(start.settings(), #[trigger] points@[i]),
                source.settings() == start.settings(),
                filled > 0 ==> in_order::<S>(source.settings(), source.emitted()),
                filled == 0 ==> source == start,
                filled > 0 ==> start.may_emit(points@[0]),
            decreases capacity - filled,
        {
            let sample = source.next_sample();
            points.push(sample);
            filled = filled + 1;
        }
        proof {
            let stream = source.emitted();
            let offset = start.emitted().len();
            assert forall|i: int, j: int| 0 <= i && j == i + 1 && j < points@.len() implies S::follows(
                source.settings(),
                #[trigger] points@[i],
                #[trigger] points@[j],
            ) by {
                assert(points@[i] == stream[offset + i]);
                assert(points@[j] == stream[offset + j]);
            }
        }
        Signal { source, points, tick_rate }
    }

    /// The source that feeds the window.
    pub fn source(&self) -> (source: &S)
        ensures
            source.emitted() == self@.stream,
            source.settings() == self.settings(),
    {
        &self.source
    }

    /// The samples in the window, oldest first.
    pub fn points(&self) -> (points: &Vec<S::Item>)
        ensures
            points@ == self@.window,
    {
        &self.points
    }

    /// How many samples a tick replaces.
    pub fn tick_rate(&self) -> (rate: usize)
        ensures
            rate == self@.rate,
    {
        self.tick_rate
    }

    /// Moves the window on by one tick.
    pub fn on_tick(&mut self)
        ensures
            ticked(old(self)@, final(self)@),
            final(self)@.window.len() == old(self)@.window.len(),
            old(self)@.in_step() ==> final(self)@.in_step(),
            old(self).all_admitted() ==> final(self).all_admitted(),
            old(self).wf() ==> final(self).wf(),
            final(self).settings() == old(self).settings(),
    {
        let rate: usize = self.tick_rate;
        if rate > self.points.len() {
            return ;
        }
        let ghost before = self.points@;
        let ghost emitted = self.source.emitted();
        let kept: Vec<S::Item> = self.points.split_off(rate);
        self.points = kept;
        let mut added: usize = 0;
        while added < rate
            invariant
                added <= rate,
                rate <= before.len(),
                rate == self.tick_rate,
                self.tick_rate == old(self).tick_rate,
                self.points@.len() == before.len() - rate + added,
                self.source.emitted().len() == emitted.len() + added,
                self.source.emitted().take(emitted.len() as int) =~= emitted,
                self.points@ =~= before.skip(rate as int) + self.source.emitted().skip(
                    emitted.len() as int,
                ),
                self.source.settings() == old(self).source.settings(),
                added > 0 ==> in_order::<S>(self.source.settings(), self.source.emitted()),
                forall|i: int|
                    emitted.len() <= i < self.source.emitted().len() ==> S::admits(
                        old(self).source.settings(),
                        #[trigger] self.source.emitted()[i],
                    ),
            decreases rate - added,
        {
            let sample = self.source.next_sample();
            self.points.push(sample);
            added = added + 1;
        }
        proof {
            let after = self.source.emitted();
            if old(self)@.in_step() {
                assert(self.points@ =~= after.skip(after.len() - self.points@.len()));
            }
            if old(self).wf() {
                let offset = after.len() - self.points@.len();
                assert forall|i: int, j: int|
                    0 <= i && j == i + 1 && j < self.points@.len() implies S::follows(
                    self.source.settings(),
                    #[trigger] self.points@[i],
                    #[trigger] self.points@[j],
                ) by {
                    if rate == 0 {
                        assert(self.points@[i] == before[i]);
                        assert(self.points@[j] == before[j]);
                    } else {
                        assert(self.points@[i] == after[offset + i]);
                        assert(self.points@[j] == after[offset + j]);
                    }
                }
            }
            if old(self).all_admitted() {
                assert forall|i: int| 0 <= i < self.points@.len() implies S::admits(
                    self.source.settings(),
                    #[trigger] self.points@[i],
                ) by {
                    if i < before.len() - rate {
                        assert(self.points@[i] == before[i + rate]);
                    } else {
                        assert(self.points@[i] == after[emitted.len() + i - (before.len() - rate)]);
                    }
                }
            }
        }
    }
}

/// A tick keeps the length of a window, and a window that held the newest
/// samples of its stream holds them afterwards too.
pub proof fn lemma_tick_keeps_window<T>(before: SignalView<T>, after: SignalView<T>)
    requires
        ticked(before, after),
    ensures
        after.window.len() == before.window.len(),
        before.in_step() ==> after.in_step(),
{
    if before.rate <= before.window.len() && before.in_step() {
        assert(after.window =~= after.stream.skip(after.stream.len() - after.window.len())) by {
            assert forall|i: int| 0 <= i < after.window.len() implies after.window[i]
                == after.stream[after.stream.len() - after.window.len() + i] by {
                if i < before.window.len() - before.rate {
                    assert(after.window[i] == before.window[i + before.rate]);
                    assert(before.stream[before.stream.len() - before.window.len() + i
                        + before.rate] == after.stream.take(before.stream.len() as int)[
                        before.stream.len() - before.window.len() + i + before.rate]);
                }
            }
        }
    }
}

/// Over any number of ticks a window keeps its length. Let `states` hold a
/// window as it was made and as it stood after each of `states.len() - 1`
/// ticks, with a rate that its length allows. Then the source has handed out
/// `rate * ticks` samples since the window was made, and the window ends in
/// the newest of them, as many as it has room for, in the order in which the
/// source handed them out.
pub proof fn lemma_window_after_ticks<T>(states: Seq<SignalView<T>>)
    requires
        states.len() >= 1,
        states[0].in_step(),
        states[0].rate <= states[0].window.len(),
        forall|k: int| 0 <= k < states.len() - 1 ==> ticked(#[trigger] states[k], states[k + 1]),
    ensures
        ({
            let first = states[0];
            let last = states.last();
            let fresh = first.rate * (states.len() - 1);
            let newest = if fresh <= last.window.len() {
                fresh
            } else {
                last.window.len() as int
            };
            &&& last.rate == first.rate
            &&& last.window.len() == first.window.len()
            &&& last.in_step()
            &&& last.stream.len() == first.stream.len() + fresh
            &&& last.stream.take(first.stream.len() as int) =~= first.stream
            &&& last.window.skip(last.window.len() - newest) =~= last.stream.skip(
                first.stream.len() + fresh - newest,
            )
        }),
    decreases states.len(),
{
    let first = states[0];
    let ticks = states.len() - 1;
    if ticks == 0 {
        assert(first.rate * 0 == 0);
    } else {
        let earlier = states.drop_last();
        assert forall|k: int| 0 <= k < earlier.len() - 1 implies ticked(
            #[trigger] earlier[k],
            earlier[k + 1],
        ) by {
            assert(ticked(states[k], states[k + 1]));
        }
        lemma_window_after_ticks(earlier);
        let before = earlier.last();
        let last = states.last();
        assert(before == states[ticks - 1]);
        assert(ticked(states[ticks - 1], states[ticks - 1 + 1]));
        lemma_tick_keeps_window(before, last);
        assert(first.rate * ticks == first.rate * (ticks - 1) + first.rate) by (nonlinear_arith);
        assert(first.rate * (ticks - 1) >= 0) by (nonlinear_arith)
            requires
                ticks >= 1,
        ;
        assert(last.stream.take(first.stream.len() as int) =~= first.stream) by {
            assert forall|i: int| 0 <= i < first.stream.len() implies last.stream[i]
                == first.stream[i] by {
                assert(last.stream.take(before.stream.len() as int)[i] == before.stream[i]);
                assert(before.stream.take(first.stream.len() as int)[i] == first.stream[i]);
            }
        }
    }
}

/// Two waves and the stretch of the time axis that both are drawn against.
pub struct Signals {
    pub sin1: Signal<CorruptedSinSignal>,
    pub sin2: Signal<CorruptedSinSignal>,
    /// The two ends of the stretch, in whole units.
    pub window: [u64; 2],
}

/// The stretch of the time axis one tick later: both ends one unit further.
/// A stretch that reaches the largest number there is stays where it is.
pub open spec fn axis_after(axis: [u64; 2]) -> [u64; 2] {
    if axis[0] < u64::MAX && axis[1] < u64::MAX {
        [(axis[0] + 1) as u64, (axis[1] + 1) as u64]
    } else {
        axis
    }
}

impl Signals {
    /// Moves both waves on by one tick and the time axis by one unit.
    pub fn on_tick(&mut self)
        ensures
            ticked(old(self).sin1@, final(self).sin1@),
            ticked(old(self).sin2@, final(self).sin2@),
            final(self).sin1@.window.len() == old(self).sin1@.window.len(),
            final(self).sin2@.window.len() == old(self).sin2@.window.len(),
            old(self).sin1.wf() ==> final(self).sin1.wf(),
            old(self).sin2.wf() ==> final(self).sin2.wf(),
            final(self).sin1.settings() == old(self).sin1.settings(),
            final(self).sin2.settings() == old(self).sin2.settings(),
            final(self).window == axis_after(old(self).window),
            final(self).window[1] - final(self).window[0] == old(self).window[1] - old(
                self,
            ).window[0],
    {
        self.sin1.on_tick();
        self.sin2.on_tick();
        let lo: u64 = self.window[0];
        let hi: u64 = self.window[1];
        if lo < u64::MAX && hi < u64::MAX {
            self.window = [lo + 1, hi + 1];
        }
    }
}

} // verus!
