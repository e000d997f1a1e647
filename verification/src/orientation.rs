//! The orientation adapter: a control loop that maps sensed physical
//! orientations to display rotations via a partial mapping and signals
//! the display layer only on change.

use vstd::prelude::*;

use crate::display::DisplayOrientation;
use crate::sensors::SensorOrientation;
use crate::Error;

verus! {

/// The partial mapping from sensed orientation to display rotation.
/// Orientations without a mapping never change the display.
pub open spec fn orientation_map(s: SensorOrientation) -> Option<DisplayOrientation> {
    match s {
        SensorOrientation::LandscapeUp => Some(DisplayOrientation::LandscapeFlipped),
        SensorOrientation::LandscapeDown => Some(DisplayOrientation::Landscape),
        SensorOrientation::PortraitUp => Some(DisplayOrientation::Portrait),
        SensorOrientation::PortraitDown => Some(DisplayOrientation::PortraitFlipped),
        SensorOrientation::Unknown => None,
    }
}

/// The display orientation the adapter starts from: the baseline
/// sample's mapping where one exists, else the panel's power-on
/// orientation.
pub open spec fn baseline_orientation(s: SensorOrientation) -> DisplayOrientation {
    match orientation_map(s) {
        Some(d) => d,
        None => DisplayOrientation::LandscapeFlipped,
    }
}

/// The redraw one sample triggers from the given applied orientation:
/// the mapped rotation when one exists and differs, else nothing.
pub open spec fn redraw_of(cur: DisplayOrientation, s: SensorOrientation) -> Option<
    DisplayOrientation,
> {
    match orientation_map(s) {
        Some(d) => if d != cur {
            Some(d)
        } else {
            None
        },
        None => None,
    }
}

/// The applied orientation after one sample.
pub open spec fn next_orientation(cur: DisplayOrientation, s: SensorOrientation) -> DisplayOrientation {
    match redraw_of(cur, s) {
        Some(d) => d,
        None => cur,
    }
}

/// The applied orientation after a sequence of samples.
pub open spec fn orientation_after(
    cur: DisplayOrientation,
    samples: Seq<SensorOrientation>,
) -> DisplayOrientation
    decreases samples.len(),
{
    if samples.len() == 0 {
        cur
    } else {
        next_orientation(orientation_after(cur, samples.drop_last()), samples.last())
    }
}

/// The redraw event each sample of a sequence triggers, in order.
pub open spec fn redraw_events(
    cur: DisplayOrientation,
    samples: Seq<SensorOrientation>,
) -> Seq<Option<DisplayOrientation>>
    decreases samples.len(),
{
    if samples.len() == 0 {
        Seq::empty()
    } else {
        redraw_events(cur, samples.drop_last()).push(
            redraw_of(orientation_after(cur, samples.drop_last()), samples.last()),
        )
    }
}

/// Unmapped sensor orientations never change the applied orientation
/// and never trigger a redraw, however many arrive in a row.
pub proof fn lemma_unmapped_never_redraws(cur: DisplayOrientation, samples: Seq<SensorOrientation>)
    requires
        forall|i: int| 0 <= i < samples.len() ==> orientation_map(#[trigger] samples[i]) is None,
    ensures
        orientation_after(cur, samples) == cur,
        forall|i: int|
            0 <= i < samples.len() ==> redraw_events(cur, samples)[i] is None,
        redraw_events(cur, samples).len() == samples.len(),
    decreases samples.len(),
{
    if samples.len() > 0 {
        lemma_unmapped_never_redraws(cur, samples.drop_last());
    }
}

/// Map a sensed orientation to its display rotation, if it has one.
pub fn convert_orientation(s: SensorOrientation) -> (r: Option<DisplayOrientation>)
    ensures
        r == orientation_map(s),
{
    match s {
        SensorOrientation::LandscapeUp => Some(DisplayOrientation::LandscapeFlipped),
        SensorOrientation::LandscapeDown => Some(DisplayOrientation::Landscape),
        SensorOrientation::PortraitUp => Some(DisplayOrientation::Portrait),
        SensorOrientation::PortraitDown => Some(DisplayOrientation::PortraitFlipped),
        SensorOrientation::Unknown => None,
    }
}

/// The orientation adapter's state: the display orientation last
/// applied.  Only the adapter mutates it.
pub struct OrientationTracker {
    current: DisplayOrientation,
}

impl OrientationTracker {
    /// The display orientation last applied.
    pub closed spec fn current(self) -> DisplayOrientation {
        self.current
    }

    /// Establish the baseline from one unconditional read-and-map.  The
    /// baseline never triggers a redraw: the content was already drawn
    /// for the starting orientation.
    pub fn new(baseline: SensorOrientation) -> (t: OrientationTracker)
        ensures
            t.current() == baseline_orientation(baseline),
    {
        let current = match convert_orientation(baseline) {
            Some(d) => d,
            None => DisplayOrientation::LandscapeFlipped,
        };
        OrientationTracker { current }
    }

    /// The display orientation last applied.
    pub fn current_orientation(&self) -> (o: DisplayOrientation)
        ensures
            o == self.current(),
    {
        self.current
    }

    /// One loop iteration: map the sample and, only when the mapped
    /// rotation exists and differs from the applied one, apply it and
    /// report the redraw.  An unmapped sample never changes the state
    /// and never triggers a redraw.
    pub fn step(&mut self, sample: SensorOrientation) -> (redraw: Option<DisplayOrientation>)
        ensures
            redraw == redraw_of(old(self).current(), sample),
            final(self).current() == next_orientation(old(self).current(), sample),
            orientation_map(sample) is None ==> {
                &&& final(self).current() == old(self).current()
                &&& redraw is None
            },
    {
        match convert_orientation(sample) {
            Some(d) => {
                if d != self.current {
                    self.current = d;
                    Some(d)
                } else {
                    None
                }
            },
            None => None,
        }
    }

    /// One loop iteration fed from a raw sensor read.  A failed read
    /// never crashes the loop and never changes the state: it is
    /// propagated as `Error::RuntimeTransferFailure`.
    pub fn step_read(&mut self, reading: Result<SensorOrientation, Error>) -> (r: Result<
        Option<DisplayOrientation>,
        Error,
    >)
        ensures
            reading is Err ==> {
                &&& r == Err::<Option<DisplayOrientation>, Error>(Error::RuntimeTransferFailure)
                &&& final(self).current() == old(self).current()
            },
            reading is Ok ==> {
                &&& r is Ok
                &&& r->Ok_0 == redraw_of(old(self).current(), reading->Ok_0)
                &&& final(self).current() == next_orientation(old(self).current(), reading->Ok_0)
            },
    {
        match reading {
            Err(_) => Err(Error::RuntimeTransferFailure),
            Ok(sample) => Ok(self.step(sample)),
        }
    }
}

/// Run the adapter over a whole sample sequence: establish the baseline
/// from the first read, then report, per sample, the redraw it
/// triggered.
pub fn run_adapter(baseline: SensorOrientation, samples: &Vec<SensorOrientation>) -> (events: Vec<
    Option<DisplayOrientation>,
>)
    ensures
        events@ == redraw_events(baseline_orientation(baseline), samples@),
        events@.len() == samples@.len(),
{
    let start: Ghost<DisplayOrientation> = Ghost(baseline_orientation(baseline));
    let mut tracker = OrientationTracker::new(baseline);
    let mut events: Vec<Option<DisplayOrientation>> = Vec::new();
    let mut i: usize = 0;
    while i < samples.len()
        invariant
            i <= samples@.len(),
            tracker.current() == orientation_after(start@, samples@.take(i as int)),
            events@ == redraw_events(start@, samples@.take(i as int)),
            events@.len() == i,
            start@ == baseline_orientation(baseline),
        decreases samples@.len() - i,
    {
        let e = tracker.step(samples[i]);
        events.push(e);
        i = i + 1;
        proof {
            let prefix = samples@.take(i as int);
            assert(prefix.drop_last() =~= samples@.take(i as int - 1));
            assert(prefix.last() == samples@[i as int - 1]);
        }
    }
    proof {
        assert(samples@.take(samples@.len() as int) =~= samples@);
    }
    events
}

} // verus!
