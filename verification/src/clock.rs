//! Elapsed time: nanoseconds since the first rendered frame.
//!
//! The clock is fed a reading of a monotonic timer at the start of every
//! frame. The first reading becomes its origin. A reading that lies before an
//! earlier one is not believed: elapsed time never runs backwards.

use vstd::prelude::*;

verus! {

/// What a [`FrameClock`] stands for.
pub struct ClockModel {
    /// The reading taken at the first frame, if there was one.
    pub origin: Option<nat>,
    /// Nanoseconds from the first frame to the latest.
    pub elapsed: nat,
}

impl ClockModel {
    /// The clock before the first frame.
    pub open spec fn unstarted() -> ClockModel {
        ClockModel { origin: None, elapsed: 0 }
    }

    /// Before the first frame no time has elapsed.
    pub open spec fn valid(self) -> bool {
        self.origin is None ==> self.elapsed == 0
    }

    /// The clock after a frame that starts at the reading `now`.
    pub open spec fn ticked(self, now: nat) -> ClockModel {
        match self.origin {
            None => ClockModel { origin: Some(now), elapsed: 0 },
            Some(origin) => ClockModel {
                origin: self.origin,
                elapsed: if now - origin > self.elapsed {
                    (now - origin) as nat
                } else {
                    self.elapsed
                },
            },
        }
    }

    /// The clock after one frame for each reading of `readings`, in order.
    pub open spec fn ticked_through(self, readings: Seq<nat>) -> ClockModel
        decreases readings.len(),
    {
        if readings.len() == 0 {
            self
        } else {
            self.ticked_through(readings.drop_last()).ticked(readings.last())
        }
    }
}

/// The clock of the render loop.
#[derive(Clone, Copy, Debug)]
pub struct FrameClock {
    origin: Option<u64>,
    elapsed: u64,
}

impl View for FrameClock {
    type V = ClockModel;

    closed spec fn view(&self) -> ClockModel {
        ClockModel {
            origin: match self.origin {
                None => None,
                Some(origin) => Some(origin as nat),
            },
            elapsed: self.elapsed as nat,
        }
    }
}

impl FrameClock {
    #[verifier::type_invariant]
    spec fn well_formed(&self) -> bool {
        self@.valid()
    }

    /// A clock that has seen no frame.
    pub fn new() -> (clock: FrameClock)
        ensures
            clock@ == ClockModel::unstarted(),
    {
        FrameClock { origin: None, elapsed: 0 }
    }

    /// Starts a frame at the reading `now` and returns the elapsed time that
    /// the frame is drawn with: zero at the first frame, afterwards the
    /// distance from the first reading, or the earlier value where that would
    /// be less.
    pub fn advance(&mut self, now: u64) -> (elapsed: u64)
        ensures
            final(self)@ == old(self)@.ticked(now as nat),
            elapsed == final(self)@.elapsed,
            elapsed >= old(self)@.elapsed,
            old(self)@.origin is None ==> elapsed == 0,
            final(self)@.valid(),
    {
        proof {
            use_type_invariant(&*self);
        }
        match self.origin {
            None => {
                self.origin = Some(now);
                self.elapsed = 0;
            },
            Some(origin) => {
                if now >= origin && now - origin > self.elapsed {
                    self.elapsed = now - origin;
                }
            },
        }
        self.elapsed
    }

    /// The elapsed time of the latest frame.
    pub fn elapsed(&self) -> (elapsed: u64)
        ensures
            elapsed == self@.elapsed,
            self@.valid(),
    {
        proof {
            use_type_invariant(self);
        }
        self.elapsed
    }

    /// Whether a first frame has been seen.
    pub fn is_started(&self) -> (started: bool)
        ensures
            started == self@.origin.is_some(),
    {
        self.origin.is_some()
    }
}

/// The first frame is drawn at time zero, whatever the timer reads.
pub proof fn lemma_first_frame_is_zero(now: nat)
    ensures
        ClockModel::unstarted().ticked(now).elapsed == 0,
        ClockModel::unstarted().ticked(now).origin == Some(now),
{
}

/// From one frame to the next elapsed time does not decrease, whatever the
/// timer reads, and the origin, once set, stays.
pub proof fn lemma_elapsed_never_decreases(clock: ClockModel, now: nat)
    requires
        clock.valid(),
    ensures
        clock.ticked(now).elapsed >= clock.elapsed,
        clock.origin is Some ==> clock.ticked(now).origin == clock.origin,
        clock.ticked(now).valid(),
{
}

/// While the timer itself does not run backwards, elapsed time is the
/// distance of the latest reading from the first.
pub proof fn lemma_elapsed_is_distance(clock: ClockModel, now: nat)
    requires
        clock.origin is Some,
        clock.elapsed <= now - clock.origin->0,
    ensures
        clock.ticked(now).elapsed == now - clock.origin->0,
{
}

/// Over any run of frames, a later frame never shows less elapsed time than
/// an earlier one.
pub proof fn lemma_elapsed_monotonic_over_frames(
    clock: ClockModel,
    readings: Seq<nat>,
    earlier: int,
    later: int,
)
    requires
        clock.valid(),
        0 <= earlier <= later <= readings.len(),
    ensures
        clock.ticked_through(readings.take(earlier)).elapsed
            <= clock.ticked_through(readings.take(later)).elapsed,
    decreases later - earlier,
{
    if earlier < later {
        lemma_elapsed_monotonic_over_frames(clock, readings, earlier, later - 1);
        let longer = readings.take(later);
        assert(longer.drop_last() =~= readings.take(later - 1));
        lemma_frames_keep_valid(clock, readings.take(later - 1));
        lemma_elapsed_never_decreases(
            clock.ticked_through(readings.take(later - 1)),
            longer.last(),
        );
    }
}

/// No run of frames takes a valid clock to one that is not.
pub proof fn lemma_frames_keep_valid(clock: ClockModel, readings: Seq<nat>)
    requires
        clock.valid(),
    ensures
        clock.ticked_through(readings).valid(),
    decreases readings.len(),
{
    if readings.len() > 0 {
        lemma_frames_keep_valid(clock, readings.drop_last());
    }
}

} // verus!
