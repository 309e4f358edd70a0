//! The values a frame hands to the shader: elapsed time, the resolution of
//! the surface and the pointer, kept up to date from the events of the
//! window.

use vstd::prelude::*;
use crate::clock::{ClockModel, FrameClock};
use crate::pointer::{PointerModel, PointerState};

verus! {

/// Width of the surface that the session starts with.
pub const INITIAL_WIDTH: u32 = 1920;

/// Height of the surface that the session starts with.
pub const INITIAL_HEIGHT: u32 = 1080;

/// The third component of the resolution uniform: a fixed one.
pub const RESOLUTION_DEPTH: u32 = 1;

/// The name under which the fragment program takes the elapsed time, in
/// seconds.
pub const TIME_UNIFORM: &'static str = "iTime";

/// The name under which it takes the resolution: three components.
pub const RESOLUTION_UNIFORM: &'static str = "iResolution";

/// The name under which it takes the pointer: four components. Only a
/// program whose body is framed takes it.
pub const POINTER_UNIFORM: &'static str = "iMouse";

/// The names of the uniforms that a frame supplies, in the order time,
/// resolution, pointer; the last only if the program takes the pointer.
pub open spec fn supplied_uniforms(takes_pointer: bool) -> Seq<Seq<char>> {
    if takes_pointer {
        seq![TIME_UNIFORM@, RESOLUTION_UNIFORM@, POINTER_UNIFORM@]
    } else {
        seq![TIME_UNIFORM@, RESOLUTION_UNIFORM@]
    }
}

/// The names of the uniforms that a frame supplies.
pub fn uniform_names(takes_pointer: bool) -> (names: Vec<&'static str>)
    ensures
        names@.map_values(|name: &'static str| name@) == supplied_uniforms(takes_pointer),
{
    let mut names: Vec<&'static str> = Vec::new();
    names.push(TIME_UNIFORM);
    names.push(RESOLUTION_UNIFORM);
    if takes_pointer {
        names.push(POINTER_UNIFORM);
    }
    assert(names@.map_values(|name: &'static str| name@) =~= supplied_uniforms(takes_pointer));
    names
}

/// What a [`UniformSnapshot`] stands for.
pub struct SnapshotModel {
    /// Nanoseconds since the first rendered frame.
    pub elapsed: nat,
    /// Width, height and the fixed depth of one.
    pub resolution: (nat, nat, nat),
    /// Origin of the last press, then the sign-encoded current position.
    pub pointer: (int, int, int, int),
}

/// What a [`UniformTracker`] stands for.
pub struct TrackerModel {
    /// The clock of the frames.
    pub clock: ClockModel,
    /// Width of the surface, never zero.
    pub width: u32,
    /// Height of the surface, never zero.
    pub height: u32,
    /// The pointer.
    pub pointer: PointerModel,
}

impl TrackerModel {
    /// The tracker of a session that has just begun.
    pub open spec fn initial() -> TrackerModel {
        TrackerModel {
            clock: ClockModel::unstarted(),
            width: INITIAL_WIDTH,
            height: INITIAL_HEIGHT,
            pointer: PointerModel::untouched(),
        }
    }

    /// A resize counts only if it leaves the surface with a pixel.
    pub open spec fn accepts_size(width: u32, height: u32) -> bool {
        width > 0 && height > 0
    }

    /// The window reports the size `width` by `height`.
    pub open spec fn resized(self, width: u32, height: u32) -> TrackerModel {
        if Self::accepts_size(width, height) {
            TrackerModel { width, height, ..self }
        } else {
            self
        }
    }

    /// The button goes down at `(raw_x, raw_y)`, counted from the top left.
    pub open spec fn pressed(self, raw_x: i32, raw_y: i32) -> TrackerModel {
        TrackerModel { pointer: self.pointer.pressed(raw_x, raw_y, self.height), ..self }
    }

    /// The pointer moves to `(raw_x, raw_y)`, counted from the top left.
    pub open spec fn dragged(self, raw_x: i32, raw_y: i32) -> TrackerModel {
        TrackerModel { pointer: self.pointer.dragged(raw_x, raw_y, self.height), ..self }
    }

    /// The button goes up.
    pub open spec fn released(self) -> TrackerModel {
        TrackerModel { pointer: self.pointer.released(), ..self }
    }

    /// One reading of the button and the position.
    pub open spec fn sampled(self, down: bool, raw_x: i32, raw_y: i32) -> TrackerModel {
        TrackerModel { pointer: self.pointer.sampled(down, raw_x, raw_y, self.height), ..self }
    }

    /// A frame starts at the timer reading `now`.
    pub open spec fn ticked(self, now: nat) -> TrackerModel {
        TrackerModel { clock: self.clock.ticked(now), ..self }
    }

    /// The uniform values as they stand.
    pub open spec fn snapshot(self) -> SnapshotModel {
        SnapshotModel {
            elapsed: self.clock.elapsed,
            resolution: (self.width as nat, self.height as nat, RESOLUTION_DEPTH as nat),
            pointer: self.pointer.encoded(),
        }
    }

    /// Neither dimension is zero, the pointer keeps its sign encoding, and
    /// before the first frame no time has elapsed.
    pub open spec fn valid(self) -> bool {
        &&& self.width > 0
        &&& self.height > 0
        &&& self.pointer.sign_encoded()
        &&& self.clock.valid()
    }
}

/// The uniform values of one frame.
#[derive(Clone, Copy, Debug, PartialEq, Eq)]
pub struct UniformSnapshot {
    /// Nanoseconds since the first rendered frame.
    pub elapsed_nanos: u64,
    /// Width, height and the fixed depth of one.
    pub resolution: (u32, u32, u32),
    /// Origin of the last press, then the sign-encoded current position.
    pub pointer: (i64, i64, i64, i64),
}

impl View for UniformSnapshot {
    type V = SnapshotModel;

    open spec fn view(&self) -> SnapshotModel {
        SnapshotModel {
            elapsed: self.elapsed_nanos as nat,
            resolution: (
                self.resolution.0 as nat,
                self.resolution.1 as nat,
                self.resolution.2 as nat,
            ),
            pointer: (
                self.pointer.0 as int,
                self.pointer.1 as int,
                self.pointer.2 as int,
                self.pointer.3 as int,
            ),
        }
    }
}

/// Keeps the uniform values between frames.
#[derive(Clone, Copy, Debug)]
pub struct UniformTracker {
    clock: FrameClock,
    width: u32,
    height: u32,
    pointer: PointerState,
}

impl View for UniformTracker {
    type V = TrackerModel;

    closed spec fn view(&self) -> TrackerModel {
        TrackerModel {
            clock: self.clock@,
            width: self.width,
            height: self.height,
            pointer: self.pointer@,
        }
    }
}

impl UniformTracker {
    #[verifier::type_invariant]
    spec fn well_formed(&self) -> bool {
        self@.valid()
    }

    /// The tracker of a new session: no frame drawn, the initial surface
    /// size, the pointer never pressed.
    pub fn new() -> (tracker: UniformTracker)
        ensures
            tracker@ == TrackerModel::initial(),
            tracker@.valid(),
    {
        UniformTracker {
            clock: FrameClock::new(),
            width: INITIAL_WIDTH,
            height: INITIAL_HEIGHT,
            pointer: PointerState::new(),
        }
    }

    /// The window reports a new size. With both dimensions above zero the
    /// resolution takes it and the result is `true`: the surface is to be
    /// resized too. With a zero dimension nothing changes and the result is
    /// `false`.
    pub fn resize(&mut self, width: u32, height: u32) -> (applied: bool)
        ensures
            applied == TrackerModel::accepts_size(width, height),
            final(self)@ == old(self)@.resized(width, height),
            final(self)@.valid(),
    {
        proof {
            use_type_invariant(&*self);
        }
        if width > 0 && height > 0 {
            self.width = width;
            self.height = height;
            true
        } else {
            false
        }
    }

    /// The button went down at `(raw_x, raw_y)`, counted from the top left:
    /// origin and current position are set to it, the row counted from the
    /// bottom of the surface.
    pub fn pointer_pressed(&mut self, raw_x: i32, raw_y: i32)
        ensures
            final(self)@ == old(self)@.pressed(raw_x, raw_y),
            final(self)@.valid(),
    {
        proof {
            use_type_invariant(&*self);
        }
        let mut pointer = self.pointer;
        pointer.press(raw_x, raw_y, self.height);
        self.pointer = pointer;
    }

    /// The pointer moved to `(raw_x, raw_y)`, counted from the top left:
    /// while the button is held the current position follows.
    pub fn pointer_dragged(&mut self, raw_x: i32, raw_y: i32)
        ensures
            final(self)@ == old(self)@.dragged(raw_x, raw_y),
            final(self)@.valid(),
    {
        proof {
            use_type_invariant(&*self);
        }
        let mut pointer = self.pointer;
        pointer.drag(raw_x, raw_y, self.height);
        self.pointer = pointer;
    }

    /// The button went up: the current position turns negative.
    pub fn pointer_released(&mut self)
        ensures
            final(self)@ == old(self)@.released(),
            final(self)@.valid(),
    {
        proof {
            use_type_invariant(&*self);
        }
        let mut pointer = self.pointer;
        pointer.release();
        self.pointer = pointer;
    }

    /// One reading of the button and the position, taken by a frame.
    pub fn pointer_sampled(&mut self, down: bool, raw_x: i32, raw_y: i32)
        ensures
            final(self)@ == old(self)@.sampled(down, raw_x, raw_y),
            final(self)@.valid(),
    {
        proof {
            use_type_invariant(&*self);
        }
        let mut pointer = self.pointer;
        pointer.sample(down, raw_x, raw_y, self.height);
        self.pointer = pointer;
    }

    /// Starts a frame at the timer reading `now`, in nanoseconds, and returns
    /// the elapsed time that the frame is drawn with.
    pub fn advance_time(&mut self, now: u64) -> (elapsed: u64)
        ensures
            final(self)@ == old(self)@.ticked(now as nat),
            elapsed == final(self)@.clock.elapsed,
            elapsed >= old(self)@.clock.elapsed,
            old(self)@.clock.origin is None ==> elapsed == 0,
            final(self)@.valid(),
    {
        proof {
            use_type_invariant(&*self);
        }
        let mut clock = self.clock;
        let elapsed = clock.advance(now);
        self.clock = clock;
        elapsed
    }

    /// The uniform values as they stand.
    pub fn snapshot(&self) -> (values: UniformSnapshot)
        ensures
            values@ == self@.snapshot(),
            self@.valid(),
    {
        proof {
            use_type_invariant(self);
        }
        UniformSnapshot {
            elapsed_nanos: self.clock.elapsed(),
            resolution: (self.width, self.height, RESOLUTION_DEPTH),
            pointer: self.pointer.encoded(),
        }
    }

    /// The resolution: width and height of the surface.
    pub fn resolution(&self) -> (size: (u32, u32))
        ensures
            size.0 == self@.width,
            size.1 == self@.height,
            size.0 > 0 && size.1 > 0,
    {
        proof {
            use_type_invariant(self);
        }
        (self.width, self.height)
    }
}

/// A resize with a zero dimension changes nothing: not the resolution, not
/// the pointer, not the time.
pub proof fn lemma_zero_resize_is_dropped(tracker: TrackerModel, width: u32, height: u32)
    requires
        width == 0 || height == 0,
    ensures
        !TrackerModel::accepts_size(width, height),
        tracker.resized(width, height) == tracker,
{
}

/// After a resize that counts, the resolution is the new size and the fixed
/// depth; time and pointer are as before.
pub proof fn lemma_resize_sets_resolution(tracker: TrackerModel, width: u32, height: u32)
    requires
        width > 0,
        height > 0,
    ensures
        tracker.resized(width, height).snapshot().resolution == (
            width as nat,
            height as nat,
            1nat,
        ),
        tracker.resized(width, height).clock == tracker.clock,
        tracker.resized(width, height).pointer == tracker.pointer,
{
}

/// Of two resizes in a row the second decides, if it counts.
pub proof fn lemma_last_resize_wins(tracker: TrackerModel, first: (u32, u32), second: (u32, u32))
    requires
        second.0 > 0,
        second.1 > 0,
    ensures
        tracker.resized(first.0, first.1).resized(second.0, second.1) == tracker.resized(
            second.0,
            second.1,
        ),
{
}

/// No event takes a valid tracker to one that is not.
pub proof fn lemma_events_keep_valid(
    tracker: TrackerModel,
    width: u32,
    height: u32,
    down: bool,
    raw_x: i32,
    raw_y: i32,
    now: nat,
)
    requires
        tracker.valid(),
    ensures
        TrackerModel::initial().valid(),
        tracker.resized(width, height).valid(),
        tracker.pressed(raw_x, raw_y).valid(),
        tracker.dragged(raw_x, raw_y).valid(),
        tracker.released().valid(),
        tracker.sampled(down, raw_x, raw_y).valid(),
        tracker.ticked(now).valid(),
{
}

/// A press at a pixel of the surface puts origin and current position at
/// that pixel, the row counted from the bottom, and the current position is
/// not negative.
pub proof fn lemma_press_inside_surface(tracker: TrackerModel, raw_x: i32, raw_y: i32)
    requires
        0 <= raw_x,
        0 <= raw_y <= tracker.height,
    ensures
        tracker.pressed(raw_x, raw_y).snapshot().pointer == (
            raw_x as int,
            tracker.height - raw_y,
            raw_x as int,
            tracker.height - raw_y,
        ),
{
}

} // verus!
