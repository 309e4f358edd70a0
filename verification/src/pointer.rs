//! The pointer uniform: where the button went down, where the pointer is now,
//! and whether the button is held, the last packed into the sign of the
//! current position.
//!
//! Positions are whole pixels. The platform counts rows from the top; the
//! shader counts them from the bottom, so every row is flipped against the
//! height of the surface before it is stored.

use vstd::prelude::*;

verus! {

/// The absolute value of `v`.
pub open spec fn magnitude(v: int) -> int {
    if v < 0 {
        -v
    } else {
        v
    }
}

/// The row `raw_y`, counted from the top, as counted from the bottom of a
/// surface that is `height` rows high.
pub open spec fn flipped_row(height: u32, raw_y: i32) -> int {
    height - raw_y
}

/// What a [`PointerState`] stands for.
pub struct PointerModel {
    /// Where the button last went down.
    pub origin: (int, int),
    /// The latest position seen while the button was down: not negative while
    /// it is held, not positive once it is released.
    pub current: (int, int),
    /// Whether the button is held.
    pub held: bool,
}

impl PointerModel {
    /// The state before the first press: everything zero.
    pub open spec fn untouched() -> PointerModel {
        PointerModel { origin: (0, 0), current: (0, 0), held: false }
    }

    /// The sign of `current` agrees with `held`.
    pub open spec fn sign_encoded(self) -> bool {
        &&& self.held ==> self.current.0 >= 0 && self.current.1 >= 0
        &&& !self.held ==> self.current.0 <= 0 && self.current.1 <= 0
    }

    /// The button goes down at column `raw_x`, row `raw_y` (from the top) of a
    /// surface `height` rows high.
    pub open spec fn pressed(self, raw_x: i32, raw_y: i32, height: u32) -> PointerModel {
        PointerModel {
            origin: (raw_x as int, flipped_row(height, raw_y)),
            current: (magnitude(raw_x as int), magnitude(flipped_row(height, raw_y))),
            held: true,
        }
    }

    /// The pointer moves. It counts only while the button is held.
    pub open spec fn dragged(self, raw_x: i32, raw_y: i32, height: u32) -> PointerModel {
        if self.held {
            PointerModel {
                current: (magnitude(raw_x as int), magnitude(flipped_row(height, raw_y))),
                ..self
            }
        } else {
            self
        }
    }

    /// The button goes up. It counts only while the button is held.
    pub open spec fn released(self) -> PointerModel {
        if self.held {
            PointerModel {
                current: (-self.current.0, -self.current.1),
                held: false,
                ..self
            }
        } else {
            self
        }
    }

    /// One reading of the button and the position, as a frame takes it: the
    /// transition is told from whether the button was held before.
    pub open spec fn sampled(
        self,
        down: bool,
        raw_x: i32,
        raw_y: i32,
        height: u32,
    ) -> PointerModel {
        if down && !self.held {
            self.pressed(raw_x, raw_y, height)
        } else if down {
            self.dragged(raw_x, raw_y, height)
        } else {
            self.released()
        }
    }

    /// The four components handed to the shader: the origin, then the
    /// current position.
    pub open spec fn encoded(self) -> (int, int, int, int) {
        (self.origin.0, self.origin.1, self.current.0, self.current.1)
    }
}

/// The largest magnitude a stored component can have: a flipped row is a
/// `u32` less an `i32`.
pub const COMPONENT_LIMIT: i64 = 0x1_8000_0000;

/// The pointer uniform as the tracker keeps it.
#[derive(Clone, Copy, Debug)]
pub struct PointerState {
    origin_x: i64,
    origin_y: i64,
    current_x: i64,
    current_y: i64,
    held: bool,
}

impl View for PointerState {
    type V = PointerModel;

    closed spec fn view(&self) -> PointerModel {
        PointerModel {
            origin: (self.origin_x as int, self.origin_y as int),
            current: (self.current_x as int, self.current_y as int),
            held: self.held,
        }
    }
}

fn abs_component(v: i64) -> (m: i64)
    requires
        -COMPONENT_LIMIT <= v <= COMPONENT_LIMIT,
    ensures
        m == magnitude(v as int),
{
    if v < 0 {
        -v
    } else {
        v
    }
}

fn flip_row(height: u32, raw_y: i32) -> (row: i64)
    ensures
        row == flipped_row(height, raw_y),
        -COMPONENT_LIMIT <= row <= COMPONENT_LIMIT,
{
    let h: i64 = height as i64;
    let y: i64 = raw_y as i64;
    h - y
}

impl PointerState {
    #[verifier::type_invariant]
    spec fn well_formed(&self) -> bool {
        &&& -COMPONENT_LIMIT <= self.origin_x <= COMPONENT_LIMIT
        &&& -COMPONENT_LIMIT <= self.origin_y <= COMPONENT_LIMIT
        &&& -COMPONENT_LIMIT <= self.current_x <= COMPONENT_LIMIT
        &&& -COMPONENT_LIMIT <= self.current_y <= COMPONENT_LIMIT
        &&& self@.sign_encoded()
    }

    /// The state before the first press.
    pub fn new() -> (state: PointerState)
        ensures
            state@ == PointerModel::untouched(),
            state@.sign_encoded(),
    {
        PointerState { origin_x: 0, origin_y: 0, current_x: 0, current_y: 0, held: false }
    }

    /// The button went down at `(raw_x, raw_y)`: origin and current position
    /// are both set to it, the row flipped, the current position with
    /// positive sign.
    pub fn press(&mut self, raw_x: i32, raw_y: i32, height: u32)
        ensures
            final(self)@ == old(self)@.pressed(raw_x, raw_y, height),
            final(self)@.sign_encoded(),
    {
        let x: i64 = raw_x as i64;
        let y = flip_row(height, raw_y);
        *self = PointerState {
            origin_x: x,
            origin_y: y,
            current_x: abs_component(x),
            current_y: abs_component(y),
            held: true,
        };
    }

    /// The pointer moved to `(raw_x, raw_y)`: while the button is held the
    /// current position follows, with positive sign; the origin stays.
    /// Without a press before it, nothing changes.
    pub fn drag(&mut self, raw_x: i32, raw_y: i32, height: u32)
        ensures
            final(self)@ == old(self)@.dragged(raw_x, raw_y, height),
            final(self)@.sign_encoded(),
    {
        proof {
            use_type_invariant(&*self);
        }
        if self.held {
            let x: i64 = raw_x as i64;
            let y = flip_row(height, raw_y);
            *self = PointerState {
                origin_x: self.origin_x,
                origin_y: self.origin_y,
                current_x: abs_component(x),
                current_y: abs_component(y),
                held: true,
            };
        }
    }

    /// The button went up: the current position keeps its magnitude and turns
    /// negative; the origin stays where the button went down. Without a press
    /// before it, nothing changes.
    pub fn release(&mut self)
        ensures
            final(self)@ == old(self)@.released(),
            final(self)@.sign_encoded(),
    {
        proof {
            use_type_invariant(&*self);
        }
        if self.held {
            *self = PointerState {
                origin_x: self.origin_x,
                origin_y: self.origin_y,
                current_x: -self.current_x,
                current_y: -self.current_y,
                held: false,
            };
        }
    }

    /// One reading of the button and the position: a press if the button is
    /// down and was not, a drag if it still is, a release if it is up.
    pub fn sample(&mut self, down: bool, raw_x: i32, raw_y: i32, height: u32)
        ensures
            final(self)@ == old(self)@.sampled(down, raw_x, raw_y, height),
            final(self)@.sign_encoded(),
    {
        proof {
            use_type_invariant(&*self);
        }
        if down && !self.held {
            self.press(raw_x, raw_y, height);
        } else if down {
            self.drag(raw_x, raw_y, height);
        } else {
            self.release();
        }
    }

    /// Where the button last went down.
    pub fn origin(&self) -> (at: (i64, i64))
        ensures
            at.0 == self@.origin.0,
            at.1 == self@.origin.1,
    {
        (self.origin_x, self.origin_y)
    }

    /// The current position, sign-encoded.
    pub fn current(&self) -> (at: (i64, i64))
        ensures
            at.0 == self@.current.0,
            at.1 == self@.current.1,
            self@.sign_encoded(),
    {
        proof {
            use_type_invariant(self);
        }
        (self.current_x, self.current_y)
    }

    /// Whether the button is held.
    pub fn is_held(&self) -> (held: bool)
        ensures
            held == self@.held,
    {
        self.held
    }

    /// The four components handed to the shader: origin, then current
    /// position.
    pub fn encoded(&self) -> (components: (i64, i64, i64, i64))
        ensures
            (components.0 as int, components.1 as int, components.2 as int, components.3 as int)
                == self@.encoded(),
            self@.sign_encoded(),
    {
        proof {
            use_type_invariant(self);
        }
        (self.origin_x, self.origin_y, self.current_x, self.current_y)
    }
}

/// A press marks the button as held and puts the origin at the pixel, the
/// row flipped. The current position is the origin with both components made
/// positive: for a pixel of the surface, the origin itself.
pub proof fn lemma_press_sets_both(s: PointerModel, raw_x: i32, raw_y: i32, height: u32)
    ensures
        ({
            let pressed = s.pressed(raw_x, raw_y, height);
            &&& pressed.held
            &&& pressed.origin == (raw_x as int, height - raw_y)
            &&& pressed.current == (magnitude(pressed.origin.0), magnitude(pressed.origin.1))
            &&& raw_x >= 0 && raw_y <= height ==> pressed.current == pressed.origin
        }),
{
}

/// A release after a press and any number of drags negates both components
/// of the current position and leaves the origin where the press put it.
pub proof fn lemma_release_negates_current(s: PointerModel)
    requires
        s.held,
    ensures
        s.released().current == (-s.current.0, -s.current.1),
        s.released().origin == s.origin,
        !s.released().held,
{
}

/// After a press, a drag and a release the current position is that of the
/// drag with both components negated, and the origin is still that of the
/// press.
pub proof fn lemma_release_after_press_and_drag(
    s: PointerModel,
    press: (i32, i32),
    drag: (i32, i32),
    height: u32,
)
    ensures
        ({
            let dragged = s.pressed(press.0, press.1, height).dragged(drag.0, drag.1, height);
            let released = dragged.released();
            &&& dragged.current.0 >= 0 && dragged.current.1 >= 0
            &&& released.current == (-dragged.current.0, -dragged.current.1)
            &&& released.current.0 <= 0 && released.current.1 <= 0
            &&& released.origin == (press.0 as int, height - press.1)
            &&& released.origin == s.pressed(press.0, press.1, height).origin
        }),
{
}

/// A drag never moves the origin, and a drag without a press moves nothing.
pub proof fn lemma_drag_keeps_origin(s: PointerModel, raw_x: i32, raw_y: i32, height: u32)
    ensures
        s.dragged(raw_x, raw_y, height).origin == s.origin,
        s.dragged(raw_x, raw_y, height).held == s.held,
        !s.held ==> s.dragged(raw_x, raw_y, height) == s,
{
}

/// Every step keeps the sign of the current position in agreement with the
/// button.
pub proof fn lemma_steps_keep_sign(s: PointerModel, down: bool, raw_x: i32, raw_y: i32, height: u32)
    requires
        s.sign_encoded(),
    ensures
        PointerModel::untouched().sign_encoded(),
        s.pressed(raw_x, raw_y, height).sign_encoded(),
        s.dragged(raw_x, raw_y, height).sign_encoded(),
        s.released().sign_encoded(),
        s.sampled(down, raw_x, raw_y, height).sign_encoded(),
{
}

/// Until the first press all four components are zero, whatever else
/// happens.
pub proof fn lemma_untouched_stays_zero(raw_x: i32, raw_y: i32, height: u32)
    ensures
        PointerModel::untouched().dragged(raw_x, raw_y, height) == PointerModel::untouched(),
        PointerModel::untouched().released() == PointerModel::untouched(),
        PointerModel::untouched().sampled(false, raw_x, raw_y, height) == PointerModel::untouched(),
        PointerModel::untouched().encoded() == (0int, 0int, 0int, 0int),
{
}

} // verus!
