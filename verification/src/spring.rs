//! The springs that the display moves by.
use crate::scalar::{absolute, at_most, is_at_most, magnitude, Scalar, ZERO};
use vstd::prelude::*;

verus! {

/// 24.0: how stiffly opacity, scale and softness move while the display appears.
pub const ENTRANCE_ANGULAR_FREQUENCY: Scalar = 0x41c0_0000;

/// 24.0: how stiffly they move while it disappears.
pub const EXIT_ANGULAR_FREQUENCY: Scalar = 0x41c0_0000;

/// 24.0: how stiffly the capsule changes its shape.
pub const GEOMETRY_ANGULAR_FREQUENCY: Scalar = 0x41c0_0000;

/// 22.0: how stiffly the average level follows the sound.
pub const AVERAGE_ANGULAR_FREQUENCY: Scalar = 0x41b0_0000;

/// 26.0: how stiffly the peak level follows the sound.
pub const PEAK_ANGULAR_FREQUENCY: Scalar = 0x41d0_0000;

/// A value on its way to a target.
#[derive(Clone, Copy, Debug, PartialEq, Eq, Structural)]
pub struct Spring {
    pub value: Scalar,
    pub velocity: Scalar,
}

impl Spring {
    /// The spring that rests at `value`.
    pub open spec fn at_rest(value: Scalar) -> Spring {
        Spring { value, velocity: ZERO }
    }

    /// The spring stopped where it is.
    pub open spec fn halted(self) -> Spring {
        Spring { velocity: ZERO, ..self }
    }

    /// Whether the spring is within `value_epsilon` of a target `distance` away and not
    /// faster than `velocity_epsilon`.
    pub open spec fn settled(
        self,
        distance: Scalar,
        value_epsilon: Scalar,
        velocity_epsilon: Scalar,
    ) -> bool {
        &&& is_at_most(magnitude(distance), value_epsilon)
        &&& is_at_most(magnitude(self.velocity), velocity_epsilon)
    }

    /// Makes a spring that rests at `value`.
    pub fn new(value: Scalar) -> (spring: Spring)
        ensures
            spring == Spring::at_rest(value),
    {
        Spring { value, velocity: ZERO }
    }

    /// Puts the spring to rest at `value`.
    pub fn reset(&mut self, value: Scalar)
        ensures
            *final(self) == Spring::at_rest(value),
    {
        self.value = value;
        self.velocity = ZERO;
    }

    /// Stops the spring where it is.
    pub fn halt(&mut self)
        ensures
            *final(self) == old(self).halted(),
    {
        self.velocity = ZERO;
    }

    /// Decides whether the spring has come to rest at a target that lies `distance` away.
    pub fn is_settled(
        &self,
        distance: Scalar,
        value_epsilon: Scalar,
        velocity_epsilon: Scalar,
    ) -> (r: bool)
        ensures
            r == self.settled(distance, value_epsilon, velocity_epsilon),
    {
        at_most(absolute(distance), value_epsilon) && at_most(
            absolute(self.velocity),
            velocity_epsilon,
        )
    }
}

/// All the springs of the display.
#[derive(Clone, Copy, Debug, PartialEq, Eq, Structural)]
pub struct Springs {
    pub average: Spring,
    pub peak: Spring,
    pub width: Spring,
    pub height: Spring,
    pub opacity: Spring,
    pub visual_scale: Spring,
    pub softness: Spring,
    pub processing: Spring,
    pub post_processing: Spring,
}

/// One spring, and what pulls on it during a frame.
#[derive(Clone, Copy, Debug, PartialEq, Eq, Structural)]
pub struct SpringStep {
    pub spring: Spring,
    pub target: Scalar,
    pub angular_frequency: Scalar,
}

/// What pulls on each spring during a frame.
#[derive(Clone, Copy, Debug, PartialEq, Eq, Structural)]
pub struct SpringSteps {
    pub average: SpringStep,
    pub peak: SpringStep,
    pub width: SpringStep,
    pub height: SpringStep,
    pub opacity: SpringStep,
    pub visual_scale: SpringStep,
    pub softness: SpringStep,
    pub processing: SpringStep,
    pub post_processing: SpringStep,
}

} // verus!
