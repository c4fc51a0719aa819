use vstd::prelude::*;

use crate::level::Level;

verus! {

/// How a ramp interpolates: by equal differences, or by equal ratios.
#[derive(Clone, Copy, Debug, PartialEq, Eq, Structural)]
pub enum RampShape {
    Linear,
    Logarithmic,
}

/// The shape actually used between `current` and `target`: a logarithmic
/// ramp needs both ends greater than zero and falls back to a linear one
/// otherwise.
pub fn effective_shape(shape: RampShape, current: Level, target: Level) -> (r: RampShape)
    ensures
        r == (if shape == RampShape::Logarithmic && current.positive_spec() && target.positive_spec() {
            RampShape::Logarithmic
        } else {
            RampShape::Linear
        }),
{
    match shape {
        RampShape::Logarithmic => {
            if current.is_positive() && target.is_positive() {
                RampShape::Logarithmic
            } else {
                RampShape::Linear
            }
        },
        RampShape::Linear => RampShape::Linear,
    }
}

/// The smallest whole number of samples that covers `time_ms` at
/// `sample_rate_hz`: `ceil(time_ms * sample_rate_hz / 1000)`.
pub open spec fn ramp_steps_spec(time_ms: u32, sample_rate_hz: u32) -> int {
    (time_ms * sample_rate_hz + 999) / 1000
}

/// The number of calls of `advance` that a ramp of `time_ms` milliseconds
/// takes at `sample_rate_hz`, rounded up.
pub fn ramp_steps(time_ms: u32, sample_rate_hz: u32) -> (r: u32)
    requires
        ramp_steps_spec(time_ms, sample_rate_hz) <= u32::MAX,
    ensures
        r == ramp_steps_spec(time_ms, sample_rate_hz),
        r * 1000 >= time_ms * sample_rate_hz,
        r == 0 || (r - 1) * 1000 < time_ms * sample_rate_hz,
{
    let product: u64 = time_ms as u64 * sample_rate_hz as u64;
    proof {
        assert(product <= 0xffff_fffe_0000_0001u64) by (nonlinear_arith)
            requires product == time_ms * sample_rate_hz, time_ms <= u32::MAX, sample_rate_hz <= u32::MAX;
    }
    let steps: u64 = (product + 999) / 1000;
    steps as u32
}

/// The bookkeeping of a parameter ramp: where the trajectory stands, where it
/// is heading, and how many calls of `advance` are left before it arrives.
///
/// The interpolation itself (equal steps for a linear ramp, equal ratios for a
/// logarithmic one) is floating-point work done by the caller, who hands the
/// next point of the ramp to `advance`. This type decides when that point is
/// used and when the trajectory snaps to its target.
#[derive(Clone, Copy, Debug, PartialEq, Eq, Structural)]
pub struct SmoothedValue {
    pub current: Level,
    pub target: Level,
    pub steps_left: u32,
}

impl SmoothedValue {
    /// A ramp with no steps left rests on its target.
    pub open spec fn wf(self) -> bool {
        self.steps_left == 0 ==> self.current == self.target
    }

    /// The ramp has arrived: `advance` returns the target from now on.
    pub open spec fn settled(self) -> bool {
        self.steps_left == 0
    }

    /// The state after one `advance`, given the next point of the ramp.
    pub open spec fn advanced(self, stepped: Level) -> SmoothedValue {
        if self.steps_left > 1 {
            SmoothedValue { current: stepped, steps_left: (self.steps_left - 1) as u32, ..self }
        } else {
            SmoothedValue { current: self.target, steps_left: 0, ..self }
        }
    }

    /// The state after one `advance` per element of `points`, in order.
    pub open spec fn advanced_all(self, points: Seq<Level>) -> SmoothedValue
        decreases points.len(),
    {
        if points.len() == 0 {
            self
        } else {
            self.advanced(points[0]).advanced_all(points.drop_first())
        }
    }

    /// A value that rests at `value`.
    pub fn new(value: Level) -> (r: SmoothedValue)
        ensures
            r.current == value,
            r.target == value,
            r.settled(),
            r.wf(),
    {
        SmoothedValue { current: value, target: value, steps_left: 0 }
    }

    /// Jumps to `value` at once and stays there.
    pub fn reset(&mut self, value: Level)
        ensures
            *final(self) == SmoothedValue::new_spec(value),
    {
        self.current = value;
        self.target = value;
        self.steps_left = 0;
    }

    pub open spec fn new_spec(value: Level) -> SmoothedValue {
        SmoothedValue { current: value, target: value, steps_left: 0 }
    }

    /// Starts a ramp from the current value to `target` that arrives after
    /// `steps` calls of `advance` (at once when `steps` is zero).
    pub fn set_target(&mut self, target: Level, steps: u32)
        ensures
            final(self).target == target,
            final(self).steps_left == steps,
            final(self).current == (if steps == 0 { target } else { old(self).current }),
            final(self).wf(),
    {
        self.target = target;
        self.steps_left = steps;
        if steps == 0 {
            self.current = target;
        }
    }

    /// Starts a ramp to `target` as `set_target` does, unless the ramp is
    /// already heading there, in which case it goes on undisturbed.
    pub fn follow(&mut self, target: Level, steps: u32)
        requires
            old(self).wf(),
        ensures
            old(self).target == target ==> *final(self) == *old(self),
            old(self).target != target ==> *final(self) == (SmoothedValue {
                current: if steps == 0 { target } else { old(self).current },
                target,
                steps_left: steps,
            }),
            final(self).wf(),
    {
        if self.target != target {
            self.set_target(target, steps);
        }
    }

    /// Moves one step along the ramp and returns the new current value:
    /// `stepped` while more than one step is left, the target on the last
    /// step and on every call after it.
    pub fn advance(&mut self, stepped: Level) -> (r: Level)
        requires
            old(self).wf(),
        ensures
            *final(self) == old(self).advanced(stepped),
            final(self).wf(),
            r == final(self).current,
            old(self).settled() ==> r == old(self).target && *final(self) == *old(self),
    {
        if self.steps_left > 1 {
            self.steps_left = self.steps_left - 1;
            self.current = stepped;
        } else {
            self.steps_left = 0;
            self.current = self.target;
        }
        self.current
    }

    /// Whether the ramp has arrived.
    pub fn is_settled(&self) -> (r: bool)
        ensures
            r == self.settled(),
    {
        self.steps_left == 0
    }
}

/// A ramp set to reach `target` in `steps` calls has reached it after any
/// `steps` or more calls of `advance`, whatever points the caller handed in.
pub proof fn lemma_ramp_arrives(v: SmoothedValue, points: Seq<Level>)
    requires
        v.wf(),
        points.len() >= v.steps_left,
    ensures
        v.advanced_all(points).settled(),
        v.advanced_all(points).current == v.target,
        v.advanced_all(points).target == v.target,
    decreases points.len(),
{
    if points.len() > 0 {
        lemma_ramp_arrives(v.advanced(points[0]), points.drop_first());
    }
}

/// Once a ramp has arrived, every further call of `advance` returns the
/// target and leaves the value as it was.
pub proof fn lemma_settled_idempotent(v: SmoothedValue, points: Seq<Level>)
    requires
        v.wf(),
        v.settled(),
    ensures
        v.advanced_all(points) == v,
        v.advanced_all(points).current == v.target,
        forall|p: Level| #[trigger] v.advanced(p) == v,
    decreases points.len(),
{
    if points.len() > 0 {
        lemma_settled_idempotent(v, points.drop_first());
    }
}

} // verus!
