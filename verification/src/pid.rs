//! Discrete PID control of fan throttle.
//!
//! Each `control` call is one fixed time step: the error between the target
//! and the measured temperature feeds a proportional term, an accumulated
//! integral term and a difference-of-errors derivative term. The resulting
//! gain is subtracted from the current output level and the sum is clamped
//! into `[min_throttle, max_throttle]`.
//!
//! Anti-windup comes from output clamping alone: the accumulated error is
//! only saturated at the edge of the fixed-point working range, never at the
//! output bounds, so sustained saturation can still wind the integral term
//! up. That is a deliberate, known limitation of this control law.

use vstd::prelude::*;

use crate::arith::{clamp, clamp_spec, div_milli, in_fixed_range, lemma_clamp_monotone,
    lemma_div_milli_monotone, lemma_saturate_monotone, sat_add, sat_mul_milli, sat_sub,
    saturate, saturate_i64, MILLI};

verus! {

/// PID state: gains and output bounds fixed at construction, accumulated
/// error and previous error mutated by every `control` call. All fields are
/// fixed-point values counting thousandths.
pub struct PidControl {
    pub proportional: i64,
    pub integral: i64,
    pub derivative: i64,
    pub target_temperature: i64,
    pub min_throttle: i64,
    pub max_throttle: i64,
    pub error_sum: i64,
    pub last_error: i64,
}

impl PidControl {
    /// Every field inside the fixed-point working range, and the output
    /// bounds forming a throttle interval within `[0, 1]`.
    pub open spec fn wf(self) -> bool {
        &&& in_fixed_range(self.proportional as int)
        &&& in_fixed_range(self.integral as int)
        &&& in_fixed_range(self.derivative as int)
        &&& in_fixed_range(self.target_temperature as int)
        &&& in_fixed_range(self.error_sum as int)
        &&& in_fixed_range(self.last_error as int)
        &&& 0 <= self.min_throttle <= self.max_throttle <= MILLI
    }

    /// Instantaneous error of one step: target minus measurement.
    pub open spec fn spec_error(self, current_temperature: int) -> int {
        saturate(self.target_temperature - saturate(current_temperature))
    }

    /// Contribution of the proportional gain for this step.
    pub open spec fn p_term(self, current_temperature: int) -> int {
        saturate(div_milli(self.proportional * self.spec_error(current_temperature)))
    }

    /// Contribution of the integral gain, using the accumulated error after
    /// this step's error has been added.
    pub open spec fn i_term(self, current_temperature: int) -> int {
        saturate(div_milli(
            self.integral * saturate(self.error_sum + self.spec_error(current_temperature)),
        ))
    }

    /// Contribution of the derivative gain: rate of change of the error.
    pub open spec fn d_term(self, current_temperature: int) -> int {
        saturate(div_milli(
            self.derivative * saturate(self.spec_error(current_temperature) - self.last_error),
        ))
    }

    /// Total control gain of one step.
    pub open spec fn spec_gain(self, current_temperature: int) -> int {
        saturate(
            saturate(self.p_term(current_temperature) + self.i_term(current_temperature))
                + self.d_term(current_temperature),
        )
    }

    /// Controller state after one step at the given temperature.
    pub open spec fn next_state(self, current_temperature: int) -> PidControl {
        PidControl {
            error_sum: saturate(
                self.error_sum + self.spec_error(current_temperature),
            ) as i64,
            last_error: self.spec_error(current_temperature) as i64,
            ..self
        }
    }

    /// New output level of one step: current level minus the gain, clamped
    /// into the output bounds.
    pub open spec fn spec_output(self, current_temperature: int, current_throttle: int) -> int {
        clamp_spec(
            saturate(saturate(current_throttle) - self.spec_gain(current_temperature)),
            self.min_throttle as int,
            self.max_throttle as int,
        )
    }

    /// A fresh controller: gains, target and bounds fixed, no accumulated
    /// history. Gains and target are brought into the fixed-point working
    /// range; the bounds must form a throttle interval within `[0, 1]`.
    pub fn new(
        proportional: i64,
        integral: i64,
        derivative: i64,
        target_temperature: i64,
        min_output: i64,
        max_output: i64,
    ) -> (controller: PidControl)
        requires
            0 <= min_output <= max_output <= MILLI,
        ensures
            controller.proportional == saturate(proportional as int),
            controller.integral == saturate(integral as int),
            controller.derivative == saturate(derivative as int),
            controller.target_temperature == saturate(target_temperature as int),
            controller.min_throttle == min_output,
            controller.max_throttle == max_output,
            controller.error_sum == 0,
            controller.last_error == 0,
            controller.wf(),
    {
        PidControl {
            proportional: saturate_i64(proportional),
            integral: saturate_i64(integral),
            derivative: saturate_i64(derivative),
            target_temperature: saturate_i64(target_temperature),
            min_throttle: min_output,
            max_throttle: max_output,
            error_sum: 0,
            last_error: 0,
        }
    }

    /// One control step: returns the new output level and accumulates this
    /// step's error into the controller state. The result always lies within
    /// `[min_throttle, max_throttle]`, whatever the gains and the error.
    pub fn control(&mut self, current_temperature: i64, current_throttle: i64) -> (new_throttle:
        i64)
        requires
            old(self).wf(),
        ensures
            *final(self) == old(self).next_state(current_temperature as int),
            final(self).wf(),
            new_throttle == old(self).spec_output(
                current_temperature as int,
                current_throttle as int,
            ),
            old(self).min_throttle <= new_throttle <= old(self).max_throttle,
    {
        let measured = saturate_i64(current_temperature);
        let level = saturate_i64(current_throttle);
        let error = sat_sub(self.target_temperature, measured);
        let summed = sat_add(self.error_sum, error);
        let delta = sat_sub(error, self.last_error);
        let p_part = sat_mul_milli(self.proportional, error);
        let i_part = sat_mul_milli(self.integral, summed);
        let d_part = sat_mul_milli(self.derivative, delta);
        let gain = sat_add(sat_add(p_part, i_part), d_part);
        let raw = sat_sub(level, gain);
        let new_throttle = clamp(raw, self.min_throttle, self.max_throttle);
        self.error_sum = summed;
        self.last_error = error;
        new_throttle
    }
}

/// The closed loop run over a whole temperature sequence: each step's output
/// becomes the next step's current level. Yields the final controller state
/// and the last output level.
pub open spec fn run(s: PidControl, temperatures: Seq<int>, current_throttle: int) -> (
    PidControl,
    int,
)
    decreases temperatures.len(),
{
    if temperatures.len() == 0 {
        (s, current_throttle)
    } else {
        run(
            s.next_state(temperatures[0]),
            temperatures.drop_first(),
            s.spec_output(temperatures[0], current_throttle),
        )
    }
}

/// A step changes only the accumulated history: gains, target and bounds
/// survive, and the state stays well formed.
pub proof fn lemma_next_state_wf(s: PidControl, current_temperature: int)
    requires
        s.wf(),
    ensures
        s.next_state(current_temperature).wf(),
        s.next_state(current_temperature).min_throttle == s.min_throttle,
        s.next_state(current_temperature).max_throttle == s.max_throttle,
{
}

/// Clamp invariant of a single step: the output lies in
/// `[min_throttle, max_throttle]` for every temperature, every current
/// level, and every gain magnitude or error sign.
pub proof fn lemma_output_clamped(s: PidControl, current_temperature: int, current_throttle: int)
    requires
        s.wf(),
    ensures
        s.min_throttle <= s.spec_output(current_temperature, current_throttle)
            <= s.max_throttle,
{
}

/// Clamp invariant of the closed loop: over any temperature sequence, the
/// level the loop ends at lies in `[min_throttle, max_throttle]`.
pub proof fn lemma_run_clamped(s: PidControl, temperatures: Seq<int>, current_throttle: int)
    requires
        s.wf(),
        temperatures.len() > 0,
    ensures
        s.min_throttle <= run(s, temperatures, current_throttle).1 <= s.max_throttle,
    decreases temperatures.len(),
{
    if temperatures.len() == 1 {
        lemma_output_clamped(s, temperatures[0], current_throttle);
    } else {
        lemma_next_state_wf(s, temperatures[0]);
        lemma_run_clamped(
            s.next_state(temperatures[0]),
            temperatures.drop_first(),
            s.spec_output(temperatures[0], current_throttle),
        );
    }
}

/// With the measurement exactly at the target, the step's error is zero, so
/// the proportional term contributes nothing.
pub proof fn lemma_proportional_term_zero_at_target(s: PidControl, current_temperature: int)
    requires
        s.wf(),
        saturate(current_temperature) == s.target_temperature,
    ensures
        s.spec_error(current_temperature) == 0,
        s.p_term(current_temperature) == 0,
{
    assert(s.spec_error(current_temperature) == 0);
    assert(s.proportional * 0 == 0);
}

/// A fresh controller held exactly at the target is a fixed point: the state
/// does not move and the output is just the current level brought into the
/// output bounds.
pub proof fn lemma_steady_at_target(s: PidControl, current_throttle: int)
    requires
        s.wf(),
        s.error_sum == 0,
        s.last_error == 0,
    ensures
        s.next_state(s.target_temperature as int) == s,
        s.spec_output(s.target_temperature as int, current_throttle) == clamp_spec(
            saturate(current_throttle),
            s.min_throttle as int,
            s.max_throttle as int,
        ),
{
    let t = s.target_temperature as int;
    lemma_proportional_term_zero_at_target(s, t);
    assert(s.integral * 0 == 0);
    assert(s.derivative * 0 == 0);
}

/// Cooling effort is monotonic with the error: with nonnegative
/// proportional and integral gains and no derivative term, a hotter
/// measurement never yields a smaller output level.
pub proof fn lemma_output_monotone_in_temperature(s: PidControl, t1: int, t2: int, c: int)
    requires
        s.wf(),
        s.proportional >= 0,
        s.integral >= 0,
        s.derivative == 0,
        t1 <= t2,
    ensures
        s.spec_output(t1, c) <= s.spec_output(t2, c),
{
    let e1 = s.spec_error(t1);
    let e2 = s.spec_error(t2);
    lemma_saturate_monotone(t1, t2);
    lemma_saturate_monotone(
        s.target_temperature - saturate(t2),
        s.target_temperature - saturate(t1),
    );
    assert(e2 <= e1);
    assert(s.proportional * e2 <= s.proportional * e1) by (nonlinear_arith)
        requires
            s.proportional >= 0,
            e2 <= e1,
    ;
    lemma_div_milli_monotone(s.proportional * e2, s.proportional * e1);
    lemma_saturate_monotone(
        div_milli(s.proportional * e2),
        div_milli(s.proportional * e1),
    );
    assert(s.p_term(t2) <= s.p_term(t1));
    lemma_saturate_monotone(s.error_sum + e2, s.error_sum + e1);
    let sum1 = saturate(s.error_sum + e1);
    let sum2 = saturate(s.error_sum + e2);
    assert(s.integral * sum2 <= s.integral * sum1) by (nonlinear_arith)
        requires
            s.integral >= 0,
            sum2 <= sum1,
    ;
    lemma_div_milli_monotone(s.integral * sum2, s.integral * sum1);
    lemma_saturate_monotone(div_milli(s.integral * sum2), div_milli(s.integral * sum1));
    assert(s.i_term(t2) <= s.i_term(t1));
    assert(s.d_term(t1) == 0 && s.d_term(t2) == 0) by {
        assert(s.derivative * saturate(e1 - s.last_error) == 0);
        assert(s.derivative * saturate(e2 - s.last_error) == 0);
    }
    lemma_saturate_monotone(s.p_term(t2) + s.i_term(t2), s.p_term(t1) + s.i_term(t1));
    lemma_saturate_monotone(
        saturate(s.p_term(t2) + s.i_term(t2)) + s.d_term(t2),
        saturate(s.p_term(t1) + s.i_term(t1)) + s.d_term(t1),
    );
    assert(s.spec_gain(t2) <= s.spec_gain(t1));
    lemma_saturate_monotone(
        saturate(c) - s.spec_gain(t1),
        saturate(c) - s.spec_gain(t2),
    );
    lemma_clamp_monotone(
        saturate(saturate(c) - s.spec_gain(t1)),
        saturate(saturate(c) - s.spec_gain(t2)),
        s.min_throttle as int,
        s.max_throttle as int,
    );
}

/// Repeated `control` calls with the temperature held at the target leave a
/// fresh controller unchanged, and from the second step on the output level
/// stops moving: the whole gain contribution is zero at every step.
pub proof fn lemma_held_at_target(s: PidControl, temperatures: Seq<int>, current_throttle: int)
    requires
        s.wf(),
        s.error_sum == 0,
        s.last_error == 0,
        temperatures.len() > 0,
        forall|k: int| 0 <= k < temperatures.len() ==> temperatures[k]
            == s.target_temperature as int,
    ensures
        run(s, temperatures, current_throttle).0 == s,
        run(s, temperatures, current_throttle).1 == clamp_spec(
            saturate(current_throttle),
            s.min_throttle as int,
            s.max_throttle as int,
        ),
    decreases temperatures.len(),
{
    lemma_steady_at_target(s, current_throttle);
    let out = s.spec_output(temperatures[0], current_throttle);
    if temperatures.len() > 1 {
        assert(saturate(out) == out);
        assert(clamp_spec(out, s.min_throttle as int, s.max_throttle as int) == out);
        lemma_held_at_target(s, temperatures.drop_first(), out);
    }
}

} // verus!

