//! What holds of the controller on every input.

use vstd::prelude::*;
use crate::clamping::Clamping;
use crate::pid::Pid;
use crate::scalar::{Scalar, ZeroLaws};

verus! {

/// A controller at rest that measures its target answers zero and stays at
/// rest, whatever its gains, bounds and last output, for any time step but
/// zero.
pub proof fn lemma_rest_is_stable<T: ZeroLaws>(pid: Pid<T>, time_step: T)
    requires
        pid.at_rest(),
        time_step != T::zero_spec(),
    ensures
        pid.step_output(pid.target, time_step) == T::zero_spec(),
        pid.step_spec(pid.target, time_step).at_rest(),
{
    let zero = T::zero_spec();
    T::minus_self(pid.target);
    T::minus_self(zero);
    T::times_zero(pid.kp);
    T::times_zero(pid.ki);
    T::times_zero(pid.kd);
    T::times_zero(time_step);
    T::plus_zero(zero);
    T::zero_divided(time_step);
    T::negated_zero();
}

/// The first step on the target, from a zero integral and a zero
/// remembered error, returns zero and leaves the controller at rest. With
/// the derivative taken of the measurement, that step sees the measurement
/// jump from zero to the target, and the law holds where the derivative
/// term of that jump is zero: for a zero target, or without derivative gain.
pub proof fn lemma_first_step_on_target<T: ZeroLaws>(pid: Pid<T>, time_step: T)
    requires
        pid.cumulative_error == T::zero_spec(),
        pid.previous_error == T::zero_spec(),
        time_step != T::zero_spec(),
        pid.derivative_on_measurement ==> pid.derivative_term(pid.target, time_step)
            == T::zero_spec(),
    ensures
        pid.step_output(pid.target, time_step) == T::zero_spec(),
        pid.step_spec(pid.target, time_step).at_rest(),
{
    if pid.derivative_on_measurement {
        let zero = T::zero_spec();
        T::minus_self(pid.target);
        T::times_zero(pid.kp);
        T::times_zero(pid.ki);
        T::times_zero(time_step);
        T::plus_zero(zero);
    } else {
        lemma_rest_is_stable(pid, time_step);
    }
}

/// With zero error on every step, and the integral and the remembered error
/// starting at zero, every step returns zero, whatever the gains, the bounds
/// and the time steps (none of them zero). With the derivative taken of the
/// measurement, the first step sees the measurement jump from zero to the
/// target, and the law holds where the derivative term of that jump is zero.
pub proof fn lemma_zero_error_stability<T: ZeroLaws>(pid: Pid<T>, inputs: Seq<(T, T)>)
    requires
        pid.cumulative_error == T::zero_spec(),
        pid.previous_error == T::zero_spec(),
        forall|i: int|
            0 <= i < inputs.len() ==> (#[trigger] inputs[i]).0 == pid.target && inputs[i].1
                != T::zero_spec(),
        pid.derivative_on_measurement && inputs.len() > 0 ==> pid.derivative_term(
            pid.target,
            inputs[0].1,
        ) == T::zero_spec(),
    ensures
        inputs.len() > 0 ==> pid.after(inputs).at_rest(),
        pid.after(inputs).target == pid.target,
        pid.after(inputs).derivative_on_measurement == pid.derivative_on_measurement,
        forall|i: int| 0 <= i < inputs.len() ==> #[trigger] pid.outputs(inputs)[i] == T::zero_spec(),
    decreases inputs.len(),
{
    if inputs.len() > 0 {
        let head = inputs.drop_last();
        lemma_zero_error_stability(pid, head);
        if head.len() == 0 {
            lemma_first_step_on_target(pid, inputs.last().1);
        } else {
            lemma_rest_is_stable(pid.after(head), inputs.last().1);
        }
        assert forall|i: int| 0 <= i < inputs.len() implies #[trigger] pid.outputs(inputs)[i]
            == T::zero_spec() by {
            if i < head.len() {
                assert(inputs.take(i + 1) == head.take(i + 1));
                assert(pid.outputs(head)[i] == T::zero_spec());
            } else {
                assert(inputs.take(i + 1) == inputs);
            }
        }
    }
}

/// Without integral and derivative gain a step returns the proportional
/// term alone, `kp * (target - measured)`, whatever the time step, the
/// bounds and the state.
pub proof fn lemma_proportional_only<T: ZeroLaws>(pid: Pid<T>, measured: T, time_step: T)
    requires
        pid.ki == T::zero_spec(),
        pid.kd == T::zero_spec(),
    ensures
        pid.step_output(measured, time_step) == pid.kp.times_spec(
            pid.target.minus_spec(measured),
        ),
{
    T::times_zero(pid.next_cumulative_error(measured, time_step));
    if pid.derivative_on_measurement {
        T::times_zero(
            measured.minus_spec(pid.previous_error).divided_by_spec(time_step).negated_spec(),
        );
    } else {
        T::times_zero(
            pid.error_of(measured).minus_spec(pid.previous_error).divided_by_spec(time_step),
        );
    }
    T::plus_zero(pid.kp.times_spec(pid.error_of(measured)));
}

/// While the last output lies outside the bounds, a step leaves the
/// integral as it was and returns the proportional and derivative terms
/// only.
pub proof fn lemma_frozen_integral<T: Scalar>(pid: Pid<T>, measured: T, time_step: T)
    requires
        pid.clamping.exceeded_spec(pid.output),
    ensures
        pid.step_spec(measured, time_step).cumulative_error == pid.cumulative_error,
        pid.step_output(measured, time_step) == pid.kp.times_spec(
            pid.target.minus_spec(measured),
        ).plus_spec(pid.derivative_term(measured, time_step)),
{
}

/// While the last output lies within the bounds, a step adds
/// `error * time_step` to the integral.
pub proof fn lemma_integral_accumulates<T: Scalar>(pid: Pid<T>, measured: T, time_step: T)
    requires
        !pid.clamping.exceeded_spec(pid.output),
    ensures
        pid.step_spec(measured, time_step).cumulative_error == pid.cumulative_error.plus_spec(
            pid.target.minus_spec(measured).times_spec(time_step),
        ),
{
}

/// Under an upper limit: once a step has returned more than the limit, the
/// step after it leaves the integral unchanged.
pub proof fn lemma_anti_windup_freeze<T: Scalar>(
    pid: Pid<T>,
    limit: T,
    first: (T, T),
    second: (T, T),
)
    requires
        pid.clamping == Clamping::UpperLimit(limit),
        limit.less_than_spec(pid.step_output(first.0, first.1)),
    ensures
        pid.step_spec(first.0, first.1).step_spec(second.0, second.1).cumulative_error
            == pid.step_spec(first.0, first.1).cumulative_error,
{
}

/// The two derivative modes remember different things: after a step on the
/// same measurement, one holds the measurement and the other the error, so
/// two controllers that differ in the mode alone part ways exactly where
/// the measurement is not its own error.
pub proof fn lemma_modes_diverge<T: Scalar>(
    on_measurement: Pid<T>,
    on_error: Pid<T>,
    measured: T,
    time_step: T,
)
    requires
        on_measurement.derivative_on_measurement,
        !on_error.derivative_on_measurement,
        on_measurement.target == on_error.target,
    ensures
        on_measurement.step_spec(measured, time_step).previous_error == measured,
        on_error.step_spec(measured, time_step).previous_error == on_error.target.minus_spec(
            measured,
        ),
        on_measurement.step_spec(measured, time_step).previous_error != on_error.step_spec(
            measured,
            time_step,
        ).previous_error <==> measured != on_error.target.minus_spec(measured),
{
}

/// A step touches the integral, the remembered error and the output, and
/// nothing else.
pub proof fn lemma_step_keeps_configuration<T: Scalar>(pid: Pid<T>, measured: T, time_step: T)
    ensures
        pid.step_spec(measured, time_step).kp == pid.kp,
        pid.step_spec(measured, time_step).kd == pid.kd,
        pid.step_spec(measured, time_step).ki == pid.ki,
        pid.step_spec(measured, time_step).target == pid.target,
        pid.step_spec(measured, time_step).derivative_on_measurement
            == pid.derivative_on_measurement,
        pid.step_spec(measured, time_step).clamping == pid.clamping,
{
}

/// Two controllers that agree in every field and are fed the same inputs
/// end in states that agree in every field.
pub proof fn lemma_same_inputs_same_state<T: Scalar>(a: Pid<T>, b: Pid<T>, inputs: Seq<(T, T)>)
    requires
        a.same_fields(b),
    ensures
        a.after(inputs).same_fields(b.after(inputs)),
    decreases inputs.len(),
{
    if inputs.len() > 0 {
        lemma_same_inputs_same_state(a, b, inputs.drop_last());
    }
}

/// Two controllers that agree in every field (two blank ones configured
/// alike, for one) and are fed the same inputs return the same outputs: a
/// controller has no state but its fields.
pub proof fn lemma_same_inputs_same_outputs<T: Scalar>(a: Pid<T>, b: Pid<T>, inputs: Seq<(T, T)>)
    requires
        a.same_fields(b),
    ensures
        a.outputs(inputs) == b.outputs(inputs),
{
    assert forall|i: int| 0 <= i < inputs.len() implies a.outputs(inputs)[i] == b.outputs(
        inputs,
    )[i] by {
        lemma_same_inputs_same_state(a, b, inputs.take(i + 1));
    }
    assert(a.outputs(inputs) =~= b.outputs(inputs));
}

} // verus!
