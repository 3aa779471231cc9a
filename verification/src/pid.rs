//! The controller: its state and its update rule.

use vstd::prelude::*;
use core::marker::PhantomData;
use crate::clamping::Clamping;
use crate::scalar::Scalar;

verus! {

/// A PID controller. Every field is the caller's to read and to set between
/// steps; `step` alone writes `cumulative_error`, `previous_error` and
/// `output`.
pub struct Pid<T: Scalar> {
    /// Proportional gain.
    pub kp: T,
    /// Derivative gain.
    pub kd: T,
    /// Integral gain.
    pub ki: T,
    /// The value the measurement is driven towards.
    pub target: T,
    /// The integral of the error over time.
    pub cumulative_error: T,
    /// The error of the last step; in derivative-on-measurement mode, the
    /// measurement of the last step.
    pub previous_error: T,
    /// What the last step returned.
    pub output: T,
    /// Take the derivative of the measurement instead of the error.
    pub derivative_on_measurement: bool,
    /// The bounds that, once the output has left them, freeze the integral.
    pub clamping: Clamping<T>,
    pub _marker: PhantomData<T>,
}

impl<T: Scalar> Pid<T> {
    /// The controller before anything is configured: every number zero, no
    /// bounds, derivative taken of the error.
    pub open spec fn blank_spec() -> Self {
        Pid {
            kp: T::zero_spec(),
            kd: T::zero_spec(),
            ki: T::zero_spec(),
            target: T::zero_spec(),
            cumulative_error: T::zero_spec(),
            previous_error: T::zero_spec(),
            output: T::zero_spec(),
            derivative_on_measurement: false,
            clamping: Clamping::Unbounded,
            _marker: PhantomData,
        }
    }

    /// The error a measurement leaves: `target - measured`.
    pub open spec fn error_of(self, measured: T) -> T {
        self.target.minus_spec(measured)
    }

    /// Whether the integral is frozen for the coming step: the output of the
    /// step before lies outside the bounds.
    pub open spec fn frozen(self) -> bool {
        self.clamping.exceeded_spec(self.output)
    }

    /// The integral after a step: grown by `error * time_step`, unless
    /// frozen.
    pub open spec fn next_cumulative_error(self, measured: T, time_step: T) -> T {
        if self.frozen() {
            self.cumulative_error
        } else {
            self.cumulative_error.plus_spec(self.error_of(measured).times_spec(time_step))
        }
    }

    /// The proportional term, with the integral term added unless frozen.
    pub open spec fn proportional_integral(self, measured: T, time_step: T) -> T {
        let p = self.kp.times_spec(self.error_of(measured));
        if self.frozen() {
            p
        } else {
            p.plus_spec(self.ki.times_spec(self.next_cumulative_error(measured, time_step)))
        }
    }

    /// The derivative term: `kd` times the rate of change of the error or,
    /// in derivative-on-measurement mode, times the negated rate of change
    /// of the measurement.
    pub open spec fn derivative_term(self, measured: T, time_step: T) -> T {
        if self.derivative_on_measurement {
            self.kd.times_spec(
                measured.minus_spec(self.previous_error).divided_by_spec(time_step).negated_spec(),
            )
        } else {
            self.kd.times_spec(
                self.error_of(measured).minus_spec(self.previous_error).divided_by_spec(time_step),
            )
        }
    }

    /// What the step remembers for the next derivative.
    pub open spec fn next_previous_error(self, measured: T) -> T {
        if self.derivative_on_measurement {
            measured
        } else {
            self.error_of(measured)
        }
    }

    /// What a step returns: proportional, integral and derivative terms,
    /// added in that order. Nothing clips it.
    pub open spec fn step_output(self, measured: T, time_step: T) -> T {
        self.proportional_integral(measured, time_step).plus_spec(
            self.derivative_term(measured, time_step),
        )
    }

    /// The controller after a step. Gains, target, mode and bounds stay.
    pub open spec fn step_spec(self, measured: T, time_step: T) -> Self {
        Pid {
            cumulative_error: self.next_cumulative_error(measured, time_step),
            previous_error: self.next_previous_error(measured),
            output: self.step_output(measured, time_step),
            ..self
        }
    }

    /// The controller after a run of steps, each given as a measurement and
    /// the time step that goes with it.
    pub open spec fn after(self, inputs: Seq<(T, T)>) -> Self
        decreases inputs.len(),
    {
        if inputs.len() == 0 {
            self
        } else {
            self.after(inputs.drop_last()).step_spec(inputs.last().0, inputs.last().1)
        }
    }

    /// What a run of steps returns, step by step.
    pub open spec fn outputs(self, inputs: Seq<(T, T)>) -> Seq<T> {
        Seq::new(inputs.len(), |i: int| self.after(inputs.take(i + 1)).output)
    }

    /// Whether the controller sits on its target with nothing accumulated:
    /// the integral is zero, and the remembered value is what a step on the
    /// target leaves behind (zero as an error, the target as a measurement).
    pub open spec fn at_rest(self) -> bool {
        &&& self.cumulative_error == T::zero_spec()
        &&& self.previous_error == if self.derivative_on_measurement {
            self.target
        } else {
            T::zero_spec()
        }
    }

    /// Whether two controllers hold the same gains, target, mode, bounds
    /// and state.
    pub open spec fn same_fields(self, other: Self) -> bool {
        &&& self.kp == other.kp
        &&& self.kd == other.kd
        &&& self.ki == other.ki
        &&& self.target == other.target
        &&& self.cumulative_error == other.cumulative_error
        &&& self.previous_error == other.previous_error
        &&& self.output == other.output
        &&& self.derivative_on_measurement == other.derivative_on_measurement
        &&& self.clamping == other.clamping
    }

    /// Returns a controller with every number at zero, no bounds, and the
    /// derivative taken of the error.
    pub fn blank() -> (r: Self)
        ensures
            r == Self::blank_spec(),
    {
        Pid {
            kp: T::zero(),
            kd: T::zero(),
            ki: T::zero(),
            target: T::zero(),
            cumulative_error: T::zero(),
            previous_error: T::zero(),
            output: T::zero(),
            derivative_on_measurement: false,
            clamping: Clamping::Unbounded,
            _marker: PhantomData,
        }
    }

    /// Runs one control cycle on a fresh measurement and the time since the
    /// last one, and returns the correction, which is also kept in `output`.
    pub fn step(&mut self, measured: T, time_step: T) -> (result: T)
        ensures
            *final(self) == old(self).step_spec(measured, time_step),
            result == old(self).step_output(measured, time_step),
    {
        let error = self.target.minus(measured);
        let mut result = self.kp.times(error);

        if !self.clamping.exceeded(self.output) {
            self.cumulative_error = self.cumulative_error.plus(error.times(time_step));
            result = result.plus(self.ki.times(self.cumulative_error));
        }

        if self.derivative_on_measurement {
            result = result.plus(
                self.kd.times(measured.minus(self.previous_error).divided_by(time_step).negated()),
            );
            self.previous_error = measured;
        } else {
            result = result.plus(
                self.kd.times(error.minus(self.previous_error).divided_by(time_step)),
            );
            self.previous_error = error;
        }

        self.output = result;

        result
    }
}

} // verus!
