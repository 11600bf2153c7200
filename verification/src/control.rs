//! The control loop: configuration, differential mixing, and the run's
//! state machine.
//!
//! Each iteration classifies the current reading against the configured
//! markers, and either stops the run on a match or normalizes the reading,
//! feeds the brightness error through the PID controller, and mixes the bias
//! into clamped left and right motor commands. A run ends with the matched
//! marker, with an exhausted iteration budget, or with a propagated I/O
//! failure.

use vstd::prelude::*;
use vstd::arithmetic::mul::lemma_mul_inequality;
use crate::color::{
    adjust_color, adjust_spec, brightness_of, calculate_brightness, classify, spec_classify,
    CalibrationError, CalibrationReference, MarkerReference, RawColor, SCALE,
};
use crate::pid::{
    pid_bias, trunc_div, div_by_scale, PidController, PidGains, PidState, ITERATION_LIMIT,
};

verus! {

/// An I/O failure that aborts the run.
#[derive(Clone, Copy, Debug, PartialEq, Eq, Structural)]
pub enum LoopError {
    /// The sensor could not deliver a raw color.
    SensorRead,
    /// A motor command could not be written.
    ActuatorWrite,
}

/// The terminal outcome of a run.
#[derive(Clone, Copy, Debug, PartialEq, Eq, Structural)]
pub enum LoopResult {
    /// A marker matched: the index of the matched marker in the configured
    /// priority order.
    Marker(usize),
    /// The iteration budget was exhausted with no marker match.
    Timeout,
    /// An I/O failure aborted the run.
    Aborted(LoopError),
}

/// Everything one run is configured with.
pub struct Config {
    /// White and black points to normalize against.
    pub calibration: CalibrationReference,
    /// Markers that end the run, in priority order.
    pub markers: Vec<MarkerReference>,
    /// PID gains, fixed for the run.
    pub gains: PidGains,
    /// Forward speed in percent, in [-100, 100]; the PID bias steers
    /// around it.
    pub base_speed: i32,
    /// Iteration budget: the run stops after this many iterations without a
    /// marker match. Positive, at most `ITERATION_LIMIT`.
    pub max_iterations: usize,
}

impl Config {
    /// A configuration the loop can run with: a valid calibration reference,
    /// a base speed within the command range, and a positive iteration
    /// budget small enough that the accumulated integral stays within
    /// machine bounds.
    pub open spec fn wf(self) -> bool {
        &&& self.calibration.valid()
        &&& -100 <= self.base_speed <= 100
        &&& 1 <= self.max_iterations <= ITERATION_LIMIT
    }

    /// Eager configuration validation: rejects a calibration whose white
    /// point equals its black point on some channel, which normalization
    /// could not divide by. Returns an error exactly on such a reference.
    pub fn validate(&self) -> (r: Result<(), CalibrationError>)
        ensures
            r is Ok <==> self.calibration.valid(),
    {
        if self.calibration.white.0 != self.calibration.black.0 && self.calibration.white.1
            != self.calibration.black.1 && self.calibration.white.2 != self.calibration.black.2 {
            Ok(())
        } else {
            Err(CalibrationError)
        }
    }

    /// Whether the whole configuration is one the loop can run with: the
    /// calibration validates and the numeric fields lie in their documented
    /// ranges.
    pub fn is_well_formed(&self) -> (r: bool)
        ensures
            r == self.wf(),
    {
        self.validate().is_ok() && -100 <= self.base_speed && self.base_speed <= 100
            && 1 <= self.max_iterations && self.max_iterations <= ITERATION_LIMIT
    }
}

/// The configuration the robot ships with: the course's calibration
/// constants, the blue and red finish markers, gentle proportional steering
/// with a trace of integral correction, full base speed, and a budget of a
/// thousand iterations.
pub fn default_config() -> (c: Config)
    ensures
        c.calibration.white == ((265i32, 285i32, 197i32)),
        c.calibration.black == ((23i32, 32i32, 19i32)),
        c.markers@.len() == 2,
        c.markers@[0].label@ == "blue"@,
        c.markers@[0].reference == ((30i32, 86i32, 93i32)),
        c.markers@[0].tolerance == 30,
        c.markers@[1].label@ == "red"@,
        c.markers@[1].reference == ((124i32, 27i32, 17i32)),
        c.markers@[1].tolerance == 20,
        c.gains == (PidGains { kp: 5000, ki: 1, kd: 0 }),
        c.base_speed == 100,
        c.max_iterations == 1000,
        c.wf(),
{
    let mut markers: Vec<MarkerReference> = Vec::new();
    markers.push(
        MarkerReference { label: String::from_str("blue"), reference: (30, 86, 93), tolerance: 30 },
    );
    markers.push(
        MarkerReference { label: String::from_str("red"), reference: (124, 27, 17), tolerance: 20 },
    );
    Config {
        calibration: CalibrationReference { white: (265, 285, 197), black: (23, 32, 19) },
        markers,
        gains: PidGains { kp: 5000, ki: 1, kd: 0 },
        base_speed: 100,
        max_iterations: 1000,
    }
}

/// The signed steering error of a reading: the brightness of the normalized
/// color, mapped linearly from [0, SCALE] onto [-SCALE, SCALE], with the
/// midpoint brightness — the line edge — at zero.
pub open spec fn error_of(reference: CalibrationReference, raw: RawColor) -> int {
    2 * brightness_of(adjust_spec(raw, reference)) - SCALE
}

/// Maps a brightness in [0, SCALE] onto the signed error range
/// [-SCALE, SCALE]: zero brightness (pure line) gives -SCALE, full
/// brightness (pure background) gives SCALE, and the midpoint gives zero.
pub fn error_from_brightness(brightness: i32) -> (e: i32)
    requires
        0 <= brightness <= SCALE,
    ensures
        e == 2 * brightness - SCALE,
        -SCALE <= e <= SCALE,
{
    2 * brightness - SCALE
}

/// A motor command clamped to the percentage range [-100, 100].
pub open spec fn clamp_speed(v: int) -> int {
    if v < -100 {
        -100
    } else if v > 100 {
        100
    } else {
        v
    }
}

/// Left motor command of the differential mix: the base speed plus the
/// bias's share of it, clamped.
pub open spec fn mix_left(base: int, bias: int) -> int {
    clamp_speed(base + trunc_div(bias * base, SCALE as int))
}

/// Right motor command of the differential mix: the base speed minus the
/// bias's share of it, clamped.
pub open spec fn mix_right(base: int, bias: int) -> int {
    clamp_speed(base - trunc_div(bias * base, SCALE as int))
}

/// Mixes a steering bias into left and right motor commands: a positive
/// bias raises the left and lowers the right command symmetrically — a turn
/// to the right — and both commands are clamped to [-100, 100].
pub fn differential_mix(base_speed: i32, bias: i64) -> (cmd: (i32, i32))
    requires
        -100 <= base_speed <= 100,
    ensures
        cmd.0 == mix_left(base_speed as int, bias as int),
        cmd.1 == mix_right(base_speed as int, bias as int),
        -100 <= cmd.0 <= 100,
        -100 <= cmd.1 <= 100,
{
    proof {
        assert(-(0x8000_0000_0000_0000int * 100) <= (bias as int) * (base_speed as int)
            <= 0x8000_0000_0000_0000int * 100) by (nonlinear_arith)
            requires
                -0x8000_0000_0000_0000 <= bias < 0x8000_0000_0000_0000,
                -100 <= base_speed <= 100,
        ;
    }
    let prod: i128 = (bias as i128) * (base_speed as i128);
    let adj: i64 = div_by_scale(prod);
    let left: i64 = base_speed as i64 + adj;
    let right: i64 = base_speed as i64 - adj;
    (clamp_command(left), clamp_command(right))
}

fn clamp_command(v: i64) -> (c: i32)
    ensures
        c == clamp_speed(v as int),
{
    if v < -100 {
        -100
    } else if v > 100 {
        100
    } else {
        v as i32
    }
}

/// What one iteration of the loop decides, given the iteration's reading.
#[derive(Clone, Copy, Debug, PartialEq, Eq, Structural)]
pub enum StepOutcome {
    /// A marker matched: the run stops; the field is the matched marker's
    /// index in priority order.
    Marker(usize),
    /// No marker matched: drive with these commands. `more` is false when
    /// this iteration exhausted the budget and the run stops after the
    /// commands are written.
    Drive { left: i32, right: i32, more: bool },
}

/// The state machine of one run: the configuration, the PID error history,
/// and the count of completed iterations. The surrounding program reads the
/// sensor and writes the actuators; every decision between those suspension
/// points stands here.
pub struct ControlLoop {
    /// The run's configuration, unchanged for its duration.
    pub config: Config,
    /// The PID controller, stepped once per driving iteration.
    pub pid: PidController,
    /// Completed driving iterations, at most `config.max_iterations`.
    pub iterations: usize,
}

impl ControlLoop {
    /// The loop's invariant: the configuration is well formed, the PID
    /// controller carries the configured gains, and the error history stays
    /// within the bounds that `iterations` full-scale errors can reach.
    pub open spec fn wf(self) -> bool {
        &&& self.config.wf()
        &&& self.pid.gains == self.config.gains
        &&& self.iterations <= self.config.max_iterations
        &&& -SCALE <= self.pid.state.last_error <= SCALE
        &&& -((self.iterations as int) * (SCALE as int)) <= self.pid.state.integral <= (
        self.iterations as int) * (SCALE as int)
    }

    /// The steering error the loop derives from a reading.
    pub open spec fn step_error(self, raw: RawColor) -> int {
        error_of(self.config.calibration, raw)
    }

    /// The bias one step computes from a reading, in the loop's current
    /// state.
    pub open spec fn step_bias(self, raw: RawColor) -> int {
        pid_bias(self.pid.gains, self.pid.state, self.step_error(raw))
    }

    /// A fresh run: zeroed PID history and no completed iterations.
    pub fn new(config: Config) -> (l: ControlLoop)
        requires
            config.wf(),
        ensures
            l.config == config,
            l.pid.state == (PidState { last_error: 0, integral: 0 }),
            l.iterations == 0,
            l.wf(),
    {
        let pid = PidController::new(config.gains);
        ControlLoop { config, pid, iterations: 0 }
    }

    /// One iteration's decision, from the iteration's raw reading.
    ///
    /// When a marker matches the reading, the run stops with the first
    /// matching marker's index and nothing else changes. Otherwise the
    /// reading is normalized, its brightness error is fed through the PID
    /// controller, and the resulting bias is mixed into clamped left and
    /// right motor commands; the iteration counts against the budget, and
    /// `more` says whether budget remains.
    pub fn step(&mut self, raw: RawColor) -> (out: StepOutcome)
        requires
            old(self).wf(),
            old(self).iterations < old(self).config.max_iterations,
        ensures
            final(self).wf(),
            final(self).config == old(self).config,
            (out matches StepOutcome::Marker(u) ==> {
                &&& u < old(self).config.markers@.len()
                &&& spec_classify(old(self).config.markers@, raw) == Some(u as int)
                &&& *final(self) == *old(self)
            }),
            (out is Marker <==> spec_classify(old(self).config.markers@, raw) is Some),
            (spec_classify(old(self).config.markers@, raw) is None ==> {
                &&& out == (StepOutcome::Drive {
                    left: mix_left(
                        old(self).config.base_speed as int,
                        old(self).step_bias(raw),
                    ) as i32,
                    right: mix_right(
                        old(self).config.base_speed as int,
                        old(self).step_bias(raw),
                    ) as i32,
                    more: old(self).iterations + 1 < old(self).config.max_iterations,
                })
                &&& final(self).iterations == old(self).iterations + 1
                &&& final(self).pid.gains == old(self).pid.gains
                &&& final(self).pid.state.last_error == old(self).step_error(raw)
                &&& final(self).pid.state.integral == old(self).pid.state.integral + old(
                    self,
                ).step_error(raw)
            }),
    {
        if let Some(found) = classify(raw, &self.config.markers) {
            return StepOutcome::Marker(found);
        }
        let normalized = adjust_color(raw, &self.config.calibration);
        let brightness: i32 = calculate_brightness(&normalized);
        let error: i32 = error_from_brightness(brightness);
        proof {
            lemma_mul_inequality(
                self.iterations as int,
                ITERATION_LIMIT as int,
                SCALE as int,
            );
        }
        let bias: i64 = self.pid.step(error);
        let (left, right): (i32, i32) = differential_mix(self.config.base_speed, bias);
        self.iterations = self.iterations + 1;
        let more: bool = self.iterations < self.config.max_iterations;
        StepOutcome::Drive { left, right, more }
    }
}

/// Runs the whole loop on a given sequence of readings, one per iteration,
/// as the run would consume them from the sensor. The run stops on the
/// first iteration whose reading matches a marker, stops with a timeout
/// when the budget is exhausted first, and aborts with a sensor-read
/// failure when the readings run out before either.
///
/// Law: the run stops early with the first matching marker's index, on the
/// first iteration whose reading matches; and it times out after exactly
/// `max_iterations` iterations if and only if no reading within the budget
/// matches any marker.
pub fn run_on_readings(config: Config, readings: &Vec<RawColor>) -> (res: LoopResult)
    requires
        config.wf(),
    ensures
        (res matches LoopResult::Marker(i) ==> exists|t: int|
            {
                &&& 0 <= t < config.max_iterations
                &&& t < readings@.len()
                &&& #[trigger] spec_classify(config.markers@, readings@[t]) == Some(i as int)
                &&& forall|s: int|
                    0 <= s < t ==> spec_classify(config.markers@, readings@[s]) is None
            }),
        (res == LoopResult::Timeout <==> {
            &&& readings@.len() >= config.max_iterations
            &&& forall|t: int|
                0 <= t < config.max_iterations ==> spec_classify(
                    config.markers@,
                    readings@[t],
                ) is None
        }),
        (res == LoopResult::Aborted(LoopError::SensorRead) <==> {
            &&& readings@.len() < config.max_iterations
            &&& forall|t: int|
                0 <= t < readings@.len() ==> spec_classify(config.markers@, readings@[t]) is None
        }),
        res != LoopResult::Aborted(LoopError::ActuatorWrite),
{
    let max: usize = config.max_iterations;
    let mut ctl = ControlLoop::new(config);
    let mut t: usize = 0;
    while t < max
        invariant
            ctl.wf(),
            ctl.config == config,
            max == config.max_iterations,
            ctl.iterations == t,
            t <= max,
            t <= readings@.len(),
            forall|s: int| 0 <= s < t ==> spec_classify(config.markers@, readings@[s]) is None,
        decreases max - t,
    {
        if t >= readings.len() {
            return LoopResult::Aborted(LoopError::SensorRead);
        }
        let raw: RawColor = readings[t];
        match ctl.step(raw) {
            StepOutcome::Marker(found) => {
                proof {
                    assert(spec_classify(config.markers@, readings@[t as int]) == Some(
                        found as int,
                    ));
                }
                return LoopResult::Marker(found);
            },
            StepOutcome::Drive { .. } => {
                t = t + 1;
            },
        }
    }
    LoopResult::Timeout
}

} // verus!
