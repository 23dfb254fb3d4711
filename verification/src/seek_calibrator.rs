//! Learning how far ahead a seek has to aim.
//!
//! A player needs some time to reposition after a seek, so a listener that
//! seeks to where the host is lands behind it. The calibrator keeps the
//! offset that is added to every seek target and refines it from the drift
//! seen on the first heartbeat after each seek.
//!
//! The three learning rates are 1/20, 8/20 and 3/20 and drifts are whole
//! milliseconds, so the offset is kept in twentieths of a millisecond: every
//! update is then exact integer arithmetic.

use vstd::prelude::*;

verus! {

/// The offset before anything was measured, in milliseconds.
pub const DEFAULT_SEEK_OFFSET_MS: u64 = 500;

/// The smallest offset, in milliseconds.
pub const MIN_SEEK_OFFSET_MS: u64 = 100;

/// The largest offset, in milliseconds.
pub const MAX_SEEK_OFFSET_MS: u64 = 2000;

/// A drift of more than this many milliseconds is an outlier.
pub const MAX_CALIBRATION_DRIFT_MS: i64 = 1500;

/// The number of samples that the history keeps.
pub const MAX_SAMPLE_HISTORY: usize = 10;

/// The number of offset units in a millisecond.
pub const UNITS_PER_MS: u64 = 20;

/// The learning rate for an outlier, in twentieths: 0.05.
pub const OUTLIER_RATE: u64 = 1;

/// The learning rate while warming up, in twentieths: 0.4.
pub const WARM_UP_RATE: u64 = 8;

/// The learning rate in steady state, in twentieths: 0.15.
pub const STEADY_RATE: u64 = 3;

/// A measurement taken after at most this many others is taken in with
/// the warm-up rate.
pub const WARM_UP_SAMPLES: u32 = 5;

/// One measurement as the history records it.
#[derive(Debug, Clone, Copy, PartialEq, Eq)]
pub struct CalibrationSample {
    /// The drift seen after the seek: positive ahead of the host, negative
    /// behind it.
    pub drift_ms: i64,
    /// The offset that would have made this seek land exactly.
    pub ideal_offset_ms: i64,
    /// The offset after this measurement was taken in.
    pub new_offset_ms: u64,
    /// Whether the drift was an outlier, taken in with the damped rate.
    pub rejected: bool,
}

/// What a calibrator holds, as mathematics.
pub struct CalibratorState {
    /// The offset in twentieths of a millisecond.
    pub offset: int,
    /// The number of measurements taken so far, as far as it is counted.
    pub sample_count: nat,
    /// Whether a seek was made whose result is not measured yet.
    pub awaiting: bool,
    /// The latest samples, newest last.
    pub history: Seq<CalibrationSample>,
}

/// `value`, kept between `low` and `high`.
pub open spec fn clamp(value: int, low: int, high: int) -> int {
    if value < low {
        low
    } else if value > high {
        high
    } else {
        value
    }
}

/// Twentieths of a millisecond as whole milliseconds, rounded to the
/// nearest, a half away from zero.
pub open spec fn round_to_ms(units: int) -> int {
    if units >= 0 {
        (units + 10) / 20
    } else {
        -((10 - units) / 20)
    }
}

/// Whether a drift is too large to be trusted at full weight.
pub open spec fn is_outlier(drift_ms: int) -> bool {
    drift_ms > MAX_CALIBRATION_DRIFT_MS || drift_ms < -MAX_CALIBRATION_DRIFT_MS
}

/// The learning rate, in twentieths, for a measurement that is taken after
/// `taken` others: the rate is chosen before the measurement is counted.
pub open spec fn learning_rate(outlier: bool, taken: nat) -> int {
    if outlier {
        OUTLIER_RATE as int
    } else if taken <= WARM_UP_SAMPLES {
        WARM_UP_RATE as int
    } else {
        STEADY_RATE as int
    }
}

/// The offset, in twentieths, with which a seek that drifted by `drift_ms`
/// would have landed exactly.
pub open spec fn ideal_offset(offset: int, drift_ms: int) -> int {
    offset - UNITS_PER_MS * drift_ms
}

/// The moving average `rate/20 * ideal + (1 - rate/20) * offset`, which is
/// `offset - rate * drift` in twentieths, kept within the bounds.
pub open spec fn updated_offset(offset: int, rate: int, drift_ms: int) -> int {
    clamp(
        offset - rate * drift_ms,
        (MIN_SEEK_OFFSET_MS * UNITS_PER_MS) as int,
        (MAX_SEEK_OFFSET_MS * UNITS_PER_MS) as int,
    )
}

/// The history with one more sample, the oldest dropped when there are more
/// than `MAX_SAMPLE_HISTORY`.
pub open spec fn push_bounded(history: Seq<CalibrationSample>, sample: CalibrationSample) -> Seq<
    CalibrationSample,
> {
    if history.len() + 1 > MAX_SAMPLE_HISTORY {
        history.push(sample).drop_first()
    } else {
        history.push(sample)
    }
}

impl CalibratorState {
    /// The state of a calibrator that has measured nothing.
    pub open spec fn initial() -> CalibratorState {
        CalibratorState {
            offset: (DEFAULT_SEEK_OFFSET_MS * UNITS_PER_MS) as int,
            sample_count: 0,
            awaiting: false,
            history: Seq::empty(),
        }
    }

    /// What always holds of a calibrator: the offset is within its bounds
    /// and the history within its length.
    pub open spec fn wf(self) -> bool {
        &&& MIN_SEEK_OFFSET_MS * UNITS_PER_MS <= self.offset <= MAX_SEEK_OFFSET_MS * UNITS_PER_MS
        &&& self.sample_count <= u32::MAX
        &&& self.history.len() <= MAX_SAMPLE_HISTORY
    }

    /// The offset in whole milliseconds.
    pub open spec fn offset_ms(self) -> int {
        round_to_ms(self.offset)
    }

    /// The state after a seek was made.
    pub open spec fn mark(self) -> CalibratorState {
        CalibratorState { awaiting: true, ..self }
    }

    /// What `preview_calibration` shows for a drift.
    pub open spec fn preview(self, drift_ms: int) -> Option<int> {
        if is_outlier(drift_ms) {
            None
        } else {
            Some(round_to_ms(ideal_offset(self.offset, drift_ms)))
        }
    }

    /// The sample that a measurement of `drift_ms` records.
    pub open spec fn sample_for(self, drift_ms: i64) -> CalibrationSample {
        let outlier = is_outlier(drift_ms as int);
        let new_offset = updated_offset(
            self.offset,
            learning_rate(outlier, self.sample_count),
            drift_ms as int,
        );
        CalibrationSample {
            drift_ms,
            ideal_offset_ms: saturate_i64(round_to_ms(ideal_offset(self.offset, drift_ms as int))),
            new_offset_ms: round_to_ms(new_offset) as u64,
            rejected: outlier,
        }
    }

    /// The state after a heartbeat on which `drift_ms` was seen: unchanged
    /// where no seek awaits its measurement, else with the offset moved
    /// towards the ideal one at the rate that the measurements counted so
    /// far call for, the sample recorded, the seek consumed and then the
    /// measurement counted.
    pub open spec fn measure(self, drift_ms: i64) -> CalibratorState {
        if !self.awaiting {
            self
        } else {
            let outlier = is_outlier(drift_ms as int);
            CalibratorState {
                offset: updated_offset(
                    self.offset,
                    learning_rate(outlier, self.sample_count),
                    drift_ms as int,
                ),
                sample_count: saturating_count(self.sample_count),
                awaiting: false,
                history: push_bounded(self.history, self.sample_for(drift_ms)),
            }
        }
    }
}

/// One more than `count`, as far as a `u32` counts.
pub open spec fn saturating_count(count: nat) -> nat {
    if count >= u32::MAX {
        u32::MAX as nat
    } else {
        count + 1
    }
}

/// `value` as an `i64`, the nearest one where it does not fit.
pub open spec fn saturate_i64(value: int) -> i64 {
    if value > i64::MAX {
        i64::MAX
    } else if value < i64::MIN {
        i64::MIN
    } else {
        value as i64
    }
}

/// Rounds twentieths of a millisecond to whole milliseconds.
fn round_units(units: i128) -> (ms: i128)
    requires
        -0x1_0000_0000_0000_0000_0000 <= units <= 0x1_0000_0000_0000_0000_0000,
    ensures
        ms == round_to_ms(units as int),
{
    if units >= 0 {
        (units + 10) / 20
    } else {
        -((10 - units) / 20)
    }
}

/// Narrows to an `i64`, saturating.
fn to_i64_saturating(value: i128) -> (narrow: i64)
    ensures
        narrow == saturate_i64(value as int),
{
    if value > i64::MAX as i128 {
        i64::MAX
    } else if value < i64::MIN as i128 {
        i64::MIN
    } else {
        value as i64
    }
}

/// Whether a drift is an outlier.
fn drift_is_outlier(drift_ms: i64) -> (outlier: bool)
    ensures
        outlier == is_outlier(drift_ms as int),
{
    drift_ms > MAX_CALIBRATION_DRIFT_MS || drift_ms < -MAX_CALIBRATION_DRIFT_MS
}

/// Keeps the seek offset and refines it, one measurement per seek.
#[derive(Debug)]
pub struct SeekCalibrator {
    offset_units: u64,
    sample_count: u32,
    awaiting_measurement: bool,
    sample_history: Vec<CalibrationSample>,
}

impl View for SeekCalibrator {
    type V = CalibratorState;

    closed spec fn view(&self) -> CalibratorState {
        CalibratorState {
            offset: self.offset_units as int,
            sample_count: self.sample_count as nat,
            awaiting: self.awaiting_measurement,
            history: self.sample_history@,
        }
    }
}

impl SeekCalibrator {
    #[verifier::type_invariant]
    spec fn inv(&self) -> bool {
        self@.wf()
    }

    /// A calibrator with the default offset and nothing awaited.
    pub fn new() -> (calibrator: Self)
        ensures
            calibrator@ == CalibratorState::initial(),
            calibrator@.wf(),
    {
        SeekCalibrator {
            offset_units: DEFAULT_SEEK_OFFSET_MS * UNITS_PER_MS,
            sample_count: 0,
            awaiting_measurement: false,
            sample_history: Vec::new(),
        }
    }

    /// The offset to add to a seek target, in milliseconds: always between
    /// `MIN_SEEK_OFFSET_MS` and `MAX_SEEK_OFFSET_MS`.
    pub fn offset_ms(&self) -> (ms: u64)
        ensures
            ms == self@.offset_ms(),
            MIN_SEEK_OFFSET_MS <= ms <= MAX_SEEK_OFFSET_MS,
            self@.wf(),
    {
        proof {
            use_type_invariant(self);
        }
        (self.offset_units + 10) / 20
    }

    /// Whether a seek was made whose result is not measured yet.
    pub fn is_awaiting_measurement(&self) -> (awaiting: bool)
        ensures
            awaiting == self@.awaiting,
    {
        self.awaiting_measurement
    }

    /// The ideal offset that a drift would suggest, in milliseconds, or
    /// nothing where the drift is an outlier.
    pub fn preview_calibration(&self, drift_ms: i64) -> (ideal: Option<i64>)
        ensures
            ideal is Some <==> !is_outlier(drift_ms as int),
            ideal matches Some(ms) ==> self@.preview(drift_ms as int) == Some(ms as int),
    {
        proof {
            use_type_invariant(self);
        }
        if drift_is_outlier(drift_ms) {
            return None;
        }
        let ideal = self.offset_units as i128 - (UNITS_PER_MS as i128) * (drift_ms as i128);
        Some(round_units(ideal) as i64)
    }

    /// Notes that a seek was just made: the next heartbeat measures it.
    /// Marking twice before a heartbeat is the same as marking once.
    pub fn mark_seek_performed(&mut self)
        ensures
            final(self)@ == old(self)@.mark(),
            final(self)@.wf(),
    {
        proof {
            use_type_invariant(&*self);
        }
        self.awaiting_measurement = true;
    }

    /// Takes the drift seen on a heartbeat. Where a seek awaits its
    /// measurement the offset is updated, the sample recorded and `true`
    /// returned; else nothing changes and `false` is returned.
    pub fn measure_if_pending(&mut self, drift_ms: i64) -> (measured: bool)
        ensures
            measured == old(self)@.awaiting,
            final(self)@ == old(self)@.measure(drift_ms),
            final(self)@.wf(),
    {
        proof {
            use_type_invariant(&*self);
        }
        if !self.awaiting_measurement {
            return false;
        }
        let outlier = drift_is_outlier(drift_ms);
        let rate: u64 = if outlier {
            OUTLIER_RATE
        } else if self.sample_count <= WARM_UP_SAMPLES {
            WARM_UP_RATE
        } else {
            STEADY_RATE
        };
        let count = if self.sample_count == u32::MAX {
            u32::MAX
        } else {
            self.sample_count + 1
        };
        let offset = self.offset_units as i128;
        let ideal = offset - (UNITS_PER_MS as i128) * (drift_ms as i128);
        assert(-0x4_0000_0000_0000_0000 <= (rate as int) * (drift_ms as int)
            <= 0x4_0000_0000_0000_0000) by (nonlinear_arith)
            requires
                1 <= rate <= 8,
                -0x8000_0000_0000_0000 <= drift_ms <= 0x8000_0000_0000_0000,
        ;
        let moved = offset - (rate as i128) * (drift_ms as i128);
        let low = MIN_SEEK_OFFSET_MS * UNITS_PER_MS;
        let high = MAX_SEEK_OFFSET_MS * UNITS_PER_MS;
        let new_offset: u64 = if moved < low as i128 {
            low
        } else if moved > high as i128 {
            high
        } else {
            moved as u64
        };
        let sample = CalibrationSample {
            drift_ms,
            ideal_offset_ms: to_i64_saturating(round_units(ideal)),
            new_offset_ms: (new_offset + 10) / 20,
            rejected: outlier,
        };
        proof {
            assert(sample == old(self)@.sample_for(drift_ms));
        }
        let mut taken = SeekCalibrator::new();
        core::mem::swap(self, &mut taken);
        let mut history = taken.sample_history;
        history.push(sample);
        if history.len() > MAX_SAMPLE_HISTORY {
            history.remove(0);
        }
        proof {
            assert(history@ == push_bounded(old(self)@.history, sample));
        }
        *self = SeekCalibrator {
            offset_units: new_offset,
            sample_count: count,
            awaiting_measurement: false,
            sample_history: history,
        };
        true
    }

    /// The latest samples, newest last.
    pub fn sample_history(&self) -> (history: &[CalibrationSample])
        ensures
            history@ == self@.history,
            history@.len() <= MAX_SAMPLE_HISTORY,
    {
        proof {
            use_type_invariant(self);
        }
        self.sample_history.as_slice()
    }

    /// Forgets everything that was learned.
    pub fn reset(&mut self)
        ensures
            final(self)@ == CalibratorState::initial(),
            final(self)@.wf(),
    {
        *self = SeekCalibrator::new();
    }
}

impl Default for SeekCalibrator {
    fn default() -> (calibrator: Self)
        ensures
            calibrator@ == CalibratorState::initial(),
    {
        SeekCalibrator::new()
    }
}

/// Whatever is measured, the offset stays within its bounds: a well-formed
/// state stays well formed, and its offset in milliseconds stays between
/// `MIN_SEEK_OFFSET_MS` and `MAX_SEEK_OFFSET_MS`.
pub proof fn lemma_measure_keeps_bounds(state: CalibratorState, drift_ms: i64)
    requires
        state.wf(),
    ensures
        state.measure(drift_ms).wf(),
        MIN_SEEK_OFFSET_MS <= state.measure(drift_ms).offset_ms() <= MAX_SEEK_OFFSET_MS,
{
}

/// A sequence of heartbeats, each with the drift seen and with whether a
/// seek was made since the heartbeat before.
pub open spec fn run(state: CalibratorState, ticks: Seq<(bool, i64)>) -> CalibratorState
    decreases ticks.len(),
{
    if ticks.len() == 0 {
        state
    } else {
        let before = run(state, ticks.drop_last());
        let marked = if ticks.last().0 {
            before.mark()
        } else {
            before
        };
        marked.measure(ticks.last().1)
    }
}

/// After any sequence of seeks and measurements the offset is between
/// `MIN_SEEK_OFFSET_MS` and `MAX_SEEK_OFFSET_MS`.
pub proof fn lemma_offset_always_bounded(ticks: Seq<(bool, i64)>)
    ensures
        run(CalibratorState::initial(), ticks).wf(),
        MIN_SEEK_OFFSET_MS <= run(CalibratorState::initial(), ticks).offset_ms()
            <= MAX_SEEK_OFFSET_MS,
    decreases ticks.len(),
{
    if ticks.len() > 0 {
        lemma_offset_always_bounded(ticks.drop_last());
        let before = run(CalibratorState::initial(), ticks.drop_last());
        let marked = if ticks.last().0 {
            before.mark()
        } else {
            before
        };
        lemma_measure_keeps_bounds(marked, ticks.last().1);
    }
}

/// A calibrator that awaits nothing takes no measurement: the state, and
/// with it the offset, is unchanged.
pub proof fn lemma_idle_measure_changes_nothing(state: CalibratorState, drift_ms: i64)
    requires
        !state.awaiting,
    ensures
        state.measure(drift_ms) == state,
{
}

/// One seek gives one measurement: after a mark the first heartbeat moves
/// the offset by the learning rate times the drift (within the bounds) and
/// consumes the mark, and a second heartbeat without a new mark changes
/// nothing.
pub proof fn lemma_one_measurement_per_seek(state: CalibratorState, first: i64, second: i64)
    requires
        state.wf(),
    ensures
        state.mark().measure(first).offset == updated_offset(
            state.offset,
            learning_rate(is_outlier(first as int), state.sample_count),
            first as int,
        ),
        !state.mark().measure(first).awaiting,
        state.mark().measure(first).measure(second) == state.mark().measure(first),
        state.mark().mark() == state.mark(),
{
}

/// An outlier is taken in with the damped rate of one twentieth, and its
/// sample is the newest of the history and marked as rejected.
pub proof fn lemma_outlier_is_damped(state: CalibratorState, drift_ms: i64)
    requires
        state.wf(),
        state.awaiting,
        is_outlier(drift_ms as int),
    ensures
        state.measure(drift_ms).offset == updated_offset(
            state.offset,
            OUTLIER_RATE as int,
            drift_ms as int,
        ),
        state.measure(drift_ms).history.len() > 0,
        state.measure(drift_ms).history.last().rejected,
        state.measure(drift_ms).history.last().drift_ms == drift_ms,
{
}

} // verus!
