use vstd::prelude::*;
use crate::app::state::{measured_rate, CalibrationPhase, CalibrationState, SampleRate};
use crate::config::CalibrationConfig;
use crate::types::DataPoint;

verus! {

/// The start-up calibration: it takes the readings of the first seconds and
/// derives the sensor's sample rate from their timestamps.
pub struct CalibrationHandler;

/// How a round of calibration ended.
#[derive(Clone, Copy, Debug, PartialEq, Eq, Structural)]
pub enum CalibrationOutcome {
    /// The measuring is not over, or nothing was gathered yet.
    StillCalibrating,
    /// The measuring is over and showed this rate.
    Completed(SampleRate),
    /// The measuring is over and showed no rate; calibration starts over.
    Aborted,
}

/// Milliseconds that have passed at `now_ms` since calibration started;
/// none when it has not started.
pub open spec fn elapsed_ms(start: Option<u64>, now_ms: u64) -> int {
    match start {
        Some(start) => if now_ms >= start {
            now_ms - start
        } else {
            0
        },
        None => 0,
    }
}

/// Whether readings are gathered at this time after the start: the device
/// has settled and the measuring is not over.
pub open spec fn gathers(config: CalibrationConfig, elapsed: int) -> bool {
    config.warmup_ms <= elapsed < config.warmup_ms + config.duration_ms
}

/// Whether the measuring is over at this time after the start.
pub open spec fn measuring_is_over(config: CalibrationConfig, elapsed: int) -> bool {
    elapsed >= config.warmup_ms + config.duration_ms
}

/// The instant at which calibration started, once `arrived` readings have
/// come at `now_ms`: the first reading starts it.
pub open spec fn started(start: Option<u64>, arrived: nat, now_ms: u64) -> Option<u64> {
    if start is None && arrived > 0 {
        Some(now_ms)
    } else {
        start
    }
}

/// The readings gathered once `batch` has come at `now_ms`.
pub open spec fn gathered<V>(
    held: Seq<DataPoint<V>>,
    start: Option<u64>,
    batch: Seq<DataPoint<V>>,
    now_ms: u64,
    config: CalibrationConfig,
) -> Seq<DataPoint<V>> {
    if gathers(config, elapsed_ms(started(start, batch.len(), now_ms), now_ms)) {
        held + batch
    } else {
        held
    }
}

/// How a round of calibration ends in which `batch` comes at `now_ms`: with
/// the rate that the gathered readings show, once the measuring is over and
/// something was gathered; with an abort, if they show none; and not yet
/// otherwise.
pub open spec fn round_outcome<V>(
    held: Seq<DataPoint<V>>,
    start: Option<u64>,
    batch: Seq<DataPoint<V>>,
    now_ms: u64,
    config: CalibrationConfig,
) -> CalibrationOutcome {
    let begun = started(start, batch.len(), now_ms);
    let all = gathered(held, start, batch, now_ms, config);
    if begun is Some && measuring_is_over(config, elapsed_ms(begun, now_ms)) && all.len() > 0 {
        match measured_rate(all) {
            Some(shown) => CalibrationOutcome::Completed(
                SampleRate { samples: shown.0 as u64, millis: shown.1 as u64 },
            ),
            None => CalibrationOutcome::Aborted,
        }
    } else {
        CalibrationOutcome::StillCalibrating
    }
}

fn elapsed(start: u64, now_ms: u64) -> (passed: u64)
    ensures
        passed == elapsed_ms(Some(start), now_ms),
{
    if now_ms >= start {
        now_ms - start
    } else {
        0
    }
}

fn is_gathering(config: &CalibrationConfig, passed: u64) -> (yes: bool)
    ensures
        yes == gathers(*config, passed as int),
{
    passed >= config.warmup_ms && (passed as u128) < (config.warmup_ms as u128) + (
    config.duration_ms as u128)
}

fn is_over(config: &CalibrationConfig, passed: u64) -> (yes: bool)
    ensures
        yes == measuring_is_over(*config, passed as int),
{
    (passed as u128) >= (config.warmup_ms as u128) + (config.duration_ms as u128)
}

impl CalibrationHandler {
    /// Takes one reading that arrived at `now_ms`. The first reading starts
    /// the calibration. A reading is kept if it arrives while readings are
    /// gathered, and dropped otherwise.
    pub fn process_calibration_data<V: Copy>(
        state: &mut CalibrationState<V>,
        data: DataPoint<V>,
        now_ms: u64,
        config: &CalibrationConfig,
    )
        ensures
            final(state).calibration_start_time == started(
                old(state).calibration_start_time,
                1,
                now_ms,
            ),
            final(state).calibration_data@ == gathered(
                old(state).calibration_data@,
                old(state).calibration_start_time,
                seq![data],
                now_ms,
                *config,
            ),
            final(state).is_calibrating == old(state).is_calibrating,
            final(state).calculated_sample_rate == old(state).calculated_sample_rate,
    {
        let start = match state.calibration_start_time {
            Some(start) => start,
            None => {
                state.calibration_start_time = Some(now_ms);
                now_ms
            },
        };
        if is_gathering(config, elapsed(start, now_ms)) {
            state.calibration_data.push(data);
            assert(state.calibration_data@ =~= old(state).calibration_data@ + seq![data]);
        }
    }

    /// The rate that the gathered readings show, if they show one.
    pub fn calculate_sample_rate_from_timestamps<V: Copy>(data: &Vec<DataPoint<V>>) -> (rate:
        Option<SampleRate>)
        ensures
            match measured_rate(data@) {
                Some(shown) => rate matches Some(r) && r.samples == shown.0 && r.millis == shown.1,
                None => rate is None,
            },
    {
        let n = data.len();
        if n < 2 {
            return None;
        }
        let span: i128 = data[n - 1].timestamp as i128 - data[0].timestamp as i128;
        if span > 0 {
            Some(SampleRate { samples: (n - 1) as u64, millis: span as u64 })
        } else {
            None
        }
    }

    /// One round of calibration: takes the readings that arrived at
    /// `now_ms`, and, once the measuring is over and something was gathered,
    /// derives the rate. Readings that show no rate start calibration over.
    pub fn handle_calibration<V: Copy>(
        state: &mut CalibrationState<V>,
        batch: &Vec<DataPoint<V>>,
        now_ms: u64,
        config: &CalibrationConfig,
    ) -> (outcome: CalibrationOutcome)
        ensures
            outcome == round_outcome(
                old(state).calibration_data@,
                old(state).calibration_start_time,
                batch@,
                now_ms,
                *config,
            ),
            ({
                let start = started(old(state).calibration_start_time, batch@.len(), now_ms);
                let held = gathered(
                    old(state).calibration_data@,
                    old(state).calibration_start_time,
                    batch@,
                    now_ms,
                    *config,
                );
                if start is Some && measuring_is_over(*config, elapsed_ms(start, now_ms))
                    && held.len() > 0 {
                    match measured_rate(held) {
                        Some(shown) => {
                            &&& outcome matches CalibrationOutcome::Completed(r) && r.samples
                                == shown.0 && r.millis == shown.1 && r.millis > 0
                            &&& final(state).calibration_data@ == held
                            &&& final(state).calibration_start_time == start
                            &&& final(state).is_calibrating == old(state).is_calibrating
                            &&& final(state).calculated_sample_rate == old(
                                state,
                            ).calculated_sample_rate
                        },
                        None => {
                            &&& outcome == CalibrationOutcome::Aborted
                            &&& final(state).phase() == CalibrationPhase::WaitingForFirstSample
                            &&& final(state).calibration_data@.len() == 0
                            &&& final(state).calculated_sample_rate is None
                        },
                    }
                } else {
                    &&& outcome == CalibrationOutcome::StillCalibrating
                    &&& final(state).calibration_data@ == held
                    &&& final(state).calibration_start_time == start
                    &&& final(state).is_calibrating == old(state).is_calibrating
                    &&& final(state).calculated_sample_rate == old(state).calculated_sample_rate
                }
            }),
    {
        let mut i: usize = 0;
        while i < batch.len()
            invariant
                i <= batch@.len(),
                state.calibration_start_time == started(
                    old(state).calibration_start_time,
                    i as nat,
                    now_ms,
                ),
                state.calibration_data@ == gathered(
                    old(state).calibration_data@,
                    old(state).calibration_start_time,
                    batch@.subrange(0, i as int),
                    now_ms,
                    *config,
                ),
                state.is_calibrating == old(state).is_calibrating,
                state.calculated_sample_rate == old(state).calculated_sample_rate,
            decreases batch@.len() - i,
        {
            let ghost before = state.calibration_data@;
            Self::process_calibration_data(state, batch[i], now_ms, config);
            proof {
                let next = batch@.subrange(0, i + 1);
                assert(next =~= batch@.subrange(0, i as int).push(batch@[i as int]));
                assert(state.calibration_data@ =~= gathered(
                    old(state).calibration_data@,
                    old(state).calibration_start_time,
                    next,
                    now_ms,
                    *config,
                ));
            }
            i += 1;
        }
        proof {
            assert(batch@.subrange(0, i as int) =~= batch@);
            assert(old(state).calibration_data@ + Seq::<DataPoint<V>>::empty() =~= old(
                state,
            ).calibration_data@);
        }
        match state.calibration_start_time {
            Some(start) => {
                if is_over(config, elapsed(start, now_ms)) && state.calibration_data.len() > 0 {
                    match Self::calculate_sample_rate_from_timestamps(&state.calibration_data) {
                        Some(rate) => CalibrationOutcome::Completed(rate),
                        None => {
                            state.reset_calibration();
                            CalibrationOutcome::Aborted
                        },
                    }
                } else {
                    CalibrationOutcome::StillCalibrating
                }
            },
            None => CalibrationOutcome::StillCalibrating,
        }
    }
}

} // verus!
