use daqv::error::{AcquireError, ConfigError, Step};
use daqv::mode::TerminalMode;
use daqv::setup::{Setup, SetupStage};
use daqv::task::{AcquisitionTask, PartialRead, Phase, INVALID_TASK};

const MS: u64 = 1_000_000;

/// 2023-11-14 22:13:20 UTC, in microseconds since the Unix epoch.
const START_MICROS: i64 = 1_700_000_000_000_000;

fn configured(channels: u32, period_ns: u64, sample_count: u64) -> AcquisitionTask<f64> {
    let mut setup = Setup::new(
        "Dev1/ai0:1".to_string(),
        TerminalMode::ReferencedSingleEnded,
        period_ns,
        sample_count,
    );
    setup.on_status(0);
    setup.on_status(0);
    setup.on_channel_count(0, channels);
    setup.on_status(0);
    setup.finish(0.0).unwrap()
}

/// Runs one cycle in which the driver writes `row * 10 + channel` into each
/// value of the first `read` rows and answers `read_status`.
fn cycle(task: &mut AcquisitionTask<f64>, read_status: i32, read: i32) -> Result<u32, AcquireError> {
    task.begin_acquire_at(START_MICROS)?;
    let mut buffer = task.on_started(0)?;
    let channels = task.channels() as usize;
    let rows = if read > 0 { read as usize } else { 0 };
    for row in 0..rows.min(buffer.len() / channels) {
        for c in 0..channels {
            buffer[row * channels + c] = (row * 10 + c) as f64;
        }
    }
    task.on_read(buffer, read_status, read);
    task.on_stopped(0)
}

#[test]
fn setup_calls_come_in_order() {
    let mut setup = Setup::new("Dev1/ai0".to_string(), TerminalMode::Differential, MS, 10);
    assert_eq!(setup.next_call(), Some(Step::CreateTask));
    setup.on_status(0);
    assert_eq!(setup.next_call(), Some(Step::AddChannels));
    setup.on_status(0);
    assert_eq!(setup.next_call(), Some(Step::QueryChannelCount));
    setup.on_channel_count(0, 4);
    assert_eq!(setup.next_call(), Some(Step::ConfigureClock));
    setup.on_status(0);
    assert_eq!(setup.next_call(), None);
    assert_eq!(setup.stage(), SetupStage::Ready { channels: 4 });
    assert_eq!(setup.channel_expr(), "Dev1/ai0");
    assert_eq!(setup.mode(), TerminalMode::Differential);
    assert_eq!(setup.sample_count(), 10);
}

#[test]
fn channels_follow_the_driver_count() {
    let task = configured(3, MS, 100);
    assert_eq!(task.channels(), 3);
    assert_eq!(task.sample_count(), 100);
    assert_eq!(task.capacity(), 300);
    assert_eq!(task.sample_period_ns(), MS);
    assert_eq!(task.samples_read(), 0);
    assert_eq!(task.phase(), Phase::Idle);
}

#[test]
fn finish_hands_over_the_handle() {
    let mut setup = Setup::new("Dev1/ai0".to_string(), TerminalMode::PseudoDifferential, MS, 5);
    assert!(!setup.needs_release());
    setup.on_status(0);
    assert!(setup.needs_release());
    setup.on_status(0);
    setup.on_channel_count(0, 1);
    setup.on_status(0);
    let task = setup.finish(0.0f64).unwrap();
    assert!(!setup.needs_release());
    assert!(task.needs_release());
    assert_eq!(setup.stage(), SetupStage::Finished);
}

#[test]
fn create_failure_holds_no_handle() {
    let mut setup = Setup::new("Dev1/ai0".to_string(), TerminalMode::ReferencedSingleEnded, MS, 5);
    setup.on_status(-200220);
    assert_eq!(setup.next_call(), None);
    assert!(!setup.needs_release());
    let r = setup.finish(0.0f64);
    assert_eq!(r.err(), Some(ConfigError::Driver { step: Step::CreateTask, code: -200220 }));
}

#[test]
fn add_channels_failure_still_owes_release() {
    let mut setup = Setup::new("bogus".to_string(), TerminalMode::NonReferencedSingleEnded, MS, 5);
    setup.on_status(0);
    setup.on_status(-200170);
    assert_eq!(setup.next_call(), None);
    assert!(setup.needs_release());
    let r = setup.finish(0.0f64);
    assert_eq!(r.err(), Some(ConfigError::Driver { step: Step::AddChannels, code: -200170 }));
    assert_eq!(setup.release_call(), Some(Step::StopTask));
    setup.on_release_status(0);
    assert_eq!(setup.release_call(), Some(Step::ClearTask));
    setup.on_release_status(0);
    assert!(!setup.needs_release());
}

#[test]
fn count_query_failure_is_reported() {
    let mut setup = Setup::new("Dev1/ai0".to_string(), TerminalMode::ReferencedSingleEnded, MS, 5);
    setup.on_status(0);
    setup.on_status(0);
    setup.on_channel_count(-1, 2);
    let r = setup.finish(0.0f64);
    assert_eq!(r.err(), Some(ConfigError::Driver { step: Step::QueryChannelCount, code: -1 }));
}

#[test]
fn zero_channels_is_a_configuration_error() {
    let mut setup = Setup::new("Dev1/ai0".to_string(), TerminalMode::ReferencedSingleEnded, MS, 5);
    setup.on_status(0);
    setup.on_status(0);
    setup.on_channel_count(0, 0);
    assert_eq!(setup.next_call(), None);
    assert_eq!(setup.finish(0.0f64).err(), Some(ConfigError::NoChannels));
}

#[test]
fn oversized_buffer_is_a_configuration_error() {
    let mut setup = Setup::new("Dev1/ai0:1".to_string(), TerminalMode::ReferencedSingleEnded, MS, 1 << 31);
    setup.on_status(0);
    setup.on_status(0);
    setup.on_channel_count(0, 2);
    assert_eq!(setup.finish(0.0f64).err(), Some(ConfigError::BufferTooLarge));
}

#[test]
fn largest_buffer_fits() {
    let mut setup = Setup::new("Dev1/ai0".to_string(), TerminalMode::ReferencedSingleEnded, MS, u32::MAX as u64);
    setup.on_status(0);
    setup.on_status(0);
    setup.on_channel_count(0, 1);
    assert_eq!(setup.stage(), SetupStage::ConfigureClock { channels: 1 });
}

#[test]
fn clock_failure_is_reported() {
    let mut setup = Setup::new("Dev1/ai0".to_string(), TerminalMode::ReferencedSingleEnded, MS, 5);
    setup.on_status(0);
    setup.on_status(0);
    setup.on_channel_count(0, 2);
    setup.on_status(-200077);
    let r = setup.finish(0.0f64);
    assert_eq!(r.err(), Some(ConfigError::Driver { step: Step::ConfigureClock, code: -200077 }));
}

#[test]
fn two_channels_thousand_rows() {
    let mut task = configured(2, MS, 1000);
    assert_eq!(cycle(&mut task, 0, 1000), Ok(1000));
    let samples = task.samples();
    assert_eq!(samples.len(), 2000);
    for row in 0..1000 {
        assert_eq!(samples[row * 2], (row * 10) as f64);
        assert_eq!(samples[row * 2 + 1], (row * 10 + 1) as f64);
    }
    let times = task.timestamps();
    assert_eq!(times.len(), 1000);
    assert_eq!(times[999] - times[0], 999_000_000);
    assert_eq!(task.partial_read(), None);
}

#[test]
fn timestamps_rise_one_period_apart() {
    let mut task = configured(1, 1_234_567, 50);
    assert_eq!(cycle(&mut task, 0, 50), Ok(50));
    let times = task.timestamps();
    for i in 1..times.len() {
        assert!(times[i] > times[i - 1]);
        assert_eq!(times[i] - times[i - 1], 1_234_567);
    }
}

#[test]
fn timestamps_start_at_the_start_reading() {
    let mut task = configured(1, MS, 3);
    assert_eq!(cycle(&mut task, 0, 3), Ok(3));
    assert_eq!(task.timestamps()[0], START_MICROS as i128 * 1000);
}

#[test]
fn read_error_keeps_task_usable() {
    let mut task = configured(2, MS, 1000);
    let r = cycle(&mut task, -200279, 0);
    assert_eq!(r, Err(AcquireError::Driver { step: Step::ReadSamples, code: -200279 }));
    assert_eq!(task.phase(), Phase::Idle);
    assert_eq!(task.samples().len(), 0);
    assert_eq!(cycle(&mut task, 0, 1000), Ok(1000));
    assert_eq!(task.samples().len(), 2000);
}

#[test]
fn partial_read_is_truncated() {
    let mut task = configured(2, MS, 1000);
    assert_eq!(cycle(&mut task, 0, 1000), Ok(1000));
    assert_eq!(cycle(&mut task, 0, 500), Ok(500));
    assert_eq!(task.samples().len(), 1000);
    assert_eq!(task.timestamps().len(), 500);
    assert_eq!(task.samples()[999], 4991.0);
    assert_eq!(task.partial_read(), Some(PartialRead { requested: 1000, actual: 500 }));
}

#[test]
fn read_count_out_of_range_is_held() {
    let mut task = configured(2, MS, 10);
    assert_eq!(cycle(&mut task, 0, -5), Ok(0));
    assert_eq!(task.samples().len(), 0);
    assert_eq!(cycle(&mut task, 0, 11), Ok(10));
    assert_eq!(task.samples().len(), 20);
    assert_eq!(task.timestamps().len(), 10);
}

#[test]
fn start_error_is_reported() {
    let mut task = configured(2, MS, 10);
    task.begin_acquire_at(START_MICROS).unwrap();
    assert_eq!(task.on_started(-200088 + 1).err(), Some(AcquireError::Driver { step: Step::StartTask, code: -200087 }));
    assert_eq!(task.phase(), Phase::Idle);
}

#[test]
fn stop_error_is_reported() {
    let mut task = configured(2, MS, 10);
    task.begin_acquire_at(START_MICROS).unwrap();
    let buffer = task.on_started(0).unwrap();
    assert_eq!(buffer.len(), 20);
    task.on_read(buffer, 0, 10);
    assert_eq!(task.phase(), Phase::Stopping { rows: 10, failure: None });
    assert_eq!(task.on_stopped(-50103), Err(AcquireError::Driver { step: Step::StopTask, code: -50103 }));
    assert_eq!(task.samples_read(), 0);
    assert_eq!(task.phase(), Phase::Idle);
}

#[test]
fn invalid_handle_breaks_the_task() {
    let mut task = configured(2, MS, 10);
    task.begin_acquire_at(START_MICROS).unwrap();
    let e = AcquireError::Driver { step: Step::StartTask, code: INVALID_TASK };
    assert_eq!(task.on_started(INVALID_TASK).err(), Some(e));
    assert_eq!(task.phase(), Phase::Broken { error: e });
    assert_eq!(task.begin_acquire_at(START_MICROS), Err(e));
    assert_eq!(task.begin_acquire_at(START_MICROS), Err(e));
}

#[test]
fn read_timeout_has_headroom() {
    let task = configured(2, MS, 1000);
    assert_eq!(task.read_timeout_ms(), 11_000);
    let task = configured(1, 1_500_000, 3);
    assert_eq!(task.read_timeout_ms(), 10_005);
}

#[test]
fn release_is_stop_then_clear() {
    let mut task = configured(2, MS, 10);
    assert_eq!(task.release_call(), Some(Step::StopTask));
    task.on_release_status(-200010);
    assert_eq!(task.release_call(), Some(Step::ClearTask));
    task.on_release_status(0);
    assert_eq!(task.release_call(), None);
}

#[test]
fn release_is_idempotent() {
    let mut task = configured(2, MS, 10);
    assert!(task.needs_release());
    task.on_release_status(0);
    task.on_release_status(0);
    assert!(!task.needs_release());
    task.on_release_status(0);
    assert_eq!(task.release_call(), None);
    assert!(!task.needs_release());
    assert_eq!(task.begin_acquire_at(START_MICROS), Err(AcquireError::Released));
}

#[test]
fn failed_clear_is_tried_again() {
    let mut task = configured(2, MS, 10);
    task.on_release_status(0);
    task.on_release_status(-200088);
    assert_eq!(task.release_call(), Some(Step::ClearTask));
    task.on_release_status(0);
    assert!(!task.needs_release());
}

#[test]
fn row_times_start_at_the_given_reading() {
    let mut task = configured(2, 2_500_000, 4);
    task.begin_acquire_at(1_700_000_000_123_456).unwrap();
    let buffer = task.on_started(0).unwrap();
    task.on_read(buffer, 0, 4);
    assert_eq!(task.on_stopped(0), Ok(4));
    let start: i128 = 1_700_000_000_123_456_000;
    assert_eq!(task.timestamps(), &[start, start + 2_500_000, start + 5_000_000, start + 7_500_000][..]);
}

#[test]
fn terminal_modes_map_to_driver_constants() {
    assert_eq!(TerminalMode::ReferencedSingleEnded.driver_code(), 10083);
    assert_eq!(TerminalMode::NonReferencedSingleEnded.driver_code(), 10078);
    assert_eq!(TerminalMode::Differential.driver_code(), 10106);
    assert_eq!(TerminalMode::PseudoDifferential.driver_code(), 12529);
}
