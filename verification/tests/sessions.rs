use wattkit::error::{IOReportError, SamplerError};
use wattkit::report::{IOReportIterator, IOReportSample, RawChannelEntry};
use wattkit::sample::EnergySample;
use wattkit::sampler::{Sampler, StartStopSampler};
use wattkit::worker::{SampleManager, WorkerAction};

fn cpu_window(millijoules: i64, duration: u64) -> IOReportSample {
    let entry = RawChannelEntry {
        group: "Energy Model".to_string(),
        subgroup: String::new(),
        channel_name: "CPU Energy".to_string(),
        unit: "mJ".to_string(),
        raw_counter_value: millijoules,
    };
    IOReportSample::new(IOReportIterator::new(vec![entry]), duration)
}

#[test]
fn windows_per_round_are_clamped() {
    let windows = |requested: usize| SampleManager::new(1000, requested).1.state().samples_per_poll();
    assert_eq!(windows(0), 1);
    assert_eq!(windows(1), 1);
    assert_eq!(windows(4), 4);
    assert_eq!(windows(32), 32);
    assert_eq!(windows(33), 32);
    assert_eq!(windows(usize::MAX), 32);
}

#[test]
fn an_interval_is_divided_evenly_into_windows() {
    let (_manager, worker) = SampleManager::new(1000, 4);
    assert_eq!(worker.state().interval_ms(), 1000);
    assert_eq!(worker.state().window_ms(), 250);
    assert_eq!(SampleManager::new(1000, 3).1.state().window_ms(), 333);
    assert_eq!(SampleManager::new(100, 1).1.state().window_ms(), 100);
    assert_eq!(SampleManager::new(10, 32).1.state().window_ms(), 0);
    assert_eq!(SampleManager::new(0, 0).1.state().window_ms(), 0);
    assert_eq!(SampleManager::new(u64::MAX, 1).1.state().window_ms(), u64::MAX);
}

#[test]
fn every_round_size_yields_that_many_samples() {
    for per_round in 1..=32usize {
        let (manager, mut worker) = SampleManager::new(1000, per_round);
        for taken_so_far in 0..per_round {
            assert_eq!(
                worker.next_action(),
                WorkerAction::TakeWindow { window_ms: 1000 / per_round as u64 }
            );
            let taken = worker.deliver(cpu_window(taken_so_far as i64, 0));
            if taken_so_far + 1 < per_round {
                assert_eq!(taken, 0);
            } else {
                assert_eq!(taken, per_round);
            }
        }
        assert!(worker.state().is_active());
        drop(worker);
        let samples = manager.stop();
        assert_eq!(samples.len(), per_round);
        for (at, sample) in samples.iter().enumerate() {
            assert_eq!(*sample, EnergySample::new(at as u128, 0, 0, 1));
            assert!(sample.duration() >= 1);
        }
    }
}

#[test]
fn samples_are_queued_only_when_their_round_is_complete() {
    let (manager, mut worker) = SampleManager::new(300, 3);
    assert_eq!(worker.deliver(cpu_window(1, 100)), 0);
    assert_eq!(worker.deliver(cpu_window(2, 100)), 0);
    assert_eq!(worker.deliver(cpu_window(3, 100)), 3);
    assert_eq!(worker.deliver(cpu_window(4, 100)), 0);
    drop(worker);
    assert_eq!(
        manager.stop(),
        vec![
            EnergySample::new(1, 0, 0, 100),
            EnergySample::new(2, 0, 0, 100),
            EnergySample::new(3, 0, 0, 100),
        ]
    );
}

#[test]
fn a_worker_without_a_consumer_stops() {
    let (manager, mut worker) = SampleManager::new(100, 2);
    drop(manager);
    assert_eq!(worker.next_action(), WorkerAction::TakeWindow { window_ms: 50 });
    assert_eq!(worker.deliver(cpu_window(1, 50)), 0);
    assert!(worker.state().is_active());
    assert_eq!(worker.next_action(), WorkerAction::TakeWindow { window_ms: 50 });
    assert_eq!(worker.deliver(cpu_window(2, 50)), 0);
    assert!(!worker.state().is_active());
    assert_eq!(worker.next_action(), WorkerAction::Stop);
    assert_eq!(worker.deliver(cpu_window(3, 50)), 0);
    assert_eq!(worker.next_action(), WorkerAction::Stop);
}

#[test]
fn cancellation_between_rounds_stops_the_worker() {
    let (mut manager, mut worker) = SampleManager::new(100, 2);
    assert_eq!(worker.next_action(), WorkerAction::TakeWindow { window_ms: 50 });
    assert!(manager.cancel());
    assert!(!manager.cancel());
    assert_eq!(worker.next_action(), WorkerAction::Stop);
    assert!(!worker.state().is_active());
    assert_eq!(worker.next_action(), WorkerAction::Stop);
    assert_eq!(worker.deliver(cpu_window(1, 50)), 0);
    drop(worker);
    assert!(manager.stop().is_empty());
}

#[test]
fn a_round_under_way_runs_to_its_end_before_cancellation_is_seen() {
    let (mut manager, mut worker) = SampleManager::new(100, 2);
    assert_eq!(worker.next_action(), WorkerAction::TakeWindow { window_ms: 50 });
    assert_eq!(worker.deliver(cpu_window(1, 50)), 0);
    assert!(manager.cancel());
    assert_eq!(worker.next_action(), WorkerAction::TakeWindow { window_ms: 50 });
    assert!(worker.state().is_active());
    assert_eq!(worker.deliver(cpu_window(2, 50)), 2);
    assert_eq!(worker.next_action(), WorkerAction::Stop);
    assert!(!worker.state().is_active());
    drop(worker);
    assert_eq!(
        manager.stop(),
        vec![EnergySample::new(1, 0, 0, 50), EnergySample::new(2, 0, 0, 50)]
    );
}

#[test]
fn a_new_session_is_idle_and_empty() {
    let sampler = StartStopSampler::new();
    assert!(!sampler.is_sampling());
    assert!(sampler.samples().is_empty());
    assert_eq!(sampler.duration(), None);
    let sampler = Sampler::new();
    assert!(!sampler.is_sampling());
    assert!(sampler.samples().is_empty());
    assert_eq!(sampler.duration(), None);
    assert!(!Sampler::default().is_sampling());
    assert!(!StartStopSampler::default().is_sampling());
}

#[test]
fn a_stop_appends_everything_that_was_queued() {
    let mut sampler = StartStopSampler::new();
    let mut worker = sampler.start(1_000, Ok(()), 200, 2).unwrap();
    assert!(sampler.is_sampling());
    assert!(sampler.samples().is_empty());
    assert_eq!(worker.deliver(cpu_window(10, 100)), 0);
    assert_eq!(worker.deliver(cpu_window(20, 100)), 2);
    assert_eq!(worker.deliver(cpu_window(30, 100)), 0);
    assert_eq!(worker.deliver(cpu_window(40, 100)), 2);
    assert!(sampler.samples().is_empty());
    drop(worker);
    assert_eq!(sampler.stop(1_450), Ok(()));
    assert!(!sampler.is_sampling());
    assert_eq!(
        *sampler.samples(),
        vec![
            EnergySample::new(10, 0, 0, 100),
            EnergySample::new(20, 0, 0, 100),
            EnergySample::new(30, 0, 0, 100),
            EnergySample::new(40, 0, 0, 100),
        ]
    );
    assert_eq!(sampler.duration(), Some(450));
}

#[test]
fn a_second_stop_is_rejected_and_changes_nothing() {
    let mut sampler = StartStopSampler::new();
    let mut worker = sampler.start(0, Ok(()), 100, 1).unwrap();
    assert_eq!(worker.deliver(cpu_window(5, 100)), 1);
    drop(worker);
    assert_eq!(sampler.stop(100), Ok(()));
    let history = sampler.samples().clone();
    assert_eq!(sampler.stop(200), Err(SamplerError::NotRunning));
    assert_eq!(*sampler.samples(), history);
    assert_eq!(sampler.duration(), Some(100));
    assert!(!sampler.is_sampling());
}

#[test]
fn a_stop_before_any_start_is_rejected() {
    let mut sampler = StartStopSampler::new();
    assert_eq!(sampler.stop(5), Err(SamplerError::NotRunning));
    assert!(sampler.samples().is_empty());
    assert_eq!(sampler.duration(), None);
}

#[test]
fn a_second_start_is_rejected_while_running() {
    let mut sampler = StartStopSampler::new();
    let worker = sampler.start(10, Ok(()), 100, 1).unwrap();
    assert_eq!(sampler.start(20, Ok(()), 100, 1).err(), Some(SamplerError::AlreadyRunning));
    assert_eq!(
        sampler.start(30, Err(IOReportError::SubscriptionError), 100, 1).err(),
        Some(SamplerError::AlreadyRunning)
    );
    assert!(sampler.is_sampling());
    drop(worker);
    assert_eq!(sampler.stop(50), Ok(()));
    assert_eq!(sampler.duration(), Some(40));
}

#[test]
fn a_failed_provider_fails_the_start_and_leaves_the_session_idle() {
    let mut sampler = StartStopSampler::new();
    assert_eq!(
        sampler.start(1, Err(IOReportError::SubscriptionError), 100, 1).err(),
        Some(SamplerError::ProviderUnavailable)
    );
    assert_eq!(
        sampler.start(2, Err(IOReportError::ChannelError), 100, 1).err(),
        Some(SamplerError::EmptyChannelCatalog)
    );
    assert_eq!(
        sampler.start(3, Err(IOReportError::PropertyError("x".to_string())), 100, 1).err(),
        Some(SamplerError::ProviderUnavailable)
    );
    assert!(!sampler.is_sampling());
    assert_eq!(sampler.stop(4), Err(SamplerError::NotRunning));
    assert_eq!(sampler.duration(), None);
    assert!(sampler.start(5, Ok(()), 100, 1).is_ok());
}

#[test]
fn a_later_session_appends_to_the_history() {
    let mut sampler = StartStopSampler::new();
    let mut worker = sampler.start(0, Ok(()), 100, 1).unwrap();
    worker.deliver(cpu_window(1, 100));
    drop(worker);
    sampler.stop(100).unwrap();
    let mut worker = sampler.start(500, Ok(()), 100, 1).unwrap();
    worker.deliver(cpu_window(2, 100));
    drop(worker);
    sampler.stop(700).unwrap();
    assert_eq!(
        *sampler.samples(),
        vec![EnergySample::new(1, 0, 0, 100), EnergySample::new(2, 0, 0, 100)]
    );
    assert_eq!(sampler.duration(), Some(200));
}

#[test]
fn a_stop_earlier_than_its_start_lasts_no_time() {
    let mut sampler = StartStopSampler::new();
    let worker = sampler.start(1_000, Ok(()), 100, 1).unwrap();
    drop(worker);
    sampler.stop(400).unwrap();
    assert_eq!(sampler.duration(), Some(0));
}

#[test]
fn the_scoped_sampler_follows_the_same_rules() {
    let mut sampler = Sampler::new();
    assert_eq!(sampler.release(0), Err(SamplerError::NotRunning));
    let mut worker = sampler.subscribe(1_000, Ok(()), 100, 1).unwrap();
    assert!(sampler.is_sampling());
    assert_eq!(sampler.subscribe(1_001, Ok(()), 100, 1).err(), Some(SamplerError::AlreadyRunning));
    assert_eq!(worker.deliver(cpu_window(10, 1000)), 1);
    assert_eq!(worker.deliver(cpu_window(20, 2000)), 1);
    drop(worker);
    assert_eq!(sampler.release(4_999), Ok(()));
    assert!(!sampler.is_sampling());
    assert_eq!(sampler.samples().len(), 2);
    assert_eq!(sampler.duration(), Some(3));
    let profile = sampler.power_profile().unwrap();
    assert_eq!(profile.total_cpu_energy(), 30);
    assert_eq!(profile.total_cpu_power(), 10);
    assert_eq!(sampler.release(6_000), Err(SamplerError::NotRunning));
    assert_eq!(sampler.samples().len(), 2);
}

#[test]
fn the_profile_of_a_session_is_that_of_its_history() {
    let mut sampler = StartStopSampler::new();
    assert_eq!(sampler.power_profile().unwrap().total_energy(), 0);
    let mut worker = sampler.start(0, Ok(()), 100, 1).unwrap();
    worker.deliver(cpu_window(10, 1000));
    worker.deliver(cpu_window(20, 2000));
    drop(worker);
    sampler.stop(3_000).unwrap();
    let profile = sampler.power_profile().unwrap();
    assert_eq!(profile.total_cpu_energy(), 30);
    assert_eq!(profile.total_cpu_power(), 10);
    assert_eq!(profile.total_duration(), 3_000);
    assert_eq!(
        Some(profile),
        wattkit::profile::PowerProfile::from_samples(sampler.samples())
    );
}

#[test]
fn session_errors_have_messages() {
    assert_eq!(SamplerError::AlreadyRunning.message(), "Sampling is already in progress");
    assert_eq!(SamplerError::NotRunning.message(), "No sampling in progress");
    assert_eq!(SamplerError::ProviderUnavailable.message(), "Failed to create subscription");
    assert_eq!(SamplerError::EmptyChannelCatalog.message(), "Failed to get channels");
    assert_eq!(
        SamplerError::from_report(&IOReportError::ChannelError),
        SamplerError::EmptyChannelCatalog
    );
    assert_eq!(
        SamplerError::from_report(&IOReportError::InvalidEnergyUnit("x".to_string())),
        SamplerError::ProviderUnavailable
    );
}

#[test]
fn a_rejected_start_leaves_the_first_worker_running_and_a_later_stop_drains_it() {
    let mut sampler = StartStopSampler::new();
    let mut worker = sampler.start(0, Ok(()), 100, 1).unwrap();
    assert_eq!(worker.deliver(cpu_window(1, 100)), 1);
    assert_eq!(sampler.start(10, Ok(()), 100, 1).err(), Some(SamplerError::AlreadyRunning));
    assert_eq!(
        sampler.start(20, Err(IOReportError::ChannelError), 100, 1).err(),
        Some(SamplerError::AlreadyRunning)
    );
    assert!(sampler.is_sampling());
    assert!(sampler.samples().is_empty());
    assert_eq!(worker.next_action(), WorkerAction::TakeWindow { window_ms: 100 });
    assert_eq!(worker.deliver(cpu_window(2, 100)), 1);
    assert!(worker.state().is_active());
    drop(worker);
    assert_eq!(sampler.stop(300), Ok(()));
    assert_eq!(
        *sampler.samples(),
        vec![EnergySample::new(1, 0, 0, 100), EnergySample::new(2, 0, 0, 100)]
    );
    assert_eq!(sampler.duration(), Some(300));
}

#[test]
fn a_rejected_subscribe_leaves_the_first_worker_untouched() {
    let mut sampler = Sampler::new();
    let mut worker = sampler.subscribe(0, Ok(()), 100, 1).unwrap();
    assert_eq!(sampler.subscribe(10, Ok(()), 100, 1).err(), Some(SamplerError::AlreadyRunning));
    assert!(sampler.is_sampling());
    assert_eq!(worker.next_action(), WorkerAction::TakeWindow { window_ms: 100 });
    assert_eq!(worker.deliver(cpu_window(7, 100)), 1);
    assert!(worker.state().is_active());
    drop(worker);
    assert_eq!(sampler.release(2_000), Ok(()));
    assert_eq!(*sampler.samples(), vec![EnergySample::new(7, 0, 0, 100)]);
    assert_eq!(sampler.duration(), Some(2));
}

#[test]
fn a_failed_start_holds_no_worker() {
    let mut sampler = StartStopSampler::new();
    assert!(sampler.start(0, Err(IOReportError::SubscriptionError), 100, 1).is_err());
    assert!(!sampler.is_sampling());
    assert_eq!(sampler.stop(1), Err(SamplerError::NotRunning));
    let mut worker = sampler.start(2, Ok(()), 100, 1).unwrap();
    assert_eq!(worker.deliver(cpu_window(3, 100)), 1);
    drop(worker);
    assert_eq!(sampler.stop(3), Ok(()));
    assert_eq!(*sampler.samples(), vec![EnergySample::new(3, 0, 0, 100)]);
}

#[test]
fn drained_samples_span_at_least_a_millisecond() {
    let (manager, mut worker) = SampleManager::new(10, 2);
    assert_eq!(worker.deliver(cpu_window(1, 0)), 0);
    assert_eq!(worker.deliver(cpu_window(2, 5)), 2);
    drop(worker);
    let drained = manager.stop();
    assert_eq!(drained, vec![EnergySample::new(1, 0, 0, 1), EnergySample::new(2, 0, 0, 5)]);
    assert!(drained.iter().all(|sample| sample.duration() >= 1));
}
