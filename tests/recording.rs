use psrec::{
    LocalTimestamp,
    ChildStatus, KernelStatsProbe, LoopAction, LoopPhase, ProcessRecordParams, ProcessRecorderAttach,
    ProcessRecorderCore, ProcessRecorderRun, ProcessRecording, ProcessSampler, ProcessSamplerBasic,
    ProcessStat, ProcessStatus, RecorderEvent, Sample, SamplerReading, SessionKind, StopReason,
};

fn ts() -> LocalTimestamp {
    LocalTimestamp { unix_seconds: 1_700_000_000, subsec_nanos: 0, utc_offset_seconds: 3600 }
}

fn basic(cpu: u64, rss: u64) -> SamplerReading {
    SamplerReading::Basic { cpu_usage: Some(cpu), resident_bytes: Some(rss) }
}

fn skipped() -> SamplerReading {
    SamplerReading::Basic { cpu_usage: Some(5), resident_bytes: None }
}

fn alive() -> ProcessStatus {
    ProcessStatus { child: None, platform_running: true }
}

fn attached(interval: &str, duration: Option<&str>, cpus: u32) -> ProcessRecorderAttach {
    let p = ProcessRecordParams::new(Some(interval.to_string()), duration.map(|d| d.to_string()));
    let mut r = ProcessRecorderAttach::new(1234, &p, ts(), cpus);
    assert!(r.core.init_sampler(KernelStatsProbe::Unsupported));
    r
}

fn checked(core: &mut ProcessRecorderCore, status: ProcessStatus, cancelled: bool, elapsed_ms: u64) -> LoopAction {
    core.step(RecorderEvent::Checked { status, cancelled, elapsed_ms }).0
}

#[test]
fn duration_cutoff_keeps_boundary_sample() {
    let mut r = attached("2s", Some("5s"), 1);
    let core = &mut r.core;
    assert_eq!(core.next_action(), LoopAction::TakeSample);
    assert_eq!(core.step(RecorderEvent::Sampled { reading: basic(100, 1), elapsed_ms: 0 }).0, LoopAction::Sleep(2000));
    let mut stop = None;
    for t in [2000u64, 4000, 6000] {
        assert_eq!(core.step(RecorderEvent::Slept).0, LoopAction::TakeSample);
        assert_eq!(core.step(RecorderEvent::Sampled { reading: basic(100, 1), elapsed_ms: t }).0, LoopAction::CheckStatus);
        match checked(core, alive(), false, t) {
            LoopAction::Sleep(ms) => assert_eq!(ms, 2000),
            LoopAction::Stop(reason) => {
                stop = Some((t, reason));
                break;
            }
            other => panic!("unexpected action {:?}", other),
        }
    }
    assert_eq!(stop, Some((6000, StopReason::DurationExceeded)));
    let times: Vec<u64> = r.get_recording().samples.iter().map(|s| s.elapsed_ms).collect();
    assert_eq!(times, vec![0, 2000, 4000, 6000]);
}

#[test]
fn duration_limit_reached_exactly_at_a_tick() {
    let mut r = attached("2s", Some("4s"), 1);
    let core = &mut r.core;
    core.step(RecorderEvent::Sampled { reading: basic(0, 1), elapsed_ms: 0 });
    core.step(RecorderEvent::Slept);
    core.step(RecorderEvent::Sampled { reading: basic(0, 1), elapsed_ms: 2000 });
    assert_eq!(checked(core, alive(), false, 2000), LoopAction::Sleep(2000));
    core.step(RecorderEvent::Slept);
    core.step(RecorderEvent::Sampled { reading: basic(0, 1), elapsed_ms: 4000 });
    assert_eq!(checked(core, alive(), false, 4000), LoopAction::Stop(StopReason::DurationExceeded));
    assert_eq!(r.get_recording().samples.len(), 3);
}

#[test]
fn cancellation_stops_at_next_check() {
    for duration in [None, Some("1h")] {
        let mut r = attached("1s", duration, 1);
        let core = &mut r.core;
        core.step(RecorderEvent::Sampled { reading: basic(0, 1), elapsed_ms: 0 });
        assert_eq!(core.step(RecorderEvent::Slept).0, LoopAction::TakeSample);
        core.step(RecorderEvent::Sampled { reading: basic(0, 1), elapsed_ms: 1000 });
        assert_eq!(checked(core, alive(), true, 1000), LoopAction::Stop(StopReason::Cancelled));
        assert_eq!(core.control.phase, LoopPhase::Finished(StopReason::Cancelled));
        // Once finished, further events change nothing.
        assert_eq!(core.step(RecorderEvent::Slept).0, LoopAction::Stop(StopReason::Cancelled));
        assert_eq!(r.get_recording().samples.len(), 2);
    }
}

#[test]
fn skipped_ticks_add_nothing_and_do_not_stop() {
    let mut r = attached("1s", None, 1);
    let core = &mut r.core;
    core.step(RecorderEvent::Sampled { reading: basic(0, 1), elapsed_ms: 0 });
    for i in 1..=5u64 {
        assert_eq!(core.step(RecorderEvent::Slept).0, LoopAction::TakeSample);
        let (action, recorded) = core.step(RecorderEvent::Sampled { reading: skipped(), elapsed_ms: i * 1000 });
        assert_eq!(action, LoopAction::CheckStatus);
        assert_eq!(recorded, None);
        assert_eq!(checked(core, alive(), false, i * 1000), LoopAction::Sleep(1000));
    }
    assert_eq!(r.get_recording().samples.len(), 1);
    // The next tick whose reading gives a sample appends exactly one.
    let core = &mut r.core;
    core.step(RecorderEvent::Slept);
    let (_, recorded) = core.step(RecorderEvent::Sampled { reading: basic(7, 9), elapsed_ms: 6000 });
    assert_eq!(recorded, Some(Sample { elapsed_ms: 6000, cpu_usage: 7, curr_rss: 9, thread_count: 0 }));
    assert_eq!(r.get_recording().samples.len(), 2);
}

#[test]
fn exited_child_detected_despite_platform_report() {
    let p = ProcessRecordParams::new(None, None);
    let mut r = ProcessRecorderRun::new("sleep", Some(vec!["10".to_string()]), &p, ts(), 2).unwrap();
    r.bind_child(777);
    assert_eq!(r.get_recording().initial_process_id, 777);
    assert!(r.core.init_sampler(KernelStatsProbe::Unsupported));
    let core = &mut r.core;
    let exited = ProcessStatus { child: Some(ChildStatus::Exited), platform_running: true };
    let running = ProcessStatus { child: Some(ChildStatus::Running), platform_running: false };
    let failed = ProcessStatus { child: Some(ChildStatus::PollFailed), platform_running: true };
    assert!(!core.process_is_running(&exited));
    assert!(core.process_is_running(&running));
    assert!(!core.process_is_running(&failed));
    core.step(RecorderEvent::Sampled { reading: basic(0, 1), elapsed_ms: 0 });
    core.step(RecorderEvent::Slept);
    core.step(RecorderEvent::Sampled { reading: basic(0, 1), elapsed_ms: 1000 });
    assert_eq!(checked(core, exited, false, 1000), LoopAction::Stop(StopReason::ProcessExited));
}

#[test]
fn attached_process_judged_by_platform_query() {
    let r = attached("1s", None, 1);
    assert!(r.core.process_is_running(&ProcessStatus { child: Some(ChildStatus::Exited), platform_running: true }));
    assert!(!r.core.process_is_running(&ProcessStatus { child: None, platform_running: false }));
}

#[test]
fn run_recorder_rejects_empty_command() {
    let p = ProcessRecordParams::new(None, None);
    assert!(ProcessRecorderRun::new("", None, &p, ts(), 1).is_none());
    let r = ProcessRecorderRun::new("ls", None, &p, ts(), 1).unwrap();
    assert_eq!(r.command, "ls");
    assert_eq!(r.core.session, SessionKind::Spawned);
    assert!(!r.core.process_is_running(&ProcessStatus { child: Some(ChildStatus::Running), platform_running: true }));
}

#[test]
fn normalisation_divides_by_cpu_count() {
    let mut p = ProcessRecordParams::new(None, None);
    p.set_normalise_cpu_usage(true);
    let mut four = ProcessRecorderAttach::new(1, &p, ts(), 4);
    assert!(four.core.init_sampler(KernelStatsProbe::Unsupported));
    let s = four.core.record_sample(basic(40000, 10), 0).unwrap();
    assert_eq!(s.cpu_usage, 10000);
    let mut one = ProcessRecorderAttach::new(1, &p, ts(), 1);
    assert!(one.core.init_sampler(KernelStatsProbe::Unsupported));
    assert_eq!(one.core.record_sample(basic(40000, 10), 0).unwrap().cpu_usage, 40000);
    let mut zero = ProcessRecorderAttach::new(1, &p, ts(), 0);
    assert_eq!(zero.core.recording.num_system_threads, 1);
    assert!(zero.core.init_sampler(KernelStatsProbe::Unsupported));
    assert_eq!(zero.core.record_sample(basic(40000, 10), 0).unwrap().cpu_usage, 40000);
}

#[test]
fn absolute_usage_kept_without_normalisation() {
    let p = ProcessRecordParams::new(None, None);
    let mut r = ProcessRecorderAttach::new(1, &p, ts(), 8);
    assert!(r.core.init_sampler(KernelStatsProbe::Unsupported));
    let s = r.core.record_sample(basic(80000, 10), 1500).unwrap();
    assert_eq!(s, Sample { elapsed_ms: 1500, cpu_usage: 80000, curr_rss: 10, thread_count: 0 });
}

#[test]
fn record_sample_without_process_or_sampler_does_nothing() {
    let p = ProcessRecordParams::new(None, None);
    let mut core = ProcessRecorderCore::from_params(&p, SessionKind::Attached, ts(), 1);
    assert!(!core.init_sampler(KernelStatsProbe::Unsupported));
    assert_eq!(core.record_sample(basic(1, 1), 0), None);
    core.bind_process(5);
    assert_eq!(core.record_sample(basic(1, 1), 0), None);
    assert!(core.recording.samples.is_empty());
}

#[test]
fn init_sampler_chooses_backend() {
    let mut p = ProcessRecordParams::new(None, None);
    p.set_record_thread_count(true);
    let mut r = ProcessRecorderAttach::new(3, &p, ts(), 1);
    assert!(!r.core.init_sampler(KernelStatsProbe::Unsupported));
    assert!(!r.core.init_sampler(KernelStatsProbe::ReadFailed));
    assert!(r.core.sampler.is_none());
    let st = ProcessStat { utime: 1, stime: 1, cutime: 0, cstime: 0, rss_pages: 1, num_threads: 4 };
    if r.core.init_sampler(KernelStatsProbe::Read { stat: st, now_us: 10 }) {
        match r.core.sampler {
            Some(ProcessSampler::Advanced(a)) => {
                assert_eq!(a.pid, 3);
                assert!(a.record_thread_count);
                assert!(!a.record_children);
            }
            _ => panic!("expected the advanced sampler"),
        }
    }
    let plain = ProcessRecordParams::new(None, None);
    let mut b = ProcessRecorderAttach::new(3, &plain, ts(), 1);
    assert!(b.core.init_sampler(KernelStatsProbe::ReadFailed));
    assert_eq!(b.core.sampler, Some(ProcessSampler::Basic(ProcessSamplerBasic { pid: 3 })));
}

#[test]
fn recording_new_takes_flags() {
    let mut p = ProcessRecordParams::new(None, None);
    p.set_record_thread_count(true);
    let rec = ProcessRecording::new(&p, 99, ts(), 16);
    assert!(rec.have_thread_counts);
    assert!(!rec.normalised_cpu_usage);
    assert_eq!(rec.initial_process_id, 99);
    assert_eq!(rec.current_process_id, 99);
    assert_eq!(rec.num_system_threads, 16);
    assert!(rec.samples.is_empty());
    assert_eq!(rec.start_timestamp, ts());
}

#[test]
fn elapsed_times_never_run_backwards() {
    let mut r = attached("1s", None, 1);
    let core = &mut r.core;
    assert_eq!(core.record_sample(basic(1, 1), 5000).unwrap().elapsed_ms, 5000);
    assert_eq!(core.record_sample(basic(1, 1), 3000).unwrap().elapsed_ms, 5000);
    assert_eq!(core.record_sample(basic(1, 1), 7000).unwrap().elapsed_ms, 7000);
    let times: Vec<u64> = r.get_recording().samples.iter().map(|s| s.elapsed_ms).collect();
    assert_eq!(times, vec![5000, 5000, 7000]);
}
