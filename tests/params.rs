use psrec::{ProcessRecordParams, DEFAULT_SAMPLE_INTERVAL_MS};

#[test]
fn params_defaults_without_strings() {
    let p = ProcessRecordParams::new(None, None);
    assert_eq!(p.sample_interval, 1000);
    assert_eq!(p.sample_interval, DEFAULT_SAMPLE_INTERVAL_MS);
    assert_eq!(p.sample_interval_human, "1 sec");
    assert_eq!(p.record_duration, None);
    assert_eq!(p.record_duration_human, "");
    assert!(!p.normalise_cpu_usage);
    assert!(!p.print_values);
    assert!(!p.record_child_processes);
    assert!(!p.record_thread_count);
}

#[test]
fn params_zero_interval_falls_back_to_default() {
    let p = ProcessRecordParams::new(Some("0".to_string()), Some("0".to_string()));
    assert_eq!(p.sample_interval, 1000);
    assert!(p.sample_interval > 0);
    assert_eq!(p.sample_interval_human, "1 sec");
    assert_eq!(p.record_duration, None);
}

#[test]
fn params_invalid_strings_fall_back() {
    let p = ProcessRecordParams::new(Some("fast".to_string()), Some("3345nk".to_string()));
    assert_eq!(p.sample_interval, 1000);
    assert_eq!(p.record_duration, None);
    assert_eq!(p.record_duration_human, "");
}

#[test]
fn params_parse_interval_and_duration() {
    let p = ProcessRecordParams::new(Some("250ms".to_string()), Some("2m".to_string()));
    assert_eq!(p.sample_interval, 250);
    assert_eq!(p.sample_interval_human, "250 ms");
    assert_eq!(p.record_duration, Some(120_000));
    assert_eq!(p.record_duration_human, "2 mins");
}

#[test]
fn params_setters() {
    let mut p = ProcessRecordParams::new(None, None);
    p.set_normalise_cpu_usage(true);
    p.set_print_values(true);
    assert!(p.normalise_cpu_usage && p.print_values);
    assert!(!p.needs_advanced_sampler());
    p.set_record_child_processes(true);
    assert!(p.record_child_processes);
    assert!(p.needs_advanced_sampler());
    p.set_record_child_processes(false);
    p.set_record_thread_count(true);
    assert!(p.record_thread_count);
    assert!(p.needs_advanced_sampler());
    assert_eq!(p.sample_interval, 1000);
}

#[test]
fn params_recording_message() {
    let p = ProcessRecordParams::new(Some("5s".to_string()), None);
    assert_eq!(p.recording_message(), "Recording samples every 5 secs until process ends...");
    let p = ProcessRecordParams::new(Some("250ms".to_string()), Some("1h".to_string()));
    assert_eq!(p.recording_message(), "Recording samples every 250 ms for a duration of 1 hour...");
}
