use psrec::{
    LocalTimestamp,ProcessRecordParams, ProcessRecording, Sample};

fn ts() -> LocalTimestamp {
    LocalTimestamp { unix_seconds: 1_700_000_000, subsec_nanos: 0, utc_offset_seconds: 3600 }
}

fn recording(threads: bool) -> ProcessRecording {
    let mut p = ProcessRecordParams::new(None, None);
    p.set_record_thread_count(threads);
    let mut rec = ProcessRecording::new(&p, 1, ts(), 1);
    rec.samples.push(Sample { elapsed_ms: 0, cpu_usage: 0, curr_rss: 1024, thread_count: 1 });
    rec.samples.push(Sample { elapsed_ms: 2050, cpu_usage: 12345, curr_rss: 2048, thread_count: 12 });
    rec.samples.push(Sample { elapsed_ms: 1_000_049, cpu_usage: 10000, curr_rss: 0, thread_count: 0 });
    rec
}

#[test]
fn export_with_thread_counts_has_four_columns() {
    let text = recording(true).to_csv_string(true);
    assert_eq!(
        text,
        "# Process recording.\n# Time elapsed,CPU Usage,RSS,Thread Count\n0.0,0.0,1024,1\n2.1,123.5,2048,12\n1000.0,100.0,0,0\n"
    );
    let data: Vec<&str> = text.lines().filter(|l| !l.starts_with('#')).collect();
    assert_eq!(data.len(), 3);
    assert!(data.iter().all(|l| l.split(',').count() == 4));
}

#[test]
fn export_without_thread_counts_has_three_columns() {
    let text = recording(false).to_csv_string(false);
    assert_eq!(text, "0.0,0.0,1024\n2.1,123.5,2048\n1000.0,100.0,0\n");
    assert!(text.lines().all(|l| l.split(',').count() == 3));
    let with_header = recording(false).to_csv_string(true);
    assert!(with_header.starts_with("# Process recording.\n# Time elapsed,CPU Usage,RSS\n"));
}

#[test]
fn export_of_empty_recording() {
    let p = ProcessRecordParams::new(None, None);
    let rec = ProcessRecording::new(&p, 1, ts(), 1);
    assert_eq!(rec.to_csv_string(false), "");
    assert_eq!(rec.to_csv_string(true), "# Process recording.\n# Time elapsed,CPU Usage,RSS\n");
}

#[test]
fn export_rounds_half_up_to_one_decimal() {
    let p = ProcessRecordParams::new(None, None);
    let mut rec = ProcessRecording::new(&p, 1, ts(), 1);
    rec.samples.push(Sample { elapsed_ms: 149, cpu_usage: 4, curr_rss: u64::MAX, thread_count: 0 });
    rec.samples.push(Sample { elapsed_ms: 150, cpu_usage: 5, curr_rss: 7, thread_count: 0 });
    rec.samples.push(Sample { elapsed_ms: u64::MAX, cpu_usage: u64::MAX, curr_rss: 7, thread_count: 0 });
    assert_eq!(
        rec.to_csv_string(false),
        "0.1,0.0,18446744073709551615\n0.2,0.1,7\n18446744073709551.6,184467440737095516.2,7\n"
    );
}
