//! Samples, the recording that collects them, and its export as delimited text.

use vstd::prelude::*;

use crate::params::ProcessRecordParams;
use crate::period::{decimal, digit_char, push_decimal};

verus! {

/// One measurement of the recorded process.
#[derive(Clone, Copy, Debug, PartialEq, Eq, Structural)]
pub struct Sample {
    /// Time since the recording started, in milliseconds.
    pub elapsed_ms: u64,
    /// CPU usage in hundredths of a percent: absolute (one busy core is 10000) or, where
    /// the recording is normalised, relative to all logical CPUs.
    pub cpu_usage: u64,
    /// Resident memory, in bytes.
    pub curr_rss: u64,
    /// Number of threads; 0 where thread counts are not collected.
    pub thread_count: u32,
}

/// A moment in local time: seconds and nanoseconds since the Unix epoch, and the
/// local offset from UTC.
#[derive(Clone, Copy, Debug, PartialEq, Eq, Structural)]
pub struct LocalTimestamp {
    pub unix_seconds: i64,
    /// Nanoseconds past `unix_seconds`; above 999,999,999 only within a leap second.
    pub subsec_nanos: u32,
    /// Seconds to add to UTC to get local time.
    pub utc_offset_seconds: i32,
}

/// The samples of one recording session, in the order they were taken.
#[derive(Clone, Debug)]
pub struct ProcessRecording {
    pub start_timestamp: LocalTimestamp,
    /// Whether CPU usage in the samples is divided by `num_system_threads`.
    pub normalised_cpu_usage: bool,
    /// Whether the samples carry thread counts.
    pub have_thread_counts: bool,
    pub initial_process_id: u32,
    pub current_process_id: u32,
    /// The number of logical CPUs of the host, taken once when the recording is made.
    /// It knows nothing of the CPU limits or masks of a container, so normalised
    /// figures are right only on an unconstrained host.
    pub num_system_threads: u32,
    pub samples: Vec<Sample>,
}

/// CPU usage divided over `cpus` logical CPUs.
pub open spec fn normalised(cpu_usage: nat, cpus: nat) -> nat {
    cpu_usage / cpus
}

/// A value in hundredths, rounded half up to tenths.
pub open spec fn hundredths_to_tenths(v: nat) -> nat {
    (v + 5) / 10
}

/// Milliseconds rounded half up to tenths of a second.
pub open spec fn ms_to_tenths(ms: nat) -> nat {
    (ms + 50) / 100
}

/// A count of tenths written with one decimal place, such as `12.5`.
pub open spec fn one_decimal(tenths: nat) -> Seq<char> {
    decimal(tenths / 10) + seq!['.', digit_char(tenths % 10)]
}

/// The data line of one sample: elapsed seconds and CPU percent with one decimal,
/// resident bytes, and the thread count where the recording has them.
pub open spec fn sample_line(s: Sample, with_threads: bool) -> Seq<char> {
    let base = one_decimal(ms_to_tenths(s.elapsed_ms as nat)) + seq![','] + one_decimal(
        hundredths_to_tenths(s.cpu_usage as nat),
    ) + seq![','] + decimal(s.curr_rss as nat);
    if with_threads {
        base + seq![','] + decimal(s.thread_count as nat) + seq!['\n']
    } else {
        base + seq!['\n']
    }
}

/// The data lines of the samples, in order.
pub open spec fn sample_lines(samples: Seq<Sample>, with_threads: bool) -> Seq<char>
    decreases samples.len(),
{
    if samples.len() == 0 {
        Seq::empty()
    } else {
        sample_lines(samples.drop_last(), with_threads) + sample_line(samples.last(), with_threads)
    }
}

/// The comment lines that open an exported file.
pub open spec fn csv_header(with_threads: bool) -> Seq<char> {
    if with_threads {
        "# Process recording.\n"@ + "# Time elapsed,CPU Usage,RSS,Thread Count\n"@
    } else {
        "# Process recording.\n"@ + "# Time elapsed,CPU Usage,RSS\n"@
    }
}

impl ProcessRecording {
    /// The recording as delimited text, as `to_csv_string` writes it.
    pub open spec fn csv_text(&self, add_metadata_comments: bool) -> Seq<char> {
        let body = sample_lines(self.samples@, self.have_thread_counts);
        if add_metadata_comments {
            csv_header(self.have_thread_counts) + body
        } else {
            body
        }
    }

    /// An empty recording of the process `initial_process_id`, started at
    /// `start_timestamp`, on a host with `num_system_threads` logical CPUs (a count of
    /// zero is taken as one).
    pub fn new(
        recorder_params: &ProcessRecordParams,
        initial_process_id: u32,
        start_timestamp: LocalTimestamp,
        num_system_threads: u32,
    ) -> (r: ProcessRecording)
        ensures
            r.start_timestamp == start_timestamp,
            r.normalised_cpu_usage == recorder_params.normalise_cpu_usage,
            r.have_thread_counts == recorder_params.record_thread_count,
            r.initial_process_id == initial_process_id,
            r.current_process_id == initial_process_id,
            r.num_system_threads == if num_system_threads == 0 {
                1
            } else {
                num_system_threads
            },
            r.samples@ == Seq::<Sample>::empty(),
    {
        ProcessRecording {
            start_timestamp,
            normalised_cpu_usage: recorder_params.normalise_cpu_usage,
            have_thread_counts: recorder_params.record_thread_count,
            initial_process_id,
            current_process_id: initial_process_id,
            num_system_threads: if num_system_threads == 0 {
                1
            } else {
                num_system_threads
            },
            samples: Vec::new(),
        }
    }

    /// The recording as delimited text: optionally two comment lines naming the
    /// columns, then one line per sample with three columns, or four where the
    /// recording has thread counts.
    pub fn to_csv_string(&self, add_metadata_comments: bool) -> (r: String)
        ensures
            r@ == self.csv_text(add_metadata_comments),
    {
        let mut out = String::new();
        if add_metadata_comments {
            out.append("# Process recording.\n");
            if self.have_thread_counts {
                out.append("# Time elapsed,CPU Usage,RSS,Thread Count\n");
            } else {
                out.append("# Time elapsed,CPU Usage,RSS\n");
            }
        }
        let ghost prefix = out@;
        let mut i: usize = 0;
        while i < self.samples.len()
            invariant
                i <= self.samples@.len(),
                out@ == prefix + sample_lines(self.samples@.take(i as int), self.have_thread_counts),
            decreases self.samples@.len() - i,
        {
            let ghost before = out@;
            push_sample_line(&mut out, &self.samples[i], self.have_thread_counts);
            proof {
                let t = self.samples@.take(i + 1);
                assert(t.drop_last() =~= self.samples@.take(i as int));
                assert(t.last() == self.samples@[i as int]);
                assert(out@ =~= prefix + sample_lines(t, self.have_thread_counts));
            }
            i = i + 1;
        }
        assert(self.samples@.take(i as int) =~= self.samples@);
        assert(out@ =~= self.csv_text(add_metadata_comments));
        out
    }
}

fn push_one_decimal(out: &mut String, tenths: u64)
    ensures
        final(out)@ == old(out)@ + one_decimal(tenths as nat),
{
    push_decimal(out, tenths / 10);
    proof {
        reveal_strlit(".");
        reveal_strlit("0");
        reveal_strlit("1");
        reveal_strlit("2");
        reveal_strlit("3");
        reveal_strlit("4");
        reveal_strlit("5");
        reveal_strlit("6");
        reveal_strlit("7");
        reveal_strlit("8");
        reveal_strlit("9");
    }
    out.append(".");
    let d = tenths % 10;
    let digit = match d {
        0 => "0",
        1 => "1",
        2 => "2",
        3 => "3",
        4 => "4",
        5 => "5",
        6 => "6",
        7 => "7",
        8 => "8",
        _ => "9",
    };
    out.append(digit);
    assert(final(out)@ =~= old(out)@ + one_decimal(tenths as nat));
}

fn push_sample_line(out: &mut String, s: &Sample, with_threads: bool)
    ensures
        final(out)@ == old(out)@ + sample_line(*s, with_threads),
{
    proof {
        reveal_strlit(",");
        reveal_strlit("\n");
    }
    let elapsed_tenths = s.elapsed_ms / 100 + if s.elapsed_ms % 100 >= 50 {
        1
    } else {
        0
    };
    let cpu_tenths = s.cpu_usage / 10 + if s.cpu_usage % 10 >= 5 {
        1
    } else {
        0
    };
    assert(elapsed_tenths == ms_to_tenths(s.elapsed_ms as nat));
    assert(cpu_tenths == hundredths_to_tenths(s.cpu_usage as nat));
    push_one_decimal(out, elapsed_tenths);
    out.append(",");
    push_one_decimal(out, cpu_tenths);
    out.append(",");
    push_decimal(out, s.curr_rss);
    if with_threads {
        out.append(",");
        push_decimal(out, s.thread_count as u64);
    }
    out.append("\n");
    assert(final(out)@ =~= old(out)@ + sample_line(*s, with_threads));
}

/// How many times `c` occurs in `s`.
pub open spec fn count_char(s: Seq<char>, c: char) -> nat
    decreases s.len(),
{
    if s.len() == 0 {
        0
    } else {
        count_char(s.drop_last(), c) + if s.last() == c {
            1nat
        } else {
            0nat
        }
    }
}

/// The number of comma-separated columns in a line.
pub open spec fn column_count(line: Seq<char>) -> nat {
    count_char(line, ',') + 1
}

proof fn lemma_count_char_concat(a: Seq<char>, b: Seq<char>, c: char)
    ensures
        count_char(a + b, c) == count_char(a, c) + count_char(b, c),
    decreases b.len(),
{
    if b.len() > 0 {
        lemma_count_char_concat(a, b.drop_last(), c);
        assert((a + b).drop_last() =~= a + b.drop_last());
    } else {
        assert(a + b =~= a);
    }
}

proof fn lemma_digit_char_is_digit(d: nat)
    requires
        d < 10,
    ensures
        '0' <= digit_char(d) <= '9',
{
    let ds = seq!['0', '1', '2', '3', '4', '5', '6', '7', '8', '9'];
    assert(ds[0] == '0' && ds[1] == '1' && ds[2] == '2' && ds[3] == '3' && ds[4] == '4');
    assert(ds[5] == '5' && ds[6] == '6' && ds[7] == '7' && ds[8] == '8' && ds[9] == '9');
}

proof fn lemma_decimal_has_no_separator(n: nat, c: char)
    requires
        c == ',' || c == '\n',
    ensures
        count_char(decimal(n), c) == 0,
    decreases n,
{
    if n >= 10 {
        lemma_decimal_has_no_separator(n / 10, c);
        lemma_digit_char_is_digit(n % 10);
        assert(decimal(n).drop_last() =~= decimal(n / 10));
        assert(decimal(n).last() == digit_char(n % 10));
        assert(digit_char(n % 10) != c);
    } else {
        lemma_digit_char_is_digit(n);
        assert(decimal(n).drop_last() =~= Seq::<char>::empty());
        assert(decimal(n).last() == digit_char(n));
        assert(digit_char(n) != c);
        assert(count_char(Seq::<char>::empty(), c) == 0);
    }
}

proof fn lemma_single_char_count(x: char, c: char)
    ensures
        count_char(seq![x], c) == if x == c {
            1nat
        } else {
            0nat
        },
{
    assert(seq![x].drop_last() =~= Seq::<char>::empty());
    assert(count_char(Seq::<char>::empty(), c) == 0);
}

proof fn lemma_one_decimal_has_no_separator(t: nat, c: char)
    requires
        c == ',' || c == '\n',
    ensures
        count_char(one_decimal(t), c) == 0,
{
    let p = decimal(t / 10);
    let q = seq!['.', digit_char(t % 10)];
    lemma_decimal_has_no_separator(t / 10, c);
    lemma_digit_char_is_digit(t % 10);
    lemma_count_char_concat(p, q, c);
    assert(q.drop_last() =~= seq!['.']);
    assert(q.last() == digit_char(t % 10));
    lemma_single_char_count('.', c);
}

proof fn lemma_sample_line_count_of(s: Sample, with_threads: bool, c: char)
    requires
        c == ',' || c == '\n',
    ensures
        count_char(sample_line(s, with_threads), c) == if c == '\n' {
            1nat
        } else if with_threads {
            3nat
        } else {
            2nat
        },
{
    let e = one_decimal(ms_to_tenths(s.elapsed_ms as nat));
    let u = one_decimal(hundredths_to_tenths(s.cpu_usage as nat));
    let m = decimal(s.curr_rss as nat);
    let t = decimal(s.thread_count as nat);
    let comma = seq![','];
    let nl = seq!['\n'];
    lemma_one_decimal_has_no_separator(ms_to_tenths(s.elapsed_ms as nat), c);
    lemma_one_decimal_has_no_separator(hundredths_to_tenths(s.cpu_usage as nat), c);
    lemma_decimal_has_no_separator(s.curr_rss as nat, c);
    lemma_decimal_has_no_separator(s.thread_count as nat, c);
    lemma_single_char_count(',', c);
    lemma_single_char_count('\n', c);
    lemma_count_char_concat(e, comma, c);
    lemma_count_char_concat(e + comma, u, c);
    lemma_count_char_concat(e + comma + u, comma, c);
    lemma_count_char_concat(e + comma + u + comma, m, c);
    let base = e + comma + u + comma + m;
    if with_threads {
        lemma_count_char_concat(base, comma, c);
        lemma_count_char_concat(base + comma, t, c);
        lemma_count_char_concat(base + comma + t, nl, c);
    } else {
        lemma_count_char_concat(base, nl, c);
    }
}

proof fn lemma_sample_line_counts(s: Sample, with_threads: bool)
    ensures
        column_count(sample_line(s, with_threads)) == if with_threads {
            4nat
        } else {
            3nat
        },
        count_char(sample_line(s, with_threads), '\n') == 1,
{
    lemma_sample_line_count_of(s, with_threads, ',');
    lemma_sample_line_count_of(s, with_threads, '\n');
}

proof fn lemma_sample_lines_newlines(samples: Seq<Sample>, with_threads: bool)
    ensures
        count_char(sample_lines(samples, with_threads), '\n') == samples.len(),
    decreases samples.len(),
{
    if samples.len() > 0 {
        lemma_sample_lines_newlines(samples.drop_last(), with_threads);
        lemma_count_char_concat(
            sample_lines(samples.drop_last(), with_threads),
            sample_line(samples.last(), with_threads),
            '\n',
        );
        lemma_sample_line_counts(samples.last(), with_threads);
    }
}

/// An exported recording has one data line per sample, and every data line has four
/// columns where the recording has thread counts and three where it has not; so the
/// column count read back from any data line tells the flag the file was written with.
pub proof fn lemma_export_columns_follow_thread_flag(rec: &ProcessRecording)
    ensures
        count_char(sample_lines(rec.samples@, rec.have_thread_counts), '\n') == rec.samples@.len(),
        forall|i: int|
            0 <= i < rec.samples@.len() ==> column_count(
                #[trigger] sample_line(rec.samples@[i], rec.have_thread_counts),
            ) == if rec.have_thread_counts {
                4nat
            } else {
                3nat
            },
{
    lemma_sample_lines_newlines(rec.samples@, rec.have_thread_counts);
    assert forall|i: int| 0 <= i < rec.samples@.len() implies column_count(
        #[trigger] sample_line(rec.samples@[i], rec.have_thread_counts),
    ) == if rec.have_thread_counts {
        4nat
    } else {
        3nat
    } by {
        lemma_sample_line_counts(rec.samples@[i], rec.have_thread_counts);
    }
}

/// Normalising over a single logical CPU leaves the usage as it is.
pub proof fn lemma_normalising_over_one_cpu_is_identity(cpu_usage: nat)
    ensures
        normalised(cpu_usage, 1) == cpu_usage,
{
}

} // verus!
