//! The parameters of one recording session.

use vstd::prelude::*;

use crate::period::{
    convert_time_period_string_to_ms, lemma_valid_period_is_positive, period_label, period_ms,
};

verus! {

/// The default sampling interval, in milliseconds.
pub const DEFAULT_SAMPLE_INTERVAL_MS: u64 = 1000;

/// How a recording is taken. Built once, before the recording starts.
#[derive(Clone, Debug)]
pub struct ProcessRecordParams {
    /// Time between two samples, in milliseconds; never zero.
    pub sample_interval: u64,
    /// Human-readable form of `sample_interval`, such as `"250 ms"`.
    pub sample_interval_human: String,
    /// Total time to record for, in milliseconds; `None` records until the process ends.
    pub record_duration: Option<u64>,
    /// Human-readable form of `record_duration`; empty without a duration.
    pub record_duration_human: String,
    /// Whether CPU usage is divided by the number of logical CPUs (so that all cores busy reads 100%).
    pub normalise_cpu_usage: bool,
    /// Whether each sample is printed as it is taken.
    pub print_values: bool,
    /// Whether the CPU time of the process's waited-for children is counted too.
    pub record_child_processes: bool,
    /// Whether the process's thread count is recorded.
    pub record_thread_count: bool,
}

/// The interval that a period string gives, or the default where it gives none.
pub open spec fn interval_from(text: Option<String>) -> nat {
    match text {
        Some(t) => match period_ms(t@) {
            Some(ms) => ms,
            None => DEFAULT_SAMPLE_INTERVAL_MS as nat,
        },
        None => DEFAULT_SAMPLE_INTERVAL_MS as nat,
    }
}

/// The label of the interval that a period string gives, or of the default.
pub open spec fn interval_label_from(text: Option<String>) -> Seq<char> {
    match text {
        Some(t) => match period_ms(t@) {
            Some(ms) => period_label(t@),
            None => seq!['1', ' ', 's', 'e', 'c'],
        },
        None => seq!['1', ' ', 's', 'e', 'c'],
    }
}

/// The duration that a period string gives; none where it gives none.
pub open spec fn duration_from(text: Option<String>) -> Option<nat> {
    match text {
        Some(t) => period_ms(t@),
        None => None,
    }
}

/// The label of the duration that a period string gives; empty where it gives none.
pub open spec fn duration_label_from(text: Option<String>) -> Seq<char> {
    match text {
        Some(t) => match period_ms(t@) {
            Some(ms) => period_label(t@),
            None => Seq::empty(),
        },
        None => Seq::empty(),
    }
}

impl ProcessRecordParams {
    /// Whether the parameters ask for what only the kernel-statistics sampler measures.
    pub open spec fn needs_advanced(&self) -> bool {
        self.record_child_processes || self.record_thread_count
    }

    /// Parameters are usable when the sampling interval is positive.
    pub open spec fn wf(&self) -> bool {
        self.sample_interval > 0
    }

    /// Builds parameters from the interval and duration strings given by the user.
    ///
    /// An absent or invalid interval falls back to one second; an absent or invalid
    /// duration means no limit. All switches start off.
    pub fn new(sample_interval: Option<String>, record_duration: Option<String>) -> (r:
        ProcessRecordParams)
        ensures
            r.wf(),
            r.sample_interval == interval_from(sample_interval),
            r.sample_interval_human@ == interval_label_from(sample_interval),
            r.record_duration.is_some() == duration_from(record_duration).is_some(),
            r.record_duration.is_some() ==> r.record_duration->0 == duration_from(
                record_duration,
            )->0,
            r.record_duration_human@ == duration_label_from(record_duration),
            !r.normalise_cpu_usage,
            !r.print_values,
            !r.record_child_processes,
            !r.record_thread_count,
    {
        proof {
            reveal_strlit("1 sec");
        }
        let mut params = ProcessRecordParams {
            sample_interval: DEFAULT_SAMPLE_INTERVAL_MS,
            sample_interval_human: String::from_str("1 sec"),
            record_duration: None,
            record_duration_human: String::new(),
            normalise_cpu_usage: false,
            print_values: false,
            record_child_processes: false,
            record_thread_count: false,
        };
        assert(params.sample_interval_human@ =~= seq!['1', ' ', 's', 'e', 'c']);
        if let Some(text) = &sample_interval {
            if let Some((ms, label)) = convert_time_period_string_to_ms(text.as_str()) {
                proof {
                    lemma_valid_period_is_positive(text@);
                }
                params.sample_interval = ms;
                params.sample_interval_human = label;
            }
        }
        if let Some(text) = &record_duration {
            if let Some((ms, label)) = convert_time_period_string_to_ms(text.as_str()) {
                params.record_duration = Some(ms);
                params.record_duration_human = label;
            }
        }
        params
    }

    /// The line that announces a recording, such as
    /// `"Recording samples every 1 sec until process ends..."`.
    pub fn recording_message(&self) -> (r: String)
        ensures
            r@ == "Recording samples every "@ + self.sample_interval_human@ + if self.record_duration
                is None {
                " until process ends..."@
            } else {
                " for a duration of "@ + self.record_duration_human@ + "..."@
            },
    {
        let mut msg = String::from_str("Recording samples every ");
        msg.append(self.sample_interval_human.as_str());
        if self.record_duration.is_none() {
            msg.append(" until process ends...");
        } else {
            msg.append(" for a duration of ");
            msg.append(self.record_duration_human.as_str());
            msg.append("...");
        }
        msg
    }

    /// A copy of these parameters.
    pub fn duplicate(&self) -> (r: ProcessRecordParams)
        ensures
            r == *self,
    {
        ProcessRecordParams {
            sample_interval: self.sample_interval,
            sample_interval_human: self.sample_interval_human.clone(),
            record_duration: self.record_duration,
            record_duration_human: self.record_duration_human.clone(),
            normalise_cpu_usage: self.normalise_cpu_usage,
            print_values: self.print_values,
            record_child_processes: self.record_child_processes,
            record_thread_count: self.record_thread_count,
        }
    }

    /// Whether the parameters ask for what only the kernel-statistics sampler can measure.
    pub fn needs_advanced_sampler(&self) -> (r: bool)
        ensures
            r == self.needs_advanced(),
    {
        self.record_child_processes || self.record_thread_count
    }

    pub fn set_normalise_cpu_usage(&mut self, normalise_cpu_usage: bool)
        ensures
            *final(self) == (ProcessRecordParams { normalise_cpu_usage, ..*old(self) }),
    {
        self.normalise_cpu_usage = normalise_cpu_usage;
    }

    pub fn set_print_values(&mut self, print_values: bool)
        ensures
            *final(self) == (ProcessRecordParams { print_values, ..*old(self) }),
    {
        self.print_values = print_values;
    }

    pub fn set_record_child_processes(&mut self, record_child_processes: bool)
        ensures
            *final(self) == (ProcessRecordParams { record_child_processes, ..*old(self) }),
    {
        self.record_child_processes = record_child_processes;
    }

    pub fn set_record_thread_count(&mut self, record_thread_count: bool)
        ensures
            *final(self) == (ProcessRecordParams { record_thread_count, ..*old(self) }),
    {
        self.record_thread_count = record_thread_count;
    }
}

} // verus!
