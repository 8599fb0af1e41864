//! The recorder: a process bound to a sampler and a recording, driven by the recording
//! loop's state machine.
//!
//! The loop is `FirstSample -> (Sleep -> Sample -> Check)* -> Finished`. The caller
//! performs each [`LoopAction`] (takes a reading, sleeps, polls the process and the
//! cancellation flag) and hands what it observed back as a [`RecorderEvent`].

use vstd::prelude::*;

use crate::params::ProcessRecordParams;
use crate::sampler::{ProcessSampler, ProcessSamplerAdvanced, ProcessSamplerBasic, ProcessStat, SamplerReading};
use crate::samples::{normalised, LocalTimestamp, ProcessRecording, Sample};

verus! {

/// How the recorded process came to be recorded.
#[derive(Clone, Copy, Debug, PartialEq, Eq, Structural)]
pub enum SessionKind {
    /// An existing process, opened by its identifier.
    Attached,
    /// A child process that the recorder spawned.
    Spawned,
}

/// What a non-blocking poll of a spawned child's exit status gave.
#[derive(Clone, Copy, Debug, PartialEq, Eq, Structural)]
pub enum ChildStatus {
    Running,
    Exited,
    PollFailed,
}

/// What the caller saw of the recorded process at a check.
#[derive(Clone, Copy, Debug, PartialEq, Eq, Structural)]
pub struct ProcessStatus {
    /// The exit-status poll of the spawned child; `None` where there is no child.
    pub child: Option<ChildStatus>,
    /// What the platform library's "is running" query reported.
    pub platform_running: bool,
}

/// Why a recording ended. Each of them ends it successfully.
#[derive(Clone, Copy, Debug, PartialEq, Eq, Structural)]
pub enum StopReason {
    DurationExceeded,
    ProcessExited,
    Cancelled,
}

/// What the loop waits for next.
#[derive(Clone, Copy, Debug, PartialEq, Eq, Structural)]
pub enum LoopPhase {
    /// The immediate sample at the start.
    FirstSample,
    /// The sleep of one interval.
    Sleep,
    /// The sample of a steady-state tick.
    Sample,
    /// The liveness, cancellation and duration checks that close a tick.
    Check,
    Finished(StopReason),
}

/// What the caller is to do next.
#[derive(Clone, Copy, Debug, PartialEq, Eq, Structural)]
pub enum LoopAction {
    /// Read the process for a sample and report `Sampled`.
    TakeSample,
    /// Sleep this many milliseconds and report `Slept`.
    Sleep(u64),
    /// Poll the process's liveness and the cancellation flag, and report `Checked`.
    CheckStatus,
    /// The recording is over.
    Stop(StopReason),
}

/// What the caller observed in performing an action, as the loop's control sees it.
#[derive(Clone, Copy, Debug, PartialEq, Eq, Structural)]
pub enum LoopEvent {
    Sampled,
    Slept,
    Checked { running: bool, cancelled: bool, elapsed_ms: u64 },
}

/// The control of the recording loop: its phase, the interval between ticks and the
/// optional total duration.
#[derive(Clone, Copy, Debug, PartialEq, Eq, Structural)]
pub struct RecordingLoop {
    pub phase: LoopPhase,
    pub sample_interval: u64,
    pub duration_limit: Option<u64>,
}

impl RecordingLoop {
    /// The action that the loop asks for in its phase.
    pub open spec fn action(self) -> LoopAction {
        match self.phase {
            LoopPhase::FirstSample => LoopAction::TakeSample,
            LoopPhase::Sleep => LoopAction::Sleep(self.sample_interval),
            LoopPhase::Sample => LoopAction::TakeSample,
            LoopPhase::Check => LoopAction::CheckStatus,
            LoopPhase::Finished(reason) => LoopAction::Stop(reason),
        }
    }

    /// The loop after an event. An event that the phase does not wait for changes
    /// nothing. A check ends the loop when the process is gone, else when
    /// cancellation was asked for, else when the duration limit is reached.
    pub open spec fn next(self, event: LoopEvent) -> Self {
        match (self.phase, event) {
            (LoopPhase::FirstSample, LoopEvent::Sampled) => RecordingLoop {
                phase: LoopPhase::Sleep,
                ..self
            },
            (LoopPhase::Sleep, LoopEvent::Slept) => RecordingLoop { phase: LoopPhase::Sample, ..self },
            (LoopPhase::Sample, LoopEvent::Sampled) => RecordingLoop { phase: LoopPhase::Check, ..self },
            (LoopPhase::Check, LoopEvent::Checked { running, cancelled, elapsed_ms }) => {
                let phase = if !running {
                    LoopPhase::Finished(StopReason::ProcessExited)
                } else if cancelled {
                    LoopPhase::Finished(StopReason::Cancelled)
                } else if self.duration_limit matches Some(limit) && elapsed_ms >= limit {
                    LoopPhase::Finished(StopReason::DurationExceeded)
                } else {
                    LoopPhase::Sleep
                };
                RecordingLoop { phase, ..self }
            },
            _ => self,
        }
    }

    /// A loop about to take its first sample.
    pub fn new(sample_interval: u64, duration_limit: Option<u64>) -> (r: RecordingLoop)
        ensures
            r == (RecordingLoop { phase: LoopPhase::FirstSample, sample_interval, duration_limit }),
    {
        RecordingLoop { phase: LoopPhase::FirstSample, sample_interval, duration_limit }
    }

    /// The action that the loop asks for now.
    pub fn next_action(&self) -> (r: LoopAction)
        ensures
            r == self.action(),
    {
        match self.phase {
            LoopPhase::FirstSample => LoopAction::TakeSample,
            LoopPhase::Sleep => LoopAction::Sleep(self.sample_interval),
            LoopPhase::Sample => LoopAction::TakeSample,
            LoopPhase::Check => LoopAction::CheckStatus,
            LoopPhase::Finished(reason) => LoopAction::Stop(reason),
        }
    }

    /// Moves the loop on by one event and returns the action that it asks for then.
    pub fn step(&mut self, event: LoopEvent) -> (r: LoopAction)
        ensures
            *final(self) == old(self).next(event),
            r == final(self).action(),
    {
        match (self.phase, event) {
            (LoopPhase::FirstSample, LoopEvent::Sampled) => {
                self.phase = LoopPhase::Sleep;
            },
            (LoopPhase::Sleep, LoopEvent::Slept) => {
                self.phase = LoopPhase::Sample;
            },
            (LoopPhase::Sample, LoopEvent::Sampled) => {
                self.phase = LoopPhase::Check;
            },
            (LoopPhase::Check, LoopEvent::Checked { running, cancelled, elapsed_ms }) => {
                self.phase = if !running {
                    LoopPhase::Finished(StopReason::ProcessExited)
                } else if cancelled {
                    LoopPhase::Finished(StopReason::Cancelled)
                } else {
                    match self.duration_limit {
                        Some(limit) if elapsed_ms >= limit => LoopPhase::Finished(
                            StopReason::DurationExceeded,
                        ),
                        _ => LoopPhase::Sleep,
                    }
                };
            },
            _ => {},
        }
        self.next_action()
    }
}

/// What the caller could read of the kernel's per-process statistics when setting up a
/// sampler.
#[derive(Clone, Copy, Debug, PartialEq, Eq, Structural)]
pub enum KernelStatsProbe {
    /// The platform has no such statistics.
    Unsupported,
    /// The statistics of the process could not be read.
    ReadFailed,
    /// The first reading, and the monotonic instant of it in microseconds.
    Read { stat: ProcessStat, now_us: u64 },
}

/// An advanced sampler fresh from `probe`'s reading, for the process `pid`, set as
/// `params` ask.
pub open spec fn set_up_from_probe(
    a: ProcessSamplerAdvanced,
    pid: u32,
    params: ProcessRecordParams,
    probe: KernelStatsProbe,
) -> bool {
    match probe {
        KernelStatsProbe::Read { stat, now_us } => {
            &&& a.tps > 0
            &&& a.pid == pid
            &&& a.record_children == params.record_child_processes
            &&& a.record_thread_count == params.record_thread_count
            &&& a.last_utime == stat.utime
            &&& a.last_stime == stat.stime
            &&& a.last_cutime == stat.cutime
            &&& a.last_cstime == stat.cstime
            &&& a.last_time_us == now_us
        },
        _ => false,
    }
}

/// What the caller observed in performing an action.
#[derive(Clone, Copy, Debug, PartialEq, Eq, Structural)]
pub enum RecorderEvent {
    /// A reading of the process, taken `elapsed_ms` after the recording started.
    Sampled { reading: SamplerReading, elapsed_ms: u64 },
    Slept,
    /// The process's status and the cancellation flag, `elapsed_ms` after the start.
    Checked { status: ProcessStatus, cancelled: bool, elapsed_ms: u64 },
}

/// Whether the process counts as running. A spawned child is judged by its exit
/// status alone, since the platform library may still report a child that exited as
/// running; an attached process by the platform's query.
pub open spec fn is_running(process_id: Option<u32>, session: SessionKind, status: ProcessStatus) -> bool {
    process_id is Some && match session {
        SessionKind::Attached => status.platform_running,
        SessionKind::Spawned => status.child == Some(ChildStatus::Running),
    }
}

/// Samples in order of time: no elapsed time is below an earlier one.
pub open spec fn in_time_order(samples: Seq<Sample>) -> bool {
    forall|i: int, j: int|
        0 <= i < j < samples.len() ==> #[trigger] samples[i].elapsed_ms <= #[trigger] samples[j].elapsed_ms
}

/// The time at which a sample taken `elapsed_ms` after the start is recorded: never
/// before the last sample already recorded, so that time never runs backwards.
pub open spec fn recorded_time(samples: Seq<Sample>, elapsed_ms: u64) -> u64 {
    if samples.len() > 0 && samples.last().elapsed_ms > elapsed_ms {
        samples.last().elapsed_ms
    } else {
        elapsed_ms
    }
}

/// A sample as recorded: stamped with its time since the start and, where asked for,
/// with its CPU usage divided over the logical CPUs.
pub open spec fn stamped(s: Sample, elapsed_ms: u64, normalise: bool, cpus: u32) -> Sample {
    Sample {
        elapsed_ms,
        cpu_usage: if normalise {
            normalised(s.cpu_usage as nat, cpus as nat) as u64
        } else {
            s.cpu_usage
        },
        ..s
    }
}

/// A recording bound to a process, a sampler and the loop's control.
pub struct ProcessRecorderCore {
    pub recorder_params: ProcessRecordParams,
    pub session: SessionKind,
    /// The recorded process; `None` until one is bound.
    pub process_id: Option<u32>,
    pub print_values: bool,
    pub recording: ProcessRecording,
    /// The sampler; `None` until `init_sampler` succeeds.
    pub sampler: Option<ProcessSampler>,
    pub control: RecordingLoop,
}

impl ProcessRecorderCore {
    /// The core is consistent: a positive interval, at least one logical CPU, samples
    /// in order of time, and a loop that follows the parameters.
    pub open spec fn wf(&self) -> bool {
        &&& self.recorder_params.wf()
        &&& in_time_order(self.recording.samples@)
        &&& self.recording.num_system_threads > 0
        &&& self.control.sample_interval == self.recorder_params.sample_interval
        &&& self.control.duration_limit == self.recorder_params.record_duration
    }

    /// What the loop changes in the core: the control, the sampler and the samples.
    pub open spec fn state(&self) -> (RecordingLoop, Option<ProcessSampler>, Seq<Sample>) {
        (self.control, self.sampler, self.recording.samples@)
    }

    /// The two cores agree but for what the loop changes.
    pub open spec fn same_setup(&self, other: &Self) -> bool {
        &&& self.recorder_params == other.recorder_params
        &&& self.session == other.session
        &&& self.process_id == other.process_id
        &&& self.print_values == other.print_values
        &&& self.recording.start_timestamp == other.recording.start_timestamp
        &&& self.recording.normalised_cpu_usage == other.recording.normalised_cpu_usage
        &&& self.recording.have_thread_counts == other.recording.have_thread_counts
        &&& self.recording.initial_process_id == other.recording.initial_process_id
        &&& self.recording.current_process_id == other.recording.current_process_id
        &&& self.recording.num_system_threads == other.recording.num_system_threads
    }

    /// The sampler and samples after one reading taken `elapsed_ms` after the start,
    /// and the sample recorded: the sampler moves on, and the sample it gives, if any,
    /// is stamped (with `recorded_time`) and appended. Without a process or a sampler nothing happens.
    pub open spec fn after_sample(
        &self,
        sampler: Option<ProcessSampler>,
        samples: Seq<Sample>,
        reading: SamplerReading,
        elapsed_ms: u64,
    ) -> (Option<ProcessSampler>, Seq<Sample>, Option<Sample>) {
        match (self.process_id, sampler) {
            (Some(_), Some(sm)) => {
                let (next_sampler, outcome) = sm.next(reading);
                match outcome {
                    Some(x) => {
                        let t = stamped(
                            x,
                            recorded_time(samples, elapsed_ms),
                            self.recorder_params.normalise_cpu_usage,
                            self.recording.num_system_threads,
                        );
                        (Some(next_sampler), samples.push(t), Some(t))
                    },
                    None => (Some(next_sampler), samples, None),
                }
            },
            _ => (sampler, samples, None),
        }
    }

    /// What an event does to the loop's state. A reading is taken only where the loop
    /// waits for one; a check is judged by `is_running`.
    pub open spec fn next_state(
        &self,
        st: (RecordingLoop, Option<ProcessSampler>, Seq<Sample>),
        event: RecorderEvent,
    ) -> (RecordingLoop, Option<ProcessSampler>, Seq<Sample>) {
        let (control, sampler, samples) = st;
        match event {
            RecorderEvent::Sampled { reading, elapsed_ms } => {
                if control.phase == LoopPhase::FirstSample || control.phase == LoopPhase::Sample {
                    let (sm, ss, _) = self.after_sample(sampler, samples, reading, elapsed_ms);
                    (control.next(LoopEvent::Sampled), sm, ss)
                } else {
                    st
                }
            },
            RecorderEvent::Slept => (control.next(LoopEvent::Slept), sampler, samples),
            RecorderEvent::Checked { status, cancelled, elapsed_ms } => (
                control.next(
                    LoopEvent::Checked {
                        running: is_running(self.process_id, self.session, status),
                        cancelled,
                        elapsed_ms,
                    },
                ),
                sampler,
                samples,
            ),
        }
    }

    /// The state after a run of events, in order.
    pub open spec fn run(
        &self,
        st: (RecordingLoop, Option<ProcessSampler>, Seq<Sample>),
        events: Seq<RecorderEvent>,
    ) -> (RecordingLoop, Option<ProcessSampler>, Seq<Sample>)
        decreases events.len(),
    {
        if events.len() == 0 {
            st
        } else {
            self.run(self.next_state(st, events[0]), events.skip(1))
        }
    }

    /// A core for a session of the given kind, with an empty recording started at
    /// `start_timestamp` on a host of `num_system_threads` logical CPUs, no process bound yet, and the loop at its
    /// first sample.
    pub fn from_params(
        params: &ProcessRecordParams,
        session: SessionKind,
        start_timestamp: LocalTimestamp,
        num_system_threads: u32,
    ) -> (r: ProcessRecorderCore)
        requires
            params.wf(),
        ensures
            r.wf(),
            r.recorder_params == *params,
            r.session == session,
            r.process_id is None,
            r.print_values == params.print_values,
            r.recording.samples@ == Seq::<Sample>::empty(),
            r.recording.start_timestamp == start_timestamp,
            r.recording.normalised_cpu_usage == params.normalise_cpu_usage,
            r.recording.have_thread_counts == params.record_thread_count,
            r.recording.num_system_threads == if num_system_threads == 0 {
                1
            } else {
                num_system_threads
            },
            r.sampler is None,
            r.control.phase == LoopPhase::FirstSample,
    {
        ProcessRecorderCore {
            recorder_params: params.duplicate(),
            session,
            process_id: None,
            print_values: params.print_values,
            recording: ProcessRecording::new(params, 0, start_timestamp, num_system_threads),
            sampler: None,
            control: RecordingLoop::new(params.sample_interval, params.record_duration),
        }
    }

    /// Binds the process `pid`; the recording takes it as its process.
    pub fn bind_process(&mut self, pid: u32)
        ensures
            *final(self) == (ProcessRecorderCore {
                process_id: Some(pid),
                recording: ProcessRecording {
                    initial_process_id: pid,
                    current_process_id: pid,
                    ..old(self).recording
                },
                ..*old(self)
            }),
    {
        self.process_id = Some(pid);
        self.recording.initial_process_id = pid;
        self.recording.current_process_id = pid;
    }

    /// Whether the parameters need the kernel-statistics sampler.
    pub fn needs_advanced_sampler(&self) -> (r: bool)
        ensures
            r == self.recorder_params.needs_advanced(),
    {
        self.recorder_params.needs_advanced_sampler()
    }

    /// Chooses and sets up the sampler, once, before sampling starts. The basic sampler
    /// serves unless the parameters need the advanced one, which is built from `probe`.
    /// Fails without a bound process, where the advanced sampler is needed and the
    /// statistics are unsupported or unreadable, or where its setup fails.
    pub fn init_sampler(&mut self, probe: KernelStatsProbe) -> (r: bool)
        ensures
            final(self).recorder_params == old(self).recorder_params,
            final(self).session == old(self).session,
            final(self).process_id == old(self).process_id,
            final(self).print_values == old(self).print_values,
            final(self).recording == old(self).recording,
            final(self).control == old(self).control,
            !r ==> final(self).sampler == old(self).sampler,
            old(self).process_id is None ==> !r,
            old(self).process_id is Some && !old(self).recorder_params.needs_advanced() ==> r
                && final(self).sampler == Some(
                ProcessSampler::Basic(ProcessSamplerBasic { pid: old(self).process_id->0 }),
            ),
            old(self).recorder_params.needs_advanced() && !(probe is Read) ==> !r,
            r && old(self).recorder_params.needs_advanced() ==> (final(self).sampler matches Some(
                ProcessSampler::Advanced(a),
            ) && set_up_from_probe(a, old(self).process_id->0, old(self).recorder_params, probe)),
    {
        let pid = match self.process_id {
            Some(pid) => pid,
            None => {
                return false;
            },
        };
        if self.recorder_params.needs_advanced_sampler() {
            match probe {
                KernelStatsProbe::Read { stat, now_us } => {
                    match ProcessSamplerAdvanced::new(&self.recorder_params, pid, stat, now_us) {
                        Some(a) => {
                            self.sampler = Some(ProcessSampler::Advanced(a));
                            true
                        },
                        None => false,
                    }
                },
                _ => false,
            }
        } else {
            self.sampler = Some(ProcessSampler::Basic(ProcessSamplerBasic::new(pid)));
            true
        }
    }

    /// Whether the process counts as running, as `is_running` states.
    pub fn process_is_running(&self, status: &ProcessStatus) -> (r: bool)
        ensures
            r == is_running(self.process_id, self.session, *status),
    {
        if self.process_id.is_none() {
            return false;
        }
        match self.session {
            SessionKind::Attached => status.platform_running,
            SessionKind::Spawned => match status.child {
                Some(ChildStatus::Running) => true,
                _ => false,
            },
        }
    }

    /// Takes one reading, `elapsed_ms` after the start, and appends the sample it
    /// gives; a tick that the sampler skips is dropped without an error. A time before
    /// the last sample's is raised to it. Returns the sample as recorded.
    pub fn record_sample(&mut self, reading: SamplerReading, elapsed_ms: u64) -> (r: Option<Sample>)
        requires
            old(self).wf(),
        ensures
            final(self).same_setup(old(self)),
            final(self).control == old(self).control,
            (final(self).sampler, final(self).recording.samples@, r) == old(self).after_sample(
                old(self).sampler,
                old(self).recording.samples@,
                reading,
                elapsed_ms,
            ),
            final(self).wf(),
    {
        if self.process_id.is_none() {
            return None;
        }
        let outcome = match &mut self.sampler {
            Some(sampler) => sampler.get_sample(reading),
            None => {
                return None;
            },
        };
        match outcome {
            Some(s) => {
                let cpu_usage = if self.recorder_params.normalise_cpu_usage {
                    s.cpu_usage / self.recording.num_system_threads as u64
                } else {
                    s.cpu_usage
                };
                let n = self.recording.samples.len();
                let recorded_ms = if n > 0 && self.recording.samples[n - 1].elapsed_ms
                    > elapsed_ms {
                    self.recording.samples[n - 1].elapsed_ms
                } else {
                    elapsed_ms
                };
                let t = Sample { elapsed_ms: recorded_ms, cpu_usage, ..s };
                let ghost before = self.recording.samples@;
                self.recording.samples.push(t);
                proof {
                    let after = self.recording.samples@;
                    assert forall|i: int, j: int| 0 <= i < j < after.len() implies #[trigger] after[i].elapsed_ms
                        <= #[trigger] after[j].elapsed_ms by {
                        if j == after.len() - 1 && i < before.len() {
                            assert(before[i].elapsed_ms <= before.last().elapsed_ms || i
                                == before.len() - 1);
                        }
                    }
                }
                Some(t)
            },
            None => None,
        }
    }

    /// Moves the recorder on by one event and returns the action it asks for then;
    /// see `next`. Returns also the sample recorded, if the event recorded one.
    pub fn step(&mut self, event: RecorderEvent) -> (r: (LoopAction, Option<Sample>))
        requires
            old(self).wf(),
        ensures
            final(self).same_setup(old(self)),
            final(self).state() == old(self).next_state(old(self).state(), event),
            final(self).wf(),
            r.0 == final(self).control.action(),
            r.1 == match event {
                RecorderEvent::Sampled { reading, elapsed_ms } => if old(self).control.phase
                    == LoopPhase::FirstSample || old(self).control.phase == LoopPhase::Sample {
                    old(self).after_sample(
                        old(self).sampler,
                        old(self).recording.samples@,
                        reading,
                        elapsed_ms,
                    ).2
                } else {
                    None
                },
                _ => None,
            },
    {
        match event {
            RecorderEvent::Sampled { reading, elapsed_ms } => {
                if self.control.phase == LoopPhase::FirstSample || self.control.phase
                    == LoopPhase::Sample {
                    let recorded = self.record_sample(reading, elapsed_ms);
                    let action = self.control.step(LoopEvent::Sampled);
                    (action, recorded)
                } else {
                    (self.control.next_action(), None)
                }
            },
            RecorderEvent::Slept => (self.control.step(LoopEvent::Slept), None),
            RecorderEvent::Checked { status, cancelled, elapsed_ms } => {
                let running = self.process_is_running(&status);
                (self.control.step(LoopEvent::Checked { running, cancelled, elapsed_ms }), None)
            },
        }
    }

    /// The action that the recorder asks for now.
    pub fn next_action(&self) -> (r: LoopAction)
        ensures
            r == self.control.action(),
    {
        self.control.next_action()
    }
}

/// A recorder of a process that already runs, opened by its identifier.
pub struct ProcessRecorderAttach {
    pub record_params: ProcessRecordParams,
    pub core: ProcessRecorderCore,
}

impl ProcessRecorderAttach {
    /// A recorder of the process `pid`, started at `start_timestamp`, on a host of
    /// `num_system_threads` logical CPUs.
    pub fn new(
        pid: u32,
        record_params: &ProcessRecordParams,
        start_timestamp: LocalTimestamp,
        num_system_threads: u32,
    ) -> (r: ProcessRecorderAttach)
        requires
            record_params.wf(),
        ensures
            r.record_params == *record_params,
            r.core.wf(),
            r.core.recorder_params == *record_params,
            r.core.session == SessionKind::Attached,
            r.core.process_id == Some(pid),
            r.core.sampler is None,
            r.core.control.phase == LoopPhase::FirstSample,
            r.core.recording.samples@ == Seq::<Sample>::empty(),
            r.core.recording.initial_process_id == pid,
            r.core.recording.current_process_id == pid,
            r.core.recording.start_timestamp == start_timestamp,
    {
        let mut core = ProcessRecorderCore::from_params(
            record_params,
            SessionKind::Attached,
            start_timestamp,
            num_system_threads,
        );
        core.bind_process(pid);
        ProcessRecorderAttach { record_params: record_params.duplicate(), core }
    }

    pub fn get_recording(&self) -> (r: &ProcessRecording)
        ensures
            *r == self.core.recording,
    {
        &self.core.recording
    }
}

/// A recorder of a command that it spawns itself.
pub struct ProcessRecorderRun {
    pub record_params: ProcessRecordParams,
    pub command: String,
    pub args: Option<Vec<String>>,
    pub core: ProcessRecorderCore,
}

impl ProcessRecorderRun {
    /// A recorder that is to run `command` with `args`, started at `start_timestamp`,
    /// on a host of `num_system_threads` logical CPUs; `None` for an empty command.
    pub fn new(
        command: &str,
        args: Option<Vec<String>>,
        record_params: &ProcessRecordParams,
        start_timestamp: LocalTimestamp,
        num_system_threads: u32,
    ) -> (r: Option<ProcessRecorderRun>)
        requires
            record_params.wf(),
        ensures
            r is Some <==> command@.len() > 0,
            r matches Some(rec) ==> {
                &&& rec.command@ == command@
                &&& rec.args == args
                &&& rec.record_params == *record_params
                &&& rec.core.wf()
                &&& rec.core.recorder_params == *record_params
                &&& rec.core.session == SessionKind::Spawned
                &&& rec.core.process_id is None
                &&& rec.core.sampler is None
                &&& rec.core.control.phase == LoopPhase::FirstSample
                &&& rec.core.recording.samples@ == Seq::<Sample>::empty()
                &&& rec.core.recording.start_timestamp == start_timestamp
            },
    {
        if command.unicode_len() == 0 {
            return None;
        }
        Some(
            ProcessRecorderRun {
                record_params: record_params.duplicate(),
                command: command.to_owned(),
                args,
                core: ProcessRecorderCore::from_params(
                    record_params,
                    SessionKind::Spawned,
                    start_timestamp,
                    num_system_threads,
                ),
            },
        )
    }

    /// Binds the spawned child `pid`.
    pub fn bind_child(&mut self, pid: u32)
        ensures
            final(self).record_params == old(self).record_params,
            final(self).command == old(self).command,
            final(self).args == old(self).args,
            final(self).core == (ProcessRecorderCore {
                process_id: Some(pid),
                recording: ProcessRecording {
                    initial_process_id: pid,
                    current_process_id: pid,
                    ..old(self).core.recording
                },
                ..old(self).core
            }),
    {
        self.core.bind_process(pid);
    }

    pub fn get_recording(&self) -> (r: &ProcessRecording)
        ensures
            *r == self.core.recording,
    {
        &self.core.recording
    }
}

/// One steady-state tick that was not cancelled: the sleep, a reading with the time
/// it was taken, and the status at the check with the time of the check.
pub open spec fn tick_events(reading: SamplerReading, sampled_ms: u64, status: ProcessStatus, checked_ms: u64) -> Seq<RecorderEvent> {
    seq![
        RecorderEvent::Slept,
        RecorderEvent::Sampled { reading, elapsed_ms: sampled_ms },
        RecorderEvent::Checked { status, cancelled: false, elapsed_ms: checked_ms },
    ]
}

impl ProcessRecorderCore {
    /// The state after uncancelled ticks, in order.
    pub open spec fn run_ticks(
        &self,
        st: (RecordingLoop, Option<ProcessSampler>, Seq<Sample>),
        ticks: Seq<(SamplerReading, u64, ProcessStatus, u64)>,
    ) -> (RecordingLoop, Option<ProcessSampler>, Seq<Sample>)
        decreases ticks.len(),
    {
        if ticks.len() == 0 {
            st
        } else {
            let (reading, sampled_ms, status, checked_ms) = ticks[0];
            self.run_ticks(
                self.run(st, tick_events(reading, sampled_ms, status, checked_ms)),
                ticks.skip(1),
            )
        }
    }

    /// The sampler, starting as `sampler`, skips every reading of the ticks in turn.
    pub open spec fn skips_all(
        &self,
        sampler: Option<ProcessSampler>,
        ticks: Seq<(SamplerReading, u64, ProcessStatus, u64)>,
    ) -> bool
        decreases ticks.len(),
    {
        if ticks.len() == 0 {
            true
        } else {
            let r = self.after_sample(sampler, Seq::empty(), ticks[0].0, ticks[0].1);
            r.2 is None && self.skips_all(r.0, ticks.skip(1))
        }
    }
}

/// Cores with the same setup move alike: so the laws below, stated over the state that
/// `step` reports, hold of any run of `step` calls, which keep the setup.
pub proof fn lemma_same_setup_same_steps(
    a: ProcessRecorderCore,
    b: ProcessRecorderCore,
    st: (RecordingLoop, Option<ProcessSampler>, Seq<Sample>),
    events: Seq<RecorderEvent>,
)
    requires
        a.same_setup(&b),
    ensures
        a.run(st, events) == b.run(st, events),
    decreases events.len(),
{
    if events.len() > 0 {
        assert(a.next_state(st, events[0]) == b.next_state(st, events[0]));
        lemma_same_setup_same_steps(a, b, a.next_state(st, events[0]), events.skip(1));
    }
}

/// One uncancelled tick from a loop waiting to sleep, while the process runs: the
/// reading's sample, if the sampler gives one, is appended; the loop stops for its
/// duration where the check is at or past the limit, and waits to sleep again otherwise.
pub proof fn lemma_running_tick(
    core: ProcessRecorderCore,
    st: (RecordingLoop, Option<ProcessSampler>, Seq<Sample>),
    reading: SamplerReading,
    sampled_ms: u64,
    status: ProcessStatus,
    checked_ms: u64,
)
    requires
        st.0.phase == LoopPhase::Sleep,
        is_running(core.process_id, core.session, status),
    ensures
        ({
            let end = core.run(st, tick_events(reading, sampled_ms, status, checked_ms));
            let sampled = core.after_sample(st.1, st.2, reading, sampled_ms);
            &&& end.1 == sampled.0
            &&& end.2 == sampled.1
            &&& end.0 == (RecordingLoop {
                phase: if st.0.duration_limit matches Some(limit) && checked_ms >= limit {
                    LoopPhase::Finished(StopReason::DurationExceeded)
                } else {
                    LoopPhase::Sleep
                },
                ..st.0
            })
        }),
{
    let evs = tick_events(reading, sampled_ms, status, checked_ms);
    let s1 = core.next_state(st, evs[0]);
    let s2 = core.next_state(s1, evs[1]);
    let s3 = core.next_state(s2, evs[2]);
    assert(evs.skip(1).skip(1).skip(1) =~= Seq::<RecorderEvent>::empty());
    assert(evs.skip(1)[0] == evs[1]);
    assert(evs.skip(1).skip(1)[0] == evs[2]);
    assert(core.run(s3, evs.skip(1).skip(1).skip(1)) == s3);
    assert(core.run(s2, evs.skip(1).skip(1)) == s3);
    assert(core.run(s1, evs.skip(1)) == s3);
}

/// Whether the sampler gives a sample, whatever the samples recorded so far.
proof fn lemma_outcome_ignores_samples(
    core: ProcessRecorderCore,
    sampler: Option<ProcessSampler>,
    a: Seq<Sample>,
    b: Seq<Sample>,
    reading: SamplerReading,
    elapsed_ms: u64,
)
    ensures
        core.after_sample(sampler, a, reading, elapsed_ms).0 == core.after_sample(
            sampler,
            b,
            reading,
            elapsed_ms,
        ).0,
        core.after_sample(sampler, a, reading, elapsed_ms).2 is None <==> core.after_sample(
            sampler,
            b,
            reading,
            elapsed_ms,
        ).2 is None,
        core.after_sample(sampler, a, reading, elapsed_ms).2 is None ==> core.after_sample(
            sampler,
            a,
            reading,
            elapsed_ms,
        ).1 == a,
        core.after_sample(sampler, a, reading, elapsed_ms).2 is Some ==> core.after_sample(
            sampler,
            a,
            reading,
            elapsed_ms,
        ).1 == a.push(core.after_sample(sampler, a, reading, elapsed_ms).2->0),
{
}

/// Ticks whose readings the sampler skips add no sample and, where the process runs and
/// the duration limit is not reached, do not end the loop: after any number of them in
/// a row the recording has the same samples and the loop waits to sleep again, and a
/// following tick whose reading gives a sample appends exactly that one sample.
pub proof fn lemma_skipped_ticks_record_nothing(
    core: ProcessRecorderCore,
    st: (RecordingLoop, Option<ProcessSampler>, Seq<Sample>),
    ticks: Seq<(SamplerReading, u64, ProcessStatus, u64)>,
)
    requires
        st.0.phase == LoopPhase::Sleep,
        core.skips_all(st.1, ticks),
        forall|i: int|
            0 <= i < ticks.len() ==> is_running(core.process_id, core.session, #[trigger] ticks[i].2),
        forall|i: int|
            0 <= i < ticks.len() ==> !(st.0.duration_limit matches Some(limit) && #[trigger] ticks[i].3
                >= limit),
    ensures
        core.run_ticks(st, ticks).0 == st.0,
        core.run_ticks(st, ticks).2 == st.2,
        forall|reading: SamplerReading, sampled_ms: u64, status: ProcessStatus, checked_ms: u64|
            is_running(core.process_id, core.session, status) && core.after_sample(
                core.run_ticks(st, ticks).1,
                st.2,
                reading,
                sampled_ms,
            ).2 is Some ==> (#[trigger] core.run(
                core.run_ticks(st, ticks),
                tick_events(reading, sampled_ms, status, checked_ms),
            )).2 == st.2.push(
                core.after_sample(core.run_ticks(st, ticks).1, st.2, reading, sampled_ms).2->0,
            ),
    decreases ticks.len(),
{
    if ticks.len() > 0 {
        let (reading, sampled_ms, status, checked_ms) = ticks[0];
        lemma_running_tick(core, st, reading, sampled_ms, status, checked_ms);
        lemma_outcome_ignores_samples(core, st.1, st.2, Seq::empty(), reading, sampled_ms);
        let s3 = core.run(st, tick_events(reading, sampled_ms, status, checked_ms));
        let rest = ticks.skip(1);
        assert forall|i: int| 0 <= i < rest.len() implies is_running(
            core.process_id,
            core.session,
            #[trigger] rest[i].2,
        ) by {
            assert(rest[i] == ticks[i + 1]);
        }
        assert forall|i: int| 0 <= i < rest.len() implies !(st.0.duration_limit matches Some(
            limit,
        ) && #[trigger] rest[i].3 >= limit) by {
            assert(rest[i] == ticks[i + 1]);
        }
        lemma_skipped_ticks_record_nothing(core, s3, rest);
    }
    let end = core.run_ticks(st, ticks);
    assert forall|reading: SamplerReading, sampled_ms: u64, status: ProcessStatus, checked_ms: u64|
        is_running(core.process_id, core.session, status) && core.after_sample(
            end.1,
            st.2,
            reading,
            sampled_ms,
        ).2 is Some implies (#[trigger] core.run(end, tick_events(reading, sampled_ms, status, checked_ms))).2
        == st.2.push(core.after_sample(end.1, st.2, reading, sampled_ms).2->0) by {
        lemma_running_tick(core, end, reading, sampled_ms, status, checked_ms);
        lemma_outcome_ignores_samples(core, end.1, st.2, st.2, reading, sampled_ms);
    }
}

/// The sampler, starting as `sampler`, gives a sample for every reading of the ticks in
/// turn.
pub open spec fn yields_all(
    core: ProcessRecorderCore,
    sampler: Option<ProcessSampler>,
    ticks: Seq<(SamplerReading, u64, ProcessStatus, u64)>,
) -> bool
    decreases ticks.len(),
{
    if ticks.len() == 0 {
        true
    } else {
        let r = core.after_sample(sampler, Seq::empty(), ticks[0].0, ticks[0].1);
        r.2 is Some && yields_all(core, r.0, ticks.skip(1))
    }
}

/// With a duration limit, a loop whose process runs and which is not cancelled keeps a
/// sample of every tick and stops, for its duration, at the first check at or past the
/// limit; the samples taken before are kept, and the sample of that last tick too.
pub proof fn lemma_duration_cutoff(
    core: ProcessRecorderCore,
    st: (RecordingLoop, Option<ProcessSampler>, Seq<Sample>),
    ticks: Seq<(SamplerReading, u64, ProcessStatus, u64)>,
    limit: u64,
)
    requires
        st.0.phase == LoopPhase::Sleep,
        st.0.duration_limit == Some(limit),
        ticks.len() > 0,
        yields_all(core, st.1, ticks),
        forall|i: int|
            0 <= i < ticks.len() ==> is_running(core.process_id, core.session, #[trigger] ticks[i].2),
        forall|i: int| 0 <= i < ticks.len() - 1 ==> #[trigger] ticks[i].3 < limit,
        ticks.last().3 >= limit,
    ensures
        core.run_ticks(st, ticks).0.phase == LoopPhase::Finished(StopReason::DurationExceeded),
        core.run_ticks(st, ticks).2.len() == st.2.len() + ticks.len(),
        core.run_ticks(st, ticks).2.take(st.2.len() as int) == st.2,
    decreases ticks.len(),
{
    let (reading, sampled_ms, status, checked_ms) = ticks[0];
    lemma_running_tick(core, st, reading, sampled_ms, status, checked_ms);
    lemma_outcome_ignores_samples(core, st.1, st.2, Seq::empty(), reading, sampled_ms);
    let s3 = core.run(st, tick_events(reading, sampled_ms, status, checked_ms));
    let rest = ticks.skip(1);
    assert(s3.2.len() == st.2.len() + 1);
    assert(s3.2.take(st.2.len() as int) =~= st.2);
    if ticks.len() == 1 {
        assert(rest =~= Seq::<(SamplerReading, u64, ProcessStatus, u64)>::empty());
        assert(core.run_ticks(s3, rest) == s3);
    } else {
        assert(ticks[0].3 < limit);
        assert(rest.last() == ticks.last());
        assert forall|i: int| 0 <= i < rest.len() implies is_running(
            core.process_id,
            core.session,
            #[trigger] rest[i].2,
        ) by {
            assert(rest[i] == ticks[i + 1]);
        }
        assert forall|i: int| 0 <= i < rest.len() - 1 implies #[trigger] rest[i].3 < limit by {
            assert(rest[i] == ticks[i + 1]);
        }
        lemma_duration_cutoff(core, s3, rest, limit);
        let end = core.run_ticks(s3, rest);
        assert(end.2.take(s3.2.len() as int) == s3.2);
        assert(end.2.take(st.2.len() as int) =~= s3.2.take(st.2.len() as int));
    }
}

/// Cancellation takes effect at the first check after it is seen, whatever the duration
/// limit: from any point of a running loop, that check comes after at most one sleep.
pub proof fn lemma_cancellation_stops_within_one_sleep(ctl: RecordingLoop, running: bool, elapsed_ms: u64)
    requires
        !(ctl.phase is Finished),
    ensures
        ({
            let chk = LoopEvent::Checked { running, cancelled: true, elapsed_ms };
            let stop = LoopPhase::Finished(
                if running {
                    StopReason::Cancelled
                } else {
                    StopReason::ProcessExited
                },
            );
            &&& ctl.phase == LoopPhase::Check ==> ctl.next(chk).phase == stop
            &&& ctl.phase == LoopPhase::Sample ==> ctl.next(LoopEvent::Sampled).action()
                == LoopAction::CheckStatus && ctl.next(LoopEvent::Sampled).next(chk).phase == stop
            &&& ctl.phase == LoopPhase::Sleep ==> ctl.next(LoopEvent::Slept).action()
                == LoopAction::TakeSample && ctl.next(LoopEvent::Slept).next(
                LoopEvent::Sampled,
            ).action() == LoopAction::CheckStatus && ctl.next(LoopEvent::Slept).next(
                LoopEvent::Sampled,
            ).next(chk).phase == stop
            &&& ctl.phase == LoopPhase::FirstSample ==> ctl.next(LoopEvent::Sampled).action()
                == LoopAction::Sleep(ctl.sample_interval) && ctl.next(LoopEvent::Sampled).next(
                LoopEvent::Slept,
            ).next(LoopEvent::Sampled).next(chk).phase == stop
        }),
{
}

/// A check at or past the duration limit ends the loop, and the sample of the tick
/// that reached the limit stays in the recording.
pub proof fn lemma_boundary_sample_is_kept(
    core: ProcessRecorderCore,
    st: (RecordingLoop, Option<ProcessSampler>, Seq<Sample>),
    reading: SamplerReading,
    sampled_ms: u64,
    status: ProcessStatus,
    checked_ms: u64,
    limit: u64,
)
    requires
        st.0.phase == LoopPhase::Sample,
        st.0.duration_limit == Some(limit),
        checked_ms >= limit,
        is_running(core.process_id, core.session, status),
    ensures
        ({
            let s1 = core.next_state(st, RecorderEvent::Sampled { reading, elapsed_ms: sampled_ms });
            let s2 = core.next_state(
                s1,
                RecorderEvent::Checked { status, cancelled: false, elapsed_ms: checked_ms },
            );
            &&& s1.2 == core.after_sample(st.1, st.2, reading, sampled_ms).1
            &&& s2.0.phase == LoopPhase::Finished(StopReason::DurationExceeded)
            &&& s2.2 == s1.2
        }),
{
}

/// A spawned child that has exited counts as gone even where the platform's query still
/// reports it running, and the check that sees it ends the loop.
pub proof fn lemma_exited_child_is_detected(
    core: ProcessRecorderCore,
    st: (RecordingLoop, Option<ProcessSampler>, Seq<Sample>),
    platform_running: bool,
    cancelled: bool,
    elapsed_ms: u64,
)
    requires
        core.session == SessionKind::Spawned,
        st.0.phase == LoopPhase::Check,
    ensures
        ({
            let status = ProcessStatus { child: Some(ChildStatus::Exited), platform_running };
            &&& !is_running(core.process_id, core.session, status)
            &&& core.next_state(st, RecorderEvent::Checked { status, cancelled, elapsed_ms }).0.phase
                == LoopPhase::Finished(StopReason::ProcessExited)
        }),
{
}

} // verus!
