//! Sampling of a process's CPU, memory and thread usage into a time-ordered recording.
//!
//! The library holds the logic: parsing of period strings, the recording parameters,
//! the sampling backends' arithmetic, the recording buffer with its export format,
//! and the recording loop as a state machine. Reading the operating system's
//! counters, sleeping and watching for an interrupt are done by the caller, which
//! feeds what it observed into the state machine.

pub mod params;
pub mod period;
pub mod recorder;
pub mod sampler;
pub mod samples;

pub use period::convert_time_period_string_to_ms;
pub use params::{ProcessRecordParams, DEFAULT_SAMPLE_INTERVAL_MS};
pub use samples::{LocalTimestamp, ProcessRecording, Sample};
pub use sampler::{
    ProcessSampler, ProcessSamplerAdvanced, ProcessSamplerBasic, ProcessStat, SamplerReading,
};
pub use recorder::{
    ChildStatus, KernelStatsProbe, LoopAction, LoopEvent, LoopPhase, ProcessRecorderAttach, ProcessRecorderCore, ProcessRecorderRun, ProcessStatus, RecorderEvent, RecordingLoop, SessionKind,
    StopReason,
};
