//! The sampling backends: each turns what was read of a process into a [`Sample`].
//!
//! The basic backend takes the platform's own CPU average and resident size. The
//! advanced backend (Linux) takes the kernel's cumulative CPU tick counters and works
//! out the usage over the time since its previous reading.

use vstd::prelude::*;

use crate::params::ProcessRecordParams;
use crate::samples::Sample;

verus! {

/// Relies on procfs's `ticks_per_second`: the kernel's clock ticks per second
/// (`sysconf(_SC_CLK_TCK)`). Nothing is assumed of its value.
#[verifier::external_body]
fn kernel_ticks_per_second() -> (r: u64) {
    procfs::ticks_per_second()
}

/// Relies on procfs's `page_size`: the size of a memory page in bytes. Nothing is
/// assumed of its value.
#[verifier::external_body]
fn kernel_page_size() -> (r: u64) {
    procfs::page_size()
}

/// What one read of the kernel's statistics for a process gave
/// (`/proc/<pid>/stat` on Linux). CPU times are in clock ticks, the resident
/// size in pages.
#[derive(Clone, Copy, Debug, PartialEq, Eq, Structural)]
pub struct ProcessStat {
    pub utime: u64,
    pub stime: u64,
    /// CPU time in user mode of the children that the process has waited for.
    pub cutime: u64,
    /// CPU time in kernel mode of the children that the process has waited for.
    pub cstime: u64,
    pub rss_pages: u64,
    pub num_threads: u64,
}

/// The CPU ticks counted for a process: its own, and its children's where asked for.
pub open spec fn total_ticks(
    utime: u64,
    stime: u64,
    cutime: u64,
    cstime: u64,
    with_children: bool,
) -> nat {
    if with_children {
        (utime + stime + cutime + cstime) as nat
    } else {
        (utime + stime) as nat
    }
}

/// Absolute CPU usage, in hundredths of a percent, of `delta_ticks` clock ticks spent
/// over `elapsed_us` microseconds of wall time: one busy core reads 10000, `n` busy
/// cores `n` times as much. That is `100 * (delta_ticks / ticks_per_second) / elapsed`
/// percent, rounded down to a hundredth and capped at `u64::MAX`.
pub open spec fn cpu_usage_hundredths(delta_ticks: nat, ticks_per_second: nat, elapsed_us: nat) -> nat {
    let v = delta_ticks * 10_000_000_000 / (ticks_per_second * elapsed_us);
    if v > u64::MAX {
        u64::MAX as nat
    } else {
        v
    }
}

/// A product capped at `u64::MAX`.
pub open spec fn capped_product(a: nat, b: nat) -> nat {
    if a * b > u64::MAX {
        u64::MAX as nat
    } else {
        a * b
    }
}

/// The sampler that reads the platform's own CPU average and resident size.
#[derive(Clone, Copy, Debug, PartialEq, Eq, Structural)]
pub struct ProcessSamplerBasic {
    pub pid: u32,
}

impl ProcessSamplerBasic {
    pub fn new(pid: u32) -> (r: ProcessSamplerBasic)
        ensures
            r.pid == pid,
    {
        ProcessSamplerBasic { pid }
    }

    /// The sample made of the platform's CPU average (in hundredths of a percent of one
    /// core since its previous query) and resident size. Without a resident size the
    /// tick is skipped; without a CPU figure the usage reads 0.
    pub fn get_sample(&self, cpu_usage: Option<u64>, resident_bytes: Option<u64>) -> (r: Option<
        Sample,
    >)
        ensures
            r == basic_sample(cpu_usage, resident_bytes),
    {
        match resident_bytes {
            Some(rss) => Some(
                Sample {
                    elapsed_ms: 0,
                    cpu_usage: match cpu_usage {
                        Some(c) => c,
                        None => 0,
                    },
                    curr_rss: rss,
                    thread_count: 0,
                },
            ),
            None => None,
        }
    }
}

/// The basic backend's sample from the platform's figures.
pub open spec fn basic_sample(cpu_usage: Option<u64>, resident_bytes: Option<u64>) -> Option<Sample> {
    match resident_bytes {
        Some(rss) => Some(
            Sample {
                elapsed_ms: 0,
                cpu_usage: match cpu_usage {
                    Some(c) => c,
                    None => 0,
                },
                curr_rss: rss,
                thread_count: 0,
            },
        ),
        None => None,
    }
}

/// The sampler that reads the kernel's cumulative counters. It keeps the counters and
/// the instant of its previous reading, and reports the usage between the two.
#[derive(Clone, Copy, Debug, PartialEq, Eq, Structural)]
pub struct ProcessSamplerAdvanced {
    pub pid: u32,
    /// Whether the children's CPU ticks are counted too.
    pub record_children: bool,
    /// Whether the thread count is reported.
    pub record_thread_count: bool,
    /// Clock ticks per second; never zero in a sampler made by `new`.
    pub tps: u64,
    /// Bytes per memory page.
    pub page_size: u64,
    pub last_utime: u64,
    pub last_stime: u64,
    pub last_cutime: u64,
    pub last_cstime: u64,
    /// The instant of the previous reading, in microseconds on a monotonic clock.
    pub last_time_us: u64,
}

impl ProcessSamplerAdvanced {
    /// The CPU ticks of the previous reading.
    pub open spec fn last_total(&self) -> nat {
        total_ticks(
            self.last_utime,
            self.last_stime,
            self.last_cutime,
            self.last_cstime,
            self.record_children,
        )
    }

    /// The sampler with `stat`, read at `now_us`, as its previous reading.
    pub open spec fn resynced(self, stat: ProcessStat, now_us: u64) -> Self {
        ProcessSamplerAdvanced {
            last_utime: stat.utime,
            last_stime: stat.stime,
            last_cutime: stat.cutime,
            last_cstime: stat.cstime,
            last_time_us: now_us,
            ..self
        }
    }

    /// The sampler's next state and outcome, given a read of the kernel's statistics
    /// (`None` where the read failed) made at `now_us`.
    ///
    /// A failed read, a reading at no later instant than the previous one, or a zero tick
    /// rate skips the tick and keeps the state. Counters that went backwards skip the
    /// tick and take the new reading as the previous one. Otherwise the sample has the
    /// CPU usage since the previous reading, the resident size in bytes, and the thread
    /// count where asked for, and the new reading replaces the previous one.
    pub open spec fn next(self, stat: Option<ProcessStat>, now_us: u64) -> (Self, Option<Sample>) {
        match stat {
            None => (self, None),
            Some(st) => {
                let this_total = total_ticks(
                    st.utime,
                    st.stime,
                    st.cutime,
                    st.cstime,
                    self.record_children,
                );
                if now_us <= self.last_time_us || self.tps == 0 {
                    (self, None)
                } else if this_total < self.last_total() {
                    (self.resynced(st, now_us), None)
                } else {
                    (
                        self.resynced(st, now_us),
                        Some(
                            Sample {
                                elapsed_ms: 0,
                                cpu_usage: cpu_usage_hundredths(
                                    (this_total - self.last_total()) as nat,
                                    self.tps as nat,
                                    (now_us - self.last_time_us) as nat,
                                ) as u64,
                                curr_rss: capped_product(
                                    st.rss_pages as nat,
                                    self.page_size as nat,
                                ) as u64,
                                thread_count: if self.record_thread_count {
                                    if st.num_threads > u32::MAX {
                                        u32::MAX
                                    } else {
                                        st.num_threads as u32
                                    }
                                } else {
                                    0
                                },
                            },
                        ),
                    )
                }
            },
        }
    }

    /// A sampler for the process `pid`, whose first reading `initial` was made at
    /// `now_us`, counting children's ticks and thread counts as `recorder_params` ask.
    /// The clock-tick rate and the page size are the kernel's. `None` where the kernel
    /// reports a tick rate of zero.
    pub fn new(
        recorder_params: &ProcessRecordParams,
        pid: u32,
        initial: ProcessStat,
        now_us: u64,
    ) -> (r: Option<ProcessSamplerAdvanced>)
        ensures
            r matches Some(s) ==> s.tps > 0 && s.pid == pid && s.record_children
                == recorder_params.record_child_processes && s.record_thread_count
                == recorder_params.record_thread_count && s.last_utime == initial.utime
                && s.last_stime == initial.stime && s.last_cutime == initial.cutime
                && s.last_cstime == initial.cstime && s.last_time_us == now_us,
    {
        let tps = kernel_ticks_per_second();
        let page_size = kernel_page_size();
        Self::with_rates(recorder_params, pid, tps, page_size, initial, now_us)
    }

    /// As `new`, with the clock-tick rate and page size given.
    pub fn with_rates(
        recorder_params: &ProcessRecordParams,
        pid: u32,
        tps: u64,
        page_size: u64,
        initial: ProcessStat,
        now_us: u64,
    ) -> (r: Option<ProcessSamplerAdvanced>)
        ensures
            r is Some <==> tps > 0,
            r matches Some(s) ==> s == (ProcessSamplerAdvanced {
                pid,
                record_children: recorder_params.record_child_processes,
                record_thread_count: recorder_params.record_thread_count,
                tps,
                page_size,
                last_utime: initial.utime,
                last_stime: initial.stime,
                last_cutime: initial.cutime,
                last_cstime: initial.cstime,
                last_time_us: now_us,
            }),
    {
        if tps == 0 {
            return None;
        }
        Some(
            ProcessSamplerAdvanced {
                pid,
                record_children: recorder_params.record_child_processes,
                record_thread_count: recorder_params.record_thread_count,
                tps,
                page_size,
                last_utime: initial.utime,
                last_stime: initial.stime,
                last_cutime: initial.cutime,
                last_cstime: initial.cstime,
                last_time_us: now_us,
            },
        )
    }

    /// Takes the next reading; see `next` for what it gives.
    pub fn get_sample(&mut self, stat: Option<ProcessStat>, now_us: u64) -> (r: Option<Sample>)
        ensures
            (*final(self), r) == old(self).next(stat, now_us),
    {
        let st = match stat {
            Some(st) => st,
            None => {
                return None;
            },
        };
        if now_us <= self.last_time_us || self.tps == 0 {
            return None;
        }
        let this_total = ticks_u128(st.utime, st.stime, st.cutime, st.cstime, self.record_children);
        let last_total = ticks_u128(
            self.last_utime,
            self.last_stime,
            self.last_cutime,
            self.last_cstime,
            self.record_children,
        );
        let elapsed_us = now_us - self.last_time_us;
        self.last_utime = st.utime;
        self.last_stime = st.stime;
        self.last_cutime = st.cutime;
        self.last_cstime = st.cstime;
        self.last_time_us = now_us;
        if this_total < last_total {
            return None;
        }
        let cpu_usage = cpu_usage_from_ticks(this_total - last_total, self.tps, elapsed_us);
        proof {
            lemma_u64_product_fits(st.rss_pages, self.page_size);
        }
        let rss = st.rss_pages as u128 * self.page_size as u128;
        let curr_rss = if rss > u64::MAX as u128 {
            u64::MAX
        } else {
            rss as u64
        };
        let thread_count = if self.record_thread_count {
            if st.num_threads > u32::MAX as u64 {
                u32::MAX
            } else {
                st.num_threads as u32
            }
        } else {
            0
        };
        Some(Sample { elapsed_ms: 0, cpu_usage, curr_rss, thread_count })
    }
}

proof fn lemma_u64_product_fits(a: u64, b: u64)
    ensures
        (a as nat) * (b as nat) <= u128::MAX,
{
    assert((a as nat) * (b as nat) <= (u64::MAX as nat) * (u64::MAX as nat)) by (nonlinear_arith)
        requires
            a <= u64::MAX,
            b <= u64::MAX,
    ;
}

fn ticks_u128(utime: u64, stime: u64, cutime: u64, cstime: u64, with_children: bool) -> (r: u128)
    ensures
        r as nat == total_ticks(utime, stime, cutime, cstime, with_children),
        r < 0x4_0000_0000_0000_0000,
{
    if with_children {
        utime as u128 + stime as u128 + cutime as u128 + cstime as u128
    } else {
        utime as u128 + stime as u128
    }
}

/// Absolute CPU usage of `delta_ticks` over `elapsed_us`, as `cpu_usage_hundredths` states.
pub fn cpu_usage_from_ticks(delta_ticks: u128, tps: u64, elapsed_us: u64) -> (r: u64)
    requires
        delta_ticks < 0x4_0000_0000_0000_0000,
        tps > 0,
        elapsed_us > 0,
    ensures
        r as nat == cpu_usage_hundredths(delta_ticks as nat, tps as nat, elapsed_us as nat),
{
    proof {
        assert(delta_ticks * 10_000_000_000 < 0x4_0000_0000_0000_0000 * 10_000_000_000)
            by (nonlinear_arith)
            requires
                delta_ticks < 0x4_0000_0000_0000_0000,
        ;
        lemma_u64_product_fits(tps, elapsed_us);
        assert((tps as nat) * (elapsed_us as nat) > 0) by (nonlinear_arith)
            requires
                tps > 0,
                elapsed_us > 0,
        ;
    }
    let numerator: u128 = delta_ticks * 10_000_000_000;
    let denominator: u128 = tps as u128 * elapsed_us as u128;
    let v = numerator / denominator;
    if v > u64::MAX as u128 {
        u64::MAX
    } else {
        v as u64
    }
}

/// A reading handed to a sampler: the one its backend takes.
#[derive(Clone, Copy, Debug, PartialEq, Eq, Structural)]
pub enum SamplerReading {
    /// The platform's CPU average, in hundredths of a percent of one core, and resident
    /// size in bytes; each `None` where the query failed.
    Basic { cpu_usage: Option<u64>, resident_bytes: Option<u64> },
    /// A read of the kernel's statistics (`None` where it failed), and the monotonic
    /// instant of the read in microseconds.
    Advanced { stat: Option<ProcessStat>, now_us: u64 },
}

/// One of the two sampling backends, chosen once when the recording is set up.
#[derive(Clone, Copy, Debug, PartialEq, Eq, Structural)]
pub enum ProcessSampler {
    Basic(ProcessSamplerBasic),
    Advanced(ProcessSamplerAdvanced),
}

impl ProcessSampler {
    /// The sampler's next state and outcome for a reading. A reading of the other
    /// backend's kind skips the tick.
    pub open spec fn next(self, reading: SamplerReading) -> (Self, Option<Sample>) {
        match (self, reading) {
            (
                ProcessSampler::Basic(b),
                SamplerReading::Basic { cpu_usage, resident_bytes },
            ) => (self, basic_sample(cpu_usage, resident_bytes)),
            (ProcessSampler::Advanced(a), SamplerReading::Advanced { stat, now_us }) => {
                let (a2, r) = a.next(stat, now_us);
                (ProcessSampler::Advanced(a2), r)
            },
            _ => (self, None),
        }
    }

    /// One sample from a reading; `None` means that this tick is to be dropped.
    pub fn get_sample(&mut self, reading: SamplerReading) -> (r: Option<Sample>)
        ensures
            (*final(self), r) == old(self).next(reading),
    {
        match (self, reading) {
            (ProcessSampler::Basic(b), SamplerReading::Basic { cpu_usage, resident_bytes }) => {
                b.get_sample(cpu_usage, resident_bytes)
            },
            (ProcessSampler::Advanced(a), SamplerReading::Advanced { stat, now_us }) => {
                a.get_sample(stat, now_us)
            },
            _ => None,
        }
    }
}

} // verus!
