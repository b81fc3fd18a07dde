//! Historical resource usage of one process, in a bounded history that keeps
//! the newest sample first.

use vstd::prelude::*;
use std::collections::VecDeque;
use crate::error::Error;

verus! {

/// Maximum number of samples retained in the history.
pub const DEFAULT_CAPACITY: usize = 60;

/// One sample of a process's resource usage; CPU usages are `f32` bit
/// patterns.
#[derive(Debug, Clone, Copy, PartialEq)]
pub struct ProcessSample {
    /// Cpu usage across all cores at the time of the sample.
    cpu_total: u32,
    /// Average CPU usage across all cores at the time of the sample.
    cpu_avg: u32,
    /// Memory usage in bytes at the time of the sample.
    mem: u64,
}

impl ProcessSample {
    /// The sample as (total CPU bits, average CPU bits, memory bytes).
    pub closed spec fn model(&self) -> (u32, u32, u64) {
        (self.cpu_total, self.cpu_avg, self.mem)
    }

    pub fn cpu_total_bits(&self) -> (r: u32)
        ensures
            r == self.model().0,
    {
        self.cpu_total
    }

    pub fn cpu_avg_bits(&self) -> (r: u32)
        ensures
            r == self.model().1,
    {
        self.cpu_avg
    }

    pub fn mem(&self) -> (r: u64)
        ensures
            r == self.model().2,
    {
        self.mem
    }
}

/// The models of a sequence of samples.
pub open spec fn samples_model(s: Seq<ProcessSample>) -> Seq<(u32, u32, u64)> {
    s.map_values(|x: ProcessSample| x.model())
}

/// The history after `sample` is recorded: it goes first, and the oldest
/// sample leaves when the history is full.
pub open spec fn pushed(history: Seq<(u32, u32, u64)>, sample: (u32, u32, u64)) -> Seq<
    (u32, u32, u64),
> {
    if history.len() >= DEFAULT_CAPACITY {
        seq![sample] + history.take(DEFAULT_CAPACITY - 1)
    } else {
        seq![sample] + history
    }
}

/// The sum of the memory usages of the first `n` samples.
pub open spec fn mem_sum(history: Seq<(u32, u32, u64)>, n: int) -> nat
    decreases n,
{
    if n <= 0 {
        0
    } else {
        mem_sum(history, n - 1) + (history[n - 1].2 as nat)
    }
}

/// Whether a sample interval of `secs` seconds and `subsec_nanos`
/// nanoseconds is accepted: a whole number of seconds from one to sixty.
pub open spec fn valid_interval(secs: u64, subsec_nanos: u32) -> bool {
    1 <= secs <= 60 && subsec_nanos == 0
}

/// Records historical resource usage for a single process.
///
/// Samples are stored in a bounded history, with the most recently added
/// sample at the front. The sample interval, a whole number of seconds from
/// one to sixty, determines how many samples represent a time span.
#[derive(Debug)]
pub struct ProcessStats {
    /// History of samples, newest first.
    samples: VecDeque<ProcessSample>,
    /// Expected interval between consecutive samples, in seconds.
    sample_interval_secs: u64,
    /// Maximum number of samples retained.
    capacity: usize,
}

impl ProcessStats {
    #[verifier::type_invariant]
    spec fn inv(&self) -> bool {
        &&& 1 <= self.sample_interval_secs <= 60
        &&& self.capacity == DEFAULT_CAPACITY
        &&& self.samples@.len() <= DEFAULT_CAPACITY
    }

    /// The recorded samples, newest first.
    pub closed spec fn history(&self) -> Seq<(u32, u32, u64)> {
        samples_model(self.samples@)
    }

    /// The sample interval in seconds.
    pub closed spec fn interval(&self) -> u64 {
        self.sample_interval_secs
    }

    /// Creates an empty history for the given sample interval, which must be
    /// a whole number of seconds from one to sixty.
    pub fn new(sample_interval_secs: u64, sample_interval_subsec_nanos: u32) -> (r: Result<
        Self,
        Error,
    >)
        ensures
            r is Ok <==> valid_interval(sample_interval_secs, sample_interval_subsec_nanos),
            r is Err ==> r == Err::<Self, Error>(Error::ProcessStatsError),
            r matches Ok(s) ==> s.history() == Seq::<(u32, u32, u64)>::empty() && s.interval()
                == sample_interval_secs,
    {
        if sample_interval_secs == 0 || sample_interval_secs > 60 {
            return Err(Error::ProcessStatsError);
        }
        if sample_interval_subsec_nanos != 0 {
            return Err(Error::ProcessStatsError);
        }
        let r = ProcessStats {
            samples: VecDeque::new(),
            sample_interval_secs,
            capacity: DEFAULT_CAPACITY,
        };
        proof {
            assert(r.history() =~= Seq::<(u32, u32, u64)>::empty());
        }
        Ok(r)
    }

    /// Adds a sample to the front of the history; when the history is full
    /// the oldest sample is evicted.
    pub fn push(&mut self, cpu_total: u32, cpu_avg: u32, mem: u64)
        ensures
            final(self).history() == pushed(old(self).history(), (cpu_total, cpu_avg, mem)),
            final(self).interval() == old(self).interval(),
    {
        proof {
            use_type_invariant(&*self);
        }
        let ghost old_samples = self.samples@;
        let mut samples: VecDeque<ProcessSample> = VecDeque::new();
        std::mem::swap(&mut samples, &mut self.samples);
        if samples.len() == self.capacity {
            samples.pop_back();
        }
        let sample = ProcessSample { cpu_total, cpu_avg, mem };
        samples.push_front(sample);
        self.samples = samples;
        proof {
            if old_samples.len() >= DEFAULT_CAPACITY {
                assert(self.samples@ =~= seq![sample] + old_samples.take(DEFAULT_CAPACITY - 1));
                assert(samples_model(self.samples@) =~= seq![sample.model()] + samples_model(
                    old_samples,
                ).take(DEFAULT_CAPACITY - 1));
            } else {
                assert(self.samples@ =~= seq![sample] + old_samples);
                assert(samples_model(self.samples@) =~= seq![sample.model()] + samples_model(
                    old_samples,
                ));
            }
        }
    }

    /// The number of samples recorded.
    pub fn len(&self) -> (r: usize)
        ensures
            r == self.history().len(),
    {
        self.samples.len()
    }

    /// The sample `i` places from the newest, if there is one.
    pub fn sample(&self, i: usize) -> (r: Option<ProcessSample>)
        ensures
            i < self.history().len() ==> r is Some && r->0.model() == self.history()[i as int],
            i >= self.history().len() ==> r is None,
    {
        if i < self.samples.len() {
            Some(self.samples[i])
        } else {
            None
        }
    }

    /// The sample interval in seconds.
    pub fn sample_interval_secs(&self) -> (r: u64)
        ensures
            r == self.interval(),
    {
        self.sample_interval_secs
    }

    /// The maximum number of samples retained.
    pub fn capacity(&self) -> (r: usize)
        ensures
            r == DEFAULT_CAPACITY,
    {
        proof {
            use_type_invariant(self);
        }
        self.capacity
    }

    /// How many samples represent `time_span_secs` seconds.
    pub fn samples_in_time_span(&self, time_span_secs: u64) -> (r: u64)
        ensures
            r == time_span_secs / self.interval(),
    {
        proof {
            use_type_invariant(self);
        }
        time_span_secs / self.sample_interval_secs
    }

    /// The mean memory usage in bytes (rounded down) of the samples that
    /// represent `time_span_secs` seconds, or `None` when the span holds no
    /// whole sample interval or fewer samples than it needs have been
    /// recorded.
    fn mean_last_time_span_mem(&self, time_span_secs: u64) -> (r: Option<u64>)
        ensures
            ({
                let n: u64 = time_span_secs / self.interval();
                &&& (n == 0 || self.history().len() < n) ==> r is None
                &&& (n > 0 && self.history().len() >= n) ==> r == Some(
                    (mem_sum(self.history(), n as int) / (n as nat)) as u64,
                )
            }),
    {
        proof {
            use_type_invariant(self);
        }
        let n = self.samples_in_time_span(time_span_secs);
        if n == 0 || (self.samples.len() as u64) < n {
            return None;
        }
        let count = n as usize;
        let mut sum: u128 = 0;
        let mut i: usize = 0;
        while i < count
            invariant
                count == n,
                n <= self.samples@.len() <= DEFAULT_CAPACITY,
                i <= count,
                sum == mem_sum(self.history(), i as int),
                sum <= i * 0xffff_ffff_ffff_ffff,
            decreases count - i,
        {
            proof {
                assert(self.history()[i as int].2 == self.samples@[i as int].mem);
            }
            sum = sum + self.samples[i].mem as u128;
            i = i + 1;
        }
        proof {
            assert(sum / (n as u128) <= sum);
            assert(sum / (n as u128) <= 0xffff_ffff_ffff_ffff) by (nonlinear_arith)
                requires
                    sum <= n * 0xffff_ffff_ffff_ffff,
                    n >= 1,
            ;
        }
        Some((sum / (n as u128)) as u64)
    }

    /// The approximate mean memory usage in bytes over the last minute, or
    /// `None` while fewer samples than a minute's have been recorded.
    pub fn mean_mem_usage_last_minute(&self) -> (r: Option<u64>)
        ensures
            ({
                let n: u64 = 60u64 / self.interval();
                &&& (n == 0 || self.history().len() < n) ==> r is None
                &&& (n > 0 && self.history().len() >= n) ==> r == Some(
                    (mem_sum(self.history(), n as int) / (n as nat)) as u64,
                )
            }),
    {
        proof {
            use_type_invariant(self);
        }
        self.mean_last_time_span_mem(60)
    }

    /// The approximate mean memory usage in bytes over the last 30 seconds,
    /// or `None` while fewer samples than that have been recorded, and
    /// always with a sample interval above 30 seconds, as then no sample
    /// represents the span.
    pub fn mean_mem_usage_last_30s(&self) -> (r: Option<u64>)
        ensures
            ({
                let n: u64 = 30u64 / self.interval();
                &&& (n == 0 || self.history().len() < n) ==> r is None
                &&& (n > 0 && self.history().len() >= n) ==> r == Some(
                    (mem_sum(self.history(), n as int) / (n as nat)) as u64,
                )
            }),
    {
        self.mean_last_time_span_mem(30)
    }

    /// The CPU usages (`f32` bits, total when `total` is set, else the
    /// average) of the samples that represent `time_span_secs` seconds,
    /// newest first, or `None` when the span holds no whole sample interval
    /// or fewer samples than it needs have been recorded. Their mean is the
    /// statistic over that span.
    pub fn cpu_window(&self, time_span_secs: u64, total: bool) -> (r: Option<Vec<u32>>)
        ensures
            ({
                let n: u64 = time_span_secs / self.interval();
                &&& (n == 0 || self.history().len() < n) ==> r is None
                &&& (n > 0 && self.history().len() >= n) ==> r is Some && r->0@ == self.history().take(
                    n as int,
                ).map_values(|x: (u32, u32, u64)| if total { x.0 } else { x.1 })
            }),
    {
        proof {
            use_type_invariant(self);
        }
        let n = self.samples_in_time_span(time_span_secs);
        if n == 0 || (self.samples.len() as u64) < n {
            return None;
        }
        let count = n as usize;
        let mut out: Vec<u32> = Vec::new();
        let mut i: usize = 0;
        while i < count
            invariant
                count == n,
                n <= self.samples@.len(),
                i <= count,
                out@ == self.history().take(i as int).map_values(
                    |x: (u32, u32, u64)| if total { x.0 } else { x.1 },
                ),
            decreases count - i,
        {
            let sample = self.samples[i];
            out.push(if total { sample.cpu_total } else { sample.cpu_avg });
            proof {
                assert(self.history().take(i + 1) =~= self.history().take(i as int).push(
                    self.history()[i as int],
                ));
                assert(out@ =~= self.history().take(i + 1).map_values(
                    |x: (u32, u32, u64)| if total { x.0 } else { x.1 },
                ));
            }
            i = i + 1;
        }
        Some(out)
    }
}

} // verus!
