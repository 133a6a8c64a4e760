//! One sample of system load, the session maximum, and the CPU usage meter.

use vstd::prelude::*;

verus! {

/// One sample of the monitored quantities. Loads are percentages, the
/// temperature is in degrees Celsius, the memory figures in megabytes.
#[derive(Clone, Copy)]
pub struct Metrics {
    pub cpu: u32,
    pub ram: u32,
    pub gpu: u32,
    pub gpu_temp: u32,
    pub gpu_mem: u32,
    pub gpu_mem_total: u32,
}

/// The all-zero sample.
pub open spec fn zero_metrics() -> Metrics {
    Metrics { cpu: 0, ram: 0, gpu: 0, gpu_temp: 0, gpu_mem: 0, gpu_mem_total: 0 }
}

impl Default for Metrics {
    fn default() -> (r: Metrics)
        ensures
            r == zero_metrics(),
    {
        Metrics { cpu: 0, ram: 0, gpu: 0, gpu_temp: 0, gpu_mem: 0, gpu_mem_total: 0 }
    }
}

pub open spec fn max_u32(a: u32, b: u32) -> u32 {
    if a >= b {
        a
    } else {
        b
    }
}

/// Share of the GPU memory in use, in whole percent (truncated), or 0 when
/// the total is unknown (zero). The quotient is narrowed to `u32` by
/// truncation, as a cast does.
pub open spec fn vram_percent_of(m: Metrics) -> u32 {
    if m.gpu_mem_total == 0 {
        0
    } else {
        ((m.gpu_mem as int * 100) / (m.gpu_mem_total as int)) as u32
    }
}

/// The sample `a` after taking in `b`: each quantity, the memory total
/// among them, becomes the larger of the two.
pub open spec fn merge_max(a: Metrics, b: Metrics) -> Metrics {
    Metrics {
        cpu: max_u32(a.cpu, b.cpu),
        ram: max_u32(a.ram, b.ram),
        gpu: max_u32(a.gpu, b.gpu),
        gpu_temp: max_u32(a.gpu_temp, b.gpu_temp),
        gpu_mem: max_u32(a.gpu_mem, b.gpu_mem),
        gpu_mem_total: max_u32(a.gpu_mem_total, b.gpu_mem_total),
    }
}

/// `a` is at least `b` in every quantity.
pub open spec fn dominates(a: Metrics, b: Metrics) -> bool {
    &&& a.cpu >= b.cpu
    &&& a.ram >= b.ram
    &&& a.gpu >= b.gpu
    &&& a.gpu_temp >= b.gpu_temp
    &&& a.gpu_mem >= b.gpu_mem
    &&& a.gpu_mem_total >= b.gpu_mem_total
}

impl Metrics {
    pub fn vram_percent(&self) -> (r: u32)
        ensures
            r == vram_percent_of(*self),
    {
        if self.gpu_mem_total == 0 {
            0
        } else {
            ((self.gpu_mem as u64 * 100) / self.gpu_mem_total as u64) as u32
        }
    }

    pub fn update_max(&mut self, other: &Metrics)
        ensures
            *final(self) == merge_max(*old(self), *other),
    {
        if other.cpu > self.cpu {
            self.cpu = other.cpu;
        }
        if other.ram > self.ram {
            self.ram = other.ram;
        }
        if other.gpu > self.gpu {
            self.gpu = other.gpu;
        }
        if other.gpu_temp > self.gpu_temp {
            self.gpu_temp = other.gpu_temp;
        }
        if other.gpu_mem > self.gpu_mem {
            self.gpu_mem = other.gpu_mem;
        }
        if other.gpu_mem_total > self.gpu_mem_total {
            self.gpu_mem_total = other.gpu_mem_total;
        }
    }
}

/// Law: the merged sample dominates both of its inputs and is the least
/// sample that does.
pub proof fn lemma_merge_max_is_least_upper_bound(a: Metrics, b: Metrics)
    ensures
        dominates(merge_max(a, b), a),
        dominates(merge_max(a, b), b),
        forall|c: Metrics|
            dominates(c, a) && dominates(c, b) ==> dominates(c, #[trigger] merge_max(a, b)),
{
}

/// Law: taking in a sample twice changes nothing the second time, and the
/// order in which samples are taken in does not matter.
pub proof fn lemma_merge_max_order_free(a: Metrics, b: Metrics, c: Metrics)
    ensures
        merge_max(merge_max(a, b), b) == merge_max(a, b),
        merge_max(merge_max(a, b), c) == merge_max(merge_max(a, c), b),
        merge_max(a, a) == a,
        merge_max(a, b) == merge_max(b, a),
{
}

/// Law: when the memory in use does not exceed the total, the percentage
/// lies between 0 and 100.
pub proof fn lemma_vram_percent_at_most_100(m: Metrics)
    requires
        m.gpu_mem <= m.gpu_mem_total,
    ensures
        vram_percent_of(m) <= 100,
{
    if m.gpu_mem_total != 0 {
        assert((m.gpu_mem as int * 100) / (m.gpu_mem_total as int) <= 100) by (nonlinear_arith)
            requires
                m.gpu_mem <= m.gpu_mem_total,
                m.gpu_mem_total > 0,
        ;
    }
}

/// Tracks the cumulative processor times between two readings, so that the
/// share of busy time in the interval between them can be computed.
pub struct CpuTracker {
    last_idle: u64,
    last_kernel: u64,
    last_user: u64,
}

pub open spec fn sat_sub(a: u64, b: u64) -> u64 {
    if a >= b {
        (a - b) as u64
    } else {
        0
    }
}

/// The interval's idle, kernel and user time, each clamped at zero.
pub open spec fn time_deltas(last: (u64, u64, u64), idle: u64, kernel: u64, user: u64) -> (
    int,
    int,
    int,
) {
    (sat_sub(idle, last.0) as int, sat_sub(kernel, last.1) as int, sat_sub(user, last.2) as int)
}

/// The computation stays within `u64`: the kernel and user deltas add up
/// without overflow, and where their sum is not zero, the idle delta does
/// not exceed it and the busy part times 100 fits.
pub open spec fn times_fit(last: (u64, u64, u64), idle: u64, kernel: u64, user: u64) -> bool {
    let d = time_deltas(last, idle, kernel, user);
    let sys = d.1 + d.2;
    &&& sys <= u64::MAX
    &&& sys != 0 ==> (d.0 <= sys && (sys - d.0) * 100 <= u64::MAX)
}

/// Busy share of the interval in whole percent (truncated), capped at 100;
/// 0 when no kernel or user time passed.
pub open spec fn usage_percent(last: (u64, u64, u64), idle: u64, kernel: u64, user: u64) -> u32 {
    let d = time_deltas(last, idle, kernel, user);
    let sys = d.1 + d.2;
    if sys == 0 {
        0
    } else {
        let u = ((sys - d.0) * 100 / sys) as u32;
        if u <= 100 {
            u
        } else {
            100
        }
    }
}

impl CpuTracker {
    /// The cumulative idle, kernel and user times of the last reading.
    pub closed spec fn last_times(&self) -> (u64, u64, u64) {
        (self.last_idle, self.last_kernel, self.last_user)
    }

    pub fn new() -> (r: Self)
        ensures
            r.last_times() == (0u64, 0u64, 0u64),
    {
        CpuTracker { last_idle: 0, last_kernel: 0, last_user: 0 }
    }

    /// Whether a reading of these cumulative times can be taken in.
    pub fn can_take(&self, idle: u64, kernel: u64, user: u64) -> (r: bool)
        ensures
            r == times_fit(self.last_times(), idle, kernel, user),
    {
        let idle_delta = idle.saturating_sub(self.last_idle);
        let kernel_delta = kernel.saturating_sub(self.last_kernel);
        let user_delta = user.saturating_sub(self.last_user);
        match kernel_delta.checked_add(user_delta) {
            None => false,
            Some(sys_delta) => {
                if sys_delta == 0 {
                    true
                } else if idle_delta > sys_delta {
                    false
                } else {
                    (sys_delta - idle_delta).checked_mul(100).is_some()
                }
            },
        }
    }

    /// Takes in a new reading of the cumulative idle, kernel and user times
    /// and returns the busy share of the time since the previous reading.
    pub fn take_reading(&mut self, idle: u64, kernel: u64, user: u64) -> (r: u32)
        requires
            times_fit(old(self).last_times(), idle, kernel, user),
        ensures
            r == usage_percent(old(self).last_times(), idle, kernel, user),
            r <= 100,
            final(self).last_times() == (idle, kernel, user),
    {
        let idle_delta = idle.saturating_sub(self.last_idle);
        let kernel_delta = kernel.saturating_sub(self.last_kernel);
        let user_delta = user.saturating_sub(self.last_user);

        self.last_idle = idle;
        self.last_kernel = kernel;
        self.last_user = user;

        let sys_delta = kernel_delta + user_delta;
        if sys_delta == 0 {
            return 0;
        }
        let usage = (((sys_delta - idle_delta) * 100) / sys_delta) as u32;
        if usage <= 100 {
            usage
        } else {
            100
        }
    }
}

/// Law: the busy share never exceeds 100 percent, and equals the truncated
/// percentage of busy time whenever the reading fits.
pub proof fn lemma_usage_is_percentage(last: (u64, u64, u64), idle: u64, kernel: u64, user: u64)
    requires
        times_fit(last, idle, kernel, user),
    ensures
        usage_percent(last, idle, kernel, user) <= 100,
        ({
            let d = time_deltas(last, idle, kernel, user);
            d.1 + d.2 != 0 ==> usage_percent(last, idle, kernel, user) == (d.1 + d.2 - d.0) * 100
                / (d.1 + d.2)
        }),
{
    let d = time_deltas(last, idle, kernel, user);
    let sys = d.1 + d.2;
    if sys != 0 {
        let busy = sys - d.0;
        assert(0 <= busy * 100 / sys <= 100) by (nonlinear_arith)
            requires
                0 <= busy <= sys,
                sys > 0,
        ;
    }
}

/// Law: between a reading `(i0, k0, u0)` and a later one `(i1, k1, u1)`
/// whose counters did not go back, each delta is taken against the same
/// counter of the earlier reading: the busy share is the kernel plus user
/// time minus the idle time, over the kernel plus user time, in truncated
/// percent, and 0 when no kernel or user time passed.
pub proof fn lemma_usage_from_component_deltas(i0: u64, k0: u64, u0: u64, i1: u64, k1: u64, u1: u64)
    requires
        i0 <= i1,
        k0 <= k1,
        u0 <= u1,
        i1 - i0 <= (k1 - k0) + (u1 - u0),
    ensures
        (k1 - k0) + (u1 - u0) == 0 ==> usage_percent((i0, k0, u0), i1, k1, u1) == 0,
        (k1 - k0) + (u1 - u0) > 0 ==> usage_percent((i0, k0, u0), i1, k1, u1) == ((k1 - k0) + (u1
            - u0) - (i1 - i0)) * 100 / ((k1 - k0) + (u1 - u0)),
        times_fit((i0, k0, u0), i1, k1, u1) == ((k1 - k0) + (u1 - u0) <= u64::MAX && ((k1 - k0) + (
        u1 - u0) == 0 || ((k1 - k0) + (u1 - u0) - (i1 - i0)) * 100 <= u64::MAX)),
{
    let sys = (k1 - k0) + (u1 - u0);
    let busy = sys - (i1 - i0);
    assert(time_deltas((i0, k0, u0), i1, k1, u1) == ((i1 - i0) as int, (k1 - k0) as int, (u1 - u0) as int));
    if sys > 0 {
        assert(0 <= busy * 100 / sys <= 100) by (nonlinear_arith)
            requires
                0 <= busy <= sys,
                sys > 0,
        ;
    }
}

/// Joins the high and low halves of a 64-bit count.
pub fn filetime_to_u64(high: u32, low: u32) -> (r: u64)
    ensures
        r == high as int * 0x1_0000_0000 + low as int,
{
    let r = ((high as u64) << 32u64) | (low as u64);
    assert(((high as u64) << 32u64) | (low as u64) == high as u64 * 0x1_0000_0000u64 + low as u64)
        by (bit_vector);
    r
}

} // verus!
