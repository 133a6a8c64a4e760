//! The state that a monitoring session keeps between samples: the running
//! maximum, whether the GPU warning level was reached, the recent history
//! for the graph, and the schedule of display and log updates.

use std::collections::VecDeque;
use vstd::prelude::*;

use crate::metrics::{Metrics, merge_max, zero_metrics, dominates};
use crate::display::DisplayMode;

verus! {

/// Samples that the graph history keeps.
pub const MAX_HISTORY_POINTS: usize = 300;

/// GPU load, in percent, from which a sample counts as a warning.
pub const GPU_WARNING_THRESHOLD: u32 = 95;

/// Logged lines between two status lines in headless mode.
pub const STATUS_EVERY_LOGS: u32 = 10;

/// The running maximum over a sequence of samples, starting from zero.
pub open spec fn fold_max(s: Seq<Metrics>) -> Metrics
    decreases s.len(),
{
    if s.len() == 0 {
        zero_metrics()
    } else {
        merge_max(fold_max(s.drop_last()), s.last())
    }
}

/// The last `cap` samples of `s`, or all of them when there are fewer.
pub open spec fn recent(s: Seq<Metrics>, cap: nat) -> Seq<Metrics> {
    if s.len() <= cap {
        s
    } else {
        s.subrange(s.len() - cap, s.len() as int)
    }
}

/// Some sample of `s` has a GPU load at the warning level.
pub open spec fn any_gpu_warning(s: Seq<Metrics>) -> bool {
    exists|i: int| 0 <= i < s.len() && (#[trigger] s[i]).gpu >= GPU_WARNING_THRESHOLD
}

pub open spec fn keeps_history_for(mode: DisplayMode) -> bool {
    mode == DisplayMode::Graph
}

/// What the sampling loop does after a sample.
pub struct StepActions {
    /// The sample's GPU load is at the warning level.
    pub warning: bool,
    /// Draw the screen.
    pub render: bool,
    /// Write the sample to the log.
    pub log: bool,
    /// Print the headless status line.
    pub status: bool,
}

pub struct Session {
    mode: DisplayMode,
    keeps_history: bool,
    max: Metrics,
    gpu95_hit: bool,
    history: VecDeque<Metrics>,
    log_count: u32,
    observed: Ghost<Seq<Metrics>>,
}

impl Session {
    /// Every sample recorded so far, oldest first.
    pub closed spec fn observed(&self) -> Seq<Metrics> {
        self.observed@
    }

    /// How this session presents its samples.
    pub closed spec fn mode(&self) -> DisplayMode {
        self.mode
    }

    /// Whether this session keeps a history for the graph.
    pub closed spec fn keeps_history(&self) -> bool {
        self.keeps_history
    }

    /// Lines logged so far.
    pub closed spec fn logs_written(&self) -> u32 {
        self.log_count
    }

    pub closed spec fn wf(&self) -> bool {
        &&& self.max == fold_max(self.observed@)
        &&& self.gpu95_hit == any_gpu_warning(self.observed@)
        &&& self.history@ == (if self.keeps_history {
            recent(self.observed@, MAX_HISTORY_POINTS as nat)
        } else {
            Seq::empty()
        })
    }

    pub fn new(mode: DisplayMode) -> (r: Session)
        ensures
            r.wf(),
            r.observed() == Seq::<Metrics>::empty(),
            r.keeps_history() == keeps_history_for(mode),
            r.mode() == mode,
            r.logs_written() == 0,
    {
        let keeps_history = match mode {
            DisplayMode::Graph => true,
            _ => false,
        };
        let history = if keeps_history {
            VecDeque::with_capacity(MAX_HISTORY_POINTS)
        } else {
            VecDeque::new()
        };
        let r = Session {
            mode,
            keeps_history,
            max: Metrics::default(),
            gpu95_hit: false,
            history,
            log_count: 0,
            observed: Ghost(Seq::empty()),
        };
        proof {
            assert(r.history@ =~= recent(Seq::<Metrics>::empty(), MAX_HISTORY_POINTS as nat));
        }
        r
    }

    /// Records a new sample and returns whether its GPU load is at the
    /// warning level.
    pub fn record(&mut self, m: Metrics) -> (warning: bool)
        requires
            old(self).wf(),
        ensures
            final(self).wf(),
            final(self).observed() == old(self).observed().push(m),
            final(self).keeps_history() == old(self).keeps_history(),
            final(self).mode() == old(self).mode(),
            final(self).logs_written() == old(self).logs_written(),
            warning == (m.gpu >= GPU_WARNING_THRESHOLD),
    {
        let ghost before = self.observed@;
        let ghost after = before.push(m);
        self.max.update_max(&m);
        let warning = m.gpu >= GPU_WARNING_THRESHOLD;
        if warning {
            self.gpu95_hit = true;
        }
        if self.keeps_history {
            if self.history.len() >= MAX_HISTORY_POINTS {
                self.history.pop_front();
            }
            self.history.push_back(m);
        }
        self.observed = Ghost(after);
        proof {
            assert(after.drop_last() =~= before);
            lemma_recent_push(before, m, MAX_HISTORY_POINTS as nat);
            if any_gpu_warning(before) {
                let i = choose|i: int| 0 <= i < before.len() && (#[trigger] before[i]).gpu
                    >= GPU_WARNING_THRESHOLD;
                assert(after[i] == before[i]);
            }
            if warning {
                assert(after[before.len() as int] == m);
            }
            if any_gpu_warning(after) && !warning {
                let i = choose|i: int| 0 <= i < after.len() && (#[trigger] after[i]).gpu
                    >= GPU_WARNING_THRESHOLD;
                assert(i < before.len());
                assert(before[i] == after[i]);
            }
        }
        warning
    }

    /// The maximum of every quantity over the session.
    pub fn max(&self) -> (r: Metrics)
        requires
            self.wf(),
        ensures
            r == fold_max(self.observed()),
    {
        self.max
    }

    /// Whether any sample of the session reached the GPU warning level.
    pub fn gpu_warning_seen(&self) -> (r: bool)
        requires
            self.wf(),
        ensures
            r == any_gpu_warning(self.observed()),
    {
        self.gpu95_hit
    }

    /// The samples that the graph shows, oldest first.
    pub fn history(&self) -> (r: &VecDeque<Metrics>)
        requires
            self.wf(),
        ensures
            r@ == (if self.keeps_history() {
                recent(self.observed(), MAX_HISTORY_POINTS as nat)
            } else {
                Seq::empty()
            }),
            r@.len() <= MAX_HISTORY_POINTS,
    {
        &self.history
    }

    /// Lines logged so far.
    pub fn log_count(&self) -> (r: u32)
        ensures
            r == self.logs_written(),
    {
        self.log_count
    }

    /// Counts one more logged line and returns whether a status line is due
    /// after it (every tenth line).
    pub fn note_logged(&mut self) -> (status_due: bool)
        requires
            old(self).logs_written() < u32::MAX,
        ensures
            final(self).logs_written() == old(self).logs_written() + 1,
            status_due == (final(self).logs_written() % STATUS_EVERY_LOGS == 0),
            final(self).observed() == old(self).observed(),
            final(self).keeps_history() == old(self).keeps_history(),
            final(self).mode() == old(self).mode(),
            old(self).wf() ==> final(self).wf(),
    {
        self.log_count = self.log_count + 1;
        self.log_count % STATUS_EVERY_LOGS == 0
    }

    /// Takes in one sample of the loop, with whether the update schedule is
    /// due, and says what to do: in the interactive modes draw the screen and
    /// log the sample when due; in headless mode log it when due, count the
    /// line, and print the status line after every tenth.
    pub fn step(&mut self, m: Metrics, due: bool) -> (a: StepActions)
        requires
            old(self).wf(),
            due && old(self).mode() == DisplayMode::Headless ==> old(self).logs_written() < u32::MAX,
        ensures
            final(self).wf(),
            final(self).observed() == old(self).observed().push(m),
            final(self).mode() == old(self).mode(),
            final(self).keeps_history() == old(self).keeps_history(),
            a.warning == (m.gpu >= GPU_WARNING_THRESHOLD),
            a.log == due,
            a.render == (due && old(self).mode() != DisplayMode::Headless),
            old(self).mode() != DisplayMode::Headless ==> a.render == a.log,
            final(self).logs_written() == (if due && old(self).mode() == DisplayMode::Headless {
                old(self).logs_written() + 1
            } else {
                old(self).logs_written() as int
            }),
            a.status == (due && old(self).mode() == DisplayMode::Headless
                && final(self).logs_written() % STATUS_EVERY_LOGS == 0),
    {
        let warning = self.record(m);
        let headless = match self.mode {
            DisplayMode::Headless => true,
            _ => false,
        };
        let status = if due && headless {
            self.note_logged()
        } else {
            false
        };
        StepActions { warning, render: due && !headless, log: due, status }
    }
}

/// Law: the history window after one more sample is the previous window
/// with the sample appended, minus its oldest sample when it was full.
pub proof fn lemma_recent_push(s: Seq<Metrics>, m: Metrics, cap: nat)
    requires
        cap > 0,
    ensures
        recent(s.push(m), cap) == (if recent(s, cap).len() >= cap {
            recent(s, cap).drop_first().push(m)
        } else {
            recent(s, cap).push(m)
        }),
        recent(s, cap).len() <= cap,
{
    let t = s.push(m);
    if s.len() < cap {
        assert(recent(t, cap) =~= recent(s, cap).push(m));
    } else {
        assert(recent(t, cap) =~= recent(s, cap).drop_first().push(m));
    }
}

/// Law: the running maximum dominates every sample, and it is the least
/// sample that does so, memory total included.
pub proof fn lemma_fold_max_is_least_upper_bound(s: Seq<Metrics>)
    ensures
        forall|i: int| 0 <= i < s.len() ==> dominates(fold_max(s), #[trigger] s[i]),
        forall|c: Metrics|
            (forall|i: int| 0 <= i < s.len() ==> dominates(c, #[trigger] s[i])) ==> #[trigger] dominates(
                c,
                fold_max(s),
            ),
    decreases s.len(),
{
    if s.len() > 0 {
        let t = s.drop_last();
        lemma_fold_max_is_least_upper_bound(t);
        assert forall|i: int| 0 <= i < s.len() implies dominates(fold_max(s), #[trigger] s[i]) by {
            if i < s.len() - 1 {
                assert(s[i] == t[i]);
                assert(dominates(fold_max(t), t[i]));
            }
        }
        assert forall|c: Metrics|
            (forall|i: int| 0 <= i < s.len() ==> dominates(c, #[trigger] s[i])) implies #[trigger] dominates(
            c,
            fold_max(s),
        ) by {
            assert forall|i: int| 0 <= i < t.len() implies dominates(c, #[trigger] t[i]) by {
                assert(s[i] == t[i]);
            }
            assert(dominates(c, fold_max(t)));
            assert(dominates(c, s[s.len() - 1]));
        }
    }
}

/// Law: the GPU maximum is zero for an empty session and otherwise the GPU
/// load of some sample.
pub proof fn lemma_fold_max_gpu_attained(s: Seq<Metrics>)
    ensures
        s.len() == 0 ==> fold_max(s).gpu == 0,
        s.len() > 0 ==> exists|i: int| 0 <= i < s.len() && (#[trigger] s[i]).gpu == fold_max(s).gpu,
    decreases s.len(),
{
    if s.len() > 0 {
        let t = s.drop_last();
        lemma_fold_max_gpu_attained(t);
        if t.len() == 0 || s.last().gpu >= fold_max(t).gpu {
            assert(s[s.len() - 1].gpu == fold_max(s).gpu);
        } else {
            let j = choose|j: int| 0 <= j < t.len() && (#[trigger] t[j]).gpu == fold_max(t).gpu;
            assert(s[j] == t[j]);
        }
    }
}

/// Law: the session saw the GPU warning level exactly when the GPU maximum
/// is at that level; the warning shown during the session and the one in
/// the closing summary agree.
pub proof fn lemma_warning_iff_max_at_threshold(s: Seq<Metrics>)
    ensures
        any_gpu_warning(s) == (fold_max(s).gpu >= GPU_WARNING_THRESHOLD),
{
    lemma_fold_max_is_least_upper_bound(s);
    lemma_fold_max_gpu_attained(s);
    if any_gpu_warning(s) {
        let i = choose|i: int| 0 <= i < s.len() && (#[trigger] s[i]).gpu >= GPU_WARNING_THRESHOLD;
        assert(dominates(fold_max(s), s[i]));
    }
    if fold_max(s).gpu >= GPU_WARNING_THRESHOLD {
        let j = choose|j: int| 0 <= j < s.len() && (#[trigger] s[j]).gpu == fold_max(s).gpu;
        assert(s[j].gpu >= GPU_WARNING_THRESHOLD);
    }
}

/// Law: the maximum carries the largest memory total seen, and when no
/// sample used more memory than its own total, the Maximum row's memory
/// share lies between 0 and 100 percent.
pub proof fn lemma_fold_max_memory_share(s: Seq<Metrics>)
    requires
        forall|i: int| 0 <= i < s.len() ==> (#[trigger] s[i]).gpu_mem <= s[i].gpu_mem_total,
    ensures
        crate::metrics::vram_percent_of(fold_max(s)) <= 100,
{
    lemma_fold_max_mem_attained(s);
    if s.len() > 0 {
        let j = choose|j: int| 0 <= j < s.len() && (#[trigger] s[j]).gpu_mem == fold_max(s).gpu_mem;
        lemma_fold_max_is_least_upper_bound(s);
        assert(dominates(fold_max(s), s[j]));
    }
    crate::metrics::lemma_vram_percent_at_most_100(fold_max(s));
}

proof fn lemma_fold_max_mem_attained(s: Seq<Metrics>)
    ensures
        s.len() == 0 ==> fold_max(s).gpu_mem == 0,
        s.len() > 0 ==> exists|i: int|
            0 <= i < s.len() && (#[trigger] s[i]).gpu_mem == fold_max(s).gpu_mem,
    decreases s.len(),
{
    if s.len() > 0 {
        let t = s.drop_last();
        lemma_fold_max_mem_attained(t);
        if t.len() == 0 || s.last().gpu_mem >= fold_max(t).gpu_mem {
            assert(s[s.len() - 1].gpu_mem == fold_max(s).gpu_mem);
        } else {
            let j = choose|j: int| 0 <= j < t.len() && (#[trigger] t[j]).gpu_mem == fold_max(t).gpu_mem;
            assert(s[j] == t[j]);
        }
    }
}

/// Fires at a fixed period: a poll at or after the next due time fires and
/// moves the due time on by one period.
pub struct Ticker {
    next_due: u64,
    period: u64,
}

impl Ticker {
    pub closed spec fn next_due(&self) -> u64 {
        self.next_due
    }

    pub closed spec fn period(&self) -> u64 {
        self.period
    }

    /// A ticker whose first firing is due at `start`.
    pub fn new(start: u64, period: u64) -> (r: Ticker)
        ensures
            r.next_due() == start,
            r.period() == period,
    {
        Ticker { next_due: start, period }
    }

    /// Whether the update is due at time `now`; if so, the next one is
    /// scheduled one period after the one that just fired.
    pub fn poll(&mut self, now: u64) -> (fired: bool)
        requires
            now >= old(self).next_due() ==> old(self).next_due() + old(self).period() <= u64::MAX,
        ensures
            fired == (now >= old(self).next_due()),
            final(self).period() == old(self).period(),
            final(self).next_due() == (if fired {
                old(self).next_due() + old(self).period()
            } else {
                old(self).next_due() as int
            }),
    {
        if now >= self.next_due {
            self.next_due = self.next_due + self.period;
            true
        } else {
            false
        }
    }

    /// Whether a poll at `now` would overflow the schedule.
    pub fn can_poll(&self, now: u64) -> (r: bool)
        ensures
            r == (now >= self.next_due() ==> self.next_due() + self.period() <= u64::MAX),
    {
        now < self.next_due || self.next_due <= u64::MAX - self.period
    }
}

/// Whether a key press asks to stop the session: Ctrl together with `c`.
pub fn is_interrupt_key(ch: Option<char>, control: bool) -> (r: bool)
    ensures
        r == (ch == Some('c') && control),
{
    match ch {
        Some(c) => c == 'c' && control,
        None => false,
    }
}

/// A sample from the given CPU and RAM loads and a GPU reading (load,
/// temperature, used and total memory).
pub fn collect_metrics(cpu: u32, ram: u32, gpu: (u32, u32, u32, u32)) -> (r: Metrics)
    ensures
        r == (Metrics {
            cpu,
            ram,
            gpu: gpu.0,
            gpu_temp: gpu.1,
            gpu_mem: gpu.2,
            gpu_mem_total: gpu.3,
        }),
{
    let (g, gpu_temp, gpu_mem, gpu_mem_total) = gpu;
    Metrics { cpu, ram, gpu: g, gpu_temp, gpu_mem, gpu_mem_total }
}

} // verus!
