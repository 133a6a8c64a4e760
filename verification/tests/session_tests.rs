use std::collections::VecDeque;

use sysmon::display::DisplayMode;
use sysmon::gpu::{GpuManager, GpuVendor};
use sysmon::metrics::Metrics;
use sysmon::session::{collect_metrics, is_interrupt_key, Session, Ticker, MAX_HISTORY_POINTS};

fn gpu_sample(gpu: u32) -> Metrics {
    Metrics { cpu: gpu / 2, ram: 40, gpu, gpu_temp: 60, gpu_mem: 100, gpu_mem_total: 1000 }
}

#[test]
fn record_tracks_max_and_warning() {
    let mut s = Session::new(DisplayMode::Minimal);
    assert!(!s.record(gpu_sample(50)));
    assert!(!s.gpu_warning_seen());
    assert!(s.record(gpu_sample(97)));
    assert!(!s.record(gpu_sample(10)));
    assert!(s.gpu_warning_seen());
    let max = s.max();
    assert_eq!(max.gpu, 97);
    assert_eq!(max.cpu, 48);
    assert_eq!(max.gpu_mem_total, 1000);
    assert_eq!(max.vram_percent(), 10);
}

#[test]
fn warning_threshold_is_inclusive() {
    let mut s = Session::new(DisplayMode::Headless);
    assert!(s.record(gpu_sample(95)));
    assert!(!Session::new(DisplayMode::Headless).record(gpu_sample(94)));
}

#[test]
fn history_only_for_graph_mode() {
    let mut s = Session::new(DisplayMode::Minimal);
    s.record(gpu_sample(1));
    assert_eq!(s.history().len(), 0);
    let mut g = Session::new(DisplayMode::Graph);
    g.record(gpu_sample(1));
    assert_eq!(g.history().len(), 1);
}

#[test]
fn history_keeps_last_300() {
    let mut g = Session::new(DisplayMode::Graph);
    for i in 0..(MAX_HISTORY_POINTS as u32 + 5) {
        g.record(gpu_sample(i));
    }
    let h: &VecDeque<Metrics> = g.history();
    assert_eq!(h.len(), MAX_HISTORY_POINTS);
    assert_eq!(h[0].gpu, 5);
    assert_eq!(h[MAX_HISTORY_POINTS - 1].gpu, MAX_HISTORY_POINTS as u32 + 4);
}

#[test]
fn status_due_every_tenth_log() {
    let mut s = Session::new(DisplayMode::Headless);
    let due: Vec<bool> = (0..21).map(|_| s.note_logged()).collect();
    let expected: Vec<bool> = (1..=21).map(|n| n % 10 == 0).collect();
    assert_eq!(due, expected);
}

#[test]
fn ticker_fires_at_due_time_and_moves_on() {
    let mut t = Ticker::new(0, 2000);
    assert!(t.poll(0));
    assert!(!t.poll(1999));
    assert!(t.poll(2000));
    assert!(!t.poll(3000));
    // behind schedule: fires on each poll until caught up
    assert!(t.poll(9000));
    assert!(t.poll(9000));
    assert!(t.poll(9000));
    assert!(!t.poll(9000));
}

#[test]
fn ticker_overflow_is_detected() {
    let t = Ticker::new(u64::MAX - 1, 10);
    assert!(t.can_poll(0));
    assert!(!t.can_poll(u64::MAX));
}

#[test]
fn interrupt_key_is_ctrl_c() {
    assert!(is_interrupt_key(Some('c'), true));
    assert!(!is_interrupt_key(Some('c'), false));
    assert!(!is_interrupt_key(Some('C'), true));
    assert!(!is_interrupt_key(None, true));
}

#[test]
fn collect_metrics_places_each_reading() {
    let m = collect_metrics(33, 44, (87, 72, 6543, 9600));
    assert_eq!(
        (m.cpu, m.ram, m.gpu, m.gpu_temp, m.gpu_mem, m.gpu_mem_total),
        (33, 44, 87, 72, 6543, 9600)
    );
}

#[test]
fn collect_metrics_without_gpu() {
    let g = GpuManager::auto_detect();
    let m = collect_metrics(33, 44, g.get_metrics());
    assert_eq!((m.cpu, m.ram), (33, 44));
    if g.vendor() == GpuVendor::Unknown {
        assert_eq!((m.gpu, m.gpu_temp, m.gpu_mem, m.gpu_mem_total), (0, 0, 0, 0));
    }
}

#[test]
fn warning_seen_agrees_with_maximum() {
    let mut s = Session::new(DisplayMode::Graph);
    for g in [10u32, 94, 20, 95, 3, 100, 0] {
        s.record(gpu_sample(g));
        assert_eq!(s.gpu_warning_seen(), s.max().gpu >= 95);
    }
}

#[test]
fn step_in_interactive_mode_renders_and_logs_together() {
    let mut s = Session::new(DisplayMode::Graph);
    let a = s.step(gpu_sample(96), true);
    assert!(a.warning && a.render && a.log && !a.status);
    let b = s.step(gpu_sample(10), false);
    assert!(!b.warning && !b.render && !b.log && !b.status);
    assert_eq!(s.log_count(), 0);
    assert_eq!(s.history().len(), 2);
}

#[test]
fn step_in_headless_mode_prints_status_every_tenth_log() {
    let mut s = Session::new(DisplayMode::Headless);
    let mut statuses = Vec::new();
    for i in 0..25u32 {
        let due = i % 2 == 0;
        let a = s.step(gpu_sample(i), due);
        assert!(!a.render);
        assert_eq!(a.log, due);
        statuses.push(a.status);
    }
    assert_eq!(s.log_count(), 13);
    assert_eq!(statuses.iter().filter(|x| **x).count(), 1);
    assert!(statuses[18]);
    assert_eq!(s.max().gpu, 24);
}
