use sysmon::metrics::{filetime_to_u64, CpuTracker, Metrics};

fn sample(cpu: u32, ram: u32, gpu: u32, gpu_temp: u32, gpu_mem: u32, gpu_mem_total: u32) -> Metrics {
    Metrics { cpu, ram, gpu, gpu_temp, gpu_mem, gpu_mem_total }
}

#[test]
fn vram_percent_truncates() {
    assert_eq!(sample(0, 0, 0, 0, 500, 1000).vram_percent(), 50);
    assert_eq!(sample(0, 0, 0, 0, 2047, 4096).vram_percent(), 49);
    assert_eq!(sample(0, 0, 0, 0, 8192, 8192).vram_percent(), 100);
}

#[test]
fn vram_percent_without_total_is_zero() {
    assert_eq!(sample(0, 0, 0, 0, 500, 0).vram_percent(), 0);
}

#[test]
fn vram_percent_above_total() {
    assert_eq!(sample(0, 0, 0, 0, 3000, 1000).vram_percent(), 300);
}

#[test]
fn vram_percent_large_values_wrap_like_a_cast() {
    let m = sample(0, 0, 0, 0, u32::MAX, 1);
    assert_eq!(m.vram_percent(), ((u32::MAX as u64 * 100) as u32));
}

#[test]
fn default_is_all_zero() {
    let m = Metrics::default();
    assert_eq!((m.cpu, m.ram, m.gpu, m.gpu_temp, m.gpu_mem, m.gpu_mem_total), (0, 0, 0, 0, 0, 0));
}

#[test]
fn update_max_takes_larger_values_and_largest_total() {
    let mut max = sample(10, 50, 30, 60, 100, 8000);
    max.update_max(&sample(20, 40, 30, 70, 90, 1234));
    assert_eq!(
        (max.cpu, max.ram, max.gpu, max.gpu_temp, max.gpu_mem, max.gpu_mem_total),
        (20, 50, 30, 70, 100, 8000)
    );
}

#[test]
fn update_max_twice_is_same_as_once() {
    let mut a = sample(1, 2, 3, 4, 5, 6);
    let b = sample(6, 5, 4, 3, 2, 1);
    a.update_max(&b);
    let once = (a.cpu, a.ram, a.gpu, a.gpu_temp, a.gpu_mem, a.gpu_mem_total);
    a.update_max(&b);
    assert_eq!(once, (a.cpu, a.ram, a.gpu, a.gpu_temp, a.gpu_mem, a.gpu_mem_total));
}

#[test]
fn cpu_usage_from_deltas() {
    let mut t = CpuTracker::new();
    assert!(t.can_take(50, 100, 100));
    assert_eq!(t.take_reading(50, 100, 100), 75);
    // second interval: idle +30, kernel +40, user +20 -> busy 30 of 60
    assert!(t.can_take(80, 140, 120));
    assert_eq!(t.take_reading(80, 140, 120), 50);
}

#[test]
fn cpu_usage_without_elapsed_time_is_zero() {
    let mut t = CpuTracker::new();
    assert_eq!(t.take_reading(0, 0, 0), 0);
    assert_eq!(t.take_reading(0, 0, 0), 0);
}

#[test]
fn cpu_usage_clamps_backward_counters() {
    let mut t = CpuTracker::new();
    t.take_reading(100, 200, 200);
    // kernel went backwards: its delta counts as zero
    assert_eq!(t.take_reading(110, 150, 220), 50);
}

#[test]
fn cpu_usage_truncates() {
    let mut t = CpuTracker::new();
    assert_eq!(t.take_reading(1, 2, 1), 66);
}

#[test]
fn cpu_reading_that_would_overflow_is_refused() {
    let t = CpuTracker::new();
    assert!(!t.can_take(0, u64::MAX, 1));
    assert!(!t.can_take(10, 5, 0));
}

#[test]
fn filetime_halves_join() {
    assert_eq!(filetime_to_u64(0, 7), 7);
    assert_eq!(filetime_to_u64(1, 0), 1 << 32);
    assert_eq!(filetime_to_u64(0x0123_4567, 0x89ab_cdef), 0x0123_4567_89ab_cdef);
}

#[test]
fn update_max_order_does_not_matter() {
    let a = sample(1, 9, 3, 7, 5, 100);
    let b = sample(8, 2, 6, 4, 10, 200);
    let c = sample(5, 5, 5, 5, 5, 300);
    let mut x = a;
    x.update_max(&b);
    x.update_max(&c);
    let mut y = a;
    y.update_max(&c);
    y.update_max(&b);
    assert_eq!(
        (x.cpu, x.ram, x.gpu, x.gpu_temp, x.gpu_mem, x.gpu_mem_total),
        (y.cpu, y.ram, y.gpu, y.gpu_temp, y.gpu_mem, y.gpu_mem_total)
    );
    assert_eq!(x.gpu_mem_total, 300);
}

#[test]
fn maximum_row_shows_memory_share() {
    let mut max = Metrics::default();
    max.update_max(&sample(78, 67, 95, 75, 7890, 9600));
    assert_eq!((max.gpu, max.cpu, max.ram, max.gpu_temp, max.gpu_mem, max.gpu_mem_total), (95, 78, 67, 75, 7890, 9600));
    assert_eq!(max.vram_percent(), 82);
}
