use sysmon::logging::{csv_header, csv_record, log_file_name};
use sysmon::menu::{display_mode_from_input, get_priority_name, interval_from_input, trim};
use sysmon::display::DisplayMode;
use sysmon::metrics::Metrics;
use sysmon::text::{decimal, push_padded};

#[test]
fn decimal_matches_display() {
    for n in [0u64, 7, 10, 99, 100, 12345, u32::MAX as u64, u64::MAX] {
        assert_eq!(decimal(n), format!("{}", n));
    }
}

#[test]
fn padding_matches_width_format() {
    for n in [0u64, 5, 42, 100, 12345] {
        let mut s = String::new();
        push_padded(&mut s, n, 3);
        assert_eq!(s, format!("{:3}", n));
        let mut t = String::from("x");
        push_padded(&mut t, n, 4);
        assert_eq!(t, format!("x{:4}", n));
    }
}

#[test]
fn csv_format() {
    assert_eq!(csv_header(), "timestamp,gpu_util,gpu_temp,gpu_mem_mb,cpu_util,ram_util");
    let m = Metrics { cpu: 45, ram: 54, gpu: 87, gpu_temp: 72, gpu_mem: 6543, gpu_mem_total: 9600 };
    let line = csv_record("2024-01-02 03:04:05", &m);
    assert_eq!(line, "2024-01-02 03:04:05,87,72,6543,45,54");
    let fields: Vec<&str> = line.split(',').collect();
    assert_eq!(fields.len(), csv_header().split(',').count());
    assert_eq!(fields[1].parse::<u32>().unwrap(), m.gpu);
    assert_eq!(fields[5].parse::<u32>().unwrap(), m.ram);
}

#[test]
fn log_name() {
    assert_eq!(log_file_name("20240102_030405"), "sysmon_20240102_030405.csv");
}

#[test]
fn display_mode_choices() {
    assert_eq!(display_mode_from_input("2\n"), DisplayMode::Graph);
    assert_eq!(display_mode_from_input("  3 \r\n"), DisplayMode::Headless);
    assert_eq!(display_mode_from_input("1\n"), DisplayMode::Minimal);
    assert_eq!(display_mode_from_input("22\n"), DisplayMode::Minimal);
    assert_eq!(display_mode_from_input(""), DisplayMode::Minimal);
    assert_eq!(display_mode_from_input("\u{3000}2\u{a0}"), DisplayMode::Graph);
}

#[test]
fn interval_choices_headless() {
    let h = DisplayMode::Headless;
    assert_eq!(interval_from_input(h, "1\n"), 1);
    assert_eq!(interval_from_input(h, "2\n"), 2);
    assert_eq!(interval_from_input(h, " 3\n"), 5);
    assert_eq!(interval_from_input(h, "4\n"), 10);
    assert_eq!(interval_from_input(h, "5\n"), 30);
    assert_eq!(interval_from_input(h, "6\n"), 1);
    assert_eq!(interval_from_input(h, "abc"), 1);
}

#[test]
fn interval_choices_interactive() {
    for mode in [DisplayMode::Minimal, DisplayMode::Graph] {
        assert_eq!(interval_from_input(mode, "1\n"), 1);
        assert_eq!(interval_from_input(mode, "2\n"), 2);
        assert_eq!(interval_from_input(mode, "3\n"), 5);
        assert_eq!(interval_from_input(mode, "4\n"), 1);
        assert_eq!(interval_from_input(mode, "5\n"), 1);
        assert_eq!(interval_from_input(mode, "x"), 1);
    }
}

#[test]
fn priority_names() {
    assert_eq!(get_priority_name(-2), "Idle");
    assert_eq!(get_priority_name(-1), "Below Normal");
    assert_eq!(get_priority_name(0), "Normal");
    assert_eq!(get_priority_name(1), "Above Normal");
    assert_eq!(get_priority_name(2), "Highest");
    assert_eq!(get_priority_name(15), "Time Critical");
    assert_eq!(get_priority_name(3), "Unknown");
    assert_eq!(get_priority_name(-15), "Unknown");
}

#[test]
fn trim_matches_std() {
    for t in ["", "  ", " a b ", "\t\n2\r\n", "\u{2003}x\u{3000}", "é ", "\u{85}y\u{a0}"] {
        assert_eq!(trim(t), t.trim());
    }
}
