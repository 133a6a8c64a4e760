use std::collections::VecDeque;

use sysmon::display::graph::{
    GraphRow, bar_level, graph_height, graph_layout, graph_width, history_span_seconds, load, peak_load,
    sample_index, sample_step, y_scale, GraphCell,
};
use sysmon::display::panel::{
    graph_lower, headless_status, minimal_screen, plot_axis, plot_row, plot_top, row_label,
    session_summary, top_label, Segment, Tone,
};
use sysmon::metrics::Metrics;

fn m(cpu: u32, ram: u32, gpu: u32, gpu_temp: u32, gpu_mem: u32, gpu_mem_total: u32) -> Metrics {
    Metrics { cpu, ram, gpu, gpu_temp, gpu_mem, gpu_mem_total }
}

fn text(segs: &[Segment]) -> String {
    segs.iter().map(|s| s.text.as_str()).collect()
}

#[test]
fn plot_size_from_terminal() {
    assert_eq!(graph_width(120), 108);
    assert_eq!(graph_width(30), 40);
    assert_eq!(graph_width(5), 40);
    assert_eq!(graph_height(50), 32);
    assert_eq!(graph_height(20), 15);
    assert_eq!(graph_height(0), 15);
}

#[test]
fn scale_follows_peak() {
    assert_eq!(y_scale(0), 50);
    assert_eq!(y_scale(50), 50);
    assert_eq!(y_scale(51), 75);
    assert_eq!(y_scale(75), 75);
    assert_eq!(y_scale(76), 100);
    assert_eq!(y_scale(300), 100);
}

#[test]
fn peak_load_over_history() {
    let mut h = VecDeque::new();
    assert_eq!(peak_load(&h), 100);
    h.push_back(m(10, 20, 30, 0, 0, 0));
    h.push_back(m(5, 5, 5, 0, 600, 1000));
    assert_eq!(peak_load(&h), 60);
    assert_eq!(load(&m(70, 20, 30, 0, 0, 0)), 70);
}

#[test]
fn downsampling_step_and_index() {
    assert_eq!(sample_step(30, 40), 1);
    assert_eq!(sample_step(300, 108), 27);
    assert_eq!(sample_index(5, 1, 30), 5);
    assert_eq!(sample_index(107, 27, 300), 288);
    assert_eq!(sample_index(50, 1, 10), 9);
}

#[test]
fn bar_levels() {
    assert_eq!(bar_level(50, 15, 100), 7);
    assert_eq!(bar_level(100, 15, 100), 15);
    assert_eq!(bar_level(250, 15, 100), 15);
    assert_eq!(bar_level(0, 15, 50), 0);
}

#[test]
fn span_of_history() {
    assert_eq!(history_span_seconds(300, 5), 1500);
}

#[test]
fn layout_of_small_history() {
    let mut h = VecDeque::new();
    h.push_back(m(20, 10, 40, 0, 0, 0));
    h.push_back(m(0, 0, 0, 0, 0, 0));
    let l = graph_layout(&h, 10, 10);
    assert_eq!(l.width, 40);
    assert_eq!(l.height, 15);
    assert_eq!(l.y_scale, 50);
    assert_eq!(l.rows.len(), 15);
    assert_eq!(l.ticks.len(), 40);
    assert!(l.ticks[0] && l.ticks[10] && !l.ticks[11]);
    // top row is line 14: percent 14 * 50 / 15 = 46
    assert_eq!(l.rows[0].percent, 46);
    assert!(!l.rows[0].midline);
    for row in &l.rows {
        assert_eq!(row.cells.len(), 2);
    }
    // bottom row is line 0: every column shows a bar there
    assert_eq!(l.rows[14].percent, 0);
    assert_eq!(l.rows[14].cells[0], GraphCell::Gpu);
    assert_eq!(l.rows[14].cells[1], GraphCell::Gpu);
    // gpu 40 on scale 50 over 15 lines reaches line 12; cpu 20 reaches 6; ram 10 reaches 3
    let at = |y: usize, x: usize| l.rows[14 - y].cells[x];
    assert_eq!(at(12, 0), GraphCell::Gpu);
    assert_eq!(at(13, 0), GraphCell::Blank);
    assert_eq!(at(1, 1), GraphCell::Blank);
    // line 10 stands for 33%, line 9 for 30%
    assert_eq!(l.rows[14 - 9].percent, 30);
    // no line of this plot is labelled exactly half the scale
    assert!(!l.rows.iter().any(|r| r.midline));
}

#[test]
fn layers_in_priority_order() {
    let mut h = VecDeque::new();
    h.push_back(m(60, 80, 20, 0, 400, 1000));
    let l = graph_layout(&h, 0, 0);
    assert_eq!(l.y_scale, 100);
    let at = |y: usize| l.rows[14 - y].cells[0];
    // levels: gpu 3, vram 6, cpu 9, ram 12
    assert_eq!(at(3), GraphCell::Gpu);
    assert_eq!(at(4), GraphCell::Vram);
    assert_eq!(at(7), GraphCell::Cpu);
    assert_eq!(at(10), GraphCell::Ram);
    assert_eq!(at(13), GraphCell::Blank);
}

#[test]
fn grid_dots_on_quarter_lines() {
    let mut h = VecDeque::new();
    h.push_back(m(0, 0, 0, 0, 0, 0));
    h.push_back(m(60, 0, 0, 0, 0, 0));
    let l = graph_layout(&h, 0, 0);
    assert_eq!(l.y_scale, 75);
    // line 5 stands for 25%, a quarter line, and for the midline of 75 it is not
    let r = &l.rows[14 - 5];
    assert_eq!(r.percent, 25);
    assert_eq!(r.cells[0], GraphCell::Grid);
    assert_eq!(r.cells[1], GraphCell::Cpu);
    let r6 = &l.rows[14 - 6];
    assert_eq!(r6.percent, 30);
    assert_eq!(r6.cells[0], GraphCell::Blank);
    // 75 / 2 = 37: line 7 stands for 35, line 8 for 40; no midline
    assert!(!l.rows.iter().any(|r| r.midline));
}

#[test]
fn midline_on_scale_of_one_hundred() {
    let mut h = VecDeque::new();
    h.push_back(m(90, 0, 0, 0, 0, 0));
    // height 20: line 10 stands for 50
    let l = graph_layout(&h, 0, 38);
    assert_eq!(l.height, 20);
    let r = &l.rows[19 - 10];
    assert_eq!(r.percent, 50);
    assert!(r.midline);
    assert_eq!(l.rows.iter().filter(|r| r.midline).count(), 1);
}

#[test]
fn labels() {
    assert_eq!(row_label(5, false), "  5% │");
    assert_eq!(row_label(50, true), " 50% ┼");
    assert_eq!(top_label(100), "100% ┤");
}

#[test]
fn minimal_screen_text() {
    let cur = m(45, 54, 87, 72, 6543, 9600);
    let max = m(78, 67, 95, 75, 7890, 9600);
    let segs = minimal_screen(&cur, &max, true, "C:\\sysmon_1.csv", 2, "Below Normal", "NVIDIA");
    let expected = format!(
        "GPU: NVIDIA │ Interval: 2s │ Priority: Below Normal\n\n\
┌─ Current ──────────────────────────────────────────────────────┐\n│ \
GPU: 87% │ CPU: 45% │ VRAM:6543MB (68%) │ Temp:72°C │ RAM: 54% │\n\
├─ Maximum ──────────────────────────────────────────────────────┤\n│ \
GPU: 95% │ CPU: 78% │ VRAM:7890MB (82%) │ Temp:75°C │ RAM: 67% │\n\
└────────────────────────────────────────────────────────────────┘\n\
\n⚠ Warning: GPU reached 95%+ during session\n\
\nPress Ctrl+C to quit │ Log: C:\\sysmon_1.csv"
    );
    assert_eq!(text(&segs), expected);
    assert_eq!(segs[0].tone, Tone::DarkGrey);
    assert!(segs[1].bold);
    assert_eq!(segs[1].tone, Tone::Green);
}

#[test]
fn minimal_screen_without_warning() {
    let cur = m(1, 2, 3, 4, 5, 0);
    let segs = minimal_screen(&cur, &cur, false, "log", 1, "Normal", "None");
    assert!(!text(&segs).contains("Warning"));
}

#[test]
fn graph_lower_text() {
    let cur = m(45, 54, 87, 72, 6543, 9600);
    let segs = graph_lower(300, 600, true, &cur, &cur, "log.csv");
    let t = text(&segs);
    assert!(t.starts_with("      ←300 samples (~600s ago)\n\n     Legend: █ GPU  ▓ VRAM  ▒ CPU  ░ RAM  ⚠ GPU≥95%\n\n"));
    assert!(t.contains("┌─ Current ────────────────────────────────────────────────────┐\n│ GPU: 87% │"));
    assert!(t.ends_with("\nPress Ctrl+C to quit │ Log: log.csv"));
}

#[test]
fn headless_status_text() {
    let s = headless_status("12:34:56", &m(45, 54, 87, 72, 0, 0));
    assert_eq!(s, "[12:34:56] GPU:87% CPU:45% RAM:54% T:72°C");
}

#[test]
fn summary_text() {
    let s = session_summary(&m(78, 67, 96, 75, 0, 0), "a.csv");
    let rule = "=======================================================";
    let expected = format!(
        "\n{rule}\nSession Summary:\nMax GPU: 96%\nMax CPU: 78%\nMax RAM: 67%\nMax GPU Temp: 75°C\n⚠ GPU reached 95%+ during session\nLog saved to: a.csv\n{rule}\n\n"
    );
    assert_eq!(s, expected);
    let quiet = session_summary(&m(78, 67, 94, 75, 0, 0), "a.csv");
    assert!(!quiet.contains("reached"));
}

#[test]
fn columns_keep_history_order() {
    let len = 300;
    let width = graph_width(120);
    let step = sample_step(len, width);
    let idx: Vec<usize> = (0..width).map(|x| sample_index(x, step, len)).collect();
    assert_eq!(idx[0], 0);
    assert!(idx.windows(2).all(|w| w[0] <= w[1]));
    assert!(idx.iter().all(|&i| i < len));
}

#[test]
fn plot_lines() {
    let row = GraphRow {
        percent: 50,
        midline: true,
        cells: vec![GraphCell::Gpu, GraphCell::Vram, GraphCell::Cpu, GraphCell::Ram, GraphCell::Grid, GraphCell::Blank],
    };
    let segs = plot_row(&row);
    assert_eq!(text(&segs), " 50% ┼█▓▒░· \n");
    assert_eq!(segs[1].tone, Tone::Green);
    assert_eq!(segs[2].tone, Tone::Cyan);
    assert_eq!(segs[3].tone, Tone::Blue);
    assert_eq!(segs[4].tone, Tone::Magenta);
    assert_eq!(segs[5].tone, Tone::DarkGrey);
    assert_eq!(segs[6].tone, Tone::Plain);
    assert_eq!(text(&plot_top(75, 3)), "\n 75% ┤···\n");
    assert_eq!(text(&plot_axis(&vec![true, false, false])), "  0% └┴──\n");
}
