//! The text of the screens, as a sequence of styled segments: the status
//! line, the panel of current and maximum values, the warning, the graph's
//! labels and legend, and the footer.

use vstd::prelude::*;

use crate::display::graph::{GraphCell, GraphRow};
use crate::metrics::{Metrics, vram_percent_of};
use crate::session::GPU_WARNING_THRESHOLD;
use crate::text::{dec, dec_padded, push_decimal, push_padded};

verus! {

/// The colour a segment is printed in.
#[derive(PartialEq, Eq, Structural, Clone, Copy, Debug)]
pub enum Tone {
    /// The terminal's own colour.
    Plain,
    White,
    DarkGrey,
    Green,
    Yellow,
    Cyan,
    Blue,
    Red,
    Magenta,
}

/// A run of text printed in one colour, bold or not.
pub struct Segment {
    pub tone: Tone,
    pub bold: bool,
    pub text: String,
}

impl View for Segment {
    type V = (Tone, bool, Seq<char>);

    open spec fn view(&self) -> (Tone, bool, Seq<char>) {
        (self.tone, self.bold, self.text@)
    }
}

pub open spec fn segs_view(v: Seq<Segment>) -> Seq<(Tone, bool, Seq<char>)> {
    v.map_values(|s: Segment| s@)
}

/// A plain, non-bold piece of text in a colour.
pub open spec fn piece(tone: Tone, text: Seq<char>) -> (Tone, bool, Seq<char>) {
    (tone, false, text)
}

pub open spec fn separator() -> (Tone, bool, Seq<char>) {
    piece(Tone::DarkGrey, " │ "@)
}

/// The values of one sample: GPU, CPU, VRAM, temperature and RAM, each
/// right-aligned in its field, separated by grey bars.
pub open spec fn metric_row_spec(m: Metrics) -> Seq<(Tone, bool, Seq<char>)> {
    seq![
        piece(Tone::Green, "GPU:"@ + dec_padded(m.gpu as nat, 3) + "%"@),
        separator(),
        piece(Tone::Blue, "CPU:"@ + dec_padded(m.cpu as nat, 3) + "%"@),
        separator(),
        piece(
            Tone::Cyan,
            "VRAM:"@ + dec_padded(m.gpu_mem as nat, 4) + "MB ("@ + dec_padded(
                vram_percent_of(m) as nat,
                2,
            ) + "%)"@,
        ),
        separator(),
        piece(Tone::Red, "Temp:"@ + dec_padded(m.gpu_temp as nat, 2) + "°C"@),
        separator(),
        piece(Tone::Magenta, "RAM:"@ + dec_padded(m.ram as nat, 3) + "%"@),
        piece(Tone::Plain, " │\n"@),
    ]
}

/// The first line of both screens: GPU vendor, interval and priority.
pub open spec fn status_line_spec(vendor: Seq<char>, interval: u64, priority: Seq<char>) -> Seq<
    (Tone, bool, Seq<char>),
> {
    seq![
        piece(Tone::DarkGrey, "GPU: "@),
        (Tone::Green, true, vendor),
        piece(
            Tone::DarkGrey,
            " │ Interval: "@ + dec(interval as nat) + "s │ Priority: "@ + priority + "\n"@,
        ),
    ]
}

/// The panel of current and maximum values between the given box lines.
pub open spec fn panel_spec(
    top: Seq<char>,
    middle: Seq<char>,
    bottom: Seq<char>,
    current: Metrics,
    max: Metrics,
) -> Seq<(Tone, bool, Seq<char>)> {
    seq![(Tone::White, true, top)] + metric_row_spec(current) + seq![piece(Tone::White, middle)]
        + metric_row_spec(max) + seq![piece(Tone::White, bottom)]
}

/// The last line: how to quit and where the log goes.
pub open spec fn footer_spec(log_file: Seq<char>) -> Seq<(Tone, bool, Seq<char>)> {
    seq![
        piece(Tone::DarkGrey, "Press "@),
        piece(Tone::Yellow, "Ctrl+C"@),
        piece(Tone::DarkGrey, " to quit │ Log: "@),
        piece(Tone::Cyan, log_file),
    ]
}

pub open spec fn minimal_top() -> Seq<char> {
    "┌─ Current ──────────────────────────────────────────────────────┐\n│ "@
}

pub open spec fn minimal_middle() -> Seq<char> {
    "├─ Maximum ──────────────────────────────────────────────────────┤\n│ "@
}

pub open spec fn minimal_bottom() -> Seq<char> {
    "└────────────────────────────────────────────────────────────────┘\n"@
}

pub open spec fn graph_top() -> Seq<char> {
    "┌─ Current ────────────────────────────────────────────────────┐\n│ "@
}

pub open spec fn graph_middle() -> Seq<char> {
    "├─ Maximum ────────────────────────────────────────────────────┤\n│ "@
}

pub open spec fn graph_bottom() -> Seq<char> {
    "└──────────────────────────────────────────────────────────────┘\n"@
}

/// The session warning of the minimal screen.
pub open spec fn warning_spec() -> Seq<(Tone, bool, Seq<char>)> {
    seq![
        piece(Tone::Plain, "\n"@),
        (Tone::Yellow, true, "⚠"@),
        piece(
            Tone::Yellow,
            " Warning: GPU reached "@ + dec(GPU_WARNING_THRESHOLD as nat) + "%+ during session\n"@,
        ),
    ]
}

/// Everything the minimal screen shows below its cleared top line.
pub open spec fn minimal_screen_spec(
    current: Metrics,
    max: Metrics,
    gpu_warning_seen: bool,
    log_file: Seq<char>,
    interval: u64,
    priority: Seq<char>,
    vendor: Seq<char>,
) -> Seq<(Tone, bool, Seq<char>)> {
    status_line_spec(vendor, interval, priority) + seq![piece(Tone::Plain, "\n"@)] + panel_spec(
        minimal_top(),
        minimal_middle(),
        minimal_bottom(),
        current,
        max,
    ) + (if gpu_warning_seen {
        warning_spec()
    } else {
        Seq::empty()
    }) + seq![piece(Tone::Plain, "\n"@)] + footer_spec(log_file)
}

/// The lower part of the graph screen, from the sample count under the x
/// axis to the footer.
pub open spec fn graph_lower_spec(
    samples: nat,
    span_seconds: nat,
    gpu_warning_seen: bool,
    current: Metrics,
    max: Metrics,
    log_file: Seq<char>,
) -> Seq<(Tone, bool, Seq<char>)> {
    seq![
        piece(
            Tone::DarkGrey,
            "      ←"@ + dec(samples) + " samples (~"@ + dec(span_seconds) + "s ago)"@,
        ),
        piece(Tone::Plain, "\n\n"@),
        piece(Tone::DarkGrey, "     Legend: "@),
        (Tone::Green, true, "█"@),
        piece(Tone::Plain, " GPU  "@),
        piece(Tone::Cyan, "▓ VRAM  "@),
        piece(Tone::Blue, "▒ CPU  "@),
        piece(Tone::Magenta, "░ RAM"@),
    ] + (if gpu_warning_seen {
        seq![
            piece(Tone::Plain, "  "@),
            (Tone::Yellow, true, "⚠"@),
            piece(Tone::Plain, " GPU≥95%"@),
        ]
    } else {
        Seq::empty()
    }) + seq![piece(Tone::Plain, "\n\n"@)] + panel_spec(
        graph_top(),
        graph_middle(),
        graph_bottom(),
        current,
        max,
    ) + seq![piece(Tone::Plain, "\n"@)] + footer_spec(log_file)
}

/// The axis label of a plot line: the percentage right-aligned in three
/// characters, then a cross on the middle line and a bar elsewhere.
pub open spec fn row_label_spec(percent: nat, midline: bool) -> Seq<char> {
    dec_padded(percent, 3) + (if midline {
        "% ┼"@
    } else {
        "% │"@
    })
}

/// The label above the plot: the top of the scale.
pub open spec fn top_label_spec(y_scale: nat) -> Seq<char> {
    dec_padded(y_scale, 3) + "% ┤"@
}

fn push_seg(out: &mut Vec<Segment>, tone: Tone, bold: bool, text: String)
    ensures
        segs_view(final(out)@) == segs_view(old(out)@).push((tone, bold, text@)),
{
    let ghost t = text@;
    out.push(Segment { tone, bold, text });
    assert(segs_view(final(out)@) =~= segs_view(old(out)@).push((tone, bold, t)));
}

fn push_segment(out: &mut Vec<Segment>, seg: Segment)
    ensures
        segs_view(final(out)@) == segs_view(old(out)@).push(seg@),
{
    let ghost v = seg@;
    out.push(seg);
    assert(segs_view(final(out)@) =~= segs_view(old(out)@).push(v));
}

fn push_text(out: &mut Vec<Segment>, tone: Tone, text: &str)
    ensures
        segs_view(final(out)@) == segs_view(old(out)@).push(piece(tone, text@)),
{
    push_seg(out, tone, false, String::from_str(text));
}

/// Appends the values of one sample.
pub fn push_metric_row(out: &mut Vec<Segment>, m: &Metrics)
    ensures
        segs_view(final(out)@) == segs_view(old(out)@) + metric_row_spec(*m),
{
    let ghost start = segs_view(out@);

    let mut gpu = String::from_str("GPU:");
    push_padded(&mut gpu, m.gpu as u64, 3);
    gpu.append("%");
    push_seg(out, Tone::Green, false, gpu);
    push_text(out, Tone::DarkGrey, " │ ");

    let mut cpu = String::from_str("CPU:");
    push_padded(&mut cpu, m.cpu as u64, 3);
    cpu.append("%");
    push_seg(out, Tone::Blue, false, cpu);
    push_text(out, Tone::DarkGrey, " │ ");

    let mut vram = String::from_str("VRAM:");
    push_padded(&mut vram, m.gpu_mem as u64, 4);
    vram.append("MB (");
    push_padded(&mut vram, m.vram_percent() as u64, 2);
    vram.append("%)");
    push_seg(out, Tone::Cyan, false, vram);
    push_text(out, Tone::DarkGrey, " │ ");

    let mut temp = String::from_str("Temp:");
    push_padded(&mut temp, m.gpu_temp as u64, 2);
    temp.append("°C");
    push_seg(out, Tone::Red, false, temp);
    push_text(out, Tone::DarkGrey, " │ ");

    let mut ram = String::from_str("RAM:");
    push_padded(&mut ram, m.ram as u64, 3);
    ram.append("%");
    push_seg(out, Tone::Magenta, false, ram);
    push_text(out, Tone::Plain, " │\n");

    assert(segs_view(out@) =~= start + metric_row_spec(*m));
}

/// Appends the status line.
pub fn push_status_line(out: &mut Vec<Segment>, vendor: &str, interval: u64, priority: &str)
    ensures
        segs_view(final(out)@) == segs_view(old(out)@) + status_line_spec(
            vendor@,
            interval,
            priority@,
        ),
{
    let ghost start = segs_view(out@);
    push_text(out, Tone::DarkGrey, "GPU: ");
    push_seg(out, Tone::Green, true, String::from_str(vendor));
    let mut rest = String::from_str(" │ Interval: ");
    push_decimal(&mut rest, interval);
    rest.append("s │ Priority: ");
    rest.append(priority);
    rest.append("\n");
    push_seg(out, Tone::DarkGrey, false, rest);
    assert(segs_view(out@) =~= start + status_line_spec(vendor@, interval, priority@));
}

fn push_panel(
    out: &mut Vec<Segment>,
    top: &str,
    middle: &str,
    bottom: &str,
    current: &Metrics,
    max: &Metrics,
)
    ensures
        segs_view(final(out)@) == segs_view(old(out)@) + panel_spec(
            top@,
            middle@,
            bottom@,
            *current,
            *max,
        ),
{
    let ghost start = segs_view(out@);
    push_seg(out, Tone::White, true, String::from_str(top));
    push_metric_row(out, current);
    push_text(out, Tone::White, middle);
    push_metric_row(out, max);
    push_text(out, Tone::White, bottom);
    assert(segs_view(out@) =~= start + panel_spec(top@, middle@, bottom@, *current, *max));
}

fn push_footer(out: &mut Vec<Segment>, log_file: &str)
    ensures
        segs_view(final(out)@) == segs_view(old(out)@) + footer_spec(log_file@),
{
    let ghost start = segs_view(out@);
    push_text(out, Tone::DarkGrey, "Press ");
    push_text(out, Tone::Yellow, "Ctrl+C");
    push_text(out, Tone::DarkGrey, " to quit │ Log: ");
    push_text(out, Tone::Cyan, log_file);
    assert(segs_view(out@) =~= start + footer_spec(log_file@));
}

/// The minimal screen.
pub fn minimal_screen(
    current: &Metrics,
    max: &Metrics,
    gpu_warning_seen: bool,
    log_file: &str,
    interval: u64,
    priority: &str,
    vendor: &str,
) -> (r: Vec<Segment>)
    ensures
        segs_view(r@) == minimal_screen_spec(
            *current,
            *max,
            gpu_warning_seen,
            log_file@,
            interval,
            priority@,
            vendor@,
        ),
{
    let mut out: Vec<Segment> = Vec::new();
    assert(segs_view(out@) =~= Seq::empty());
    push_status_line(&mut out, vendor, interval, priority);
    push_text(&mut out, Tone::Plain, "\n");
    push_panel(
        &mut out,
        "┌─ Current ──────────────────────────────────────────────────────┐\n│ ",
        "├─ Maximum ──────────────────────────────────────────────────────┤\n│ ",
        "└────────────────────────────────────────────────────────────────┘\n",
        current,
        max,
    );
    let ghost before_warning = segs_view(out@);
    if gpu_warning_seen {
        push_text(&mut out, Tone::Plain, "\n");
        push_seg(&mut out, Tone::Yellow, true, String::from_str("⚠"));
        let mut w = String::from_str(" Warning: GPU reached ");
        push_decimal(&mut w, GPU_WARNING_THRESHOLD as u64);
        w.append("%+ during session\n");
        push_seg(&mut out, Tone::Yellow, false, w);
        assert(segs_view(out@) =~= before_warning + warning_spec());
    } else {
        assert(segs_view(out@) =~= before_warning + Seq::empty());
    }
    push_text(&mut out, Tone::Plain, "\n");
    push_footer(&mut out, log_file);
    assert(segs_view(out@) =~= minimal_screen_spec(
        *current,
        *max,
        gpu_warning_seen,
        log_file@,
        interval,
        priority@,
        vendor@,
    ));
    out
}

/// The lower part of the graph screen.
pub fn graph_lower(
    samples: usize,
    span_seconds: u64,
    gpu_warning_seen: bool,
    current: &Metrics,
    max: &Metrics,
    log_file: &str,
) -> (r: Vec<Segment>)
    ensures
        segs_view(r@) == graph_lower_spec(
            samples as nat,
            span_seconds as nat,
            gpu_warning_seen,
            *current,
            *max,
            log_file@,
        ),
{
    let mut out: Vec<Segment> = Vec::new();
    assert(segs_view(out@) =~= Seq::empty());
    let mut info = String::from_str("      ←");
    push_decimal(&mut info, samples as u64);
    info.append(" samples (~");
    push_decimal(&mut info, span_seconds);
    info.append("s ago)");
    push_seg(&mut out, Tone::DarkGrey, false, info);
    push_text(&mut out, Tone::Plain, "\n\n");
    push_text(&mut out, Tone::DarkGrey, "     Legend: ");
    push_seg(&mut out, Tone::Green, true, String::from_str("█"));
    push_text(&mut out, Tone::Plain, " GPU  ");
    push_text(&mut out, Tone::Cyan, "▓ VRAM  ");
    push_text(&mut out, Tone::Blue, "▒ CPU  ");
    push_text(&mut out, Tone::Magenta, "░ RAM");
    let ghost before_warning = segs_view(out@);
    if gpu_warning_seen {
        push_text(&mut out, Tone::Plain, "  ");
        push_seg(&mut out, Tone::Yellow, true, String::from_str("⚠"));
        push_text(&mut out, Tone::Plain, " GPU≥95%");
        assert(segs_view(out@) =~= before_warning + seq![
            piece(Tone::Plain, "  "@),
            (Tone::Yellow, true, "⚠"@),
            piece(Tone::Plain, " GPU≥95%"@),
        ]);
    } else {
        assert(segs_view(out@) =~= before_warning + Seq::empty());
    }
    push_text(&mut out, Tone::Plain, "\n\n");
    push_panel(
        &mut out,
        "┌─ Current ────────────────────────────────────────────────────┐\n│ ",
        "├─ Maximum ────────────────────────────────────────────────────┤\n│ ",
        "└──────────────────────────────────────────────────────────────┘\n",
        current,
        max,
    );
    push_text(&mut out, Tone::Plain, "\n");
    push_footer(&mut out, log_file);
    assert(segs_view(out@) =~= graph_lower_spec(
        samples as nat,
        span_seconds as nat,
        gpu_warning_seen,
        *current,
        *max,
        log_file@,
    ));
    out
}

/// The axis label of a plot line.
pub fn row_label(percent: usize, midline: bool) -> (r: String)
    ensures
        r@ == row_label_spec(percent as nat, midline),
{
    let mut s = String::new();
    push_padded(&mut s, percent as u64, 3);
    if midline {
        s.append("% ┼");
    } else {
        s.append("% │");
    }
    assert(s@ =~= row_label_spec(percent as nat, midline));
    s
}

/// The label above the plot.
pub fn top_label(y_scale: u32) -> (r: String)
    ensures
        r@ == top_label_spec(y_scale as nat),
{
    let mut s = String::new();
    push_padded(&mut s, y_scale as u64, 3);
    s.append("% ┤");
    assert(s@ =~= top_label_spec(y_scale as nat));
    s
}

/// The status line that headless mode prints every tenth log line.
pub open spec fn headless_status_spec(time: Seq<char>, m: Metrics) -> Seq<char> {
    "["@ + time + "] GPU:"@ + dec(m.gpu as nat) + "% CPU:"@ + dec(m.cpu as nat) + "% RAM:"@ + dec(
        m.ram as nat,
    ) + "% T:"@ + dec(m.gpu_temp as nat) + "°C"@
}

pub fn headless_status(time: &str, m: &Metrics) -> (r: String)
    ensures
        r@ == headless_status_spec(time@, *m),
{
    let mut s = String::from_str("[");
    s.append(time);
    s.append("] GPU:");
    push_decimal(&mut s, m.gpu as u64);
    s.append("% CPU:");
    push_decimal(&mut s, m.cpu as u64);
    s.append("% RAM:");
    push_decimal(&mut s, m.ram as u64);
    s.append("% T:");
    push_decimal(&mut s, m.gpu_temp as u64);
    s.append("°C");
    s
}

pub open spec fn rule_line() -> Seq<char> {
    "======================================================="@
}

/// The closing summary: the maximum GPU, CPU and RAM loads and GPU
/// temperature, a warning line exactly when the GPU maximum reached the
/// warning level, and where the log was saved.
pub open spec fn session_summary_spec(max: Metrics, log_file: Seq<char>) -> Seq<char> {
    "\n"@ + rule_line() + "\n"@ + "Session Summary:\n"@ + "Max GPU: "@ + dec(max.gpu as nat) + "%\n"@
        + "Max CPU: "@ + dec(max.cpu as nat) + "%\n"@ + "Max RAM: "@ + dec(max.ram as nat) + "%\n"@
        + "Max GPU Temp: "@ + dec(max.gpu_temp as nat) + "°C\n"@ + (if max.gpu
        >= GPU_WARNING_THRESHOLD {
        "⚠ GPU reached "@ + dec(GPU_WARNING_THRESHOLD as nat) + "%+ during session\n"@
    } else {
        Seq::empty()
    }) + "Log saved to: "@ + log_file + "\n"@ + rule_line() + "\n\n"@
}

pub fn session_summary(max: &Metrics, log_file: &str) -> (r: String)
    ensures
        r@ == session_summary_spec(*max, log_file@),
{
    let mut s = String::from_str("\n");
    s.append("=======================================================");
    s.append("\n");
    s.append("Session Summary:\n");
    s.append("Max GPU: ");
    push_decimal(&mut s, max.gpu as u64);
    s.append("%\n");
    s.append("Max CPU: ");
    push_decimal(&mut s, max.cpu as u64);
    s.append("%\n");
    s.append("Max RAM: ");
    push_decimal(&mut s, max.ram as u64);
    s.append("%\n");
    s.append("Max GPU Temp: ");
    push_decimal(&mut s, max.gpu_temp as u64);
    s.append("°C\n");
    let ghost before = s@;
    if max.gpu >= GPU_WARNING_THRESHOLD {
        s.append("⚠ GPU reached ");
        push_decimal(&mut s, GPU_WARNING_THRESHOLD as u64);
        s.append("%+ during session\n");
    } else {
        assert(s@ =~= before + Seq::<char>::empty());
    }
    s.append("Log saved to: ");
    s.append(log_file);
    s.append("\n");
    s.append("=======================================================");
    s.append("\n\n");
    s
}

/// The glyph and colour that a plot cell is drawn with.
pub open spec fn cell_segment_spec(c: GraphCell) -> (Tone, bool, Seq<char>) {
    match c {
        GraphCell::Gpu => piece(Tone::Green, "█"@),
        GraphCell::Vram => piece(Tone::Cyan, "▓"@),
        GraphCell::Cpu => piece(Tone::Blue, "▒"@),
        GraphCell::Ram => piece(Tone::Magenta, "░"@),
        GraphCell::Grid => piece(Tone::DarkGrey, "·"@),
        GraphCell::Blank => piece(Tone::Plain, " "@),
    }
}

/// One line of the plot: its axis label, its cells, and a line break.
pub open spec fn plot_row_spec(percent: nat, midline: bool, cells: Seq<GraphCell>) -> Seq<
    (Tone, bool, Seq<char>),
> {
    seq![piece(Tone::DarkGrey, row_label_spec(percent, midline))] + cells.map_values(
        |c: GraphCell| cell_segment_spec(c),
    ) + seq![piece(Tone::Plain, "\n"@)]
}

/// The line above the plot: the top of the scale, then a dotted border as
/// wide as the plot.
pub open spec fn plot_top_spec(y_scale: nat, width: nat) -> Seq<(Tone, bool, Seq<char>)> {
    seq![piece(Tone::Plain, "\n"@), piece(Tone::DarkGrey, top_label_spec(y_scale))] + Seq::new(
        width,
        |i: int| piece(Tone::DarkGrey, "·"@),
    ) + seq![piece(Tone::Plain, "\n"@)]
}

pub open spec fn tick_segment_spec(tick: bool) -> (Tone, bool, Seq<char>) {
    piece(
        Tone::DarkGrey,
        if tick {
            "┴"@
        } else {
            "─"@
        },
    )
}

/// The x axis: its origin label, then a tick or a rule for every column.
pub open spec fn plot_axis_spec(ticks: Seq<bool>) -> Seq<(Tone, bool, Seq<char>)> {
    seq![piece(Tone::DarkGrey, "  0% └"@)] + ticks.map_values(|t: bool| tick_segment_spec(t))
        + seq![piece(Tone::Plain, "\n"@)]
}

fn cell_segment(c: GraphCell) -> (r: Segment)
    ensures
        r@ == cell_segment_spec(c),
{
    let (tone, glyph) = match c {
        GraphCell::Gpu => (Tone::Green, "█"),
        GraphCell::Vram => (Tone::Cyan, "▓"),
        GraphCell::Cpu => (Tone::Blue, "▒"),
        GraphCell::Ram => (Tone::Magenta, "░"),
        GraphCell::Grid => (Tone::DarkGrey, "·"),
        GraphCell::Blank => (Tone::Plain, " "),
    };
    Segment { tone, bold: false, text: String::from_str(glyph) }
}

/// One line of the plot.
pub fn plot_row(row: &GraphRow) -> (r: Vec<Segment>)
    ensures
        segs_view(r@) == plot_row_spec(row.percent as nat, row.midline, row.cells@),
{
    let mut out: Vec<Segment> = Vec::new();
    push_seg(&mut out, Tone::DarkGrey, false, row_label(row.percent, row.midline));
    let ghost start = segs_view(out@);
    let n = row.cells.len();
    let mut k: usize = 0;
    while k < n
        invariant
            0 <= k <= n,
            n == row.cells@.len(),
            segs_view(out@) == start + row.cells@.take(k as int).map_values(
                |c: GraphCell| cell_segment_spec(c),
            ),
        decreases n - k,
    {
        push_segment(&mut out, cell_segment(row.cells[k]));
        proof {
            assert(row.cells@.take(k as int + 1).map_values(|c: GraphCell| cell_segment_spec(c))
                =~= row.cells@.take(k as int).map_values(|c: GraphCell| cell_segment_spec(c)).push(
                cell_segment_spec(row.cells@[k as int]),
            ));
        }
        k = k + 1;
    }
    push_text(&mut out, Tone::Plain, "\n");
    proof {
        assert(row.cells@.take(n as int) =~= row.cells@);
    }
    assert(segs_view(out@) =~= plot_row_spec(row.percent as nat, row.midline, row.cells@));
    out
}

/// The line above the plot.
pub fn plot_top(y_scale: u32, width: usize) -> (r: Vec<Segment>)
    ensures
        segs_view(r@) == plot_top_spec(y_scale as nat, width as nat),
{
    let mut out: Vec<Segment> = Vec::new();
    assert(segs_view(out@) =~= Seq::empty());
    push_text(&mut out, Tone::Plain, "\n");
    push_seg(&mut out, Tone::DarkGrey, false, top_label(y_scale));
    let ghost start = segs_view(out@);
    let mut k: usize = 0;
    while k < width
        invariant
            0 <= k <= width,
            segs_view(out@) == start + Seq::new(k as nat, |i: int| piece(Tone::DarkGrey, "·"@)),
        decreases width - k,
    {
        push_text(&mut out, Tone::DarkGrey, "·");
        proof {
            assert(Seq::new((k + 1) as nat, |i: int| piece(Tone::DarkGrey, "·"@)) =~= Seq::new(
                k as nat,
                |i: int| piece(Tone::DarkGrey, "·"@),
            ).push(piece(Tone::DarkGrey, "·"@)));
        }
        k = k + 1;
    }
    push_text(&mut out, Tone::Plain, "\n");
    assert(segs_view(out@) =~= plot_top_spec(y_scale as nat, width as nat));
    out
}

/// The x axis.
pub fn plot_axis(ticks: &Vec<bool>) -> (r: Vec<Segment>)
    ensures
        segs_view(r@) == plot_axis_spec(ticks@),
{
    let mut out: Vec<Segment> = Vec::new();
    assert(segs_view(out@) =~= Seq::empty());
    push_text(&mut out, Tone::DarkGrey, "  0% └");
    let ghost start = segs_view(out@);
    let n = ticks.len();
    let mut k: usize = 0;
    while k < n
        invariant
            0 <= k <= n,
            n == ticks@.len(),
            segs_view(out@) == start + ticks@.take(k as int).map_values(
                |t: bool| tick_segment_spec(t),
            ),
        decreases n - k,
    {
        if ticks[k] {
            push_text(&mut out, Tone::DarkGrey, "┴");
        } else {
            push_text(&mut out, Tone::DarkGrey, "─");
        }
        proof {
            assert(ticks@.take(k as int + 1).map_values(|t: bool| tick_segment_spec(t)) =~= ticks@.take(
                k as int,
            ).map_values(|t: bool| tick_segment_spec(t)).push(tick_segment_spec(ticks@[k as int])));
        }
        k = k + 1;
    }
    push_text(&mut out, Tone::Plain, "\n");
    proof {
        assert(ticks@.take(n as int) =~= ticks@);
    }
    assert(segs_view(out@) =~= plot_axis_spec(ticks@));
    out
}

/// Law: on both screens the row after the "Maximum" line shows the values
/// of the maximum, and the row after the "Current" line those of the
/// current sample: the graph screen's Maximum row is the minimal screen's
/// Maximum row for the same maximum, whatever the current sample, warning,
/// counts and texts.
pub proof fn lemma_panels_show_current_and_maximum(
    samples: nat,
    span_seconds: nat,
    graph_warning: bool,
    minimal_warning: bool,
    graph_current: Metrics,
    minimal_current: Metrics,
    max: Metrics,
    log_file: Seq<char>,
    interval: u64,
    priority: Seq<char>,
    vendor: Seq<char>,
)
    ensures
        ({
            let g = graph_lower_spec(samples, span_seconds, graph_warning, graph_current, max, log_file);
            let m = minimal_screen_spec(
                minimal_current,
                max,
                minimal_warning,
                log_file,
                interval,
                priority,
                vendor,
            );
            let w: int = if graph_warning {
                3
            } else {
                0
            };
            &&& g[20 + w] == piece(Tone::White, graph_middle())
            &&& g.subrange(21 + w, 31 + w) == metric_row_spec(max)
            &&& g[9 + w] == (Tone::White, true, graph_top())
            &&& g.subrange(10 + w, 20 + w) == metric_row_spec(graph_current)
            &&& m[15] == piece(Tone::White, minimal_middle())
            &&& m.subrange(16, 26) == metric_row_spec(max)
            &&& m[4] == (Tone::White, true, minimal_top())
            &&& m.subrange(5, 15) == metric_row_spec(minimal_current)
            &&& g.subrange(21 + w, 31 + w) == m.subrange(16, 26)
        }),
{
    let g = graph_lower_spec(samples, span_seconds, graph_warning, graph_current, max, log_file);
    let w: int = if graph_warning {
        3
    } else {
        0
    };
    let head = seq![
        piece(
            Tone::DarkGrey,
            "      ←"@ + dec(samples) + " samples (~"@ + dec(span_seconds) + "s ago)"@,
        ),
        piece(Tone::Plain, "\n\n"@),
        piece(Tone::DarkGrey, "     Legend: "@),
        (Tone::Green, true, "█"@),
        piece(Tone::Plain, " GPU  "@),
        piece(Tone::Cyan, "▓ VRAM  "@),
        piece(Tone::Blue, "▒ CPU  "@),
        piece(Tone::Magenta, "░ RAM"@),
    ];
    let warn: Seq<(Tone, bool, Seq<char>)> = if graph_warning {
        seq![
            piece(Tone::Plain, "  "@),
            (Tone::Yellow, true, "⚠"@),
            piece(Tone::Plain, " GPU≥95%"@),
        ]
    } else {
        Seq::empty()
    };
    let gp = panel_spec(graph_top(), graph_middle(), graph_bottom(), graph_current, max);
    let gprefix = head + warn + seq![piece(Tone::Plain, "\n\n"@)];
    assert(gprefix.len() == 9 + w);
    assert(g =~= gprefix + gp + seq![piece(Tone::Plain, "\n"@)] + footer_spec(log_file));
    assert(g.subrange(9 + w, 32 + w) =~= gp);
    assert(gp.subrange(12, 22) =~= metric_row_spec(max));
    assert(gp.subrange(1, 11) =~= metric_row_spec(graph_current));
    assert(g.subrange(21 + w, 31 + w) =~= gp.subrange(12, 22));
    assert(g.subrange(10 + w, 20 + w) =~= gp.subrange(1, 11));
    assert(g[20 + w] == gp[11]);
    assert(g[9 + w] == gp[0]);

    let m = minimal_screen_spec(minimal_current, max, minimal_warning, log_file, interval, priority, vendor);
    let mp = panel_spec(minimal_top(), minimal_middle(), minimal_bottom(), minimal_current, max);
    let mprefix = status_line_spec(vendor, interval, priority) + seq![piece(Tone::Plain, "\n"@)];
    assert(mprefix.len() == 4);
    let mwarn: Seq<(Tone, bool, Seq<char>)> = if minimal_warning {
        warning_spec()
    } else {
        Seq::empty()
    };
    assert(m =~= mprefix + mp + mwarn + seq![piece(Tone::Plain, "\n"@)] + footer_spec(log_file));
    assert(m.subrange(4, 27) =~= mp);
    assert(mp.subrange(12, 22) =~= metric_row_spec(max));
    assert(mp.subrange(1, 11) =~= metric_row_spec(minimal_current));
    assert(m.subrange(16, 26) =~= mp.subrange(12, 22));
    assert(m.subrange(5, 15) =~= mp.subrange(1, 11));
    assert(m[15] == mp[11]);
    assert(m[4] == mp[0]);
}

} // verus!
