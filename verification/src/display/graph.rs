//! Layout of the history graph: plot size, vertical scale, down-sampling of
//! the history into columns, and the glyph of every cell.

use std::collections::VecDeque;
use vstd::prelude::*;

use crate::metrics::{Metrics, vram_percent_of};

verus! {

/// Columns left of and right of the plot that the axis labels take.
pub const GRAPH_SIDE_MARGIN: u16 = 12;

/// Lines above and below the plot that the header and panels take.
pub const GRAPH_VERTICAL_MARGIN: u16 = 18;

/// Narrowest plot, in columns.
pub const GRAPH_MIN_WIDTH: usize = 40;

/// Lowest plot, in lines.
pub const GRAPH_MIN_HEIGHT: usize = 15;

/// What one cell of the plot shows. Where several bars reach a cell, the
/// first of GPU, VRAM, CPU, RAM wins.
#[derive(PartialEq, Eq, Structural, Clone, Copy, Debug)]
pub enum GraphCell {
    Gpu,
    Vram,
    Cpu,
    Ram,
    /// A dot of the background grid.
    Grid,
    Blank,
}

/// One line of the plot, from the left axis to the last plotted column.
pub struct GraphRow {
    /// The axis label: the percentage that this line stands for.
    pub percent: usize,
    /// Whether the label is the middle of the scale (drawn as a cross).
    pub midline: bool,
    pub cells: Vec<GraphCell>,
}

/// The whole plot, top line first.
pub struct GraphLayout {
    pub y_scale: u32,
    pub width: usize,
    pub height: usize,
    pub rows: Vec<GraphRow>,
    /// For each column of the x axis, whether it carries a tick.
    pub ticks: Vec<bool>,
}

pub open spec fn graph_width_of(term_width: u16) -> int {
    let w = term_width as int - GRAPH_SIDE_MARGIN as int;
    if w < GRAPH_MIN_WIDTH as int {
        GRAPH_MIN_WIDTH as int
    } else {
        w
    }
}

pub open spec fn graph_height_of(term_height: u16) -> int {
    let h = term_height as int - GRAPH_VERTICAL_MARGIN as int;
    if h < GRAPH_MIN_HEIGHT as int {
        GRAPH_MIN_HEIGHT as int
    } else {
        h
    }
}

pub open spec fn max_of(a: u32, b: u32) -> u32 {
    if a >= b {
        a
    } else {
        b
    }
}

/// The highest of the GPU, CPU, RAM and VRAM percentages of a sample.
pub open spec fn load_of(m: Metrics) -> u32 {
    max_of(max_of(max_of(m.gpu, m.cpu), m.ram), vram_percent_of(m))
}

/// The highest load over a history; 100 for an empty one.
pub open spec fn peak_load_of(s: Seq<Metrics>) -> u32
    decreases s.len(),
{
    if s.len() == 0 {
        100
    } else if s.len() == 1 {
        load_of(s[0])
    } else {
        max_of(peak_load_of(s.drop_last()), load_of(s.last()))
    }
}

/// The smallest of the scales 50, 75 and 100 that holds the peak, or 100.
pub open spec fn y_scale_of(peak: u32) -> u32 {
    if peak <= 50 {
        50
    } else if peak <= 75 {
        75
    } else {
        100
    }
}

/// Distance between plotted samples, in tenths of a sample.
pub open spec fn step_of(len: int, width: int) -> int {
    if len <= width {
        1
    } else {
        len * 10 / width
    }
}

/// The history index that column `x` shows.
pub open spec fn sample_index_of(x: int, step: int, len: int) -> int {
    let i = if step == 1 {
        x
    } else {
        x * step / 10
    };
    if i <= len - 1 {
        i
    } else {
        len - 1
    }
}

/// The line up to which a bar for `value` reaches.
pub open spec fn level_of(value: u32, height: int, y_scale: u32) -> int {
    let l = value as int * height / y_scale as int;
    if l <= height {
        l
    } else {
        height
    }
}

/// The percentage that line `y` of the plot stands for.
pub open spec fn percent_of(y: int, y_scale: u32, height: int) -> int {
    y * y_scale as int / height
}

pub open spec fn cell_of(s: Metrics, y: int, percent: int, x: int, height: int, y_scale: u32) -> GraphCell {
    if level_of(s.gpu, height, y_scale) >= y {
        GraphCell::Gpu
    } else if level_of(vram_percent_of(s), height, y_scale) >= y {
        GraphCell::Vram
    } else if level_of(s.cpu, height, y_scale) >= y {
        GraphCell::Cpu
    } else if level_of(s.ram, height, y_scale) >= y {
        GraphCell::Ram
    } else if percent % 25 == 0 && x % 10 == 0 {
        GraphCell::Grid
    } else {
        GraphCell::Blank
    }
}

pub open spec fn is_bar(c: GraphCell) -> bool {
    c == GraphCell::Gpu || c == GraphCell::Vram || c == GraphCell::Cpu || c == GraphCell::Ram
}

/// The plot that a history gives on a terminal of the given size: row `i`
/// stands for line `height - 1 - i`, and column `x` for the sample that
/// `sample_index_of` picks.
pub open spec fn layout_matches(
    layout: GraphLayout,
    history: Seq<Metrics>,
    term_width: u16,
    term_height: u16,
) -> bool {
    let width = graph_width_of(term_width);
    let height = graph_height_of(term_height);
    let scale = y_scale_of(peak_load_of(history));
    let len = history.len() as int;
    let cols = if width <= len {
        width
    } else {
        len
    };
    let step = step_of(len, width);
    &&& layout.width == width
    &&& layout.height == height
    &&& layout.y_scale == scale
    &&& layout.rows@.len() == height
    &&& layout.ticks@.len() == width
    &&& forall|x: int| 0 <= x < width ==> #[trigger] layout.ticks@[x] == (x % 10 == 0)
    &&& forall|i: int|
        0 <= i < height ==> {
            let y = height - 1 - i;
            let row = #[trigger] layout.rows@[i];
            &&& row.percent == percent_of(y, scale, height)
            &&& row.midline == (row.percent == scale / 2)
            &&& row.cells@.len() == cols
            &&& forall|x: int|
                0 <= x < cols ==> #[trigger] row.cells@[x] == cell_of(
                    history[sample_index_of(x, step, len)],
                    y,
                    row.percent as int,
                    x,
                    height,
                    scale,
                )
        }
}

pub fn graph_width(term_width: u16) -> (r: usize)
    ensures
        r == graph_width_of(term_width),
{
    let w = term_width.saturating_sub(GRAPH_SIDE_MARGIN) as usize;
    if w < GRAPH_MIN_WIDTH {
        GRAPH_MIN_WIDTH
    } else {
        w
    }
}

pub fn graph_height(term_height: u16) -> (r: usize)
    ensures
        r == graph_height_of(term_height),
{
    let h = term_height.saturating_sub(GRAPH_VERTICAL_MARGIN) as usize;
    if h < GRAPH_MIN_HEIGHT {
        GRAPH_MIN_HEIGHT
    } else {
        h
    }
}

pub fn load(m: &Metrics) -> (r: u32)
    ensures
        r == load_of(*m),
{
    let a = if m.gpu >= m.cpu {
        m.gpu
    } else {
        m.cpu
    };
    let b = if a >= m.ram {
        a
    } else {
        m.ram
    };
    let v = m.vram_percent();
    if b >= v {
        b
    } else {
        v
    }
}

pub fn peak_load(history: &VecDeque<Metrics>) -> (r: u32)
    ensures
        r == peak_load_of(history@),
{
    let n = history.len();
    if n == 0 {
        return 100;
    }
    let mut best = load(&history[0]);
    let mut i: usize = 1;
    while i < n
        invariant
            1 <= i <= n,
            n == history@.len(),
            best == peak_load_of(history@.subrange(0, i as int)),
        decreases n - i,
    {
        let l = load(&history[i]);
        proof {
            let s = history@.subrange(0, i as int + 1);
            assert(s.drop_last() =~= history@.subrange(0, i as int));
        }
        if l > best {
            best = l;
        }
        i = i + 1;
    }
    proof {
        assert(history@.subrange(0, n as int) =~= history@);
    }
    best
}

pub fn y_scale(peak: u32) -> (r: u32)
    ensures
        r == y_scale_of(peak),
{
    if peak <= 50 {
        50
    } else if peak <= 75 {
        75
    } else {
        100
    }
}

pub fn sample_step(len: usize, width: usize) -> (r: usize)
    requires
        width > 0,
        len * 10 <= usize::MAX,
    ensures
        r == step_of(len as int, width as int),
{
    if len <= width {
        1
    } else {
        (len * 10) / width
    }
}

pub fn sample_index(x: usize, step: usize, len: usize) -> (r: usize)
    requires
        len > 0,
        x * step <= usize::MAX,
    ensures
        r == sample_index_of(x as int, step as int, len as int),
        r < len,
{
    let i = if step == 1 {
        x
    } else {
        (x * step) / 10
    };
    if i <= len - 1 {
        i
    } else {
        len - 1
    }
}

pub fn bar_level(value: u32, height: usize, y_scale: u32) -> (r: usize)
    requires
        y_scale > 0,
        height <= u32::MAX,
    ensures
        r == level_of(value, height as int, y_scale),
{
    assert(value as int * height as int <= u64::MAX) by (nonlinear_arith)
        requires
            value <= u32::MAX,
            height <= u32::MAX,
    ;
    let l = (value as u64 * height as u64) / y_scale as u64;
    if l <= height as u64 {
        l as usize
    } else {
        height
    }
}

fn graph_cell(s: &Metrics, y: usize, percent: usize, x: usize, height: usize, y_scale: u32) -> (r:
    GraphCell)
    requires
        y_scale > 0,
        height <= u32::MAX,
    ensures
        r == cell_of(*s, y as int, percent as int, x as int, height as int, y_scale),
{
    if bar_level(s.gpu, height, y_scale) >= y {
        GraphCell::Gpu
    } else if bar_level(s.vram_percent(), height, y_scale) >= y {
        GraphCell::Vram
    } else if bar_level(s.cpu, height, y_scale) >= y {
        GraphCell::Cpu
    } else if bar_level(s.ram, height, y_scale) >= y {
        GraphCell::Ram
    } else if percent % 25 == 0 && x % 10 == 0 {
        GraphCell::Grid
    } else {
        GraphCell::Blank
    }
}

proof fn lemma_step_bound(len: int, width: int)
    requires
        len >= 0,
        width > 0,
    ensures
        step_of(len, width) >= 1,
        len > 0 ==> step_of(len, width) <= len * 10,
{
    if len > width {
        assert(len * 10 / width <= len * 10) by (nonlinear_arith)
            requires
                len > 0,
                width > 0,
        ;
        assert(len * 10 / width >= 1) by (nonlinear_arith)
            requires
                len > width,
                width > 0,
        ;
    }
}

proof fn lemma_column_offset_bound(x: int, len: int, width: int)
    requires
        0 <= x < width,
        x < len,
    ensures
        x * step_of(len, width) <= len * 10,
{
    if len > width {
        let q = len * 10 / width;
        assert(q * width <= len * 10) by (nonlinear_arith)
            requires
                q == len * 10 / width,
                width > 0,
                len > 0,
        ;
        assert(x * q <= width * q) by (nonlinear_arith)
            requires
                0 <= x < width,
                q >= 0,
        ;
    }
}

/// Lays out the graph of `history` for a terminal of the given size.
pub fn graph_layout(history: &VecDeque<Metrics>, term_width: u16, term_height: u16) -> (r:
    GraphLayout)
    requires
        history@.len() * 10 <= usize::MAX,
    ensures
        layout_matches(r, history@, term_width, term_height),
{
    let width = graph_width(term_width);
    let height = graph_height(term_height);
    let scale = y_scale(peak_load(history));
    let len = history.len();
    let cols = if width <= len {
        width
    } else {
        len
    };
    let step = sample_step(len, width);
    proof {
        lemma_step_bound(len as int, width as int);
    }

    let mut rows: Vec<GraphRow> = Vec::new();
    let mut i: usize = 0;
    while i < height
        invariant
            0 <= i <= height,
            height == graph_height_of(term_height),
            width == graph_width_of(term_width),
            scale == y_scale_of(peak_load_of(history@)),
            len == history@.len(),
            len * 10 <= usize::MAX,
            cols == (if width <= len { width } else { len }),
            step == step_of(len as int, width as int),
            rows@.len() == i,
            forall|k: int|
                0 <= k < i ==> {
                    let y = height - 1 - k;
                    let row = #[trigger] rows@[k];
                    &&& row.percent == percent_of(y, scale, height as int)
                    &&& row.midline == (row.percent == scale / 2)
                    &&& row.cells@.len() == cols
                    &&& forall|x: int|
                        0 <= x < cols ==> #[trigger] row.cells@[x] == cell_of(
                            history@[sample_index_of(x, step as int, len as int)],
                            y,
                            row.percent as int,
                            x,
                            height as int,
                            scale,
                        )
                },
        decreases height - i,
    {
        let y = height - 1 - i;
        assert(y * (scale as int) <= height * 100) by (nonlinear_arith)
            requires
                y < height,
                scale <= 100,
        ;
        let percent = (y * scale as usize) / height;
        let midline = percent == (scale / 2) as usize;
        let mut cells: Vec<GraphCell> = Vec::new();
        let mut x: usize = 0;
        while x < cols
            invariant
                0 <= x <= cols,
                y < height,
                height == graph_height_of(term_height),
                scale == y_scale_of(peak_load_of(history@)),
                len == history@.len(),
                cols <= len,
                cols <= width,
                width > 0,
                step == step_of(len as int, width as int),
                len * 10 <= usize::MAX,
                cells@.len() == x,
                forall|j: int|
                    0 <= j < x ==> #[trigger] cells@[j] == cell_of(
                        history@[sample_index_of(j, step as int, len as int)],
                        y as int,
                        percent as int,
                        j,
                        height as int,
                        scale,
                    ),
            decreases cols - x,
        {
            proof {
                lemma_column_offset_bound(x as int, len as int, width as int);
            }
            let idx = sample_index(x, step, len);
            let c = graph_cell(&history[idx], y, percent, x, height, scale);
            cells.push(c);
            x = x + 1;
        }
        rows.push(GraphRow { percent, midline, cells });
        i = i + 1;
    }

    let mut ticks: Vec<bool> = Vec::new();
    let mut t: usize = 0;
    while t < width
        invariant
            0 <= t <= width,
            ticks@.len() == t,
            forall|k: int| 0 <= k < t ==> #[trigger] ticks@[k] == (k % 10 == 0),
        decreases width - t,
    {
        ticks.push(t % 10 == 0);
        t = t + 1;
    }

    GraphLayout { y_scale: scale, width, height, rows, ticks }
}

/// How long a history covers, in seconds, at one sample per interval.
pub fn history_span_seconds(len: usize, interval: u64) -> (r: u64)
    requires
        len * interval <= u64::MAX,
    ensures
        r == len * interval,
{
    len as u64 * interval
}

/// Law: the scale is one of 50, 75 and 100, and it holds the peak load
/// whenever that peak is at most 100.
pub proof fn lemma_scale_holds_peak(peak: u32)
    ensures
        y_scale_of(peak) == 50 || y_scale_of(peak) == 75 || y_scale_of(peak) == 100,
        peak <= 100 ==> peak <= y_scale_of(peak),
{
}

/// Law: the peak load of a non-empty history is at least the load of each
/// of its samples, and is the load of one of them.
pub proof fn lemma_peak_is_highest_load(s: Seq<Metrics>)
    requires
        s.len() > 0,
    ensures
        forall|i: int| 0 <= i < s.len() ==> load_of(#[trigger] s[i]) <= peak_load_of(s),
        exists|i: int| 0 <= i < s.len() && load_of(#[trigger] s[i]) == peak_load_of(s),
    decreases s.len(),
{
    if s.len() == 1 {
        assert(load_of(s[0]) == peak_load_of(s));
    } else {
        let t = s.drop_last();
        lemma_peak_is_highest_load(t);
        assert forall|i: int| 0 <= i < s.len() implies load_of(#[trigger] s[i]) <= peak_load_of(s) by {
            if i < s.len() - 1 {
                assert(s[i] == t[i]);
            }
        }
        if load_of(s.last()) >= peak_load_of(t) {
            assert(load_of(s[s.len() - 1]) == peak_load_of(s));
        } else {
            let j = choose|j: int| 0 <= j < t.len() && load_of(#[trigger] t[j]) == peak_load_of(t);
            assert(s[j] == t[j]);
            assert(load_of(s[j]) == peak_load_of(s));
        }
    }
}

/// Law: when every load of the history is at most 100, no bar of any sample
/// is cut off at the top of the plot: each reaches exactly the line of its
/// value scaled to the plot height.
pub proof fn lemma_no_bar_clipped(s: Seq<Metrics>, i: int, v: u32, height: int)
    requires
        0 <= i < s.len(),
        peak_load_of(s) <= 100,
        v == s[i].gpu || v == s[i].cpu || v == s[i].ram || v == vram_percent_of(s[i]),
        height >= 0,
    ensures
        level_of(v, height, y_scale_of(peak_load_of(s))) == v as int * height / y_scale_of(
            peak_load_of(s),
        ) as int,
{
    lemma_peak_is_highest_load(s);
    assert(load_of(s[i]) <= peak_load_of(s));
    let scale = y_scale_of(peak_load_of(s));
    assert(v <= scale);
    assert(v as int * height / scale as int <= height) by (nonlinear_arith)
        requires
            v <= scale,
            scale > 0,
            height >= 0,
    ;
}

/// Law: every column shows a sample of the history, the columns keep the
/// order of the history, the first column shows the oldest sample, and when
/// the history fits the plot, column `x` shows sample `x`.
pub proof fn lemma_columns_follow_history(x1: int, x2: int, len: int, width: int)
    requires
        0 <= x1 <= x2,
        x2 < width,
        x2 < len,
    ensures
        0 <= sample_index_of(x1, step_of(len, width), len) < len,
        sample_index_of(x1, step_of(len, width), len) <= sample_index_of(x2, step_of(len, width), len),
        sample_index_of(0, step_of(len, width), len) == 0,
        len <= width ==> sample_index_of(x1, step_of(len, width), len) == x1,
{
    let step = step_of(len, width);
    lemma_step_bound(len, width);
    if step != 1 {
        assert(x1 * step / 10 <= x2 * step / 10) by (nonlinear_arith)
            requires
                0 <= x1 <= x2,
                step >= 1,
        ;
        assert(x1 * step / 10 >= 0) by (nonlinear_arith)
            requires
                0 <= x1,
                step >= 1,
        ;
    }
}

/// Law: bars rise from the bottom without gaps: if a cell of a column shows
/// a bar, so does every cell below it in that column.
pub proof fn lemma_bars_are_solid(
    s: Metrics,
    y_low: int,
    y_high: int,
    p_low: int,
    p_high: int,
    x: int,
    height: int,
    y_scale: u32,
)
    requires
        y_low <= y_high,
        is_bar(cell_of(s, y_high, p_high, x, height, y_scale)),
    ensures
        is_bar(cell_of(s, y_low, p_low, x, height, y_scale)),
{
}

} // verus!
