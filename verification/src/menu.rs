//! The start-up choices: reading the display mode and the sampling interval
//! from a typed line, and naming the thread priority.

use vstd::prelude::*;

use crate::display::DisplayMode;

verus! {

/// Unicode White_Space, the set that `char::is_whitespace` and `str::trim`
/// use.
pub open spec fn is_white_space(c: char) -> bool {
    let n = c as int;
    ||| 0x09 <= n <= 0x0D
    ||| n == 0x20
    ||| n == 0x85
    ||| n == 0xA0
    ||| n == 0x1680
    ||| 0x2000 <= n <= 0x200A
    ||| n == 0x2028
    ||| n == 0x2029
    ||| n == 0x202F
    ||| n == 0x205F
    ||| n == 0x3000
}

pub open spec fn trim_start_spec(s: Seq<char>) -> Seq<char>
    decreases s.len(),
{
    if s.len() > 0 && is_white_space(s[0]) {
        trim_start_spec(s.drop_first())
    } else {
        s
    }
}

pub open spec fn trim_end_spec(s: Seq<char>) -> Seq<char>
    decreases s.len(),
{
    if s.len() > 0 && is_white_space(s.last()) {
        trim_end_spec(s.drop_last())
    } else {
        s
    }
}

/// `s` without leading and trailing white space.
pub open spec fn trimmed(s: Seq<char>) -> Seq<char> {
    trim_end_spec(trim_start_spec(s))
}

fn is_white_space_char(c: char) -> (r: bool)
    ensures
        r == is_white_space(c),
{
    let n = c as u32;
    (0x09 <= n && n <= 0x0D) || n == 0x20 || n == 0x85 || n == 0xA0 || n == 0x1680 || (0x2000 <= n
        && n <= 0x200A) || n == 0x2028 || n == 0x2029 || n == 0x202F || n == 0x205F || n == 0x3000
}

/// The slice of `s` without its leading and trailing white space, as
/// `str::trim` gives it.
pub fn trim(s: &str) -> (r: &str)
    ensures
        r@ == trimmed(s@),
{
    let n = s.unicode_len();
    let mut i: usize = 0;
    assert(s@.subrange(0, n as int) =~= s@);
    loop
        invariant
            i <= n,
            n == s@.len(),
            trim_start_spec(s@) == trim_start_spec(s@.subrange(i as int, n as int)),
        ensures
            i <= n,
            trim_start_spec(s@) == s@.subrange(i as int, n as int),
        decreases n - i,
    {
        if i >= n {
            assert(s@.subrange(i as int, n as int) =~= Seq::<char>::empty());
            break;
        }
        if !is_white_space_char(s.get_char(i)) {
            break;
        }
        assert(s@.subrange(i as int, n as int).drop_first() =~= s@.subrange(i + 1, n as int));
        i = i + 1;
    }
    let mut j: usize = n;
    loop
        invariant
            i <= j <= n,
            n == s@.len(),
            trim_end_spec(s@.subrange(i as int, n as int)) == trim_end_spec(
                s@.subrange(i as int, j as int),
            ),
        ensures
            i <= j <= n,
            trim_end_spec(s@.subrange(i as int, n as int)) == s@.subrange(i as int, j as int),
        decreases j - i,
    {
        if j <= i {
            assert(s@.subrange(i as int, j as int) =~= Seq::<char>::empty());
            break;
        }
        if !is_white_space_char(s.get_char(j - 1)) {
            break;
        }
        assert(s@.subrange(i as int, j as int).drop_last() =~= s@.subrange(i as int, j - 1));
        j = j - 1;
    }
    s.substring_char(i, j)
}

/// Whether `s` is exactly the one character `c`.
fn is_single(s: &str, c: char) -> (r: bool)
    ensures
        r == (s@ == seq![c]),
{
    if s.unicode_len() == 1 {
        let first = s.get_char(0);
        assert(first == c ==> s@ =~= seq![c]);
        first == c
    } else {
        false
    }
}

pub open spec fn display_mode_for(choice: Seq<char>) -> DisplayMode {
    if choice == seq!['2'] {
        DisplayMode::Graph
    } else if choice == seq!['3'] {
        DisplayMode::Headless
    } else {
        DisplayMode::Minimal
    }
}

/// The interval in seconds for a choice: in headless mode "2" gives 2,
/// "3" 5, "4" 10 and "5" 30; in the interactive modes "2" gives 2 and "3"
/// 5; anything else gives 1.
pub open spec fn interval_for(mode: DisplayMode, choice: Seq<char>) -> u64 {
    if choice == seq!['2'] {
        2
    } else if choice == seq!['3'] {
        5
    } else if mode != DisplayMode::Headless {
        1
    } else if choice == seq!['4'] {
        10
    } else if choice == seq!['5'] {
        30
    } else {
        1
    }
}

/// The display mode that a typed line selects: "2" the graph, "3" headless,
/// anything else the minimal screen; surrounding white space is ignored.
pub fn display_mode_from_input(input: &str) -> (r: DisplayMode)
    ensures
        r == display_mode_for(trimmed(input@)),
{
    let choice = trim(input);
    if is_single(choice, '2') {
        DisplayMode::Graph
    } else if is_single(choice, '3') {
        DisplayMode::Headless
    } else {
        DisplayMode::Minimal
    }
}

/// The interval in seconds that a typed line selects in the given mode,
/// among the choices that mode's menu offers; surrounding white space is
/// ignored.
pub fn interval_from_input(mode: DisplayMode, input: &str) -> (r: u64)
    ensures
        r == interval_for(mode, trimmed(input@)),
{
    let choice = trim(input);
    let headless = match mode {
        DisplayMode::Headless => true,
        _ => false,
    };
    if is_single(choice, '2') {
        2
    } else if is_single(choice, '3') {
        5
    } else if !headless {
        1
    } else if is_single(choice, '4') {
        10
    } else if is_single(choice, '5') {
        30
    } else {
        1
    }
}

/// Law: in headless mode every line selects 1, 2, 5, 10 or 30 seconds; in
/// the interactive modes 1, 2 or 5 seconds.
pub proof fn lemma_interval_choices(mode: DisplayMode, choice: Seq<char>)
    ensures
        interval_for(mode, choice) == 1 || interval_for(mode, choice) == 2 || interval_for(
            mode,
            choice,
        ) == 5 || (mode == DisplayMode::Headless && (interval_for(mode, choice) == 10
            || interval_for(mode, choice) == 30)),
{
}

pub open spec fn priority_name_spec(priority: i32) -> Seq<char> {
    if priority == -2 {
        "Idle"@
    } else if priority == -1 {
        "Below Normal"@
    } else if priority == 0 {
        "Normal"@
    } else if priority == 1 {
        "Above Normal"@
    } else if priority == 2 {
        "Highest"@
    } else if priority == 15 {
        "Time Critical"@
    } else {
        "Unknown"@
    }
}

/// The name of a thread priority level.
pub fn get_priority_name(priority: i32) -> (r: &'static str)
    ensures
        r@ == priority_name_spec(priority),
{
    if priority == -2 {
        "Idle"
    } else if priority == -1 {
        "Below Normal"
    } else if priority == 0 {
        "Normal"
    } else if priority == 1 {
        "Above Normal"
    } else if priority == 2 {
        "Highest"
    } else if priority == 15 {
        "Time Critical"
    } else {
        "Unknown"
    }
}

} // verus!
