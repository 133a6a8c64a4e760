//! The CSV log format: the file name, the header line and one record per
//! sample, and the guarantee that a record reads back into its values.

use vstd::prelude::*;

use crate::metrics::Metrics;
use crate::text::{dec, digit_char, push_decimal};

verus! {

/// The header line of every log (without its line break).
pub open spec fn csv_header_spec() -> Seq<char> {
    "timestamp,gpu_util,gpu_temp,gpu_mem_mb,cpu_util,ram_util"@
}

/// The values of a sample in the order of the header's columns.
pub open spec fn csv_values(m: Metrics) -> Seq<u32> {
    seq![m.gpu, m.gpu_temp, m.gpu_mem, m.cpu, m.ram]
}

/// One log record (without its line break): the timestamp, then the GPU
/// load, GPU temperature, GPU memory, CPU load and RAM load in decimal,
/// separated by commas.
pub open spec fn csv_record_spec(timestamp: Seq<char>, m: Metrics) -> Seq<char> {
    timestamp + ","@ + dec(m.gpu as nat) + ","@ + dec(m.gpu_temp as nat) + ","@ + dec(
        m.gpu_mem as nat,
    ) + ","@ + dec(m.cpu as nat) + ","@ + dec(m.ram as nat)
}

/// The name of the log file for a session started at `stamp`.
pub open spec fn log_file_name_spec(stamp: Seq<char>) -> Seq<char> {
    "sysmon_"@ + stamp + ".csv"@
}

pub fn csv_header() -> (r: &'static str)
    ensures
        r@ == csv_header_spec(),
{
    "timestamp,gpu_util,gpu_temp,gpu_mem_mb,cpu_util,ram_util"
}

pub fn csv_record(timestamp: &str, m: &Metrics) -> (r: String)
    ensures
        r@ == csv_record_spec(timestamp@, *m),
{
    let mut s = String::from_str(timestamp);
    s.append(",");
    push_decimal(&mut s, m.gpu as u64);
    s.append(",");
    push_decimal(&mut s, m.gpu_temp as u64);
    s.append(",");
    push_decimal(&mut s, m.gpu_mem as u64);
    s.append(",");
    push_decimal(&mut s, m.cpu as u64);
    s.append(",");
    push_decimal(&mut s, m.ram as u64);
    s
}

pub fn log_file_name(stamp: &str) -> (r: String)
    ensures
        r@ == log_file_name_spec(stamp@),
{
    let mut s = String::from_str("sysmon_");
    s.append(stamp);
    s.append(".csv");
    s
}

/// The comma-separated fields of a line.
pub open spec fn split_fields(s: Seq<char>) -> Seq<Seq<char>>
    decreases s.len(),
{
    if s.len() == 0 {
        seq![Seq::<char>::empty()]
    } else if s[0] == ',' {
        seq![Seq::<char>::empty()] + split_fields(s.drop_first())
    } else {
        let r = split_fields(s.drop_first());
        r.update(0, seq![s[0]] + r[0])
    }
}

/// The value of a string of decimal digits.
pub open spec fn parse_dec(s: Seq<char>) -> nat
    decreases s.len(),
{
    if s.len() == 0 {
        0
    } else {
        parse_dec(s.drop_last()) * 10 + ((s.last() as int - 48) as nat)
    }
}

pub open spec fn has_no_comma(s: Seq<char>) -> bool {
    forall|i: int| 0 <= i < s.len() ==> s[i] != ','
}

proof fn lemma_split_nonempty(s: Seq<char>)
    ensures
        split_fields(s).len() >= 1,
    decreases s.len(),
{
    if s.len() > 0 {
        lemma_split_nonempty(s.drop_first());
    }
}

proof fn lemma_split_field_then_rest(a: Seq<char>, rest: Seq<char>)
    requires
        has_no_comma(a),
    ensures
        split_fields(a + ","@ + rest) == seq![a] + split_fields(rest),
    decreases a.len(),
{
    reveal_strlit(",");
    let s = a + ","@ + rest;
    if a.len() == 0 {
        assert(s =~= seq![','] + rest);
        assert(s.drop_first() =~= rest);
        assert(a =~= Seq::<char>::empty());
        assert(seq![a] =~= seq![Seq::<char>::empty()]);
    } else {
        let a2 = a.drop_first();
        lemma_split_field_then_rest(a2, rest);
        assert(s.drop_first() =~= a2 + ","@ + rest);
        assert(s[0] == a[0]);
        let r = split_fields(a2 + ","@ + rest);
        assert(seq![s[0]] + r[0] =~= a);
        assert(r.update(0, seq![s[0]] + r[0]) =~= seq![a] + split_fields(rest));
    }
}

proof fn lemma_split_single(a: Seq<char>)
    requires
        has_no_comma(a),
    ensures
        split_fields(a) == seq![a],
    decreases a.len(),
{
    if a.len() == 0 {
        assert(a =~= Seq::<char>::empty());
        assert(seq![a] =~= seq![Seq::<char>::empty()]);
    } else {
        let a2 = a.drop_first();
        lemma_split_single(a2);
        assert(seq![a[0]] + a2 =~= a);
        assert(seq![a2].update(0, seq![a[0]] + a2) =~= seq![a]);
    }
}

proof fn lemma_dec_no_comma(n: nat)
    ensures
        has_no_comma(dec(n)),
{
    crate::text::lemma_dec_digits(n);
}

proof fn lemma_digit_value(d: int)
    requires
        0 <= d < 10,
    ensures
        digit_char(d) as int == 48 + d,
{
}

/// Law: reading a decimal form back gives the number.
pub proof fn lemma_parse_dec_roundtrip(n: nat)
    ensures
        parse_dec(dec(n)) == n,
    decreases n,
{
    if n < 10 {
        let s = dec(n);
        lemma_digit_value(n as int);
        assert(s.drop_last() =~= Seq::<char>::empty());
        assert(parse_dec(s.drop_last()) == 0);
        assert(s.last() as int - 48 == n);
        assert(parse_dec(s) == parse_dec(s.drop_last()) * 10 + ((s.last() as int - 48) as nat));
    } else {
        lemma_parse_dec_roundtrip(n / 10);
        let s = dec(n);
        assert(s.drop_last() =~= dec(n / 10));
        assert(s.last() == digit_char((n % 10) as int));
        lemma_digit_value((n % 10) as int);
        assert((n / 10) * 10 + n % 10 == n) by (nonlinear_arith);
        assert(parse_dec(s) == parse_dec(s.drop_last()) * 10 + ((s.last() as int - 48) as nat));
    }
}

/// Law: a record whose timestamp holds no comma splits into exactly as many
/// fields as the header has columns, the timestamp first, and each further
/// field reads back as the sample's value for that column.
pub proof fn lemma_record_reads_back(timestamp: Seq<char>, m: Metrics)
    requires
        has_no_comma(timestamp),
    ensures
        split_fields(csv_record_spec(timestamp, m)).len() == split_fields(csv_header_spec()).len(),
        split_fields(csv_record_spec(timestamp, m))[0] == timestamp,
        forall|k: int|
            0 <= k < 5 ==> parse_dec(#[trigger] split_fields(csv_record_spec(timestamp, m))[k + 1])
                == csv_values(m)[k],
{
    let d0 = dec(m.gpu as nat);
    let d1 = dec(m.gpu_temp as nat);
    let d2 = dec(m.gpu_mem as nat);
    let d3 = dec(m.cpu as nat);
    let d4 = dec(m.ram as nat);
    lemma_dec_no_comma(m.gpu as nat);
    lemma_dec_no_comma(m.gpu_temp as nat);
    lemma_dec_no_comma(m.gpu_mem as nat);
    lemma_dec_no_comma(m.cpu as nat);
    lemma_dec_no_comma(m.ram as nat);
    let c = ","@;
    assert(csv_record_spec(timestamp, m) =~= timestamp + c + (d0 + c + (d1 + c + (d2 + c + (d3
        + c + d4)))));
    lemma_split_single(d4);
    lemma_split_field_then_rest(d3, d4);
    assert(d3 + c + d4 == d3 + c + d4);
    lemma_split_field_then_rest(d2, d3 + c + d4);
    lemma_split_field_then_rest(d1, d2 + c + (d3 + c + d4));
    lemma_split_field_then_rest(d0, d1 + c + (d2 + c + (d3 + c + d4)));
    lemma_split_field_then_rest(timestamp, d0 + c + (d1 + c + (d2 + c + (d3 + c + d4))));
    let fields = split_fields(csv_record_spec(timestamp, m));
    assert(fields =~= seq![timestamp, d0, d1, d2, d3, d4]);

    reveal_strlit("timestamp,gpu_util,gpu_temp,gpu_mem_mb,cpu_util,ram_util");
    reveal_strlit(",");
    let t0 = "timestamp"@;
    let t1 = "gpu_util"@;
    let t2 = "gpu_temp"@;
    let t3 = "gpu_mem_mb"@;
    let t4 = "cpu_util"@;
    let t5 = "ram_util"@;
    reveal_strlit("timestamp");
    reveal_strlit("gpu_util");
    reveal_strlit("gpu_temp");
    reveal_strlit("gpu_mem_mb");
    reveal_strlit("cpu_util");
    reveal_strlit("ram_util");
    assert(csv_header_spec() =~= t0 + c + (t1 + c + (t2 + c + (t3 + c + (t4 + c + t5)))));
    lemma_split_single(t5);
    lemma_split_field_then_rest(t4, t5);
    lemma_split_field_then_rest(t3, t4 + c + t5);
    lemma_split_field_then_rest(t2, t3 + c + (t4 + c + t5));
    lemma_split_field_then_rest(t1, t2 + c + (t3 + c + (t4 + c + t5)));
    lemma_split_field_then_rest(t0, t1 + c + (t2 + c + (t3 + c + (t4 + c + t5))));

    lemma_parse_dec_roundtrip(m.gpu as nat);
    lemma_parse_dec_roundtrip(m.gpu_temp as nat);
    lemma_parse_dec_roundtrip(m.gpu_mem as nat);
    lemma_parse_dec_roundtrip(m.cpu as nat);
    lemma_parse_dec_roundtrip(m.ram as nat);
}

} // verus!
