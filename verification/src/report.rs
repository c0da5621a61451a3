//! Per-pass aggregation: the time-averaged utilization of each adapter.
//!
//! After each pass the orchestrator reduces every adapter's series to one
//! arithmetic mean. Values stay in hundredths of a percent, which is
//! exactly the precision of the two-decimal report lines; an adapter whose
//! counter never matched contributes a defined 0.00 average rather than an
//! error, so no adapter is ever omitted from the report.

use vstd::arithmetic::div_mod::lemma_multiply_divide_lt;
use vstd::prelude::*;
use vstd::string::StringExecFns;

use crate::counter::PollOutcome;
use crate::samples::{SampleMatrix, SampleSeries, sum_seq};
use crate::tracker::series_after_tick;

verus! {

/// The time-averaged utilization of one series, in hundredths of a
/// percent: the mean rounded to the nearest unit (ties rounded up), and
/// exactly zero for an empty series.
pub open spec fn mean_centi_spec(s: Seq<u64>) -> int {
    if s.len() == 0 {
        0
    } else {
        (sum_seq(s) + (s.len() as int) / 2) / (s.len() as int)
    }
}

/// An adapter whose counter never matched reports exactly zero: a tick
/// never touches an absent adapter's series, so it stays empty for the
/// whole session, and the mean of an empty series is exactly zero — a
/// defined 0.00 line in the report, not an error and not an omission.
pub proof fn lemma_absent_adapter_zero(prev: Seq<u64>, reading: PollOutcome)
    ensures
        series_after_tick(prev, false, reading) == prev,
        mean_centi_spec(Seq::<u64>::empty()) == 0,
{
}

/// Computes the rounded mean of one adapter's series; zero for an empty
/// series.
pub fn mean_centi(series: &SampleSeries) -> (m: u64)
    ensures
        m == mean_centi_spec(series@),
{
    let n = series.len();
    if n == 0 {
        return 0;
    }
    let mut sum: u128 = 0;
    let mut i: usize = 0;
    while i < n
        invariant
            n == series@.len(),
            0 <= i <= n,
            sum == sum_seq(series@.take(i as int)),
            sum <= i * (u64::MAX as int),
        decreases n - i,
    {
        proof {
            assert(series@.take(i + 1).drop_last() =~= series@.take(i as int));
            assert(series@.take(i + 1).last() == series@[i as int]);
        }
        sum = sum + series.get(i) as u128;
        i = i + 1;
    }
    proof {
        assert(series@.take(n as int) =~= series@);
        assert(sum + (n as int) / 2 < (n as int) * (u64::MAX as int + 1)) by (nonlinear_arith)
            requires
                sum <= (n as int) * (u64::MAX as int),
                1 <= n,
        ;
        lemma_multiply_divide_lt(sum as int + (n as int) / 2, n as int, u64::MAX as int + 1);
    }
    let half: u128 = (n as u128) / 2;
    let q: u128 = (sum + half) / (n as u128);
    q as u64
}

/// The per-adapter time-averaged utilization of one pass, index-aligned
/// with the adapters: the rounded mean of each matrix row, zero where a
/// row is empty.
pub fn summarize(m: &SampleMatrix) -> (means: Vec<u64>)
    ensures
        means@.len() == m@.len(),
        forall|i: int| 0 <= i < m@.len() ==> means@[i] == mean_centi_spec(m@[i]),
{
    let n = m.len();
    let mut means: Vec<u64> = Vec::new();
    let mut i: usize = 0;
    while i < n
        invariant
            n == m@.len(),
            0 <= i <= n,
            means@.len() == i,
            forall|j: int| 0 <= j < i ==> means@[j] == mean_centi_spec(m@[j]),
        decreases n - i,
    {
        means.push(mean_centi(m.row(i)));
        i = i + 1;
    }
    means
}

/// Splits a value in hundredths of a percent into the whole percents and
/// the two digits shown after the decimal point: 2500 becomes 25 and 0,
/// printed as `25.00`.
pub fn split_centi(centi: u64) -> (parts: (u64, u64))
    ensures
        parts.0 == centi / 100,
        parts.1 == centi % 100,
        parts.1 < 100,
{
    (centi / 100, centi % 100)
}

/// The character of one decimal digit.
pub open spec fn digit_char(d: int) -> char {
    if d == 0 {
        '0'
    } else if d == 1 {
        '1'
    } else if d == 2 {
        '2'
    } else if d == 3 {
        '3'
    } else if d == 4 {
        '4'
    } else if d == 5 {
        '5'
    } else if d == 6 {
        '6'
    } else if d == 7 {
        '7'
    } else if d == 8 {
        '8'
    } else {
        '9'
    }
}

/// The decimal digits of `n`, most significant first; `0` is `"0"`.
pub open spec fn dec_digits(n: int) -> Seq<char>
    decreases n,
{
    if n < 10 {
        seq![digit_char(n)]
    } else {
        dec_digits(n / 10).push(digit_char(n % 10))
    }
}

/// The report form of a value in hundredths of a percent: the whole
/// percents in decimal, a point, and exactly two fraction digits — 2500
/// reads `25.00` and 5 reads `0.05`.
pub open spec fn centi_text(c: int) -> Seq<char> {
    dec_digits(c / 100) + seq!['.', digit_char((c % 100) / 10), digit_char((c % 100) % 10)]
}

/// One adapter's line of the console report: two spaces, the adapter
/// index, the utilization with two decimals, and the adapter's display
/// name.
pub open spec fn report_line_text(index: int, centi: int, name: Seq<char>) -> Seq<char> {
    seq![' ', ' '] + dec_digits(index) + seq![' ', '-', ' '] + centi_text(centi) + seq![
        '%',
        ' ',
        '-',
        ' ',
    ] + name
}

/// Appends one decimal digit.
fn push_digit(text: &mut String, d: u64)
    requires
        d < 10,
    ensures
        final(text)@ == old(text)@.push(digit_char(d as int)),
{
    let ds: &str = if d == 0 {
        "0"
    } else if d == 1 {
        "1"
    } else if d == 2 {
        "2"
    } else if d == 3 {
        "3"
    } else if d == 4 {
        "4"
    } else if d == 5 {
        "5"
    } else if d == 6 {
        "6"
    } else if d == 7 {
        "7"
    } else if d == 8 {
        "8"
    } else {
        "9"
    };
    proof {
        reveal_strlit("0");
        reveal_strlit("1");
        reveal_strlit("2");
        reveal_strlit("3");
        reveal_strlit("4");
        reveal_strlit("5");
        reveal_strlit("6");
        reveal_strlit("7");
        reveal_strlit("8");
        reveal_strlit("9");
        assert(ds@ =~= seq![digit_char(d as int)]);
    }
    text.append(ds);
    proof {
        assert(text@ =~= old(text)@.push(digit_char(d as int)));
    }
}

/// Appends the decimal digits of `n`, most significant first.
fn push_decimal(text: &mut String, n: u64)
    ensures
        final(text)@ == old(text)@ + dec_digits(n as int),
    decreases n,
{
    if n >= 10 {
        push_decimal(text, n / 10);
        push_digit(text, n % 10);
        proof {
            assert(text@ =~= old(text)@ + dec_digits(n as int));
        }
    } else {
        push_digit(text, n);
        proof {
            assert(text@ =~= old(text)@ + dec_digits(n as int));
        }
    }
}

/// Renders a value in hundredths of a percent with exactly two decimals.
pub fn format_centi(centi: u64) -> (text: String)
    ensures
        text@ == centi_text(centi as int),
{
    let mut text = String::new();
    push_decimal(&mut text, centi / 100);
    proof {
        reveal_strlit(".");
    }
    text.append(".");
    let frac = centi % 100;
    push_digit(&mut text, frac / 10);
    push_digit(&mut text, frac % 10);
    proof {
        assert(text@ =~= centi_text(centi as int));
    }
    text
}

/// Renders one adapter's report line: index, mean utilization with two
/// decimals, display name.
pub fn report_line(index: usize, centi: u64, name: &str) -> (line: String)
    ensures
        line@ == report_line_text(index as int, centi as int, name@),
{
    let mut line = String::new();
    proof {
        reveal_strlit("  ");
        reveal_strlit(" - ");
        reveal_strlit("% - ");
    }
    line.append("  ");
    push_decimal(&mut line, index as u64);
    line.append(" - ");
    let centi_part = format_centi(centi);
    line.append(centi_part.as_str());
    line.append("% - ");
    line.append(name);
    proof {
        assert(line@ =~= report_line_text(index as int, centi as int, name@));
    }
    line
}

} // verus!
