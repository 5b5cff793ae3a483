//! Console presentation: decimal rendering of fixed-point seconds, ASCII
//! title-casing of metric names, and the summary lines the console prints.

use vstd::prelude::*;
use vstd::string::*;
use crate::metrics::MetricEntry;
use crate::metrics::MetricValue;

verus! {

/// The decimal digit character for `d`.
pub open spec fn digit_char(d: int) -> char {
    if d == 0 {
        '0'
    } else if d == 1 {
        '1'
    } else if d == 2 {
        '2'
    } else if d == 3 {
        '3'
    } else if d == 4 {
        '4'
    } else if d == 5 {
        '5'
    } else if d == 6 {
        '6'
    } else if d == 7 {
        '7'
    } else if d == 8 {
        '8'
    } else {
        '9'
    }
}

/// The decimal digits of `n`, most significant first, no leading zeros
/// except for zero itself.
pub open spec fn spec_decimal(n: nat) -> Seq<char>
    decreases n,
{
    if n < 10 {
        seq![digit_char(n as int)]
    } else {
        spec_decimal(n / 10).push(digit_char((n % 10) as int))
    }
}

/// `c` hundredths of a second rendered as seconds with exactly two decimals.
pub open spec fn spec_centis(c: nat) -> Seq<char> {
    spec_decimal(c / 100) + seq!['.', digit_char(((c / 10) % 10) as int), digit_char((c % 10) as int)]
}

/// ASCII uppercasing: lower-case letters move up, everything else stays.
pub open spec fn spec_to_upper(c: char) -> char {
    if 'a' <= c && c <= 'z' {
        (((c as u32) - 32) as u8) as char
    } else {
        c
    }
}

/// A metric name turned into a display title: underscores become spaces and
/// the first letter of each word is uppercased.
pub open spec fn spec_title_key(s: Seq<char>) -> Seq<char> {
    Seq::new(
        s.len(),
        |i: int|
            {
                let c = if s[i] == '_' {
                    ' '
                } else {
                    s[i]
                };
                if i == 0 || s[i - 1] == '_' || s[i - 1] == ' ' {
                    spec_to_upper(c)
                } else {
                    c
                }
            },
    )
}

/// One console summary line for a timing metric.
pub open spec fn spec_console_line(name: Seq<char>, centis: nat) -> Seq<char> {
    spec_title_key(name) + ": "@ + spec_centis(centis) + "s"@
}

/// The console summary: one line per timing metric, in order; counts are not
/// printed.
pub open spec fn spec_console_lines(entries: Seq<(Seq<char>, MetricValue)>) -> Seq<Seq<char>>
    decreases entries.len(),
{
    if entries.len() == 0 {
        Seq::empty()
    } else {
        spec_console_lines(entries.drop_last()) + (match entries.last().1 {
            MetricValue::Centiseconds(c) => seq![spec_console_line(entries.last().0, c as nat)],
            MetricValue::Count(_) => Seq::empty(),
        })
    }
}

/// Relies on String::push: appends the given character to the end of the
/// string.
#[verifier::external_body]
fn push_char(s: &mut String, c: char)
    ensures
        final(s)@ == old(s)@.push(c),
{
    s.push(c);
}

/// The digit character for a value below ten.
fn digit_char_of(d: u64) -> (r: char)
    requires
        d < 10,
    ensures
        r == digit_char(d as int),
{
    match d {
        0 => '0',
        1 => '1',
        2 => '2',
        3 => '3',
        4 => '4',
        5 => '5',
        6 => '6',
        7 => '7',
        8 => '8',
        _ => '9',
    }
}

/// `n` written out in decimal.
pub fn u64_to_decimal(n: u64) -> (r: String)
    ensures
        r@ == spec_decimal(n as nat),
    decreases n,
{
    if n < 10 {
        let mut s = String::new();
        push_char(&mut s, digit_char_of(n));
        proof {
            assert(s@ =~= spec_decimal(n as nat));
        }
        s
    } else {
        let mut s = u64_to_decimal(n / 10);
        push_char(&mut s, digit_char_of(n % 10));
        s
    }
}

/// `c` hundredths of a second written as seconds with two decimals.
pub fn format_centis(c: u64) -> (r: String)
    ensures
        r@ == spec_centis(c as nat),
{
    let mut s = u64_to_decimal(c / 100);
    push_char(&mut s, '.');
    push_char(&mut s, digit_char_of((c / 10) % 10));
    push_char(&mut s, digit_char_of(c % 10));
    proof {
        assert(s@ =~= spec_centis(c as nat));
    }
    s
}

/// ASCII uppercasing of one character.
fn to_upper_char(c: char) -> (r: char)
    ensures
        r == spec_to_upper(c),
{
    let u = c as u32;
    if 97 <= u && u <= 122 {
        ((u - 32) as u8) as char
    } else {
        c
    }
}

/// A metric name as a display title: `load_time` becomes `Load Time`.
pub fn title_case_key(key: &str) -> (r: String)
    ensures
        r@ == spec_title_key(key@),
{
    let n = key.unicode_len();
    let mut out = String::new();
    let mut i: usize = 0;
    while i < n
        invariant
            n == key@.len(),
            i <= n,
            out@.len() == i,
            forall|j: int| 0 <= j < i ==> out@[j] == spec_title_key(key@)[j],
        decreases n - i,
    {
        let c0 = key.get_char(i);
        let c = if c0 == '_' {
            ' '
        } else {
            c0
        };
        let word_start = if i == 0 {
            true
        } else {
            let p = key.get_char(i - 1);
            p == '_' || p == ' '
        };
        let upper = to_upper_char(c);
        let c2 = if word_start {
            upper
        } else {
            c
        };
        push_char(&mut out, c2);
        i = i + 1;
    }
    proof {
        assert(out@ =~= spec_title_key(key@));
    }
    out
}

/// The console summary lines for a metrics mapping: every timing, title-cased
/// and with two-decimal seconds; counts are left out.
pub fn console_lines(entries: &Vec<MetricEntry>) -> (r: Vec<String>)
    ensures
        r@.map_values(|s: String| s@) == spec_console_lines(
            entries@.map_values(|e: MetricEntry| e@),
        ),
{
    let ghost views = entries@.map_values(|e: MetricEntry| e@);
    let mut lines: Vec<String> = Vec::new();
    let mut i: usize = 0;
    while i < entries.len()
        invariant
            views == entries@.map_values(|e: MetricEntry| e@),
            i <= entries@.len(),
            lines@.map_values(|s: String| s@) == spec_console_lines(views.take(i as int)),
        decreases entries@.len() - i,
    {
        proof {
            assert(views.take(i as int + 1).drop_last() =~= views.take(i as int));
            assert(views.take(i as int + 1).last() == views[i as int]);
        }
        let entry = &entries[i];
        match entry.value {
            MetricValue::Centiseconds(c) => {
                let mut line = title_case_key(entry.name.as_str());
                line.append(": ");
                let secs = format_centis(c);
                line.append(secs.as_str());
                line.append("s");
                proof {
                    assert(line@ == spec_console_line(entry.name@, c as nat));
                }
                lines.push(line);
                proof {
                    assert(lines@.map_values(|s: String| s@) =~= spec_console_lines(
                        views.take(i as int + 1),
                    ));
                }
            },
            MetricValue::Count(_) => {
                proof {
                    assert(lines@.map_values(|s: String| s@) =~= spec_console_lines(
                        views.take(i as int + 1),
                    ));
                }
            },
        }
        i = i + 1;
    }
    proof {
        assert(views.take(entries@.len() as int) =~= views);
    }
    lines
}

} // verus!
