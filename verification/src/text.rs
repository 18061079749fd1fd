use vstd::prelude::*;
use vstd::string::StringExecFns;

use crate::snapshot::Snapshot;

verus! {

/// The character for one decimal digit.
pub open spec fn digit_char(d: nat) -> char {
    if d == 0 {
        '0'
    } else if d == 1 {
        '1'
    } else if d == 2 {
        '2'
    } else if d == 3 {
        '3'
    } else if d == 4 {
        '4'
    } else if d == 5 {
        '5'
    } else if d == 6 {
        '6'
    } else if d == 7 {
        '7'
    } else if d == 8 {
        '8'
    } else {
        '9'
    }
}

/// The decimal digits of `n`, most significant first, no leading zeros
/// (except for `n == 0`, which is the single digit `0`).
pub open spec fn dec_chars(n: nat) -> Seq<char>
    decreases n,
{
    if n < 10 {
        seq![digit_char(n)]
    } else {
        dec_chars(n / 10).push(digit_char(n % 10))
    }
}

/// A value in tenths of a percent rendered as a percentage number: the whole
/// part in decimal, followed by a point and the single fractional digit only
/// when that digit is not zero (`480` is `48`, `125` is `12.5`).
pub open spec fn percent_chars(tenths: nat) -> Seq<char> {
    if tenths % 10 == 0 {
        dec_chars(tenths / 10)
    } else {
        dec_chars(tenths / 10) + seq!['.', digit_char(tenths % 10)]
    }
}

/// One line of the plain-text report for core number `core_number` (1-based).
pub open spec fn line_chars(core_number: nat, tenths: nat) -> Seq<char> {
    "CPU "@ + dec_chars(core_number) + " "@ + percent_chars(tenths) + "%\n"@
}

/// The whole plain-text report: one line per core, in core order, cores
/// numbered from 1.
pub open spec fn report_chars(s: Seq<u32>) -> Seq<char>
    decreases s.len(),
{
    if s.len() == 0 {
        Seq::empty()
    } else {
        report_chars(s.drop_last()) + line_chars(s.len() as nat, s.last() as nat)
    }
}

/// A one-character string for the digit `d`.
fn digit_str(d: u64) -> (r: &'static str)
    requires
        d < 10,
    ensures
        r@ == seq![digit_char(d as nat)],
{
    let r: &'static str = if d == 0 {
        proof {
            reveal_strlit("0");
        }
        "0"
    } else if d == 1 {
        proof {
            reveal_strlit("1");
        }
        "1"
    } else if d == 2 {
        proof {
            reveal_strlit("2");
        }
        "2"
    } else if d == 3 {
        proof {
            reveal_strlit("3");
        }
        "3"
    } else if d == 4 {
        proof {
            reveal_strlit("4");
        }
        "4"
    } else if d == 5 {
        proof {
            reveal_strlit("5");
        }
        "5"
    } else if d == 6 {
        proof {
            reveal_strlit("6");
        }
        "6"
    } else if d == 7 {
        proof {
            reveal_strlit("7");
        }
        "7"
    } else if d == 8 {
        proof {
            reveal_strlit("8");
        }
        "8"
    } else {
        proof {
            reveal_strlit("9");
        }
        "9"
    };
    proof {
        assert(r@ =~= seq![digit_char(d as nat)]);
    }
    r
}

/// Appends the decimal rendering of `n` to `out`.
fn append_dec(out: &mut String, n: u64)
    ensures
        final(out)@ == old(out)@ + dec_chars(n as nat),
    decreases n,
{
    if n < 10 {
        out.append(digit_str(n));
    } else {
        append_dec(out, n / 10);
        out.append(digit_str(n % 10));
        proof {
            assert(out@ =~= old(out)@ + dec_chars(n as nat));
        }
    }
}

/// Appends the percentage-number rendering of a tenths-of-a-percent value.
fn append_percent(out: &mut String, tenths: u32)
    ensures
        final(out)@ == old(out)@ + percent_chars(tenths as nat),
{
    append_dec(out, (tenths / 10) as u64);
    if tenths % 10 != 0 {
        out.append(".");
        out.append(digit_str((tenths % 10) as u64));
        proof {
            reveal_strlit(".");
            assert(out@ =~= old(out)@ + percent_chars(tenths as nat));
        }
    }
}

proof fn lemma_report_step(s: Seq<u32>, i: int)
    requires
        0 <= i < s.len(),
    ensures
        report_chars(s.take(i + 1)) == report_chars(s.take(i)) + line_chars(
            (i + 1) as nat,
            s[i] as nat,
        ),
{
    assert(s.take(i + 1).drop_last() =~= s.take(i));
    assert(s.take(i + 1).last() == s[i]);
}

/// The plain-text report of a snapshot, one `CPU <n> <value>%` line per core,
/// cores numbered from 1, exactly as `report_chars` describes.
pub fn format_text(snap: &Snapshot) -> (r: String)
    ensures
        r@ == report_chars(snap@),
{
    let mut out = String::new();
    let mut i: usize = 0;
    while i < snap.cores.len()
        invariant
            i <= snap.cores.len(),
            out@ == report_chars(snap@.take(i as int)),
        decreases snap.cores.len() - i,
    {
        out.append("CPU ");
        append_dec(&mut out, (i + 1) as u64);
        out.append(" ");
        append_percent(&mut out, snap.cores[i]);
        out.append("%\n");
        proof {
            lemma_report_step(snap@, i as int);
            assert(out@ =~= report_chars(snap@.take(i as int + 1)));
        }
        i = i + 1;
    }
    proof {
        assert(snap@.take(snap@.len() as int) =~= snap@);
    }
    out
}

/// The charset-qualified header value used when serving a static asset of the
/// given content type.
pub fn content_type_value(content_type: &str) -> (r: String)
    ensures
        r@ == content_type@ + ";charset=utf-8"@,
{
    let mut out = String::from_str(content_type);
    out.append(";charset=utf-8");
    out
}

} // verus!
