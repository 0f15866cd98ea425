//! Decimal formatting for the table cells: digit strings, fixed-point
//! prices with three decimal places, percentages with two, and
//! right-alignment padding.

use crate::common::Fixed3;
use vstd::math::abs;
use vstd::prelude::*;
use vstd::string::StrSliceExecFns;

verus! {

/// The character for one decimal digit.
pub open spec fn digit_char(d: int) -> char {
    if d == 0 {
        '0'
    } else if d == 1 {
        '1'
    } else if d == 2 {
        '2'
    } else if d == 3 {
        '3'
    } else if d == 4 {
        '4'
    } else if d == 5 {
        '5'
    } else if d == 6 {
        '6'
    } else if d == 7 {
        '7'
    } else if d == 8 {
        '8'
    } else {
        '9'
    }
}

/// The decimal digits of `n`, most significant first, with no leading
/// zero except for `n == 0` itself.
pub open spec fn spec_digits(n: nat) -> Seq<char>
    decreases n,
{
    if n < 10 {
        seq![digit_char(n as int)]
    } else {
        spec_digits(n / 10) + seq![digit_char((n % 10) as int)]
    }
}

/// Appends the digit character for `d`.
fn push_digit(out: &mut String, d: u64)
    requires
        d < 10,
    ensures
        final(out)@ == old(out)@ + seq![digit_char(d as int)],
{
    if d == 0 {
        out.append("0");
        proof {
            reveal_strlit("0");
            assert(out@ =~= old(out)@ + seq![digit_char(d as int)]);
        }
    } else if d == 1 {
        out.append("1");
        proof {
            reveal_strlit("1");
            assert(out@ =~= old(out)@ + seq![digit_char(d as int)]);
        }
    } else if d == 2 {
        out.append("2");
        proof {
            reveal_strlit("2");
            assert(out@ =~= old(out)@ + seq![digit_char(d as int)]);
        }
    } else if d == 3 {
        out.append("3");
        proof {
            reveal_strlit("3");
            assert(out@ =~= old(out)@ + seq![digit_char(d as int)]);
        }
    } else if d == 4 {
        out.append("4");
        proof {
            reveal_strlit("4");
            assert(out@ =~= old(out)@ + seq![digit_char(d as int)]);
        }
    } else if d == 5 {
        out.append("5");
        proof {
            reveal_strlit("5");
            assert(out@ =~= old(out)@ + seq![digit_char(d as int)]);
        }
    } else if d == 6 {
        out.append("6");
        proof {
            reveal_strlit("6");
            assert(out@ =~= old(out)@ + seq![digit_char(d as int)]);
        }
    } else if d == 7 {
        out.append("7");
        proof {
            reveal_strlit("7");
            assert(out@ =~= old(out)@ + seq![digit_char(d as int)]);
        }
    } else if d == 8 {
        out.append("8");
        proof {
            reveal_strlit("8");
            assert(out@ =~= old(out)@ + seq![digit_char(d as int)]);
        }
    } else {
        out.append("9");
        proof {
            reveal_strlit("9");
            assert(out@ =~= old(out)@ + seq![digit_char(d as int)]);
        }
    }
}

/// Appends the decimal digits of `n`, most significant first.
pub fn push_digits(out: &mut String, n: u128)
    ensures
        final(out)@ == old(out)@ + spec_digits(n as nat),
    decreases n,
{
    if n < 10 {
        push_digit(out, n as u64);
    } else {
        push_digits(out, n / 10);
        push_digit(out, (n % 10) as u64);
        proof {
            assert(out@ =~= old(out)@ + spec_digits(n as nat));
        }
    }
}

/// Integer division that truncates toward zero, the rounding this
/// library uses for percentages.
pub open spec fn div_trunc(a: int, b: int) -> int
    recommends
        b != 0,
{
    let q: int = (abs(a) / abs(b)) as int;
    if (a < 0) != (b < 0) {
        -q
    } else {
        q
    }
}

/// The change of `last` against `open`, in hundredths of a percent,
/// truncated toward zero: `(last - open) * 100 / open` scaled by 100.
pub open spec fn spec_percent(last: int, open: int) -> int
    recommends
        open != 0,
{
    div_trunc((last - open) * 10000, open)
}

/// A value in thousandths, written with three decimal places.
pub open spec fn spec_fixed3(v: int) -> Seq<char> {
    let a = abs(v) as nat;
    let sign: Seq<char> = if v < 0 {
        seq!['-']
    } else {
        Seq::empty()
    };
    sign + spec_digits(a / 1000) + seq!['.'] + seq![
        digit_char(((a / 100) % 10) as int),
        digit_char(((a / 10) % 10) as int),
        digit_char((a % 10) as int),
    ]
}

/// A value in hundredths, written with two decimal places.
pub open spec fn spec_fixed2(v: int) -> Seq<char> {
    let a = abs(v) as nat;
    let sign: Seq<char> = if v < 0 {
        seq!['-']
    } else {
        Seq::empty()
    };
    sign + spec_digits(a / 100) + seq!['.'] + seq![
        digit_char(((a / 10) % 10) as int),
        digit_char((a % 10) as int),
    ]
}

/// `n` spaces.
pub open spec fn spaces(n: nat) -> Seq<char> {
    Seq::new(n, |i: int| ' ')
}

/// `s` fit into a field of exactly `w` characters: right-aligned with
/// spaces when shorter, cut to its first `w` characters when longer.
pub open spec fn pad_left(s: Seq<char>, w: int) -> Seq<char>
    recommends
        0 <= w,
{
    if s.len() >= w {
        s.subrange(0, w)
    } else {
        spaces((w - s.len()) as nat) + s
    }
}

/// Appends `k` spaces.
fn push_spaces(out: &mut String, k: usize)
    ensures
        final(out)@ == old(out)@ + spaces(k as nat),
{
    let ghost base = out@;
    let mut i: usize = 0;
    proof {
        assert(out@ =~= base + spaces(0));
    }
    while i < k
        invariant
            i <= k,
            out@ == base + spaces(i as nat),
        decreases k - i,
    {
        out.append(" ");
        proof {
            reveal_strlit(" ");
            assert(out@ =~= base + spaces((i + 1) as nat));
        }
        i = i + 1;
    }
}

/// `s` fit into a field of exactly `width` characters: right-aligned
/// with spaces when shorter, cut to its first `width` characters when
/// longer.
pub fn pad_left_string(s: String, width: usize) -> (r: String)
    ensures
        r@ == pad_left(s@, width as int),
{
    let n = s.as_str().unicode_len();
    if n >= width {
        s.as_str().substring_char(0, width).to_owned()
    } else {
        let mut r = String::new();
        push_spaces(&mut r, width - n);
        r.append(s.as_str());
        proof {
            assert(r@ =~= pad_left(s@, width as int));
        }
        r
    }
}

/// The price written with three decimal places, e.g. `123.456`.
pub fn fmt_fixed3(v: Fixed3) -> (s: String)
    ensures
        s@ == spec_fixed3(v.milli as int),
{
    let m = v.milli;
    let a: u64 = if m < 0 {
        (-(m as i128)) as u64
    } else {
        m as u64
    };
    proof {
        assert(a == abs(m as int));
    }
    let mut out = String::new();
    if m < 0 {
        out.append("-");
        proof {
            reveal_strlit("-");
        }
    }
    push_digits(&mut out, (a / 1000) as u128);
    out.append(".");
    proof {
        reveal_strlit(".");
    }
    push_digit(&mut out, (a / 100) % 10);
    push_digit(&mut out, (a / 10) % 10);
    push_digit(&mut out, a % 10);
    proof {
        assert(out@ =~= spec_fixed3(m as int));
    }
    out
}

/// The percentage written with two decimal places, e.g. `1.23`.
pub fn fmt_fixed2(v: i128) -> (s: String)
    requires
        v != i128::MIN,
    ensures
        s@ == spec_fixed2(v as int),
{
    let a: u128 = if v < 0 {
        (-v) as u128
    } else {
        v as u128
    };
    proof {
        assert(a == abs(v as int));
    }
    let mut out = String::new();
    if v < 0 {
        out.append("-");
        proof {
            reveal_strlit("-");
        }
    }
    push_digits(&mut out, a / 100);
    out.append(".");
    proof {
        reveal_strlit(".");
    }
    push_digit(&mut out, ((a / 10) % 10) as u64);
    push_digit(&mut out, (a % 10) as u64);
    proof {
        assert(out@ =~= spec_fixed2(v as int));
    }
    out
}

/// The change of `last` against `open` in hundredths of a percent,
/// truncated toward zero.
pub fn percent_hundredths(last: Fixed3, open: Fixed3) -> (p: i128)
    requires
        open.milli != 0,
    ensures
        p == spec_percent(last.milli as int, open.milli as int),
        i128::MIN < p,
{
    let d: i128 = last.milli as i128 - open.milli as i128;
    let num: i128 = d * 10000;
    let an: u128 = if num < 0 {
        (-num) as u128
    } else {
        num as u128
    };
    let ao: u128 = if open.milli < 0 {
        (-(open.milli as i128)) as u128
    } else {
        open.milli as u128
    };
    let q: u128 = an / ao;
    proof {
        assert(an / ao <= an) by (nonlinear_arith)
            requires
                ao >= 1,
        ;
        assert(an == abs((last.milli as int - open.milli) * 10000));
        assert(ao == abs(open.milli as int));
    }
    if (num < 0) != (open.milli < 0) {
        -(q as i128)
    } else {
        q as i128
    }
}

} // verus!

