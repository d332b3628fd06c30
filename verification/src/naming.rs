//! Generated resource names. Names embed the UTC year, month, day and hour
//! for coarse uniqueness and traceability; collisions within the same hour
//! remain possible and are not guarded against.

use crate::jsonfmt::push_char;
use vstd::prelude::*;
use vstd::string::StringExecFns;

verus! {

/// The decimal digit character for a value below ten.
pub open spec fn spec_digit(n: int) -> char {
    if n == 0 {
        '0'
    } else if n == 1 {
        '1'
    } else if n == 2 {
        '2'
    } else if n == 3 {
        '3'
    } else if n == 4 {
        '4'
    } else if n == 5 {
        '5'
    } else if n == 6 {
        '6'
    } else if n == 7 {
        '7'
    } else if n == 8 {
        '8'
    } else {
        '9'
    }
}

/// The decimal numeral of a non-negative number, most significant digit
/// first, without padding.
pub open spec fn dec_nat(n: int) -> Seq<char>
    decreases n,
{
    if n < 10 {
        seq![spec_digit(n)]
    } else {
        dec_nat(n / 10).push(spec_digit(n % 10))
    }
}

/// The decimal numeral of an integer: negative numbers carry a leading
/// minus sign.
pub open spec fn dec_int(n: int) -> Seq<char> {
    if n < 0 {
        seq!['-'] + dec_nat(-n)
    } else {
        dec_nat(n)
    }
}

/// The decimal digit character for a value below ten.
fn digit_char(n: u32) -> (c: char)
    requires
        n < 10,
    ensures
        c == spec_digit(n as int),
{
    if n == 0 {
        '0'
    } else if n == 1 {
        '1'
    } else if n == 2 {
        '2'
    } else if n == 3 {
        '3'
    } else if n == 4 {
        '4'
    } else if n == 5 {
        '5'
    } else if n == 6 {
        '6'
    } else if n == 7 {
        '7'
    } else if n == 8 {
        '8'
    } else {
        '9'
    }
}

/// Appends the decimal numeral of `n` to `out`.
pub fn push_dec_u32(out: &mut String, n: u32)
    ensures
        final(out)@ == old(out)@ + dec_nat(n as int),
    decreases n,
{
    if n >= 10 {
        push_dec_u32(out, n / 10);
    }
    let d = digit_char(n % 10);
    push_char(out, d);
    proof {
        if n < 10 {
            assert(old(out)@.push(d) =~= old(out)@ + dec_nat(n as int));
        } else {
            assert((old(out)@ + dec_nat(n as int / 10)).push(d) =~= old(out)@ + dec_nat(n as int));
        }
    }
}

/// Appends the decimal numeral of `n` to `out`, with a minus sign when `n`
/// is negative.
pub fn push_dec_i32(out: &mut String, n: i32)
    ensures
        final(out)@ == old(out)@ + dec_int(n as int),
{
    if n < 0 {
        out.append("-");
        proof {
            reveal_strlit("-");
        }
        let wide: i64 = -(n as i64);
        assert(0 < wide <= u32::MAX as i64);
        let m: u32 = wide as u32;
        push_dec_u32(out, m);
        proof {
            assert(old(out)@ + "-"@ + dec_nat(m as int) =~= old(out)@ + dec_int(n as int));
        }
    } else {
        push_dec_u32(out, n as u32);
    }
}

/// The generated topic name: a fixed prefix followed by the UTC year,
/// month, day and hour, separated by underscores.
pub open spec fn topic_name_view(year: int, month: int, day: int, hour: int) -> Seq<char> {
    "watchrs_"@ + dec_int(year) + seq!['_'] + dec_int(month) + seq!['_'] + dec_int(day)
        + seq!['_'] + dec_int(hour)
}

/// The generated target id: a fixed prefix followed by the UTC year, month,
/// day and hour, separated by underscores.
pub open spec fn target_id_view(year: int, month: int, day: int, hour: int) -> Seq<char> {
    "watchrs_sns_target_"@ + dec_int(year) + seq!['_'] + dec_int(month) + seq!['_'] + dec_int(day)
        + seq!['_'] + dec_int(hour)
}

/// Appends the four date parts, each preceded by an underscore separator
/// except the first.
fn push_date_parts(out: &mut String, year: i32, month: u32, day: u32, hour: u32)
    ensures
        final(out)@ == old(out)@ + dec_int(year as int) + seq!['_'] + dec_int(month as int)
            + seq!['_'] + dec_int(day as int) + seq!['_'] + dec_int(hour as int),
{
    push_dec_i32(out, year);
    out.append("_");
    push_dec_u32(out, month);
    out.append("_");
    push_dec_u32(out, day);
    out.append("_");
    push_dec_u32(out, hour);
    proof {
        reveal_strlit("_");
        assert("_"@ =~= seq!['_']);
        assert(final(out)@ =~= old(out)@ + dec_int(year as int) + seq!['_'] + dec_int(month as int)
            + seq!['_'] + dec_int(day as int) + seq!['_'] + dec_int(hour as int));
    }
}

/// The name of a generated topic for the given UTC date and hour.
pub fn topic_name(year: i32, month: u32, day: u32, hour: u32) -> (r: String)
    ensures
        r@ == topic_name_view(year as int, month as int, day as int, hour as int),
{
    let mut out = String::new();
    out.append("watchrs_");
    push_date_parts(&mut out, year, month, day, hour);
    proof {
        assert(out@ =~= topic_name_view(year as int, month as int, day as int, hour as int));
    }
    out
}

/// The id of a generated target for the given UTC date and hour.
pub fn target_id(year: i32, month: u32, day: u32, hour: u32) -> (r: String)
    ensures
        r@ == target_id_view(year as int, month as int, day as int, hour as int),
{
    let mut out = String::new();
    out.append("watchrs_sns_target_");
    push_date_parts(&mut out, year, month, day, hour);
    proof {
        assert(out@ =~= target_id_view(year as int, month as int, day as int, hour as int));
    }
    out
}

} // verus!
