//! Decimal rendering of the integer register values and the small string
//! helpers shared by the envelope builder and the scheduler.

use vstd::prelude::*;
use vstd::string::StringExecFns;

verus! {

/// Relies on std String::push: appends the character to the end of the string.
pub assume_specification[ String::push ](s: &mut String, c: char)
    ensures
        final(s)@ == old(s)@.push(c),
;

/// The decimal digit character for a value below ten.
pub open spec fn dec_digit(d: nat) -> char {
    if d == 0 {
        '0'
    } else if d == 1 {
        '1'
    } else if d == 2 {
        '2'
    } else if d == 3 {
        '3'
    } else if d == 4 {
        '4'
    } else if d == 5 {
        '5'
    } else if d == 6 {
        '6'
    } else if d == 7 {
        '7'
    } else if d == 8 {
        '8'
    } else {
        '9'
    }
}

/// The usual decimal notation of a natural number, without leading zeros.
pub open spec fn dec_str_nat(n: nat) -> Seq<char>
    decreases n,
{
    if n < 10 {
        seq![dec_digit(n)]
    } else {
        dec_str_nat(n / 10).push(dec_digit(n % 10))
    }
}

/// The usual decimal notation of an integer: a minus sign for negative values.
pub open spec fn dec_str_int(n: int) -> Seq<char> {
    if n < 0 {
        seq!['-'] + dec_str_nat((-n) as nat)
    } else {
        dec_str_nat(n as nat)
    }
}

fn dec_digit_char(d: u64) -> (c: char)
    requires
        d < 10,
    ensures
        c == dec_digit(d as nat),
{
    match d {
        0 => '0',
        1 => '1',
        2 => '2',
        3 => '3',
        4 => '4',
        5 => '5',
        6 => '6',
        7 => '7',
        8 => '8',
        _ => '9',
    }
}

/// Renders an unsigned value in decimal.
pub fn fmt_u64(n: u64) -> (s: String)
    ensures
        s@ == dec_str_nat(n as nat),
    decreases n,
{
    if n < 10 {
        let mut s = String::new();
        s.push(dec_digit_char(n));
        s
    } else {
        let mut s = fmt_u64(n / 10);
        s.push(dec_digit_char(n % 10));
        s
    }
}

/// Renders a signed value in decimal.
pub fn fmt_i64(n: i64) -> (s: String)
    ensures
        s@ == dec_str_int(n as int),
{
    if n >= 0 {
        fmt_u64(n as u64)
    } else {
        let magnitude: u64 = (-(n + 1)) as u64 + 1;
        proof {
            reveal_strlit("-");
        }
        let mut s = String::from_str("-");
        let digits = fmt_u64(magnitude);
        s.append(digits.as_str());
        s
    }
}

/// Every space replaced by an underscore; all other characters kept.
pub open spec fn replace_spaces(s: Seq<char>) -> Seq<char> {
    Seq::new(s.len(), |i: int| if s[i] == ' ' { '_' } else { s[i] })
}

/// Replaces spaces by underscores, as the backup name rule asks.
pub fn spaces_to_underscores(s: &String) -> (r: String)
    ensures
        r@ == replace_spaces(s@),
{
    let sl = s.as_str();
    let len = sl.unicode_len();
    let mut out = String::new();
    let mut i: usize = 0;
    while i < len
        invariant
            len == sl@.len(),
            i <= len,
            out@ =~= replace_spaces(sl@).take(i as int),
        decreases len - i,
    {
        let c = sl.get_char(i);
        if c == ' ' {
            out.push('_');
        } else {
            out.push(c);
        }
        i += 1;
        proof {
            assert(out@ =~= replace_spaces(sl@).take(i as int));
        }
    }
    proof {
        assert(replace_spaces(sl@).take(len as int) =~= replace_spaces(sl@));
    }
    out
}

} // verus!
