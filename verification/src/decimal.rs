//! Rendering a signed 32-bit value as decimal text, for `i32.const`
//! immediates in generated programs.

use vstd::prelude::*;
use vstd::string::StringExecFns;

verus! {

/// The decimal digit character for `d`.
pub open spec fn digit_char(d: int) -> char {
    if d == 0 { '0' }
    else if d == 1 { '1' }
    else if d == 2 { '2' }
    else if d == 3 { '3' }
    else if d == 4 { '4' }
    else if d == 5 { '5' }
    else if d == 6 { '6' }
    else if d == 7 { '7' }
    else if d == 8 { '8' }
    else { '9' }
}

/// The decimal digits of a non-negative value, most significant first.
pub open spec fn spec_udec(n: nat) -> Seq<char>
    decreases n,
{
    if n < 10 {
        seq![digit_char(n as int)]
    } else {
        spec_udec(n / 10).push(digit_char((n % 10) as int))
    }
}

/// The decimal text of a (possibly negative) value: a minus sign, if any,
/// followed by the digits of its magnitude.
pub open spec fn spec_dec(v: int) -> Seq<char> {
    if v < 0 {
        seq!['-'] + spec_udec((-v) as nat)
    } else {
        spec_udec(v as nat)
    }
}

fn push_digit(s: &mut String, d: u64)
    requires
        d < 10,
    ensures
        final(s)@ == old(s)@ + seq![digit_char(d as int)],
{
    if d == 0 {
        s.append("0");
        proof { reveal_strlit("0"); }
        assert(s@ =~= old(s)@ + seq![digit_char(d as int)]);
    } else if d == 1 {
        s.append("1");
        proof { reveal_strlit("1"); }
        assert(s@ =~= old(s)@ + seq![digit_char(d as int)]);
    } else if d == 2 {
        s.append("2");
        proof { reveal_strlit("2"); }
        assert(s@ =~= old(s)@ + seq![digit_char(d as int)]);
    } else if d == 3 {
        s.append("3");
        proof { reveal_strlit("3"); }
        assert(s@ =~= old(s)@ + seq![digit_char(d as int)]);
    } else if d == 4 {
        s.append("4");
        proof { reveal_strlit("4"); }
        assert(s@ =~= old(s)@ + seq![digit_char(d as int)]);
    } else if d == 5 {
        s.append("5");
        proof { reveal_strlit("5"); }
        assert(s@ =~= old(s)@ + seq![digit_char(d as int)]);
    } else if d == 6 {
        s.append("6");
        proof { reveal_strlit("6"); }
        assert(s@ =~= old(s)@ + seq![digit_char(d as int)]);
    } else if d == 7 {
        s.append("7");
        proof { reveal_strlit("7"); }
        assert(s@ =~= old(s)@ + seq![digit_char(d as int)]);
    } else if d == 8 {
        s.append("8");
        proof { reveal_strlit("8"); }
        assert(s@ =~= old(s)@ + seq![digit_char(d as int)]);
    } else {
        s.append("9");
        proof { reveal_strlit("9"); }
        assert(s@ =~= old(s)@ + seq![digit_char(d as int)]);
    }
}

fn push_udec(s: &mut String, n: u64)
    ensures
        final(s)@ == old(s)@ + spec_udec(n as nat),
    decreases n,
{
    if n >= 10 {
        push_udec(s, n / 10);
        push_digit(s, n % 10);
        assert(s@ =~= old(s)@ + spec_udec(n as nat));
    } else {
        push_digit(s, n);
    }
}

/// The decimal rendering of `v`, exactly `spec_dec(v)`.
pub fn dec_text(v: i32) -> (r: String)
    ensures
        r@ == spec_dec(v as int),
{
    let mut s = String::new();
    if v < 0 {
        s.append("-");
        proof { reveal_strlit("-"); }
        let mag: u64 = (-(v as i64)) as u64;
        push_udec(&mut s, mag);
        assert(s@ =~= spec_dec(v as int));
    } else {
        push_udec(&mut s, v as u64);
    }
    s
}

} // verus!
