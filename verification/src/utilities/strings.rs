use vstd::prelude::*;

verus! {

/// Relies on `String::push`: appends the given character to the end of the string.
#[verifier::external_body]
pub fn push_char(s: &mut String, c: char)
    ensures
        final(s)@ == old(s)@.push(c),
{
    s.push(c)
}

/// The character for one decimal digit.
pub open spec fn digit_char(d: int) -> char {
    if d == 0 { '0' }
    else if d == 1 { '1' }
    else if d == 2 { '2' }
    else if d == 3 { '3' }
    else if d == 4 { '4' }
    else if d == 5 { '5' }
    else if d == 6 { '6' }
    else if d == 7 { '7' }
    else if d == 8 { '8' }
    else { '9' }
}

/// Decimal rendering of a non-negative integer, most significant digit first.
pub open spec fn spec_udec(n: nat) -> Seq<char>
    decreases n,
{
    if n < 10 { seq![digit_char(n as int)] } else { spec_udec(n / 10) + seq![digit_char((n % 10) as int)] }
}

/// Decimal rendering of a signed integer: a leading minus sign when negative.
pub open spec fn spec_idec(n: int) -> Seq<char> {
    if n < 0 { seq!['-'] + spec_udec((-n) as nat) } else { spec_udec(n as nat) }
}

fn digit_exec(d: u64) -> (c: char)
    requires
        d < 10,
    ensures
        c == digit_char(d as int),
{
    if d == 0 { '0' }
    else if d == 1 { '1' }
    else if d == 2 { '2' }
    else if d == 3 { '3' }
    else if d == 4 { '4' }
    else if d == 5 { '5' }
    else if d == 6 { '6' }
    else if d == 7 { '7' }
    else if d == 8 { '8' }
    else { '9' }
}

/// Renders an unsigned integer in decimal.
pub fn u64_dec(n: u64) -> (r: String)
    ensures
        r@ == spec_udec(n as nat),
    decreases n,
{
    if n < 10 {
        let mut s = String::new();
        push_char(&mut s, digit_exec(n));
        proof {
            assert(s@ =~= spec_udec(n as nat));
        }
        s
    } else {
        let mut s = u64_dec(n / 10);
        push_char(&mut s, digit_exec(n % 10));
        proof {
            assert(s@ =~= spec_udec(n as nat));
        }
        s
    }
}

/// Renders a signed integer in decimal.
pub fn i32_dec(n: i32) -> (r: String)
    ensures
        r@ == spec_idec(n as int),
{
    if n < 0 {
        let mag = (-(n as i64)) as u64;
        let digits = u64_dec(mag);
        let r = String::from_str("-").concat(digits.as_str());
        proof {
            reveal_strlit("-");
            assert(r@ =~= spec_idec(n as int));
        }
        r
    } else {
        u64_dec(n as u64)
    }
}

} // verus!
