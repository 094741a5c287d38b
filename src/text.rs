use vstd::prelude::*;

verus! {

/// The character of a decimal digit.
pub open spec fn digit_char(d: nat) -> char {
    if d == 0 {
        '0'
    } else if d == 1 {
        '1'
    } else if d == 2 {
        '2'
    } else if d == 3 {
        '3'
    } else if d == 4 {
        '4'
    } else if d == 5 {
        '5'
    } else if d == 6 {
        '6'
    } else if d == 7 {
        '7'
    } else if d == 8 {
        '8'
    } else {
        '9'
    }
}

/// The decimal rendering of `n`, without leading zeros ("0" for zero).
pub open spec fn dec(n: nat) -> Seq<char>
    decreases n,
{
    if n < 10 {
        seq![digit_char(n)]
    } else {
        dec(n / 10).push(digit_char(n % 10))
    }
}

/// The decimal rendering of `n`, padded with a leading zero to two characters.
pub open spec fn dec2(n: nat) -> Seq<char> {
    if n < 10 {
        seq!['0', digit_char(n)]
    } else {
        dec(n)
    }
}

fn digit_str(d: u8) -> (r: &'static str)
    requires
        d < 10,
    ensures
        r@ == seq![digit_char(d as nat)],
{
    proof {
        reveal_strlit("0");
        reveal_strlit("1");
        reveal_strlit("2");
        reveal_strlit("3");
        reveal_strlit("4");
        reveal_strlit("5");
        reveal_strlit("6");
        reveal_strlit("7");
        reveal_strlit("8");
        reveal_strlit("9");
    }
    match d {
        0 => "0",
        1 => "1",
        2 => "2",
        3 => "3",
        4 => "4",
        5 => "5",
        6 => "6",
        7 => "7",
        8 => "8",
        _ => "9",
    }
}

/// Appends the decimal rendering of `n` to `s`.
pub fn push_decimal(s: &mut String, n: u8)
    ensures
        final(s)@ == old(s)@ + dec(n as nat),
{
    if n >= 100 {
        s.append(digit_str(n / 100));
        s.append(digit_str((n / 10) % 10));
        s.append(digit_str(n % 10));
        proof {
            let m = n as nat;
            assert(dec(m / 100) == seq![digit_char(m / 100)]);
            assert((m / 10) / 10 == m / 100);
            assert(dec(m / 10) == dec(m / 100).push(digit_char((m / 10) % 10)));
            assert(dec(m) == dec(m / 10).push(digit_char(m % 10)));
        }
    } else if n >= 10 {
        s.append(digit_str(n / 10));
        s.append(digit_str(n % 10));
        proof {
            let m = n as nat;
            assert(dec(m / 10) == seq![digit_char(m / 10)]);
            assert(dec(m) == dec(m / 10).push(digit_char(m % 10)));
        }
    } else {
        s.append(digit_str(n));
    }
}

/// Appends the decimal rendering of `n`, at least two characters wide, to `s`.
pub fn push_decimal2(s: &mut String, n: u8)
    ensures
        final(s)@ == old(s)@ + dec2(n as nat),
{
    if n < 10 {
        s.append(digit_str(0));
        s.append(digit_str(n));
    } else {
        push_decimal(s, n);
    }
}

} // verus!
