use vstd::prelude::*;

verus! {

/// The character for a single decimal digit `d` (0 through 9).
pub open spec fn digit_char(d: nat) -> char {
    ((48 + d) as u8) as char
}

/// Decimal representation of a natural number, most significant digit first.
pub open spec fn dec_digits(n: nat) -> Seq<char>
    decreases n,
{
    if n < 10 {
        seq![digit_char(n)]
    } else {
        dec_digits(n / 10).push(digit_char(n % 10))
    }
}

/// Decimal representation of an integer: a leading minus sign when negative.
pub open spec fn int_digits(n: int) -> Seq<char> {
    if n < 0 {
        seq!['-'] + dec_digits((-n) as nat)
    } else {
        dec_digits(n as nat)
    }
}

/// One decimal digit as a string slice.
fn digit_str(d: u64) -> (r: &'static str)
    requires
        d < 10,
    ensures
        r@ =~= seq![digit_char(d as nat)],
{
    proof {
        reveal_strlit("0");
        reveal_strlit("1");
        reveal_strlit("2");
        reveal_strlit("3");
        reveal_strlit("4");
        reveal_strlit("5");
        reveal_strlit("6");
        reveal_strlit("7");
        reveal_strlit("8");
        reveal_strlit("9");
    }
    match d {
        0 => "0",
        1 => "1",
        2 => "2",
        3 => "3",
        4 => "4",
        5 => "5",
        6 => "6",
        7 => "7",
        8 => "8",
        _ => "9",
    }
}

/// Renders an unsigned number in decimal.
pub fn u64_to_dec(n: u64) -> (r: String)
    ensures
        r@ == dec_digits(n as nat),
    decreases n,
{
    if n < 10 {
        digit_str(n).to_owned()
    } else {
        let mut s = u64_to_dec(n / 10);
        s.append(digit_str(n % 10));
        proof {
            assert(dec_digits(n as nat) =~= dec_digits(n as nat / 10).push(digit_char(
                n as nat % 10,
            )));
            assert(s@ =~= dec_digits(n as nat));
        }
        s
    }
}

/// Renders a signed number in decimal, with a minus sign when negative.
pub fn i64_to_dec(n: i64) -> (r: String)
    ensures
        r@ == int_digits(n as int),
{
    if n >= 0 {
        u64_to_dec(n as u64)
    } else {
        let magnitude: u64 = (-(n as i128)) as u64;
        let mut s = "-".to_owned();
        let digits = u64_to_dec(magnitude);
        s.append(digits.as_str());
        proof {
            reveal_strlit("-");
            assert(s@ =~= int_digits(n as int));
        }
        s
    }
}

/// Two-digit zero-padded decimal representation (for one-byte values that
/// fit two digits).
pub open spec fn pad2_digits(n: nat) -> Seq<char> {
    if n < 10 {
        seq!['0'] + dec_digits(n)
    } else {
        dec_digits(n)
    }
}

/// Four-digit zero-padded decimal representation.
pub open spec fn pad4_digits(n: nat) -> Seq<char> {
    if n < 10 {
        seq!['0', '0', '0'] + dec_digits(n)
    } else if n < 100 {
        seq!['0', '0'] + dec_digits(n)
    } else if n < 1000 {
        seq!['0'] + dec_digits(n)
    } else {
        dec_digits(n)
    }
}

/// Renders a number zero-padded to at least two digits.
pub fn u64_to_dec_pad2(n: u64) -> (r: String)
    ensures
        r@ == pad2_digits(n as nat),
{
    if n < 10 {
        let mut s = "0".to_owned();
        let digits = u64_to_dec(n);
        s.append(digits.as_str());
        proof {
            reveal_strlit("0");
            assert(s@ =~= pad2_digits(n as nat));
        }
        s
    } else {
        u64_to_dec(n)
    }
}

/// Renders a number zero-padded to at least four digits.
pub fn u64_to_dec_pad4(n: u64) -> (r: String)
    ensures
        r@ == pad4_digits(n as nat),
{
    let mut s = String::new();
    if n < 10 {
        s.append("000");
    } else if n < 100 {
        s.append("00");
    } else if n < 1000 {
        s.append("0");
    }
    let digits = u64_to_dec(n);
    s.append(digits.as_str());
    proof {
        reveal_strlit("000");
        reveal_strlit("00");
        reveal_strlit("0");
        assert(s@ =~= pad4_digits(n as nat));
    }
    s
}

} // verus!
