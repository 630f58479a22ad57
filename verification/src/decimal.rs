use vstd::prelude::*;

verus! {

/// The character for one decimal digit.
pub open spec fn digit_char(d: int) -> char {
    if d == 0 {
        '0'
    } else if d == 1 {
        '1'
    } else if d == 2 {
        '2'
    } else if d == 3 {
        '3'
    } else if d == 4 {
        '4'
    } else if d == 5 {
        '5'
    } else if d == 6 {
        '6'
    } else if d == 7 {
        '7'
    } else if d == 8 {
        '8'
    } else {
        '9'
    }
}

/// The decimal digits of a non-negative number, most significant first,
/// without leading zeros (a single zero for 0).
pub open spec fn dec_digits(n: int) -> Seq<char>
    decreases n,
{
    if n < 10 {
        seq![digit_char(n)]
    } else {
        dec_digits(n / 10).push(digit_char(n % 10))
    }
}

/// The number of those digits.
pub open spec fn dec_len(n: int) -> int
    decreases n,
{
    if n < 10 {
        1
    } else {
        1 + dec_len(n / 10)
    }
}

pub proof fn lemma_dec_digits_len(n: int)
    ensures
        dec_digits(n).len() == dec_len(n),
        dec_len(n) >= 1,
    decreases n,
{
    if n >= 10 {
        lemma_dec_digits_len(n / 10);
    }
}

/// `s` left-padded with zeros to width `w` (unchanged when already wide
/// enough).
pub open spec fn zero_pad(s: Seq<char>, w: int) -> Seq<char> {
    if s.len() >= w {
        s
    } else {
        Seq::new((w - s.len()) as nat, |_i: int| '0') + s
    }
}

/// One decimal digit as text.
fn digit_str(d: u64) -> (r: &'static str)
    requires
        d < 10,
    ensures
        r@ =~= seq![digit_char(d as int)],
{
    proof {
        reveal_strlit("0");
        reveal_strlit("1");
        reveal_strlit("2");
        reveal_strlit("3");
        reveal_strlit("4");
        reveal_strlit("5");
        reveal_strlit("6");
        reveal_strlit("7");
        reveal_strlit("8");
        reveal_strlit("9");
    }
    match d {
        0 => "0",
        1 => "1",
        2 => "2",
        3 => "3",
        4 => "4",
        5 => "5",
        6 => "6",
        7 => "7",
        8 => "8",
        _ => "9",
    }
}

/// Appends the decimal digits of `n`.
pub fn push_dec(s: &mut String, n: u64)
    ensures
        final(s)@ == old(s)@ + dec_digits(n as int),
    decreases n,
{
    if n < 10 {
        s.append(digit_str(n));
        proof {
            assert(s@ =~= old(s)@ + dec_digits(n as int));
        }
    } else {
        push_dec(s, n / 10);
        s.append(digit_str(n % 10));
        proof {
            assert(s@ =~= old(s)@ + dec_digits(n as int));
        }
    }
}

/// The digit count is at least one.
pub proof fn lemma_dec_len_pos(n: int)
    ensures
        dec_len(n) >= 1,
    decreases n,
{
    if n >= 10 {
        lemma_dec_len_pos(n / 10);
    }
}

/// A positive number has no more digits than its own value.
pub proof fn lemma_dec_len_le_n(n: int)
    requires
        n >= 1,
    ensures
        dec_len(n) <= n,
    decreases n,
{
    if n >= 10 {
        lemma_dec_len_le_n(n / 10);
    }
}

/// The number of decimal digits of `n`.
pub fn dec_count(n: u64) -> (r: u64)
    ensures
        r == dec_len(n as int),
{
    proof {
        if n >= 1 {
            lemma_dec_len_le_n(n as int);
        }
        lemma_dec_len_pos(n as int);
    }
    let mut c: u64 = 1;
    let mut m: u64 = n;
    while m >= 10
        invariant
            dec_len(n as int) == c - 1 + dec_len(m as int),
            1 <= c,
            n >= 1 ==> dec_len(n as int) <= n,
            dec_len(m as int) >= 1,
        decreases m,
    {
        proof {
            lemma_dec_len_pos(m as int / 10);
            assert(dec_len(m as int) == 1 + dec_len(m as int / 10));
        }
        m = m / 10;
        c = c + 1;
    }
    c
}

/// Appends the decimal digits of `n`, left-padded with zeros to `width`.
pub fn push_dec_padded(s: &mut String, n: u64, width: u64)
    requires
        1 <= width <= 6,
    ensures
        final(s)@ == old(s)@ + zero_pad(dec_digits(n as int), width as int),
    {
    proof {
        lemma_dec_digits_len(n as int);
        reveal_strlit("0");
    }
    let d = dec_count(n);
    let mut k: u64 = d;
    while k < width
        invariant
            d <= k,
            k == d || k <= width,
            width <= 6,
            d == dec_len(n as int),
            s@ == old(s)@ + Seq::new((k - d) as nat, |_i: int| '0'),
        decreases width - k,
    {
        proof {
            reveal_strlit("0");
        }
        s.append("0");
        proof {
            assert(s@ =~= old(s)@ + Seq::new((k + 1 - d) as nat, |_i: int| '0'));
        }
        k = k + 1;
    }
    let ghost before_digits = s@;
    push_dec(s, n);
    proof {
        lemma_dec_digits_len(n as int);
        assert(s@ == before_digits + dec_digits(n as int));
        assert(before_digits == old(s)@ + Seq::new((k - d) as nat, |_i: int| '0'));
        if d >= width {
            assert(k == d);
            assert(zero_pad(dec_digits(n as int), width as int) == dec_digits(n as int));
            assert(s@ =~= old(s)@ + zero_pad(dec_digits(n as int), width as int));
        } else {
            assert(k == width);
            assert(zero_pad(dec_digits(n as int), width as int) =~= Seq::new(
                (width - d) as nat,
                |_i: int| '0',
            ) + dec_digits(n as int));
            assert(s@ =~= old(s)@ + zero_pad(dec_digits(n as int), width as int));
        }
    }
}

} // verus!
