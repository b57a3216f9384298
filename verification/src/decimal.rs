use vstd::prelude::*;

verus! {

/// The character of a decimal digit `d` (`0 <= d < 10`).
pub open spec fn digit_char(d: int) -> char {
    if d == 0 {
        '0'
    } else if d == 1 {
        '1'
    } else if d == 2 {
        '2'
    } else if d == 3 {
        '3'
    } else if d == 4 {
        '4'
    } else if d == 5 {
        '5'
    } else if d == 6 {
        '6'
    } else if d == 7 {
        '7'
    } else if d == 8 {
        '8'
    } else {
        '9'
    }
}

/// The decimal numeral of `n`, most significant digit first, without
/// leading zeros (zero itself is written `0`).
pub open spec fn decimal(n: nat) -> Seq<char>
    decreases n,
{
    if n < 10 {
        seq![digit_char(n as int)]
    } else {
        decimal(n / 10).push(digit_char((n % 10) as int))
    }
}

/// Distinct digits have distinct characters.
proof fn lemma_digit_char_injective(a: int, b: int)
    requires
        0 <= a < 10,
        0 <= b < 10,
        digit_char(a) == digit_char(b),
    ensures
        a == b,
{
    assert('0' != '1' && '0' != '2' && '0' != '3' && '0' != '4' && '0' != '5');
    assert('0' != '6' && '0' != '7' && '0' != '8' && '0' != '9');
}

/// Every decimal numeral has at least one digit.
pub proof fn lemma_decimal_nonempty(n: nat)
    ensures
        decimal(n).len() >= 1,
    decreases n,
{
    if n >= 10 {
        lemma_decimal_nonempty(n / 10);
    }
}

/// Distinct numbers have distinct decimal numerals.
pub proof fn lemma_decimal_injective(n: nat, m: nat)
    requires
        decimal(n) == decimal(m),
    ensures
        n == m,
    decreases n,
{
    if n < 10 && m < 10 {
        assert(decimal(n) == seq![digit_char(n as int)]);
        assert(decimal(m) == seq![digit_char(m as int)]);
        assert(decimal(n)[0] == decimal(m)[0]);
        assert(seq![digit_char(n as int)][0] == digit_char(n as int));
        assert(seq![digit_char(m as int)][0] == digit_char(m as int));
        lemma_digit_char_injective(n as int, m as int);
    } else if n < 10 {
        lemma_decimal_nonempty(m / 10);
        assert(decimal(m).len() >= 2);
    } else if m < 10 {
        lemma_decimal_nonempty(n / 10);
        assert(decimal(n).len() >= 2);
    } else {
        let dn = decimal(n);
        let dm = decimal(m);
        assert(dn.last() == dm.last());
        lemma_digit_char_injective((n % 10) as int, (m % 10) as int);
        assert(dn.drop_last() =~= decimal(n / 10));
        assert(dm.drop_last() =~= decimal(m / 10));
        lemma_decimal_injective(n / 10, m / 10);
    }
}

/// Whether `c` is one of the ten characters `0` to `9`.
pub open spec fn is_decimal_digit(c: char) -> bool {
    48 <= c as int && c as int <= 57
}

/// The number that a string of decimal digits denotes, read in base ten
/// with the most significant digit first (the digit `c` counts `c - '0'`).
pub open spec fn numeral_value(s: Seq<char>) -> int
    decreases s.len(),
{
    if s.len() == 0 {
        0
    } else {
        numeral_value(s.drop_last()) * 10 + (s.last() as int - 48)
    }
}

/// Whether `digits` is the usual decimal numeral of `n`: at least one
/// decimal digit, no leading zero unless it is the single digit `0`, and read
/// in base ten it gives `n`.
pub open spec fn is_numeral_of(digits: Seq<char>, n: int) -> bool {
    &&& digits.len() >= 1
    &&& forall|i: int| 0 <= i < digits.len() ==> is_decimal_digit(#[trigger] digits[i])
    &&& (digits.len() == 1 || digits[0] != '0')
    &&& numeral_value(digits) == n
}

/// The decimal numeral of `n` is written in decimal digits, starts with a
/// nonzero digit unless it is the single digit `0`, and read in base ten it
/// gives back `n`.
pub proof fn lemma_decimal_denotes(n: nat)
    ensures
        forall|i: int| 0 <= i < decimal(n).len() ==> is_decimal_digit(#[trigger] decimal(n)[i]),
        decimal(n).len() == 1 || decimal(n)[0] != '0',
        numeral_value(decimal(n)) == n,
        is_numeral_of(decimal(n), n as int),
    decreases n,
{
    lemma_decimal_nonempty(n);
    assert('0' as int == 48 && '1' as int == 49 && '2' as int == 50 && '3' as int == 51);
    assert('4' as int == 52 && '5' as int == 53 && '6' as int == 54 && '7' as int == 55);
    assert('8' as int == 56 && '9' as int == 57);
    if n < 10 {
        let d = decimal(n);
        assert(d == seq![digit_char(n as int)]);
        assert(d.drop_last() =~= Seq::<char>::empty());
        assert(numeral_value(d.drop_last()) == 0);
        assert(d.last() == digit_char(n as int));
    } else {
        lemma_decimal_denotes(n / 10);
        lemma_decimal_nonempty(n / 10);
        let d = decimal(n);
        let p = decimal(n / 10);
        assert(d == p.push(digit_char((n % 10) as int)));
        assert(d.drop_last() =~= p);
        assert(d[0] == p[0]);
        if n / 10 < 10 {
            assert(p == seq![digit_char((n / 10) as int)]);
            assert(p[0] != '0');
        } else {
            lemma_decimal_nonempty(n / 100);
            assert(p =~= decimal(n / 100).push(digit_char(((n / 10) % 10) as int)));
            assert(p.len() >= 2);
        }
        assert forall|i: int| 0 <= i < d.len() implies is_decimal_digit(#[trigger] d[i]) by {
            if i < p.len() {
                assert(d[i] == p[i]);
            }
        }
    }
}

/// A string of decimal digits that does not start with `0` denotes at
/// least one.
proof fn lemma_numeral_positive(s: Seq<char>)
    requires
        s.len() >= 1,
        forall|i: int| 0 <= i < s.len() ==> is_decimal_digit(#[trigger] s[i]),
        s[0] != '0',
    ensures
        numeral_value(s) >= 1,
    decreases s.len(),
{
    assert('0' as int == 48);
    if s.len() > 1 {
        let p = s.drop_last();
        assert forall|i: int| 0 <= i < p.len() implies is_decimal_digit(#[trigger] p[i]) by {
            assert(p[i] == s[i]);
        }
        assert(p[0] == s[0]);
        lemma_numeral_positive(p);
        assert(is_decimal_digit(s[s.len() - 1]));
    } else {
        assert(is_decimal_digit(s[0]));
        assert(s.drop_last().len() == 0);
        assert(numeral_value(s.drop_last()) == 0);
        assert(s.last() == s[0]);
        assert(s[0] as int != 48);
    }
}

/// A number has only one decimal numeral: two strings that are both the
/// usual decimal numeral of `n` are the same string.
pub proof fn lemma_numeral_unique(a: Seq<char>, b: Seq<char>, n: int)
    requires
        is_numeral_of(a, n),
        is_numeral_of(b, n),
    ensures
        a == b,
    decreases a.len(),
{
    assert('0' as int == 48);
    assert(is_decimal_digit(a[a.len() - 1]));
    assert(is_decimal_digit(b[b.len() - 1]));
    let pa = a.drop_last();
    let pb = b.drop_last();
    assert forall|i: int| 0 <= i < pa.len() implies is_decimal_digit(#[trigger] pa[i]) by {
        assert(pa[i] == a[i]);
    }
    assert forall|i: int| 0 <= i < pb.len() implies is_decimal_digit(#[trigger] pb[i]) by {
        assert(pb[i] == b[i]);
    }
    if a.len() >= 2 {
        assert(pa[0] == a[0]);
        lemma_numeral_positive(pa);
    } else {
        assert(pa.len() == 0);
    }
    if b.len() >= 2 {
        assert(pb[0] == b[0]);
        lemma_numeral_positive(pb);
    } else {
        assert(pb.len() == 0);
    }
    // n = value(prefix) * 10 + last digit, so the last digits agree and the
    // prefixes denote the same number.
    assert(a.last() == b.last());
    assert(numeral_value(pa) == numeral_value(pb));
    if a.len() >= 2 && b.len() >= 2 {
        assert(pa.len() == 1 || pa[0] != '0') by {
            assert(pa[0] == a[0]);
        }
        assert(pb.len() == 1 || pb[0] != '0') by {
            assert(pb[0] == b[0]);
        }
        lemma_numeral_unique(pa, pb, numeral_value(pa));
        assert(a =~= pa.push(a.last()));
        assert(b =~= pb.push(b.last()));
    } else {
        assert(a.len() == b.len());
        assert(a =~= b);
    }
}

/// A one-character string holding the digit `d`.
fn digit_text(d: u32) -> (s: &'static str)
    requires
        d < 10,
    ensures
        s@ == seq![digit_char(d as int)],
{
    proof {
        reveal_strlit("0");
        reveal_strlit("1");
        reveal_strlit("2");
        reveal_strlit("3");
        reveal_strlit("4");
        reveal_strlit("5");
        reveal_strlit("6");
        reveal_strlit("7");
        reveal_strlit("8");
        reveal_strlit("9");
    }
    if d == 0 {
        "0"
    } else if d == 1 {
        "1"
    } else if d == 2 {
        "2"
    } else if d == 3 {
        "3"
    } else if d == 4 {
        "4"
    } else if d == 5 {
        "5"
    } else if d == 6 {
        "6"
    } else if d == 7 {
        "7"
    } else if d == 8 {
        "8"
    } else {
        "9"
    }
}

/// Appends the decimal numeral of `n` to `s`.
pub fn push_decimal(s: &mut String, n: u32)
    ensures
        final(s)@ == old(s)@ + decimal(n as nat),
        final(s)@.subrange(0, old(s)@.len() as int) == old(s)@,
        is_numeral_of(final(s)@.subrange(old(s)@.len() as int, final(s)@.len() as int), n as int),
    decreases n,
{
    let ghost before = s@;
    if n >= 10 {
        push_decimal(s, n / 10);
    }
    let d = digit_text(n % 10);
    s.append(d);
    proof {
        lemma_decimal_denotes(n as nat);
        assert(s@.subrange(0, before.len() as int) =~= before);
        assert(s@.subrange(before.len() as int, s@.len() as int) =~= decimal(n as nat));
    }
}

} // verus!
