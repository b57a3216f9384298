use vstd::prelude::*;

verus! {

/// The lower-case hex digit of a nibble `d` (`0 <= d < 16`).
pub open spec fn hex_digit(d: int) -> char {
    if d == 0 {
        '0'
    } else if d == 1 {
        '1'
    } else if d == 2 {
        '2'
    } else if d == 3 {
        '3'
    } else if d == 4 {
        '4'
    } else if d == 5 {
        '5'
    } else if d == 6 {
        '6'
    } else if d == 7 {
        '7'
    } else if d == 8 {
        '8'
    } else if d == 9 {
        '9'
    } else if d == 10 {
        'a'
    } else if d == 11 {
        'b'
    } else if d == 12 {
        'c'
    } else if d == 13 {
        'd'
    } else if d == 14 {
        'e'
    } else {
        'f'
    }
}

/// The lower-case hex text of `bytes`: two digits per byte, high nibble
/// first, bytes in order.
pub open spec fn hex_lower(bytes: Seq<u8>) -> Seq<char> {
    Seq::new(
        2 * bytes.len(),
        |i: int|
            if i % 2 == 0 {
                hex_digit((bytes[i / 2] / 16) as int)
            } else {
                hex_digit((bytes[i / 2] % 16) as int)
            },
    )
}

/// The sixteen lower-case hex digits in order of value: the digit of a
/// nibble `d` is the character at position `d`.
pub open spec fn lower_hex_alphabet() -> Seq<char> {
    "0123456789abcdef"@
}

/// Whether `c` is one of the sixteen lower-case hex digits.
pub open spec fn is_lower_hex_digit(c: char) -> bool {
    exists|d: int| 0 <= d < 16 && hex_digit(d) == c
}

/// Calls `hex::encode`, which turns each byte into two lower-case hex
/// digits, high nibble first (its documentation: "Lower case characters are
/// used (e.g. `f9b4ca`)"); the contract states that text in full.
#[verifier::external_body]
fn hex_encode(data: &[u8]) -> (text: String)
    ensures
        text@ == hex_lower(data@),
{
    hex::encode(data)
}

/// The machine's root hash as a hex string of 64 lower-case digits.
pub fn root_hash_hex(hash: &[u8; 32]) -> (text: String)
    ensures
        text@ == hex_lower(hash@),
        text@.len() == 64,
        forall|k: int|
            0 <= k < 32 ==> text@[2 * k] == lower_hex_alphabet()[(hash@[k] / 16) as int]
                && text@[2 * k + 1] == lower_hex_alphabet()[(hash@[k] % 16) as int],
{
    let text = hex_encode(hash.as_slice());
    proof {
        lemma_hex_lower_digit_pairs(hash@);
    }
    text
}

/// The hex text has two characters per byte, and the `k`-th pair is the
/// digit of the `k`-th byte's high nibble followed by that of its low
/// nibble, bytes taken in their own order.
pub proof fn lemma_hex_lower_digit_pairs(bytes: Seq<u8>)
    ensures
        hex_lower(bytes).len() == 2 * bytes.len(),
        forall|k: int|
            0 <= k < bytes.len() ==> hex_lower(bytes)[2 * k] == lower_hex_alphabet()[(bytes[k] / 16) as int]
                && hex_lower(bytes)[2 * k + 1] == lower_hex_alphabet()[(bytes[k] % 16) as int],
{
    reveal_strlit("0123456789abcdef");
    assert forall|d: int| 0 <= d < 16 implies #[trigger] lower_hex_alphabet()[d] == hex_digit(d) by {
        reveal_strlit("0123456789abcdef");
    }
    assert forall|k: int| 0 <= k < bytes.len() implies hex_lower(bytes)[2 * k] == lower_hex_alphabet()[(bytes[k] / 16) as int]
        && hex_lower(bytes)[2 * k + 1] == lower_hex_alphabet()[(bytes[k] % 16) as int] by {
        assert((2 * k) / 2 == k && (2 * k) % 2 == 0);
        assert((2 * k + 1) / 2 == k && (2 * k + 1) % 2 == 1);
        assert(lower_hex_alphabet()[(bytes[k] / 16) as int] == hex_digit((bytes[k] / 16) as int));
        assert(lower_hex_alphabet()[(bytes[k] % 16) as int] == hex_digit((bytes[k] % 16) as int));
    }
}

/// Distinct nibbles have distinct hex digits.
proof fn lemma_hex_digit_injective(a: int, b: int)
    requires
        0 <= a < 16,
        0 <= b < 16,
        hex_digit(a) == hex_digit(b),
    ensures
        a == b,
{
}

/// The hex text has two digits per byte, and every one of its characters is
/// a lower-case hex digit.
pub proof fn lemma_hex_lower_shape(bytes: Seq<u8>)
    ensures
        hex_lower(bytes).len() == 2 * bytes.len(),
        forall|i: int| 0 <= i < hex_lower(bytes).len() ==> is_lower_hex_digit(#[trigger] hex_lower(bytes)[i]),
{
    assert forall|i: int| 0 <= i < hex_lower(bytes).len() implies is_lower_hex_digit(#[trigger] hex_lower(bytes)[i]) by {
        if i % 2 == 0 {
            assert(hex_digit((bytes[i / 2] / 16) as int) == hex_lower(bytes)[i]);
        } else {
            assert(hex_digit((bytes[i / 2] % 16) as int) == hex_lower(bytes)[i]);
        }
    }
}

/// Distinct byte strings have distinct hex texts: the text determines the
/// bytes it was made from.
pub proof fn lemma_hex_lower_injective(a: Seq<u8>, b: Seq<u8>)
    requires
        hex_lower(a) == hex_lower(b),
    ensures
        a == b,
{
    assert(hex_lower(a).len() == 2 * a.len());
    assert(hex_lower(b).len() == 2 * b.len());
    assert forall|k: int| 0 <= k < a.len() implies a[k] == b[k] by {
        assert((2 * k) / 2 == k && (2 * k) % 2 == 0);
        assert((2 * k + 1) / 2 == k && (2 * k + 1) % 2 == 1);
        assert(hex_lower(a)[2 * k] == hex_digit((a[k] / 16) as int));
        assert(hex_lower(b)[2 * k] == hex_digit((b[k] / 16) as int));
        assert(hex_lower(a)[2 * k + 1] == hex_digit((a[k] % 16) as int));
        assert(hex_lower(b)[2 * k + 1] == hex_digit((b[k] % 16) as int));
        lemma_hex_digit_injective((a[k] / 16) as int, (b[k] / 16) as int);
        lemma_hex_digit_injective((a[k] % 16) as int, (b[k] % 16) as int);
    }
    assert(a =~= b);
}

} // verus!
