//! The 62-symbol alphabet of identifiers: the decimal digits, then the
//! uppercase letters, then the lowercase letters, in that order.

use vstd::prelude::*;

verus! {

/// Number of symbols in the alphabet.
pub const BASE: usize = 62;

/// The alphabet symbol at index `d`: `'0'..='9'` for 0..10, `'A'..='Z'` for
/// 10..36, `'a'..='z'` for 36..62, and 0 outside the alphabet.
pub open spec fn alphabet_byte_spec(d: int) -> u8 {
    if 0 <= d < 10 {
        (48 + d) as u8
    } else if 10 <= d < 36 {
        (55 + d) as u8
    } else if 36 <= d < 62 {
        (61 + d) as u8
    } else {
        0
    }
}

/// Whether `b` is one of the 62 alphabet symbols.
pub open spec fn is_alphabet_byte(b: u8) -> bool {
    (48 <= b <= 57) || (65 <= b <= 90) || (97 <= b <= 122)
}

/// Distinct alphabet indices name distinct symbols.
pub proof fn lemma_alphabet_byte_injective(i: int, j: int)
    requires
        0 <= i < BASE,
        0 <= j < BASE,
        alphabet_byte_spec(i) == alphabet_byte_spec(j),
    ensures
        i == j,
{
}

/// Every alphabet index names an alphabet symbol.
pub proof fn lemma_alphabet_byte_in_alphabet(d: int)
    requires
        0 <= d < BASE,
    ensures
        is_alphabet_byte(alphabet_byte_spec(d)),
{
}

/// The alphabet symbol at index `d`.
pub fn alphabet_byte(d: usize) -> (r: u8)
    requires
        d < BASE,
    ensures
        r == alphabet_byte_spec(d as int),
        is_alphabet_byte(r),
{
    if d < 10 {
        48 + d as u8
    } else if d < 36 {
        55 + d as u8
    } else {
        61 + d as u8
    }
}

/// The whole alphabet, in order.
pub fn alphabet() -> (r: Vec<u8>)
    ensures
        r@.len() == BASE,
        forall|i: int| 0 <= i < BASE ==> r@[i] == alphabet_byte_spec(i),
{
    let mut r: Vec<u8> = Vec::new();
    let mut d: usize = 0;
    while d < BASE
        invariant
            d <= BASE,
            r@.len() == d,
            forall|i: int| 0 <= i < d ==> r@[i] == alphabet_byte_spec(i),
        decreases BASE - d,
    {
        r.push(alphabet_byte(d));
        d += 1;
    }
    r
}

} // verus!
