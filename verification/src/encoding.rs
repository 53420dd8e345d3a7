//! Fixed-width base-62 place-value encoding of the sequence counter, and the
//! facts the identifier contracts need of it: every digit is an alphabet
//! symbol, and within one prefix epoch the encoding is injective.

use vstd::prelude::*;

use crate::alphabet::{
    alphabet_byte_spec, is_alphabet_byte, lemma_alphabet_byte_in_alphabet,
    lemma_alphabet_byte_injective,
};
use crate::MAX_SEQ;

verus! {

/// Number of base-62 digits that encode the sequence counter.
pub const SEQ_LEN: usize = 10;

/// The last `n` base-62 digits of `v`, most significant first, each rendered
/// as its alphabet symbol.
pub open spec fn base62_digits(v: int, n: nat) -> Seq<u8>
    decreases n,
{
    if n == 0 {
        Seq::empty()
    } else {
        base62_digits(v / 62, (n - 1) as nat).push(alphabet_byte_spec(v % 62))
    }
}

/// Smallest value that does not fit in `n` base-62 digits: 62 to the `n`.
pub open spec fn base62_bound(n: nat) -> int
    decreases n,
{
    if n == 0 {
        1
    } else {
        62 * base62_bound((n - 1) as nat)
    }
}

/// The ten-digit encoding used for the counter half of an identifier.
pub open spec fn encode62(v: int) -> Seq<u8> {
    base62_digits(v, SEQ_LEN as nat)
}

/// The sequence space is exactly what ten base-62 digits can hold.
pub proof fn lemma_bound_is_max_seq()
    ensures
        base62_bound(SEQ_LEN as nat) == MAX_SEQ as int,
{
    reveal_with_fuel(base62_bound, 11);
}

/// An encoding of a non-negative value has length `n` and consists of
/// alphabet symbols only.
pub proof fn lemma_digits_wf(v: int, n: nat)
    requires
        v >= 0,
    ensures
        base62_digits(v, n).len() == n,
        forall|i: int| 0 <= i < n ==> is_alphabet_byte(base62_digits(v, n)[i]),
    decreases n,
{
    if n > 0 {
        lemma_digits_wf(v / 62, (n - 1) as nat);
        lemma_alphabet_byte_in_alphabet(v % 62);
        assert forall|i: int| 0 <= i < n implies is_alphabet_byte(base62_digits(v, n)[i]) by {
            if i < n - 1 {
                assert(base62_digits(v, n)[i] == base62_digits(v / 62, (n - 1) as nat)[i]);
            }
        }
    }
}

/// Values that fit in `n` digits are determined by their digits.
pub proof fn lemma_digits_unique(a: int, b: int, n: nat)
    requires
        0 <= a < base62_bound(n),
        0 <= b < base62_bound(n),
        base62_digits(a, n) == base62_digits(b, n),
    ensures
        a == b,
    decreases n,
{
    if n == 0 {
        assert(a == 0 && b == 0);
    } else {
        lemma_digits_wf(a, n);
        lemma_digits_wf(b, n);
        assert(base62_digits(a, n).last() == alphabet_byte_spec(a % 62));
        assert(base62_digits(b, n).last() == alphabet_byte_spec(b % 62));
        lemma_alphabet_byte_injective(a % 62, b % 62);
        assert(base62_digits(a, n).drop_last() =~= base62_digits(a / 62, (n - 1) as nat));
        assert(base62_digits(b, n).drop_last() =~= base62_digits(b / 62, (n - 1) as nat));
        assert(a / 62 < base62_bound((n - 1) as nat)) by {
            vstd::arithmetic::div_mod::lemma_multiply_divide_lt(a, 62, base62_bound((n - 1) as nat));
        }
        assert(b / 62 < base62_bound((n - 1) as nat)) by {
            vstd::arithmetic::div_mod::lemma_multiply_divide_lt(b, 62, base62_bound((n - 1) as nat));
        }
        lemma_digits_unique(a / 62, b / 62, (n - 1) as nat);
        vstd::arithmetic::div_mod::lemma_fundamental_div_mod(a, 62);
        vstd::arithmetic::div_mod::lemma_fundamental_div_mod(b, 62);
    }
}

/// Within one prefix epoch — the prefix fixed, the counter strictly below the
/// sequence space — distinct counter values always yield distinct
/// identifiers. This is the deterministic half of collision resistance; across
/// epochs and across independent generators it is the random prefix, not a
/// proof, that keeps collisions unlikely.
pub proof fn lemma_distinct_sequences_give_distinct_ids(prefix: Seq<u8>, a: int, b: int)
    requires
        0 <= a < MAX_SEQ,
        0 <= b < MAX_SEQ,
        a != b,
    ensures
        prefix + encode62(a) != prefix + encode62(b),
{
    lemma_bound_is_max_seq();
    lemma_digits_wf(a, SEQ_LEN as nat);
    lemma_digits_wf(b, SEQ_LEN as nat);
    if prefix + encode62(a) == prefix + encode62(b) {
        assert forall|i: int| 0 <= i < SEQ_LEN implies encode62(a)[i] == encode62(b)[i] by {
            assert((prefix + encode62(a))[prefix.len() + i] == encode62(a)[i]);
            assert((prefix + encode62(b))[prefix.len() + i] == encode62(b)[i]);
        }
        assert(encode62(a) =~= encode62(b));
        lemma_digits_unique(a, b, SEQ_LEN as nat);
    }
}

/// Two successive calls within one epoch yield distinct identifiers: a call
/// that does not roll over advances the counter by its positive step, and
/// distinct counters under one prefix encode to distinct identifiers.
pub proof fn lemma_successive_identifiers_differ(prefix: Seq<u8>, seq: int, inc: int)
    requires
        0 <= seq,
        0 < inc,
        seq + inc < MAX_SEQ,
    ensures
        prefix + encode62(seq) != prefix + encode62(seq + inc),
{
    lemma_distinct_sequences_give_distinct_ids(prefix, seq, seq + inc);
}

} // verus!
