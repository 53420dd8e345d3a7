//! Decentralized unique identifier strings: a random base-62 prefix joined
//! with a fast, pseudo-randomly stepped counter, 22 characters in all.
//!
//! A [`NUID`] holds a 12-symbol random prefix, a 64-bit sequence counter
//! ranging over the ten-digit base-62 space, and a pseudo-random step. Every
//! call to [`NUID::next`] advances the counter and emits the prefix followed
//! by the fixed-width base-62 encoding of the counter; when the counter
//! leaves its space, the generator reseeds the prefix from a strong source
//! and draws a fresh counter and step from a cheap one.

use vstd::prelude::*;

pub mod alphabet;
pub mod encoding;
mod rng;

use crate::alphabet::{alphabet_byte, alphabet_byte_spec, is_alphabet_byte};
use crate::encoding::{base62_digits, encode62};

verus! {

/// Number of symbols in the random prefix of an identifier.
pub const PRE_LEN: usize = 12;

/// Number of bytes/characters of a complete identifier.
pub const TOTAL_LEN: usize = 22;

/// Exclusive upper bound of the sequence counter: 62 to the power of the
/// ten counter digits of an identifier.
pub const MAX_SEQ: u64 = 839_299_365_868_340_224;

/// Inclusive lower bound of the pseudo-random counter step.
pub const MIN_INC: u64 = 33;

/// Exclusive upper bound of the pseudo-random counter step.
pub const MAX_INC: u64 = 333;

/// A generator of unique identifier strings.
///
/// The fields are exposed so that a caller may inspect the state or force a
/// rollover; [`NUID::next`] asks for [`NUID::wf`], which [`NUID::new`]
/// establishes and every method preserves.
pub struct NUID {
    /// The current prefix: either the all-zero sentinel of a generator that
    /// has not emitted yet, or 12 alphabet symbols.
    pub pre: [u8; PRE_LEN],
    /// The sequence counter, at most `MAX_SEQ`.
    pub seq: u64,
    /// The step added to the counter on every call, below `MAX_INC`.
    pub inc: u64,
}

impl NUID {
    /// The state every generator keeps: the counter has not left the
    /// sequence space for good, the step cannot overflow it past `u64`, and
    /// each prefix byte is the sentinel zero or an alphabet symbol.
    pub open spec fn wf(self) -> bool {
        &&& self.seq <= MAX_SEQ
        &&& self.inc < MAX_INC
        &&& forall|i: int|
            0 <= i < PRE_LEN ==> (self.pre@[i] == 0 || is_alphabet_byte(self.pre@[i]))
    }

    /// Whether the prefix has been drawn: every byte an alphabet symbol.
    pub open spec fn seeded(self) -> bool {
        forall|i: int| 0 <= i < PRE_LEN ==> is_alphabet_byte(self.pre@[i])
    }

    /// Whether the next call will trigger a rollover: the stepped counter
    /// leaves the sequence space.
    pub open spec fn will_roll(self) -> bool {
        self.seq + self.inc >= MAX_SEQ
    }

    /// A fresh generator: a sentinel state whose counter sits at `MAX_SEQ`
    /// with a zero step, so that the first call to `next` must reseed
    /// everything before emitting. No randomness is consumed here.
    pub fn new() -> (g: NUID)
        ensures
            g.wf(),
            g.seq == MAX_SEQ,
            g.inc == 0,
            g.pre@ =~= Seq::new(PRE_LEN as nat, |i: int| 0u8),
            !g.seeded(),
            g.will_roll(),
    {
        let g = NUID { pre: [0; PRE_LEN], seq: MAX_SEQ, inc: 0 };
        proof {
            assert(g.pre@ =~= Seq::new(PRE_LEN as nat, |i: int| 0u8));
            assert(!is_alphabet_byte(g.pre@[0]));
        }
        g
    }

    /// Overwrite the prefix with 12 freshly drawn alphabet symbols, sourced
    /// from the cryptographically strong generator; the counter and step are
    /// untouched.
    pub fn randomize_prefix(&mut self)
        ensures
            final(self).seeded(),
            final(self).seq == old(self).seq,
            final(self).inc == old(self).inc,
    {
        let bytes = rng::crypto_random_bytes();
        let mut i: usize = 0;
        while i < PRE_LEN
            invariant
                i <= PRE_LEN,
                bytes@.len() == PRE_LEN,
                self.seq == old(self).seq,
                self.inc == old(self).inc,
                forall|j: int| 0 <= j < i ==> is_alphabet_byte(self.pre@[j]),
            decreases PRE_LEN - i,
        {
            let d = (bytes[i] % 62) as usize;
            self.pre[i] = alphabet_byte(d);
            i += 1;
        }
    }

    /// Draw a fresh counter uniformly from the sequence space and a fresh
    /// step from `[MIN_INC, MAX_INC)`, both from the cheap pseudo-random
    /// source; the prefix is untouched.
    fn reset_sequential(&mut self)
        ensures
            final(self).seq < MAX_SEQ,
            MIN_INC <= final(self).inc < MAX_INC,
            final(self).pre == old(self).pre,
    {
        self.seq = rng::fast_random_range(0, MAX_SEQ);
        self.inc = rng::fast_random_range(MIN_INC, MAX_INC);
    }

    /// Step the counter and emit the identifier for the new state: the
    /// prefix, then the ten-digit base-62 encoding of the counter. A stepped
    /// counter that leaves the sequence space first triggers a rollover,
    /// which reseeds the prefix and redraws the counter and step.
    pub fn next(&mut self) -> (id: NUIDStr)
        requires
            old(self).wf(),
        ensures
            final(self).wf(),
            final(self).seq < MAX_SEQ,
            id@.len() == TOTAL_LEN,
            id@ =~= final(self).pre@ + encode62(final(self).seq as int),
            forall|i: int| PRE_LEN <= i < TOTAL_LEN ==> is_alphabet_byte(id@[i]),
            final(self).seeded() ==> forall|i: int|
                0 <= i < TOTAL_LEN ==> is_alphabet_byte(id@[i]),
            final(self).seeded() <==> (old(self).will_roll() || old(self).seeded()),
            !old(self).will_roll() ==> (final(self).pre == old(self).pre
                && final(self).seq == old(self).seq + old(self).inc
                && final(self).inc == old(self).inc),
            old(self).will_roll() ==> MIN_INC <= final(self).inc < MAX_INC,
    {
        self.seq = self.seq + self.inc;
        if self.seq >= MAX_SEQ {
            self.randomize_prefix();
            self.reset_sequential();
        }

        let mut buffer: [u8; TOTAL_LEN] = [0; TOTAL_LEN];
        let mut i: usize = 0;
        while i < PRE_LEN
            invariant
                i <= PRE_LEN,
                forall|j: int| 0 <= j < i ==> buffer@[j] == self.pre@[j],
            decreases PRE_LEN - i,
        {
            buffer[i] = self.pre[i];
            i += 1;
        }

        let ghost s = self.seq as int;
        let mut l: u64 = self.seq;
        let mut k: usize = TOTAL_LEN;
        while k > PRE_LEN
            invariant
                PRE_LEN <= k <= TOTAL_LEN,
                base62_digits(s, (TOTAL_LEN - PRE_LEN) as nat) =~= base62_digits(
                    l as int,
                    (k - PRE_LEN) as nat,
                ) + buffer@.subrange(k as int, TOTAL_LEN as int),
                forall|j: int| 0 <= j < PRE_LEN ==> buffer@[j] == self.pre@[j],
                forall|j: int| k <= j < TOTAL_LEN ==> is_alphabet_byte(buffer@[j]),
            decreases k,
        {
            k -= 1;
            let ghost l0 = l as int;
            let ghost buf0 = buffer@;
            let d = (l % 62) as usize;
            buffer[k] = alphabet_byte(d);
            l = l / 62;
            proof {
                assert(base62_digits(l0, ((k + 1) - PRE_LEN) as nat) =~= base62_digits(
                    l as int,
                    (k - PRE_LEN) as nat,
                ).push(alphabet_byte_spec(l0 % 62)));
                assert(buffer@.subrange(k as int, TOTAL_LEN as int) =~= seq![
                    alphabet_byte_spec(l0 % 62),
                ] + buf0.subrange(k as int + 1, TOTAL_LEN as int));
                assert(base62_digits(s, (TOTAL_LEN - PRE_LEN) as nat) =~= base62_digits(
                    l as int,
                    (k - PRE_LEN) as nat,
                ) + buffer@.subrange(k as int, TOTAL_LEN as int));
            }
        }

        proof {
            assert(buffer@.subrange(0, PRE_LEN as int) =~= self.pre@);
            assert(buffer@.subrange(PRE_LEN as int, TOTAL_LEN as int) =~= encode62(s));
            assert(buffer@ =~= self.pre@ + encode62(s));
        }
        NUIDStr(buffer)
    }
}

/// The all-zero sentinel prefix of a fresh generator never survives a
/// rollover: a reseeded prefix consists of alphabet symbols, none of which is
/// the zero byte, so the very first call to `next` — and every rollover — is
/// guaranteed to leave a prefix different from the sentinel.
pub proof fn lemma_seeded_prefix_differs_from_sentinel(p: Seq<u8>)
    requires
        p.len() == PRE_LEN,
        forall|i: int| 0 <= i < p.len() ==> is_alphabet_byte(p[i]),
    ensures
        p != Seq::new(PRE_LEN as nat, |i: int| 0u8),
{
    assert(is_alphabet_byte(p[0]));
    assert(p[0] != 0);
    assert(Seq::new(PRE_LEN as nat, |i: int| 0u8)[0] == 0u8);
}

impl Default for NUID {
    /// Same as [`NUID::new`]: a sentinel state that reseeds on first use.
    fn default() -> (g: Self)
        ensures
            g.wf(),
            g.seq == MAX_SEQ,
            g.inc == 0,
            g.pre@ =~= Seq::new(PRE_LEN as nat, |i: int| 0u8),
            !g.seeded(),
    {
        NUID::new()
    }
}

/// An identifier string: 22 bytes, each guaranteed printable by
/// construction — the only way to populate the buffer is the encoding path,
/// whose output is drawn from the base-62 alphabet (or, for the prefix of a
/// generator that has never rolled over, the zero sentinel, which is still
/// valid text).
pub struct NUIDStr([u8; TOTAL_LEN]);

impl NUIDStr {
    /// Structural guarantee of the encoding path, enforced at construction:
    /// every byte is the sentinel zero or an alphabet symbol, hence ASCII.
    #[verifier::type_invariant]
    closed spec fn valid_text(self) -> bool {
        forall|i: int| 0 <= i < self.0@.len() ==> (self.0@[i] == 0 || is_alphabet_byte(self.0@[i]))
    }

    /// Extract the inner buffer.
    pub fn into_bytes(self) -> (r: [u8; TOTAL_LEN])
        ensures
            r@ == self@,
    {
        self.0
    }

    /// A read-only text view of the buffer.
    ///
    /// Relies on `std::str::from_utf8`: on ASCII bytes — which the type's
    /// construction guarantees — it returns `Ok` with an ASCII string of
    /// exactly those bytes, each character the corresponding byte.
    #[verifier::external_body]
    pub fn as_str(&self) -> (r: &str)
        ensures
            r@.len() == self@.len(),
            forall|i: int| 0 <= i < self@.len() ==> r@[i] == self@[i] as char,
            forall|i: int| 0 <= i < self@.len() ==> r@[i] as u8 == self@[i],
            vstd::string::is_ascii(r),
    {
        match std::str::from_utf8(&self.0) {
            Ok(s) => s,
            Err(_) => "",
        }
    }

    /// An independent owned copy of the text, for display or logging; it
    /// renders the same characters as the borrowed view.
    pub fn to_text(&self) -> (r: String)
        ensures
            r@.len() == self@.len(),
            forall|i: int| 0 <= i < self@.len() ==> r@[i] == self@[i] as char,
            forall|i: int| 0 <= i < self@.len() ==> r@[i] as u8 == self@[i],
    {
        self.as_str().to_owned()
    }
}

impl View for NUIDStr {
    type V = Seq<u8>;

    closed spec fn view(&self) -> Seq<u8> {
        self.0@
    }
}

} // verus!
