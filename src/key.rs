use vstd::prelude::*;

verus! {

/// One 64-bit word: `2^64`.
#[verifier::inline]
pub open spec fn word_base() -> nat {
    0x1_0000_0000_0000_0000
}

/// The number of distinct keys: `2^256`.
#[verifier::inline]
pub open spec fn key_space() -> nat {
    word_base() * word_base() * word_base() * word_base()
}

/// The little-endian word made of the eight bytes `b[8 * i .. 8 * i + 8]`.
pub open spec fn word_of(b: Seq<u8>, i: int) -> nat {
    let o = 8 * i;
    (b[o] as nat) + 0x100 * (b[o + 1] as nat) + 0x1_0000 * (b[o + 2] as nat)
        + 0x100_0000 * (b[o + 3] as nat) + 0x1_0000_0000 * (b[o + 4] as nat)
        + 0x100_0000_0000 * (b[o + 5] as nat) + 0x1_0000_0000_0000 * (b[o + 6] as nat)
        + 0x100_0000_0000_0000 * (b[o + 7] as nat)
}

/// The number that 32 bytes stand for, read little-endian.
pub open spec fn bytes_value(b: Seq<u8>) -> nat {
    word_of(b, 0) + word_base() * (word_of(b, 1) + word_base() * (word_of(b, 2) + word_base()
        * word_of(b, 3)))
}

/// A 256-bit address into the flat store.
///
/// A key is a number below `2^256`, held as four little-endian 64-bit words;
/// two keys are equal exactly when their numbers are.
#[derive(Clone, Copy, Debug, PartialEq, Eq, Structural)]
pub struct Key {
    pub w0: u64,
    pub w1: u64,
    pub w2: u64,
    pub w3: u64,
}

impl Key {
    /// The number this key stands for.
    pub open spec fn value(self) -> nat {
        (self.w0 + word_base() * (self.w1 + word_base() * (self.w2 + word_base() * self.w3))) as nat
    }

    /// The key `(self + n) mod 2^256`.
    pub open spec fn spec_add(self, n: nat) -> nat {
        (self.value() + n) % key_space()
    }

    pub proof fn lemma_value_bound(self)
        ensures
            self.value() < key_space(),
    {
        let (a, b, c, d) = (self.w0 as int, self.w1 as int, self.w2 as int, self.w3 as int);
        assert(a + word_base() * (b + word_base() * (c + word_base() * d)) < key_space())
            by (nonlinear_arith)
            requires
                0 <= a < word_base(),
                0 <= b < word_base(),
                0 <= c < word_base(),
                0 <= d < word_base(),
        ;
    }

    /// A key from 32 bytes, read as a little-endian number.
    pub fn from_bytes(bytes: [u8; 32]) -> (r: Key)
        ensures
            r.value() == bytes_value(bytes@),
    {
        let w0 = word_from(&bytes, 0);
        let w1 = word_from(&bytes, 1);
        let w2 = word_from(&bytes, 2);
        let w3 = word_from(&bytes, 3);
        Key { w0, w1, w2, w3 }
    }

    /// The key `n` places after this one, wrapping around at `2^256`.
    pub fn add(self, n: u64) -> (r: Key)
        ensures
            r.value() == self.spec_add(n as nat),
    {
        let (w0, c0) = add_carry(self.w0, n, 0);
        let (w1, c1) = add_carry(self.w1, 0, c0);
        let (w2, c2) = add_carry(self.w2, 0, c1);
        let (w3, c3) = add_carry(self.w3, 0, c2);
        let r = Key { w0, w1, w2, w3 };
        let ghost total: int = self.value() + n;
        let ghost k = key_space() as int;
        assert(r.value() + c3 * k == total) by (nonlinear_arith)
            requires
                w0 + c0 * word_base() == self.w0 + n,
                w1 + c1 * word_base() == self.w1 + c0,
                w2 + c2 * word_base() == self.w2 + c1,
                w3 + c3 * word_base() == self.w3 + c2,
                r.value() == w0 + word_base() * (w1 + word_base() * (w2 + word_base() * w3)),
                self.value() == self.w0 + word_base() * (self.w1 + word_base() * (self.w2
                    + word_base() * self.w3)),
                total == self.value() + n,
                k == word_base() * word_base() * word_base() * word_base(),
        ;
        proof {
            r.lemma_value_bound();
            vstd::arithmetic::div_mod::lemma_fundamental_div_mod_converse(
                total,
                k,
                c3 as int,
                r.value() as int,
            );
        }
        r
    }
}

/// Adds `a`, `b` and a carry bit, giving the low word and the carry out.
fn add_carry(a: u64, b: u64, c: u64) -> (r: (u64, u64))
    requires
        c <= 1,
        b == 0 || c == 0,
    ensures
        r.1 <= 1,
        r.0 as nat + (r.1 as nat) * word_base() == a as nat + b as nat + c as nat,
{
    let s = if c == 1 { b + 1 } else { b };
    if a <= u64::MAX - s {
        (a + s, 0)
    } else {
        (s - (u64::MAX - a) - 1, 1)
    }
}

/// The little-endian word made of the bytes `b[8 * i .. 8 * i + 8]`.
fn word_from(b: &[u8; 32], i: usize) -> (r: u64)
    requires
        i < 4,
    ensures
        r as nat == word_of(b@, i as int),
{
    let o = 8 * i;
    (b[o] as u64) + 0x100 * (b[o + 1] as u64) + 0x1_0000 * (b[o + 2] as u64)
        + 0x100_0000 * (b[o + 3] as u64) + 0x1_0000_0000 * (b[o + 4] as u64)
        + 0x100_0000_0000 * (b[o + 5] as u64) + 0x1_0000_0000_0000 * (b[o + 6] as u64)
        + 0x100_0000_0000_0000 * (b[o + 7] as u64)
}

} // verus!
