//! 256-bit unsigned words as 32-byte big-endian strings.

use vstd::arithmetic::div_mod::{
    lemma_basic_div, lemma_div_basics, lemma_div_denominator, lemma_fundamental_div_mod,
};
use vstd::prelude::*;

verus! {

/// 256 to the power `k`.
pub open spec fn pow256(k: nat) -> nat
    decreases k,
{
    if k == 0 {
        1
    } else {
        256 * pow256((k - 1) as nat)
    }
}

pub proof fn lemma_pow256_15()
    ensures
        pow256(15) == 0x1000000000000000000000000000000,
{
    assert(pow256(0) == 1);
    assert(pow256(1) == 0x100);
    assert(pow256(2) == 0x10000);
    assert(pow256(3) == 0x1000000);
    assert(pow256(4) == 0x100000000);
    assert(pow256(5) == 0x10000000000);
    assert(pow256(6) == 0x1000000000000);
    assert(pow256(7) == 0x100000000000000);
    assert(pow256(8) == 0x10000000000000000);
    assert(pow256(9) == 0x1000000000000000000);
    assert(pow256(10) == 0x100000000000000000000);
    assert(pow256(11) == 0x10000000000000000000000);
    assert(pow256(12) == 0x1000000000000000000000000);
    assert(pow256(13) == 0x100000000000000000000000000);
    assert(pow256(14) == 0x10000000000000000000000000000);
    assert(pow256(15) == 0x1000000000000000000000000000000);
}

pub proof fn lemma_pow256_pos(k: nat)
    ensures
        pow256(k) >= 1,
    decreases k,
{
    if k > 0 {
        lemma_pow256_pos((k - 1) as nat)
    }
}

/// The 32-byte big-endian word that holds `v`: sixteen zero bytes of
/// padding followed by the base-256 digits of `v`, most significant first.
pub open spec fn be_word_of_u128(v: u128) -> Seq<u8> {
    Seq::new(
        32,
        |i: int|
            if i < 16 {
                0u8
            } else {
                ((v as nat / pow256((31 - i) as nat)) % 256) as u8
            },
    )
}

/// Numeric value of a big-endian byte string.
pub open spec fn word_value(s: Seq<u8>) -> nat
    decreases s.len(),
{
    if s.len() == 0 {
        0
    } else {
        word_value(s.drop_last()) * 256 + (s.last() as nat)
    }
}

/// From the sixteenth power upward, a power of 256 exceeds every
/// 128-bit value.
proof fn lemma_pow256_exceeds_u128(k: nat)
    requires
        k >= 16,
    ensures
        pow256(k) > u128::MAX,
    decreases k,
{
    if k == 16 {
        lemma_pow256_15();
    } else {
        lemma_pow256_exceeds_u128((k - 1) as nat);
        lemma_pow256_pos((k - 1) as nat);
    }
}

/// The first `k` bytes of the word of `v` hold `v` shifted right by
/// the remaining byte positions.
proof fn lemma_word_prefix_value(v: u128, k: int)
    requires
        0 <= k <= 32,
    ensures
        word_value(be_word_of_u128(v).take(k)) == v as nat / pow256((32 - k) as nat),
    decreases k,
{
    let w = be_word_of_u128(v);
    if k == 0 {
        assert(w.take(0) =~= Seq::<u8>::empty());
        lemma_pow256_exceeds_u128(32);
        lemma_basic_div(v as int, pow256(32) as int);
    } else {
        lemma_word_prefix_value(v, k - 1);
        assert(w.take(k).drop_last() =~= w.take(k - 1));
        assert(w.take(k).last() == w[k - 1]);
        let rest = (32 - k) as nat;
        lemma_pow256_pos(rest);
        if k - 1 < 16 {
            // The padding bytes: everything of `v` still sits below them.
            lemma_pow256_exceeds_u128(rest + 1);
            lemma_basic_div(v as int, pow256(rest + 1) as int);
            lemma_pow256_exceeds_u128(rest);
            lemma_basic_div(v as int, pow256(rest) as int);
        } else {
            let x = v as nat / pow256(rest);
            lemma_div_denominator(v as int, pow256(rest) as int, 256);
            assert(pow256(rest) * 256 == pow256(rest + 1)) by {
                lemma_pow256_pos(rest);
            }
            lemma_fundamental_div_mod(x as int, 256);
            assert(w[k - 1] == (x % 256) as u8);
        }
    }
}

/// The word of `v` evaluates back to `v`: it is exactly the 32-byte
/// big-endian encoding, leading zeros included.
pub proof fn lemma_word_value_of_u128(v: u128)
    ensures
        word_value(be_word_of_u128(v)) == v,
{
    lemma_word_prefix_value(v, 32);
    assert(be_word_of_u128(v).take(32) =~= be_word_of_u128(v));
    assert(pow256(0) == 1);
    lemma_div_basics(v as int);
}

/// An unsigned 256-bit integer held as its 32-byte big-endian encoding.
#[derive(Debug)]
pub struct Uint256 {
    bytes: Vec<u8>,
}

impl Clone for Uint256 {
    /// A clone has the same bytes.
    fn clone(&self) -> (r: Self)
        ensures
            r@ == self@,
    {
        proof {
            use_type_invariant(&*self);
        }
        Uint256 { bytes: crate::bytes::copy_bytes(&self.bytes) }
    }
}

impl View for Uint256 {
    type V = Seq<u8>;

    closed spec fn view(&self) -> Seq<u8> {
        self.bytes@
    }
}

impl Uint256 {
    #[verifier::type_invariant]
    spec fn type_inv(self) -> bool {
        self.bytes@.len() == 32
    }

    /// Wraps thirty-two raw bytes as a word.
    pub fn from_bytes(bytes: Vec<u8>) -> (r: Uint256)
        requires
            bytes@.len() == 32,
        ensures
            r@ == bytes@,
    {
        Uint256 { bytes }
    }

    /// The raw bytes of the word: always exactly thirty-two.
    pub fn bytes(&self) -> (r: &Vec<u8>)
        ensures
            r@ == self@,
            self@.len() == 32,
    {
        proof {
            use_type_invariant(&*self);
        }
        &self.bytes
    }

    /// The big-endian word of a 128-bit value, zero-padded on the left.
    pub fn from_u128(v: u128) -> (r: Uint256)
        ensures
            r@ == be_word_of_u128(v),
            word_value(r@) == v,
    {
        let mut bytes: Vec<u8> = Vec::new();
        let mut i: usize = 0;
        while i < 16
            invariant
                i <= 16,
                bytes@.len() == i,
                bytes@ =~= be_word_of_u128(v).take(i as int),
            decreases 16 - i,
        {
            bytes.push(0u8);
            proof {
                assert(bytes@ =~= be_word_of_u128(v).take(i + 1));
            }
            i = i + 1;
        }
        // 256 to the fifteenth power: the divisor for the most
        // significant of the sixteen value bytes.
        let mut d: u128 = 0x1000000000000000000000000000000u128;
        proof {
            lemma_pow256_15();
        }
        let mut j: usize = 0;
        while j < 16
            invariant
                j <= 16,
                bytes@.len() == 16 + j,
                j < 16 ==> d as nat == pow256((15 - j) as nat),
                bytes@ =~= be_word_of_u128(v).take(16 + j),
            decreases 16 - j,
        {
            proof {
                lemma_pow256_pos((15 - j) as nat);
            }
            let b: u8 = ((v / d) % 256) as u8;
            bytes.push(b);
            proof {
                assert(b == be_word_of_u128(v)[16 + j]);
                assert(bytes@ =~= be_word_of_u128(v).take(16 + j + 1));
            }
            if j < 15 {
                proof {
                    assert(pow256((15 - j) as nat) == 256 * pow256((14 - j) as nat));
                    assert((256 * pow256((14 - j) as nat)) / 256 == pow256((14 - j) as nat))
                        by (nonlinear_arith);
                }
                d = d / 256;
            }
            j = j + 1;
        }
        proof {
            assert(bytes@ =~= be_word_of_u128(v));
            lemma_word_value_of_u128(v);
        }
        Uint256 { bytes }
    }
}

} // verus!
