//! 256-bit machine words, 160-bit addresses and 256-bit hashes, and the
//! conversions between them.

use vstd::prelude::*;
use ethereum_types::U256;

verus! {

/// A 256-bit unsigned word as four 64-bit limbs, `l0` the least significant.
#[derive(Clone, Copy, Debug, PartialEq, Eq, Structural)]
pub struct Word {
    pub l0: u64,
    pub l1: u64,
    pub l2: u64,
    pub l3: u64,
}

/// A 160-bit account address: twenty bytes, most significant first.
#[verifier::ext_equal]
#[derive(Clone, Copy, Debug, PartialEq, Eq)]
pub struct Address {
    pub bytes: [u8; 20],
}

/// A 256-bit hash or storage key: thirty-two bytes, most significant first.
#[verifier::ext_equal]
#[derive(Clone, Copy, Debug, PartialEq, Eq)]
pub struct Hash256 {
    pub bytes: [u8; 32],
}

/// The weight of a limb against the one below it, `2^64`.
pub open spec fn limb_base() -> int {
    0x1_0000_0000_0000_0000
}

/// `n` zero bytes.
pub open spec fn zero_bytes(n: nat) -> Seq<u8> {
    Seq::new(n, |i: int| 0u8)
}

impl Word {
    /// The limb of weight `2^(64 * i)`.
    pub open spec fn limb(self, i: int) -> u64 {
        if i == 0 {
            self.l0
        } else if i == 1 {
            self.l1
        } else if i == 2 {
            self.l2
        } else {
            self.l3
        }
    }

    /// Byte `i` of the big-endian encoding, byte 0 the most significant.
    pub open spec fn be_byte(self, i: int) -> u8 {
        ((self.limb(3 - i / 8) >> ((8 * (7 - i % 8)) as u64)) & 0xff) as u8
    }

    /// The 32-byte big-endian encoding of the word.
    pub open spec fn be_bytes(self) -> Seq<u8> {
        Seq::new(32, |i: int| self.be_byte(i))
    }

    /// The number that the word stands for.
    pub open spec fn value(self) -> nat {
        (self.l0 + limb_base() * (self.l1 + limb_base() * (self.l2 + limb_base() * self.l3))) as nat
    }

    /// Whether the three high limbs are zero.
    pub open spec fn fits_u64(self) -> bool {
        self.l1 == 0 && self.l2 == 0 && self.l3 == 0
    }

    /// Whether every limb of the word is zero.
    pub open spec fn spec_is_zero(self) -> bool {
        self.l0 == 0 && self.fits_u64()
    }

    /// The word zero.
    pub fn zero() -> (w: Word)
        ensures
            w.spec_is_zero(),
    {
        Word { l0: 0, l1: 0, l2: 0, l3: 0 }
    }

    /// Widens a 64-bit quantity to a word.
    pub fn from_u64(x: u64) -> (w: Word)
        ensures
            w == (Word { l0: x, l1: 0, l2: 0, l3: 0 }),
            w.value() == x,
    {
        Word { l0: x, l1: 0, l2: 0, l3: 0 }
    }

    /// Whether the word is zero.
    pub fn is_zero(&self) -> (z: bool)
        ensures
            z == self.spec_is_zero(),
    {
        self.l0 == 0 && self.l1 == 0 && self.l2 == 0 && self.l3 == 0
    }

    /// The word as a 64-bit quantity, where it fits in one.
    pub fn to_u64(&self) -> (r: Option<u64>)
        ensures
            r == (if self.fits_u64() { Some(self.l0) } else { None }),
            r matches Some(x) ==> x == self.value(),
            r is Some <==> self.value() <= u64::MAX,
    {
        proof {
            small_words(*self);
        }
        if self.l1 == 0 && self.l2 == 0 && self.l3 == 0 {
            Some(self.l0)
        } else {
            None
        }
    }
}

/// Whether `a` is the address in the low 160 bits of `w`.
pub open spec fn low_address(a: Address, w: Word) -> bool {
    a.bytes@ == w.be_bytes().subrange(12, 32)
}

/// Whether `w` is the address `a` widened to a word.
pub open spec fn widened(w: Word, a: Address) -> bool {
    w.be_bytes() == zero_bytes(12) + a.bytes@
}

/// Whether the hash `h` and the word `w` have the same big-endian bytes.
pub open spec fn same_bytes(h: Hash256, w: Word) -> bool {
    h.bytes@ == w.be_bytes()
}

/// The words below `2^64` are those whose three high limbs are zero, and
/// such a word stands for its low limb; the word of four zero limbs is the
/// only one that stands for zero.
pub proof fn small_words(w: Word)
    ensures
        w.fits_u64() <==> w.value() < limb_base(),
        w.fits_u64() ==> w.value() == w.l0,
        w.spec_is_zero() <==> w.value() == 0,
{
}

/// A limb is determined by its eight bytes.
proof fn limb_determined_by_bytes(a: u64, b: u64)
    by (bit_vector)
    requires
        ((a >> 56) & 0xff) as u8 == ((b >> 56) & 0xff) as u8,
        ((a >> 48) & 0xff) as u8 == ((b >> 48) & 0xff) as u8,
        ((a >> 40) & 0xff) as u8 == ((b >> 40) & 0xff) as u8,
        ((a >> 32) & 0xff) as u8 == ((b >> 32) & 0xff) as u8,
        ((a >> 24) & 0xff) as u8 == ((b >> 24) & 0xff) as u8,
        ((a >> 16) & 0xff) as u8 == ((b >> 16) & 0xff) as u8,
        ((a >> 8) & 0xff) as u8 == ((b >> 8) & 0xff) as u8,
        ((a >> 0) & 0xff) as u8 == ((b >> 0) & 0xff) as u8,
    ensures
        a == b,
{
}

/// Every byte of the limb zero is zero.
proof fn zero_limb_bytes(s: u64)
    by (bit_vector)
    requires
        s < 64,
    ensures
        ((0u64 >> s) & 0xff) as u8 == 0u8,
{
}

/// Where the eight bytes of limb `k` stand in the encoding.
proof fn limb_in_encoding(w: Word, k: int)
    requires
        0 <= k < 4,
    ensures
        w.be_bytes()[8 * (3 - k) + 0] == ((w.limb(k) >> 56) & 0xff) as u8,
        w.be_bytes()[8 * (3 - k) + 1] == ((w.limb(k) >> 48) & 0xff) as u8,
        w.be_bytes()[8 * (3 - k) + 2] == ((w.limb(k) >> 40) & 0xff) as u8,
        w.be_bytes()[8 * (3 - k) + 3] == ((w.limb(k) >> 32) & 0xff) as u8,
        w.be_bytes()[8 * (3 - k) + 4] == ((w.limb(k) >> 24) & 0xff) as u8,
        w.be_bytes()[8 * (3 - k) + 5] == ((w.limb(k) >> 16) & 0xff) as u8,
        w.be_bytes()[8 * (3 - k) + 6] == ((w.limb(k) >> 8) & 0xff) as u8,
        w.be_bytes()[8 * (3 - k) + 7] == ((w.limb(k) >> 0) & 0xff) as u8,
{
    assert(w.be_bytes()[8 * (3 - k) + 0] == w.be_byte(8 * (3 - k) + 0));
    assert(w.be_bytes()[8 * (3 - k) + 1] == w.be_byte(8 * (3 - k) + 1));
    assert(w.be_bytes()[8 * (3 - k) + 2] == w.be_byte(8 * (3 - k) + 2));
    assert(w.be_bytes()[8 * (3 - k) + 3] == w.be_byte(8 * (3 - k) + 3));
    assert(w.be_bytes()[8 * (3 - k) + 4] == w.be_byte(8 * (3 - k) + 4));
    assert(w.be_bytes()[8 * (3 - k) + 5] == w.be_byte(8 * (3 - k) + 5));
    assert(w.be_bytes()[8 * (3 - k) + 6] == w.be_byte(8 * (3 - k) + 6));
    assert(w.be_bytes()[8 * (3 - k) + 7] == w.be_byte(8 * (3 - k) + 7));
}

/// Two words with the same big-endian encoding are the same word: what the
/// conversions state of a word's bytes determines the word.
pub proof fn word_determined_by_bytes(a: Word, b: Word)
    requires
        a.be_bytes() == b.be_bytes(),
    ensures
        a == b,
{
    assert forall|k: int| 0 <= k < 4 implies a.limb(k) == b.limb(k) by {
        limb_in_encoding(a, k);
        limb_in_encoding(b, k);
        limb_determined_by_bytes(a.limb(k), b.limb(k));
    }
    assert(a.limb(0) == b.limb(0) && a.limb(1) == b.limb(1) && a.limb(2) == b.limb(2) && a.limb(3)
        == b.limb(3));
}

/// A word has one low address.
pub proof fn low_address_is_unique(a: Address, b: Address, w: Word)
    requires
        low_address(a, w),
        low_address(b, w),
    ensures
        a == b,
{
    assert(a.bytes =~= b.bytes);
    assert(a =~= b);
}

/// A word has one hash with its bytes.
pub proof fn hash_determined_by_word(g: Hash256, h: Hash256, w: Word)
    requires
        same_bytes(g, w),
        same_bytes(h, w),
    ensures
        g == h,
{
    assert(g.bytes =~= h.bytes);
    assert(g =~= h);
}

/// Widening an address to a word and taking the word's low 160 bits gives
/// the address back.
pub proof fn address_survives_widening(a: Address, w: Word, b: Address)
    requires
        widened(w, a),
        low_address(b, w),
    ensures
        b == a,
{
    assert(b.bytes@ =~= a.bytes@);
    assert(b.bytes =~= a.bytes);
    assert(b =~= a);
}

/// The encoding of the word zero is thirty-two zero bytes.
pub proof fn zero_word_encoding()
    ensures
        (Word { l0: 0, l1: 0, l2: 0, l3: 0 }).be_bytes() == zero_bytes(32),
{
    let zero = Word { l0: 0, l1: 0, l2: 0, l3: 0 };
    assert forall|i: int| 0 <= i < 32 implies zero.be_byte(i) == 0u8 by {
        zero_limb_bytes((8 * (7 - i % 8)) as u64);
    }
    assert(zero.be_bytes() =~= zero_bytes(32));
}

/// Calls `U256::from_big_endian` of `ethereum_types` on `bytes` and hands
/// back the limbs of the result. Trusted: the word's big-endian encoding is
/// `bytes`, padded with zero bytes in front to thirty-two. The outside
/// function panics on more than thirty-two bytes, which `requires` excludes.
#[verifier::external_body]
fn word_from_big_endian(bytes: &[u8]) -> (w: Word)
    requires
        bytes@.len() <= 32,
    ensures
        w.be_bytes() == zero_bytes((32 - bytes@.len()) as nat) + bytes@,
{
    let u = U256::from_big_endian(bytes);
    Word { l0: u.0[0], l1: u.0[1], l2: u.0[2], l3: u.0[3] }
}

/// Calls the conversion of `ethereum_types` from `U256` to `[u8; 32]` on the
/// word with the given limbs. Trusted: the result is the word's big-endian
/// encoding.
#[verifier::external_body]
fn word_to_big_endian(w: Word) -> (bytes: [u8; 32])
    ensures
        bytes@ == w.be_bytes(),
{
    U256([w.l0, w.l1, w.l2, w.l3]).into()
}

/// The address in the low 160 bits of a word: the last twenty bytes of its
/// big-endian encoding.
pub fn u256_to_address(w: Word) -> (a: Address)
    ensures
        low_address(a, w),
{
    let b = word_to_big_endian(w);
    let mut out = [0u8; 20];
    let mut i: usize = 0;
    while i < 20
        invariant
            i <= 20,
            b@ == w.be_bytes(),
            forall|j: int| 0 <= j < i ==> out@[j] == b@[j + 12],
        decreases 20 - i,
    {
        out[i] = b[i + 12];
        i = i + 1;
    }
    assert(out@ =~= w.be_bytes().subrange(12, 32));
    Address { bytes: out }
}

/// An address widened to a word: twelve zero bytes, then the address.
pub fn address_to_u256(a: Address) -> (w: Word)
    ensures
        widened(w, a),
{
    word_from_big_endian(a.bytes.as_slice())
}

/// The storage key or log topic that a word stands for: its big-endian
/// encoding.
pub fn u256_to_hash(w: Word) -> (h: Hash256)
    ensures
        same_bytes(h, w),
{
    Hash256 { bytes: word_to_big_endian(w) }
}

/// The word that a hash encodes, most significant byte first.
pub fn hash_to_u256(h: Hash256) -> (w: Word)
    ensures
        same_bytes(h, w),
{
    let w = word_from_big_endian(h.bytes.as_slice());
    assert(zero_bytes(0) + h.bytes@ =~= h.bytes@);
    w
}

impl Hash256 {
    /// The hash of thirty-two zero bytes.
    pub fn zero() -> (h: Hash256)
        ensures
            h.bytes@ == zero_bytes(32),
    {
        let z = [0u8; 32];
        assert(z@ =~= zero_bytes(32));
        Hash256 { bytes: z }
    }
}

} // verus!
