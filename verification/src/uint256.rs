use vstd::prelude::*;

verus! {

/// 2^64, the weight of the second limb.
pub open spec fn pow64() -> nat {
    0x1_0000_0000_0000_0000nat
}

/// 2^128, the weight of the third limb.
pub open spec fn pow128() -> nat {
    0x1_0000_0000_0000_0000_0000_0000_0000_0000nat
}

/// 2^192, the weight of the fourth limb.
pub open spec fn pow192() -> nat {
    0x1_0000_0000_0000_0000_0000_0000_0000_0000_0000_0000_0000_0000nat
}

/// 2^256, one more than the largest 256-bit value.
pub open spec fn pow256() -> nat {
    0x1_0000_0000_0000_0000_0000_0000_0000_0000_0000_0000_0000_0000_0000_0000_0000_0000nat
}

/// The largest value a 256-bit unsigned integer holds.
pub open spec fn u256_max() -> nat {
    (pow256() - 1) as nat
}

/// The number that four little-endian 64-bit limbs stand for.
pub open spec fn limbs_value(l0: u64, l1: u64, l2: u64, l3: u64) -> nat {
    (l0 + l1 * pow64() + l2 * pow128() + l3 * pow192()) as nat
}

/// An unsigned 256-bit integer held as four 64-bit limbs, least
/// significant first (the layout of both `ethers`' and `alloy`'s `U256`).
#[derive(Clone, Copy, Debug)]
pub struct U256 {
    pub limbs: [u64; 4],
}

impl View for U256 {
    type V = nat;

    open spec fn view(&self) -> nat {
        limbs_value(self.limbs[0], self.limbs[1], self.limbs[2], self.limbs[3])
    }
}

/// A 256-bit value lies below 2^256.
pub proof fn lemma_u256_bounded(x: U256)
    ensures
        x@ <= u256_max(),
{
}

/// Adds two limbs and an incoming carry; gives the low limb and the carry out.
fn add_limb(a: u64, b: u64, carry: u64) -> (res: (u64, u64))
    requires
        carry <= 1,
    ensures
        res.1 <= 1,
        res.0 + res.1 * pow64() == a + b + carry,
{
    let t: u128 = a as u128 + b as u128 + carry as u128;
    if t >= 0x1_0000_0000_0000_0000u128 {
        ((t - 0x1_0000_0000_0000_0000u128) as u64, 1)
    } else {
        (t as u64, 0)
    }
}

/// Subtracts a limb and an incoming borrow; gives the low limb and the borrow out.
fn sub_limb(a: u64, b: u64, borrow: u64) -> (res: (u64, u64))
    requires
        borrow <= 1,
    ensures
        res.1 <= 1,
        res.0 == a + res.1 * pow64() - b - borrow,
{
    let t: u128 = (a as u128 + 0x1_0000_0000_0000_0000u128) - b as u128 - borrow as u128;
    if t >= 0x1_0000_0000_0000_0000u128 {
        ((t - 0x1_0000_0000_0000_0000u128) as u64, 0)
    } else {
        (t as u64, 1)
    }
}

proof fn lemma_tenth_limbs(
    a0: u64,
    a1: u64,
    a2: u64,
    a3: u64,
    q0: u64,
    q1: u64,
    q2: u64,
    q3: u64,
    r0: u64,
    r1: u64,
    r2: u64,
    r3: u64,
)
    requires
        q3 * 10 + r3 == a3,
        q2 * 10 + r2 == r3 * pow64() + a2,
        q1 * 10 + r1 == r2 * pow64() + a1,
        q0 * 10 + r0 == r1 * pow64() + a0,
        r0 < 10,
    ensures
        limbs_value(q0, q1, q2, q3) == limbs_value(a0, a1, a2, a3) / 10,
{
    assert(limbs_value(q0, q1, q2, q3) * 10 + r0 == limbs_value(a0, a1, a2, a3));
}

impl U256 {
    /// The value zero.
    pub fn zero() -> (res: U256)
        ensures
            res@ == 0,
    {
        U256 { limbs: [0, 0, 0, 0] }
    }

    /// The largest 256-bit value, 2^256 - 1.
    pub fn max_value() -> (res: U256)
        ensures
            res@ == u256_max(),
    {
        U256 { limbs: [u64::MAX, u64::MAX, u64::MAX, u64::MAX] }
    }

    /// The value of a 64-bit integer.
    pub fn from_u64(v: u64) -> (res: U256)
        ensures
            res@ == v,
    {
        U256 { limbs: [v, 0, 0, 0] }
    }

    /// The value of a 128-bit integer.
    pub fn from_u128(v: u128) -> (res: U256)
        ensures
            res@ == v,
    {
        let lo = (v % 0x1_0000_0000_0000_0000u128) as u64;
        let hi = (v / 0x1_0000_0000_0000_0000u128) as u64;
        U256 { limbs: [lo, hi, 0, 0] }
    }

    /// Builds the value from four limbs, least significant first.
    pub fn from_limbs(limbs: [u64; 4]) -> (res: U256)
        ensures
            res.limbs == limbs,
            res@ == limbs_value(limbs[0], limbs[1], limbs[2], limbs[3]),
    {
        U256 { limbs }
    }

    /// The value as a `usize` (`ethers`' `U256::as_usize`, which panics
    /// where the value does not fit).
    pub fn as_usize(&self) -> (res: usize)
        requires
            self@ <= usize::MAX,
        ensures
            res == self@,
    {
        self.limbs[0] as usize
    }

    /// Whether the value is zero.
    pub fn is_zero(&self) -> (res: bool)
        ensures
            res == (self@ == 0),
    {
        self.limbs[0] == 0 && self.limbs[1] == 0 && self.limbs[2] == 0 && self.limbs[3] == 0
    }

    /// Whether `self` is below `other`.
    pub fn lt(&self, other: &U256) -> (res: bool)
        ensures
            res == (self@ < other@),
    {
        let a = self.limbs;
        let b = other.limbs;
        if a[3] != b[3] {
            a[3] < b[3]
        } else if a[2] != b[2] {
            a[2] < b[2]
        } else if a[1] != b[1] {
            a[1] < b[1]
        } else {
            a[0] < b[0]
        }
    }

    /// Whether `self` is at most `other`.
    pub fn le(&self, other: &U256) -> (res: bool)
        ensures
            res == (self@ <= other@),
    {
        !other.lt(self)
    }

    /// Whether both stand for the same number.
    pub fn equals(&self, other: &U256) -> (res: bool)
        ensures
            res == (self@ == other@),
    {
        self.le(other) && other.le(self)
    }

    /// The sum, or `None` where it does not fit in 256 bits.
    pub fn checked_add(&self, other: &U256) -> (res: Option<U256>)
        ensures
            res is Some <==> self@ + other@ <= u256_max(),
            res matches Some(s) ==> s@ == self@ + other@,
    {
        let a = self.limbs;
        let b = other.limbs;
        let (s0, c0) = add_limb(a[0], b[0], 0);
        let (s1, c1) = add_limb(a[1], b[1], c0);
        let (s2, c2) = add_limb(a[2], b[2], c1);
        let (s3, c3) = add_limb(a[3], b[3], c2);
        let sum = U256 { limbs: [s0, s1, s2, s3] };
        assert(sum@ + c3 * pow256() == self@ + other@);
        if c3 == 0 {
            Some(sum)
        } else {
            None
        }
    }

    /// The difference `self - other`.
    pub fn sub(&self, other: &U256) -> (res: U256)
        requires
            other@ <= self@,
        ensures
            res@ == self@ - other@,
    {
        let a = self.limbs;
        let b = other.limbs;
        let (d0, w0) = sub_limb(a[0], b[0], 0);
        let (d1, w1) = sub_limb(a[1], b[1], w0);
        let (d2, w2) = sub_limb(a[2], b[2], w1);
        let (d3, w3) = sub_limb(a[3], b[3], w2);
        let diff = U256 { limbs: [d0, d1, d2, d3] };
        assert(diff@ == self@ + w3 * pow256() - other@);
        diff
    }

    /// The quotient of the value by ten, rounded down.
    pub fn tenth(&self) -> (res: U256)
        ensures
            res@ == self@ / 10,
    {
        let a = self.limbs;
        let q3 = a[3] / 10;
        let r3 = a[3] % 10;
        let c2: u128 = r3 as u128 * 0x1_0000_0000_0000_0000u128 + a[2] as u128;
        let q2 = (c2 / 10) as u64;
        let r2 = (c2 % 10) as u64;
        let c1: u128 = r2 as u128 * 0x1_0000_0000_0000_0000u128 + a[1] as u128;
        let q1 = (c1 / 10) as u64;
        let r1 = (c1 % 10) as u64;
        let c0: u128 = r1 as u128 * 0x1_0000_0000_0000_0000u128 + a[0] as u128;
        let q0 = (c0 / 10) as u64;
        let r0 = (c0 % 10) as u64;
        let q = U256 { limbs: [q0, q1, q2, q3] };
        proof {
            lemma_tenth_limbs(a[0], a[1], a[2], a[3], q0, q1, q2, q3, r0, r1, r2, r3);
        }
        q
    }

    /// `2^256 - 1 - self`, the value with every bit flipped.
    pub fn complement(&self) -> (res: U256)
        ensures
            res@ == u256_max() - self@,
    {
        let a = self.limbs;
        U256 { limbs: [u64::MAX - a[0], u64::MAX - a[1], u64::MAX - a[2], u64::MAX - a[3]] }
    }
}

/// The big-endian 64-bit word that bytes `o .. o + 8` of `b` spell.
pub open spec fn be_word(b: Seq<u8>, o: int) -> u64 {
    ((b[o] as u64) << 56u64) | ((b[o + 1] as u64) << 48u64) | ((b[o + 2] as u64) << 40u64) | ((
    b[o + 3] as u64) << 32u64) | ((b[o + 4] as u64) << 24u64) | ((b[o + 5] as u64) << 16u64) | ((
    b[o + 6] as u64) << 8u64) | (b[o + 7] as u64)
}

/// The 256-bit value that 32 bytes spell, most significant byte first.
pub open spec fn from_be_bytes_spec(b: Seq<u8>) -> U256 {
    U256 { limbs: [be_word(b, 24), be_word(b, 16), be_word(b, 8), be_word(b, 0)] }
}

/// Byte `i` of the value, counting from the least significant.
pub open spec fn le_byte(limbs: [u64; 4], i: int) -> u8 {
    ((limbs[i / 8] >> (((i % 8) * 8) as u64)) & 0xffu64) as u8
}

/// The 32 bytes of the value, least significant first.
pub open spec fn le_bytes_spec(x: U256) -> Seq<u8> {
    Seq::new(32, |i: int| le_byte(x.limbs, i))
}

/// Eight bytes read most significant first, as a number.
proof fn lemma_be_word_value(b0: u8, b1: u8, b2: u8, b3: u8, b4: u8, b5: u8, b6: u8, b7: u8)
    ensures
        ((b0 as u64) << 56u64) | ((b1 as u64) << 48u64) | ((b2 as u64) << 40u64) | ((b3 as u64)
            << 32u64) | ((b4 as u64) << 24u64) | ((b5 as u64) << 16u64) | ((b6 as u64) << 8u64) | (
        b7 as u64) == b0 * 0x100_0000_0000_0000nat + b1 * 0x1_0000_0000_0000nat + b2
            * 0x100_0000_0000nat + b3 * 0x1_0000_0000nat + b4 * 0x100_0000nat + b5 * 0x1_0000nat + b6
            * 0x100nat + b7,
{
    assert(((b0 as u64) << 56u64) | ((b1 as u64) << 48u64) | ((b2 as u64) << 40u64) | ((b3 as u64)
        << 32u64) | ((b4 as u64) << 24u64) | ((b5 as u64) << 16u64) | ((b6 as u64) << 8u64) | (
    b7 as u64) == b0 * 0x100_0000_0000_0000u64 + b1 * 0x1_0000_0000_0000u64 + b2
        * 0x100_0000_0000u64 + b3 * 0x1_0000_0000u64 + b4 * 0x100_0000u64 + b5 * 0x1_0000u64 + b6
        * 0x100u64 + b7) by (bit_vector);
}

/// The number that eight bytes of `b` from `o` on spell, most significant
/// first.
pub open spec fn be_digits(b: Seq<u8>, o: int) -> nat {
    (b[o] * 0x100_0000_0000_0000nat + b[o + 1] * 0x1_0000_0000_0000nat + b[o + 2]
        * 0x100_0000_0000nat + b[o + 3] * 0x1_0000_0000nat + b[o + 4] * 0x100_0000nat + b[o + 5]
        * 0x1_0000nat + b[o + 6] * 0x100nat + b[o + 7]) as nat
}

/// 32 bytes read big-endian give the number whose base-256 digits they
/// are, most significant first: each group of eight bytes is one 64-bit
/// digit, the first group the most significant.
pub proof fn from_be_bytes_is_big_endian(b: Seq<u8>)
    requires
        b.len() == 32,
    ensures
        from_be_bytes_spec(b)@ == be_digits(b, 0) * pow192() + be_digits(b, 8) * pow128()
            + be_digits(b, 16) * pow64() + be_digits(b, 24),
{
    lemma_be_word_value(b[0], b[1], b[2], b[3], b[4], b[5], b[6], b[7]);
    lemma_be_word_value(b[8], b[9], b[10], b[11], b[12], b[13], b[14], b[15]);
    lemma_be_word_value(b[16], b[17], b[18], b[19], b[20], b[21], b[22], b[23]);
    lemma_be_word_value(b[24], b[25], b[26], b[27], b[28], b[29], b[30], b[31]);
    assert(be_word(b, 0) == be_digits(b, 0));
    assert(be_word(b, 8) == be_digits(b, 8));
    assert(be_word(b, 16) == be_digits(b, 16));
    assert(be_word(b, 24) == be_digits(b, 24));
}

/// `alloy_primitives::U256::to_le_bytes::<32>`: the 32 bytes of the
/// value, least significant byte first, as the limbs are laid out.
#[verifier::external_body]
fn alloy_to_le_bytes(x: &U256) -> (bytes: [u8; 32])
    ensures
        bytes@ == le_bytes_spec(*x),
{
    alloy_primitives::U256::from_limbs(x.limbs).to_le_bytes::<32>()
}

/// Reads eight bytes of `b` from `o` on as a big-endian word.
fn read_be_word(b: &[u8; 32], o: usize) -> (w: u64)
    requires
        o + 8 <= 32,
    ensures
        w == be_word(b@, o as int),
{
    ((b[o] as u64) << 56u64) | ((b[o + 1] as u64) << 48u64) | ((b[o + 2] as u64) << 40u64) | ((
    b[o + 3] as u64) << 32u64) | ((b[o + 4] as u64) << 24u64) | ((b[o + 5] as u64) << 16u64) | ((
    b[o + 6] as u64) << 8u64) | (b[o + 7] as u64)
}

impl U256 {
    /// The value that 32 bytes spell, most significant byte first.
    pub fn from_be_bytes(b: &[u8; 32]) -> (res: U256)
        ensures
            res == from_be_bytes_spec(b@),
    {
        U256 {
            limbs: [read_be_word(b, 24), read_be_word(b, 16), read_be_word(b, 8), read_be_word(b, 0)],
        }
    }

    /// The 32 bytes of the value, least significant first.
    pub fn to_le_bytes(&self) -> (res: [u8; 32])
        ensures
            res@ == le_bytes_spec(*self),
    {
        alloy_to_le_bytes(self)
    }
}

/// The little-endian 64-bit word that bytes `o .. o + 8` of `b` spell.
pub open spec fn le_word(b: Seq<u8>, o: int) -> u64 {
    (b[o] as u64) | ((b[o + 1] as u64) << 8u64) | ((b[o + 2] as u64) << 16u64) | ((b[o + 3] as u64)
        << 24u64) | ((b[o + 4] as u64) << 32u64) | ((b[o + 5] as u64) << 40u64) | ((b[o + 6] as u64)
        << 48u64) | ((b[o + 7] as u64) << 56u64)
}

/// The 256-bit value that 32 bytes spell, least significant byte first.
pub open spec fn from_le_bytes_spec(b: Seq<u8>) -> U256 {
    U256 { limbs: [le_word(b, 0), le_word(b, 8), le_word(b, 16), le_word(b, 24)] }
}

/// Reads eight bytes of `b` from `o` on as a little-endian word.
fn read_le_word(b: &[u8; 32], o: usize) -> (w: u64)
    requires
        o + 8 <= 32,
    ensures
        w == le_word(b@, o as int),
{
    (b[o] as u64) | ((b[o + 1] as u64) << 8u64) | ((b[o + 2] as u64) << 16u64) | ((b[o + 3] as u64)
        << 24u64) | ((b[o + 4] as u64) << 32u64) | ((b[o + 5] as u64) << 40u64) | ((b[o + 6] as u64)
        << 48u64) | ((b[o + 7] as u64) << 56u64)
}

impl U256 {
    /// The value that 32 bytes spell, least significant byte first
    /// (`ethers`' `U256::from_little_endian`).
    pub fn from_le_bytes(b: &[u8; 32]) -> (res: U256)
        ensures
            res == from_le_bytes_spec(b@),
    {
        U256 {
            limbs: [read_le_word(b, 0), read_le_word(b, 8), read_le_word(b, 16), read_le_word(b, 24)],
        }
    }
}

/// The little-endian word spelled by the little-endian bytes of `v`, with
/// the byte casts written out.
spec fn le_word_of_le_bytes(v: u64) -> u64 {
    ((((v >> 0u64) & 0xffu64) as u8) as u64) | (((((v >> 8u64) & 0xffu64) as u8) as u64) << 8u64)
        | (((((v >> 16u64) & 0xffu64) as u8) as u64) << 16u64) | (((((v >> 24u64) & 0xffu64) as u8)
        as u64) << 24u64) | (((((v >> 32u64) & 0xffu64) as u8) as u64) << 32u64) | (((((v >> 40u64)
        & 0xffu64) as u8) as u64) << 40u64) | (((((v >> 48u64) & 0xffu64) as u8) as u64) << 48u64) | ((
    (((v >> 56u64) & 0xffu64) as u8) as u64) << 56u64)
}

proof fn lemma_le_word_of_le_bytes(v: u64)
    ensures
        le_word_of_le_bytes(v) == v,
{
    assert(le_word_of_le_bytes(v) == v) by (bit_vector);
}

/// Reading the little-endian bytes of a value back gives the value.
pub proof fn lemma_le_bytes_round_trip(x: U256)
    ensures
        from_le_bytes_spec(le_bytes_spec(x)).limbs == x.limbs,
{
    let b = le_bytes_spec(x);
    lemma_le_word_of_le_bytes(x.limbs[0]);
    lemma_le_word_of_le_bytes(x.limbs[1]);
    lemma_le_word_of_le_bytes(x.limbs[2]);
    lemma_le_word_of_le_bytes(x.limbs[3]);
    assert(le_word(b, 0) == le_word_of_le_bytes(x.limbs[0]));
    assert(le_word(b, 8) == le_word_of_le_bytes(x.limbs[1]));
    assert(le_word(b, 16) == le_word_of_le_bytes(x.limbs[2]));
    assert(le_word(b, 24) == le_word_of_le_bytes(x.limbs[3]));
    assert(from_le_bytes_spec(b).limbs =~= x.limbs);
}

/// Turns a value held as `alloy` limbs into the `ethers` value: its
/// little-endian bytes read back little-endian, the same number.
pub fn convert_to_ethers_u256(alloy_u256: U256) -> (res: U256)
    ensures
        res.limbs == alloy_u256.limbs,
        res@ == alloy_u256@,
{
    let inner_value: [u8; 32] = alloy_u256.to_le_bytes();
    proof {
        lemma_le_bytes_round_trip(alloy_u256);
    }
    U256::from_le_bytes(&inner_value)
}

} // verus!
