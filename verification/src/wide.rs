use vstd::prelude::*;

use crate::uint256::{lemma_u256_bounded, pow64, U256};

verus! {

/// The number that eight little-endian 64-bit limbs stand for.
pub open spec fn wide_value(l: [u64; 8]) -> nat {
    (l[0] + l[1] * 0x1_0000_0000_0000_0000nat + l[2] * 0x1_0000_0000_0000_0000_0000_0000_0000_0000nat + l[3] * 0x1_0000_0000_0000_0000_0000_0000_0000_0000_0000_0000_0000_0000nat + l[4] * 0x1_0000_0000_0000_0000_0000_0000_0000_0000_0000_0000_0000_0000_0000_0000_0000_0000nat + l[5] * 0x1_0000_0000_0000_0000_0000_0000_0000_0000_0000_0000_0000_0000_0000_0000_0000_0000_0000_0000_0000_0000nat + l[6] * 0x1_0000_0000_0000_0000_0000_0000_0000_0000_0000_0000_0000_0000_0000_0000_0000_0000_0000_0000_0000_0000_0000_0000_0000_0000nat + l[7] * 0x1_0000_0000_0000_0000_0000_0000_0000_0000_0000_0000_0000_0000_0000_0000_0000_0000_0000_0000_0000_0000_0000_0000_0000_0000_0000_0000_0000_0000nat) as nat
}

/// 2^511: fractions of the price arithmetic hold signed 512-bit numbers,
/// which stay below it.
pub open spec fn pow511() -> nat {
    pow512() / 2
}

/// 2^512.
pub open spec fn pow512() -> nat {
    0x1_0000_0000_0000_0000_0000_0000_0000_0000_0000_0000_0000_0000_0000_0000_0000_0000_0000_0000_0000_0000_0000_0000_0000_0000_0000_0000_0000_0000_0000_0000_0000_0000nat
}

/// 10^k.
pub open spec fn pow10(k: nat) -> nat
    decreases k,
{
    if k == 0 {
        1
    } else {
        10 * pow10((k - 1) as nat)
    }
}

/// Powers of ten grow with the exponent.
pub proof fn lemma_pow10_grows(i: nat, j: nat)
    requires
        i <= j,
    ensures
        1 <= pow10(i) <= pow10(j),
    decreases j,
{
    if j > 0 {
        if i < j {
            lemma_pow10_grows(i, (j - 1) as nat);
        } else {
            lemma_pow10_grows(0, (j - 1) as nat);
        }
    }
}

/// A product of factors below two bounds lies below the product of the
/// bounds.
proof fn lemma_mul_below(x: nat, bx: nat, y: nat, by: nat)
    requires
        x < bx,
        y < by,
    ensures
        x * y < bx * by,
{
    assert(x * y < bx * by) by (nonlinear_arith)
        requires
            x < bx,
            y < by,
    ;
}

/// One step of long multiplication: a partial product shifted by a limb,
/// plus the next limb's product.
proof fn lemma_horner_step(a: nat, acc_factor: nat, limb: nat)
    ensures
        a * acc_factor * pow64() + a * limb == a * (acc_factor * pow64() + limb),
{
    assert(a * acc_factor * 0x1_0000_0000_0000_0000nat + a * limb == a * (acc_factor * 0x1_0000_0000_0000_0000nat + limb)) by (nonlinear_arith);
}

/// An unsigned 512-bit integer held as eight 64-bit limbs, least
/// significant first.
#[derive(Clone, Copy, Debug)]
pub struct Wide {
    pub limbs: [u64; 8],
}

impl View for Wide {
    type V = nat;

    open spec fn view(&self) -> nat {
        wide_value(self.limbs)
    }
}

/// A 512-bit value lies below 2^512.
pub proof fn lemma_wide_bounded(x: Wide)
    ensures
        x@ < pow512(),
{
}

/// Multiplies a limb by a small factor and adds a carry; gives the low
/// limb and the carry out.
fn mul_limb(a: u64, m: u64, carry: u64) -> (res: (u64, u64))
    ensures
        res.0 + res.1 * 0x1_0000_0000_0000_0000nat == a * m + carry,
{
    proof {
        assert(a * m <= 0xffff_ffff_ffff_ffff * 0xffff_ffff_ffff_ffff) by (nonlinear_arith)
            requires
                a <= 0xffff_ffff_ffff_ffff,
                m <= 0xffff_ffff_ffff_ffff,
        ;
    }
    let t: u128 = a as u128 * m as u128 + carry as u128;
    ((t % 0x1_0000_0000_0000_0000u128) as u64, (t / 0x1_0000_0000_0000_0000u128) as u64)
}

proof fn lemma_mul_small_limbs(l: [u64; 8], o: [u64; 8], c: [u64; 9], m: nat)
    requires
        c[0] == 0,
        o[0] + c[1] * 0x1_0000_0000_0000_0000nat == l[0] * m + c[0],
        o[1] + c[2] * 0x1_0000_0000_0000_0000nat == l[1] * m + c[1],
        o[2] + c[3] * 0x1_0000_0000_0000_0000nat == l[2] * m + c[2],
        o[3] + c[4] * 0x1_0000_0000_0000_0000nat == l[3] * m + c[3],
        o[4] + c[5] * 0x1_0000_0000_0000_0000nat == l[4] * m + c[4],
        o[5] + c[6] * 0x1_0000_0000_0000_0000nat == l[5] * m + c[5],
        o[6] + c[7] * 0x1_0000_0000_0000_0000nat == l[6] * m + c[6],
        o[7] + c[8] * 0x1_0000_0000_0000_0000nat == l[7] * m + c[7],
    ensures
        wide_value(o) + c[8] * pow512() == m * wide_value(l),
{
    assert(m * (l[0] * 1) == (l[0] * m) * 1) by (nonlinear_arith);
    assert(m * (l[1] * 0x1_0000_0000_0000_0000nat) == (l[1] * m) * 0x1_0000_0000_0000_0000nat) by (nonlinear_arith);
    assert(m * (l[2] * 0x1_0000_0000_0000_0000_0000_0000_0000_0000nat) == (l[2] * m) * 0x1_0000_0000_0000_0000_0000_0000_0000_0000nat) by (nonlinear_arith);
    assert(m * (l[3] * 0x1_0000_0000_0000_0000_0000_0000_0000_0000_0000_0000_0000_0000nat) == (l[3] * m) * 0x1_0000_0000_0000_0000_0000_0000_0000_0000_0000_0000_0000_0000nat) by (nonlinear_arith);
    assert(m * (l[4] * 0x1_0000_0000_0000_0000_0000_0000_0000_0000_0000_0000_0000_0000_0000_0000_0000_0000nat) == (l[4] * m) * 0x1_0000_0000_0000_0000_0000_0000_0000_0000_0000_0000_0000_0000_0000_0000_0000_0000nat) by (nonlinear_arith);
    assert(m * (l[5] * 0x1_0000_0000_0000_0000_0000_0000_0000_0000_0000_0000_0000_0000_0000_0000_0000_0000_0000_0000_0000_0000nat) == (l[5] * m) * 0x1_0000_0000_0000_0000_0000_0000_0000_0000_0000_0000_0000_0000_0000_0000_0000_0000_0000_0000_0000_0000nat) by (nonlinear_arith);
    assert(m * (l[6] * 0x1_0000_0000_0000_0000_0000_0000_0000_0000_0000_0000_0000_0000_0000_0000_0000_0000_0000_0000_0000_0000_0000_0000_0000_0000nat) == (l[6] * m) * 0x1_0000_0000_0000_0000_0000_0000_0000_0000_0000_0000_0000_0000_0000_0000_0000_0000_0000_0000_0000_0000_0000_0000_0000_0000nat) by (nonlinear_arith);
    assert(m * (l[7] * 0x1_0000_0000_0000_0000_0000_0000_0000_0000_0000_0000_0000_0000_0000_0000_0000_0000_0000_0000_0000_0000_0000_0000_0000_0000_0000_0000_0000_0000nat) == (l[7] * m) * 0x1_0000_0000_0000_0000_0000_0000_0000_0000_0000_0000_0000_0000_0000_0000_0000_0000_0000_0000_0000_0000_0000_0000_0000_0000_0000_0000_0000_0000nat) by (nonlinear_arith);
    assert(m * wide_value(l) == (l[0] * m) + (l[1] * m) * 0x1_0000_0000_0000_0000nat + (l[2] * m) * 0x1_0000_0000_0000_0000_0000_0000_0000_0000nat + (l[3] * m) * 0x1_0000_0000_0000_0000_0000_0000_0000_0000_0000_0000_0000_0000nat + (l[4] * m) * 0x1_0000_0000_0000_0000_0000_0000_0000_0000_0000_0000_0000_0000_0000_0000_0000_0000nat + (l[5] * m) * 0x1_0000_0000_0000_0000_0000_0000_0000_0000_0000_0000_0000_0000_0000_0000_0000_0000_0000_0000_0000_0000nat + (l[6] * m) * 0x1_0000_0000_0000_0000_0000_0000_0000_0000_0000_0000_0000_0000_0000_0000_0000_0000_0000_0000_0000_0000_0000_0000_0000_0000nat + (l[7] * m) * 0x1_0000_0000_0000_0000_0000_0000_0000_0000_0000_0000_0000_0000_0000_0000_0000_0000_0000_0000_0000_0000_0000_0000_0000_0000_0000_0000_0000_0000nat) by (nonlinear_arith)
        requires
            m * (l[0] * 1) == (l[0] * m) * 1,
            m * (l[1] * 0x1_0000_0000_0000_0000nat) == (l[1] * m) * 0x1_0000_0000_0000_0000nat,
            m * (l[2] * 0x1_0000_0000_0000_0000_0000_0000_0000_0000nat) == (l[2] * m) * 0x1_0000_0000_0000_0000_0000_0000_0000_0000nat,
            m * (l[3] * 0x1_0000_0000_0000_0000_0000_0000_0000_0000_0000_0000_0000_0000nat) == (l[3] * m) * 0x1_0000_0000_0000_0000_0000_0000_0000_0000_0000_0000_0000_0000nat,
            m * (l[4] * 0x1_0000_0000_0000_0000_0000_0000_0000_0000_0000_0000_0000_0000_0000_0000_0000_0000nat) == (l[4] * m) * 0x1_0000_0000_0000_0000_0000_0000_0000_0000_0000_0000_0000_0000_0000_0000_0000_0000nat,
            m * (l[5] * 0x1_0000_0000_0000_0000_0000_0000_0000_0000_0000_0000_0000_0000_0000_0000_0000_0000_0000_0000_0000_0000nat) == (l[5] * m) * 0x1_0000_0000_0000_0000_0000_0000_0000_0000_0000_0000_0000_0000_0000_0000_0000_0000_0000_0000_0000_0000nat,
            m * (l[6] * 0x1_0000_0000_0000_0000_0000_0000_0000_0000_0000_0000_0000_0000_0000_0000_0000_0000_0000_0000_0000_0000_0000_0000_0000_0000nat) == (l[6] * m) * 0x1_0000_0000_0000_0000_0000_0000_0000_0000_0000_0000_0000_0000_0000_0000_0000_0000_0000_0000_0000_0000_0000_0000_0000_0000nat,
            m * (l[7] * 0x1_0000_0000_0000_0000_0000_0000_0000_0000_0000_0000_0000_0000_0000_0000_0000_0000_0000_0000_0000_0000_0000_0000_0000_0000_0000_0000_0000_0000nat) == (l[7] * m) * 0x1_0000_0000_0000_0000_0000_0000_0000_0000_0000_0000_0000_0000_0000_0000_0000_0000_0000_0000_0000_0000_0000_0000_0000_0000_0000_0000_0000_0000nat,
    ;
}

impl Wide {
    /// The value of a 256-bit integer.
    pub fn from_u256(x: &U256) -> (res: Wide)
        ensures
            res@ == x@,
    {
        Wide { limbs: [x.limbs[0], x.limbs[1], x.limbs[2], x.limbs[3], 0, 0, 0, 0] }
    }

    /// The product of two 256-bit integers, which always fits.
    pub fn product(a: &U256, b: &U256) -> (res: Wide)
        ensures
            res@ == a@ * b@,
    {
        let x = Wide::from_u256(a);
        let l = b.limbs;
        let ghost an: nat = a@;
        let ghost f3: nat = l[3] as nat;
        let ghost f2: nat = (f3 * pow64() + l[2]) as nat;
        let ghost f1: nat = (f2 * pow64() + l[1]) as nat;
        let ghost f0: nat = (f1 * pow64() + l[0]) as nat;
        proof {
            lemma_u256_bounded(*a);
            assert(f0 == b@);
            assert(f2 < pow64() * pow64());
            assert(f1 < pow64() * pow64() * pow64());
            assert(f0 < pow64() * pow64() * pow64() * pow64());
            lemma_mul_below(an, pow64() * pow64() * pow64() * pow64(), f3 * pow64(), pow64() * pow64());
            lemma_mul_below(an, pow64() * pow64() * pow64() * pow64(), f2 * pow64(), pow64() * pow64() * pow64());
            lemma_mul_below(an, pow64() * pow64() * pow64() * pow64(), f1 * pow64(), pow64() * pow64() * pow64() * pow64());
            lemma_mul_below(an, pow64() * pow64() * pow64() * pow64(), f0, pow64() * pow64() * pow64() * pow64());
            lemma_mul_below(an, pow64() * pow64() * pow64() * pow64(), l[3] as nat, pow64());
            lemma_mul_below(an, pow64() * pow64() * pow64() * pow64(), l[2] as nat, pow64());
            lemma_mul_below(an, pow64() * pow64() * pow64() * pow64(), l[1] as nat, pow64());
            lemma_mul_below(an, pow64() * pow64() * pow64() * pow64(), l[0] as nat, pow64());
            lemma_horner_step(an, f3, l[2] as nat);
            lemma_horner_step(an, f2, l[1] as nat);
            lemma_horner_step(an, f1, l[0] as nat);
            assert(an * (f3 * pow64()) == an * f3 * pow64()) by (nonlinear_arith);
            assert(an * (f2 * pow64()) == an * f2 * pow64()) by (nonlinear_arith);
            assert(an * (f1 * pow64()) == an * f1 * pow64()) by (nonlinear_arith);
        }
        let acc3 = x.mul_small(l[3]).unwrap();
        let acc2 = acc3.shift_limb().unwrap().checked_add(&x.mul_small(l[2]).unwrap()).unwrap();
        let acc1 = acc2.shift_limb().unwrap().checked_add(&x.mul_small(l[1]).unwrap()).unwrap();
        let acc0 = acc1.shift_limb().unwrap().checked_add(&x.mul_small(l[0]).unwrap()).unwrap();
        acc0
    }

    /// The value times 10^k, or `None` where that reaches 2^512.
    pub fn times_pow10(&self, k: u8) -> (res: Option<Wide>)
        ensures
            res is Some <==> self@ * pow10(k as nat) < pow512(),
            res matches Some(p) ==> p@ == self@ * pow10(k as nat),
    {
        let mut cur = *self;
        let mut i: u8 = 0;
        assert(pow10(0) == 1);
        while i < k
            invariant
                i <= k,
                cur@ == self@ * pow10(i as nat),
            decreases k - i,
        {
            proof {
                assert(pow10((i + 1) as nat) == 10 * pow10(i as nat));
                assert(cur@ * 10 == self@ * pow10((i + 1) as nat)) by (nonlinear_arith)
                    requires
                        cur@ == self@ * pow10(i as nat),
                        pow10((i + 1) as nat) == 10 * pow10(i as nat),
                ;
            }
            match cur.mul_small(10) {
                Some(next) => {
                    cur = next;
                },
                None => {
                    proof {
                        lemma_pow10_grows((i + 1) as nat, k as nat);
                        assert(self@ * pow10((i + 1) as nat) <= self@ * pow10(k as nat)) by (nonlinear_arith)
                            requires
                                pow10((i + 1) as nat) <= pow10(k as nat),
                        ;
                    }
                    return None;
                },
            }
            i = i + 1;
        }
        proof {
            lemma_wide_bounded(cur);
        }
        Some(cur)
    }

    /// The product by a 64-bit factor, or `None` where it reaches 2^512.
    pub fn mul_small(&self, m: u64) -> (res: Option<Wide>)
        ensures
            res is Some <==> self@ * m < pow512(),
            res matches Some(p) ==> p@ == self@ * m,
    {
        let l = self.limbs;
        let (o0, c1) = mul_limb(l[0], m, 0);
        let (o1, c2) = mul_limb(l[1], m, c1);
        let (o2, c3) = mul_limb(l[2], m, c2);
        let (o3, c4) = mul_limb(l[3], m, c3);
        let (o4, c5) = mul_limb(l[4], m, c4);
        let (o5, c6) = mul_limb(l[5], m, c5);
        let (o6, c7) = mul_limb(l[6], m, c6);
        let (o7, c8) = mul_limb(l[7], m, c7);
        let out = Wide { limbs: [o0, o1, o2, o3, o4, o5, o6, o7] };
        proof {
            let cs: [u64; 9] = [0, c1, c2, c3, c4, c5, c6, c7, c8];
            assert(cs[8] == c8);
            lemma_mul_small_limbs(l, out.limbs, cs, m as nat);
            assert(out@ + c8 * pow512() == m * self@);
            lemma_wide_bounded(out);
            assert(out@ + c8 * pow512() == self@ * m);
        }
        if c8 == 0 {
            Some(out)
        } else {
            None
        }
    }

    /// The value times 2^64, or `None` where it reaches 2^512.
    pub fn shift_limb(&self) -> (res: Option<Wide>)
        ensures
            res is Some <==> self@ * 0x1_0000_0000_0000_0000nat < pow512(),
            res matches Some(p) ==> p@ == self@ * 0x1_0000_0000_0000_0000nat,
    {
        let l = self.limbs;
        if l[7] != 0 {
            None
        } else {
            Some(Wide { limbs: [0, l[0], l[1], l[2], l[3], l[4], l[5], l[6]] })
        }
    }

    /// The sum, or `None` where it reaches 2^512.
    pub fn checked_add(&self, other: &Wide) -> (res: Option<Wide>)
        ensures
            res is Some <==> self@ + other@ < pow512(),
            res matches Some(p) ==> p@ == self@ + other@,
    {
        let a = self.limbs;
        let b = other.limbs;
        let (s0, c0) = add_wide_limb(a[0], b[0], 0);
        let (s1, c1) = add_wide_limb(a[1], b[1], c0);
        let (s2, c2) = add_wide_limb(a[2], b[2], c1);
        let (s3, c3) = add_wide_limb(a[3], b[3], c2);
        let (s4, c4) = add_wide_limb(a[4], b[4], c3);
        let (s5, c5) = add_wide_limb(a[5], b[5], c4);
        let (s6, c6) = add_wide_limb(a[6], b[6], c5);
        let (s7, c7) = add_wide_limb(a[7], b[7], c6);
        let sum = Wide { limbs: [s0, s1, s2, s3, s4, s5, s6, s7] };
        assert(sum@ + c7 * pow512() == self@ + other@);
        proof {
            lemma_wide_bounded(sum);
        }
        if c7 == 0 {
            Some(sum)
        } else {
            None
        }
    }

    /// Whether the value is below 2^511, so that it is a positive signed
    /// 512-bit number.
    pub fn below_pow511(&self) -> (res: bool)
        ensures
            res == (self@ < pow511()),
    {
        self.limbs[7] < 0x8000_0000_0000_0000
    }
}

/// Adds two limbs and an incoming carry.
fn add_wide_limb(a: u64, b: u64, carry: u64) -> (res: (u64, u64))
    requires
        carry <= 1,
    ensures
        res.1 <= 1,
        res.0 + res.1 * 0x1_0000_0000_0000_0000nat == a + b + carry,
{
    let t: u128 = a as u128 + b as u128 + carry as u128;
    if t >= 0x1_0000_0000_0000_0000u128 {
        ((t - 0x1_0000_0000_0000_0000u128) as u64, 1)
    } else {
        (t as u64, 0)
    }
}

} // verus!
