//! Elements of the scalar field of BLS12-377, held as four 64-bit limbs.

use ark_bls12_377::Fr;
use ark_ff::BigInt;
use ark_ff::UniformRand;
use rand::rngs::ThreadRng;
use vstd::prelude::*;

verus! {

/// `rand`'s `ThreadRng`, the random source of a run. It is only passed
/// through; nothing is said of what it holds.
#[verifier::external_type_specification]
#[verifier::external_body]
pub struct ExThreadRng(ThreadRng);

/// The number that four limbs stand for, least significant limb first.
pub open spec fn limbs_value(l0: u64, l1: u64, l2: u64, l3: u64) -> nat {
    (l0 + 0x1_0000_0000_0000_0000 * (l1 + 0x1_0000_0000_0000_0000 * (l2
        + 0x1_0000_0000_0000_0000 * l3))) as nat
}

/// The order of the field: a prime of 253 bits.
pub open spec fn modulus() -> nat {
    limbs_value(
        0x0a11_8000_0000_0001,
        0x59aa_76fe_d000_0001,
        0x60b4_4d1e_5c37_b001,
        0x12ab_655e_9a2c_a556,
    )
}

/// The product of two field elements.
pub open spec fn field_mul(a: nat, b: nat) -> nat {
    (a * b) % modulus()
}

/// A field element as its canonical integer, in four limbs, least
/// significant first.
#[derive(Clone, Copy, Debug, PartialEq, Eq, Structural)]
pub struct Scalar {
    pub l0: u64,
    pub l1: u64,
    pub l2: u64,
    pub l3: u64,
}

impl View for Scalar {
    type V = nat;

    open spec fn view(&self) -> nat {
        limbs_value(self.l0, self.l1, self.l2, self.l3)
    }
}

impl Scalar {
    /// The limbs hold a canonical representative: a number below the order
    /// of the field.
    pub open spec fn wf(&self) -> bool {
        self@ < modulus()
    }

    /// The field element of a small number.
    pub fn from_u64(x: u64) -> (r: Scalar)
        ensures
            r@ == x,
            r.wf(),
    {
        Scalar { l0: x, l1: 0, l2: 0, l3: 0 }
    }

    /// Whether the limbs hold a number below the order of the field.
    pub fn is_canonical(&self) -> (r: bool)
        ensures
            r == self.wf(),
    {
        if self.l3 != 0x12ab_655e_9a2c_a556 {
            self.l3 < 0x12ab_655e_9a2c_a556
        } else if self.l2 != 0x60b4_4d1e_5c37_b001 {
            self.l2 < 0x60b4_4d1e_5c37_b001
        } else if self.l1 != 0x59aa_76fe_d000_0001 {
            self.l1 < 0x59aa_76fe_d000_0001
        } else {
            self.l0 < 0x0a11_8000_0000_0001
        }
    }

    /// The product in the field.
    pub fn times(&self, other: &Scalar) -> (r: Scalar)
        requires
            self.wf(),
            other.wf(),
        ensures
            r@ == field_mul(self@, other@),
            r.wf(),
    {
        let r = fr_mul(self, other);
        proof {
            assert(modulus() > 0);
            assert((self@ * other@) % modulus() < modulus()) by (nonlinear_arith)
                requires
                    modulus() > 0,
            ;
        }
        r
    }

    /// A field element drawn from `rng`. Which one comes is up to the
    /// source; it is canonical whichever it is.
    pub fn random(rng: &mut ThreadRng) -> (r: Scalar)
        ensures
            r.wf(),
    {
        fr_random(rng)
    }
}

/// A number splits in one way only into a limb and what stands above it.
proof fn lemma_lowest_limb(x: u64, s: int, y: u64, t: int)
    requires
        x + 0x1_0000_0000_0000_0000 * s == y + 0x1_0000_0000_0000_0000 * t,
    ensures
        x == y,
        s == t,
{
    if s < t {
        assert(0x1_0000_0000_0000_0000 * t >= 0x1_0000_0000_0000_0000 * s
            + 0x1_0000_0000_0000_0000);
    } else if t < s {
        assert(0x1_0000_0000_0000_0000 * s >= 0x1_0000_0000_0000_0000 * t
            + 0x1_0000_0000_0000_0000);
    }
}

/// Two sets of limbs that stand for the same number are the same limbs.
pub proof fn lemma_view_injective(a: Scalar, b: Scalar)
    requires
        a@ == b@,
    ensures
        a == b,
{
    let a2: int = a.l2 + 0x1_0000_0000_0000_0000 * a.l3;
    let b2: int = b.l2 + 0x1_0000_0000_0000_0000 * b.l3;
    let a1: int = a.l1 + 0x1_0000_0000_0000_0000 * a2;
    let b1: int = b.l1 + 0x1_0000_0000_0000_0000 * b2;
    assert(a@ == a.l0 + 0x1_0000_0000_0000_0000 * a1);
    assert(b@ == b.l0 + 0x1_0000_0000_0000_0000 * b1);
    lemma_lowest_limb(a.l0, a1, b.l0, b1);
    lemma_lowest_limb(a.l1, a2, b.l1, b2);
    lemma_lowest_limb(a.l2, a.l3 as int, b.l2, b.l3 as int);
}

/// Multiplication in the field, by `ark_ff`'s `Fp` (its `Mul`): the product
/// of the two numbers, reduced by the order of the field to its canonical
/// representative.
#[verifier::external_body]
fn fr_mul(a: &Scalar, b: &Scalar) -> (r: Scalar)
    requires
        a.wf(),
        b.wf(),
    ensures
        r@ == field_mul(a@, b@),
{
    let x = Fr::from(BigInt::new([a.l0, a.l1, a.l2, a.l3]));
    let y = Fr::from(BigInt::new([b.l0, b.l1, b.l2, b.l3]));
    let l = BigInt::from(x * y).0;
    Scalar { l0: l[0], l1: l[1], l2: l[2], l3: l[3] }
}

/// A draw by `ark_ff`'s `UniformRand::rand` for `Fp`. Nothing is claimed of
/// which element comes, only that it is handed over in canonical form.
#[verifier::external_body]
fn fr_random(rng: &mut ThreadRng) -> (r: Scalar)
    ensures
        r.wf(),
{
    let l = BigInt::from(Fr::rand(rng)).0;
    Scalar { l0: l[0], l1: l[1], l2: l[2], l3: l[3] }
}

} // verus!
