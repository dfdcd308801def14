//! Elements of the Pallas base field, held as four 64-bit limbs.
//!
//! The limbs are the canonical little-endian integer of the element, so a
//! value is well formed exactly when that integer is below the modulus. The
//! ring operations are carried out by `halo2_proofs::pasta::Fp`.

use halo2_proofs::pasta::group::ff::PrimeField;
use halo2_proofs::pasta::Fp;
use vstd::arithmetic::div_mod::{
    lemma_add_mod_noop, lemma_add_mod_noop_right, lemma_mod_multiples_vanish, lemma_small_mod,
};
use vstd::prelude::*;

verus! {

/// The order of the Pallas base field.
pub open spec fn modulus() -> nat {
    0x40000000000000000000000000000000224698fc094cf91b992d30ed00000001nat
}

/// Sum of two integers, reduced into the field.
pub open spec fn field_add(a: nat, b: nat) -> nat {
    (a + b) % modulus()
}

/// Product of two integers, reduced into the field.
pub open spec fn field_mul(a: nat, b: nat) -> nat {
    (a * b) % modulus()
}

/// Additive inverse of an integer in the field.
pub open spec fn field_neg(a: nat) -> nat {
    ((modulus() - a % modulus()) % (modulus() as int)) as nat
}

/// The integer that four little-endian 64-bit limbs stand for.
pub open spec fn limbs_value(l0: u64, l1: u64, l2: u64, l3: u64) -> nat {
    (l0 + l1 * 0x1_0000_0000_0000_0000int + l2 * 0x1_0000_0000_0000_0000_0000_0000_0000_0000int
        + l3 * 0x1_0000_0000_0000_0000_0000_0000_0000_0000_0000_0000_0000_0000int) as nat
}

/// Reducing the operands of a field sum first does not change it.
pub proof fn lemma_field_add_congruent(a: nat, b: nat)
    ensures
        field_add(a % modulus(), b % modulus()) == (a + b) % modulus(),
        field_add(a % modulus(), b) == (a + b) % modulus(),
        field_add(a, b % modulus()) == (a + b) % modulus(),
{
    let p = modulus() as int;
    lemma_add_mod_noop(a as int, b as int, p);
    lemma_add_mod_noop_right(a as int, b as int, p);
    lemma_add_mod_noop_right(b as int, a as int, p);
}

/// The difference of two field elements is zero exactly when they are
/// equal.
pub proof fn lemma_difference_zero(a: nat, b: nat)
    requires
        a < modulus(),
        b < modulus(),
    ensures
        field_add(a, field_neg(b)) == 0 <==> a == b,
{
    let p = modulus();
    lemma_small_mod(b, p);
    if b == 0 {
        assert(field_neg(b) == 0);
        lemma_small_mod(a, p);
    } else {
        lemma_small_mod((p - b) as nat, p);
        assert(field_neg(b) == p - b);
        if a >= b {
            lemma_mod_multiples_vanish(1, a - b, p as int);
            lemma_small_mod((a - b) as nat, p);
            assert(a + (p - b) == p * 1 + (a - b));
        } else {
            lemma_small_mod((a + (p - b)) as nat, p);
        }
    }
}

/// Adding minus one to a field element other than zero gives the element
/// before it.
pub proof fn lemma_add_minus_one(a: nat)
    requires
        0 < a < modulus(),
    ensures
        field_neg(1) == modulus() - 1,
        field_add(a, field_neg(1)) == a - 1,
{
    let p = modulus();
    lemma_small_mod(1, p);
    lemma_small_mod((p - 1) as nat, p);
    lemma_mod_multiples_vanish(1, a - 1, p as int);
    lemma_small_mod((a - 1) as nat, p);
    assert(a + (p - 1) == p * 1 + (a - 1));
}

/// A number splits in one way only into a digit below the base and a
/// multiple of the base.
pub proof fn lemma_digits_unique(low_a: int, high_a: int, low_b: int, high_b: int, base: int)
    by (nonlinear_arith)
    requires
        0 <= low_a < base,
        0 <= low_b < base,
        low_a + base * high_a == low_b + base * high_b,
    ensures
        low_a == low_b,
        high_a == high_b,
{
}

/// A field element in canonical form.
#[derive(Clone, Copy, Debug, PartialEq, Eq, Structural)]
pub struct FieldValue {
    l0: u64,
    l1: u64,
    l2: u64,
    l3: u64,
}

impl View for FieldValue {
    type V = nat;

    closed spec fn view(&self) -> nat {
        limbs_value(self.l0, self.l1, self.l2, self.l3)
    }
}

impl FieldValue {
    /// The limbs denote an integer below the modulus.
    pub open spec fn wf(&self) -> bool {
        self@ < modulus()
    }

    /// Two elements with the same integer are the same element.
    pub proof fn lemma_view_injective(a: FieldValue, b: FieldValue)
        ensures
            (a == b) <==> (a@ == b@),
    {
        if a@ == b@ {
            let base: int = 0x1_0000_0000_0000_0000;
            let a2: int = a.l2 + base * a.l3;
            let b2: int = b.l2 + base * b.l3;
            let a1: int = a.l1 + base * a2;
            let b1: int = b.l1 + base * b2;
            assert(a@ == a.l0 + base * a1);
            assert(b@ == b.l0 + base * b1);
            lemma_digits_unique(a.l0 as int, a1, b.l0 as int, b1, base);
            lemma_digits_unique(a.l1 as int, a2, b.l1 as int, b2, base);
            lemma_digits_unique(a.l2 as int, a.l3 as int, b.l2 as int, b.l3 as int, base);
        }
    }

    /// The element whose canonical integer is `n`, for `n` below 2^256.
    pub closed spec fn from_nat(n: nat) -> FieldValue {
        let q1 = n / 0x1_0000_0000_0000_0000;
        let q2 = q1 / 0x1_0000_0000_0000_0000;
        let q3 = q2 / 0x1_0000_0000_0000_0000;
        FieldValue {
            l0: (n % 0x1_0000_0000_0000_0000) as u64,
            l1: (q1 % 0x1_0000_0000_0000_0000) as u64,
            l2: (q2 % 0x1_0000_0000_0000_0000) as u64,
            l3: (q3 % 0x1_0000_0000_0000_0000) as u64,
        }
    }

    /// `from_nat` yields the element of the given integer.
    pub proof fn lemma_from_nat_value(n: nat)
        requires
            n < 0x1_0000_0000_0000_0000_0000_0000_0000_0000_0000_0000_0000_0000_0000_0000_0000_0000,
        ensures
            FieldValue::from_nat(n)@ == n,
    {
        let q1 = n / 0x1_0000_0000_0000_0000;
        let q2 = q1 / 0x1_0000_0000_0000_0000;
        let q3 = q2 / 0x1_0000_0000_0000_0000;
        assert(n == (n % 0x1_0000_0000_0000_0000) + 0x1_0000_0000_0000_0000 * q1);
        assert(q1 == (q1 % 0x1_0000_0000_0000_0000) + 0x1_0000_0000_0000_0000 * q2);
        assert(q2 == (q2 % 0x1_0000_0000_0000_0000) + 0x1_0000_0000_0000_0000 * q3);
        assert(q3 < 0x1_0000_0000_0000_0000);
    }

    /// Every element is the one that `from_nat` yields for its integer.
    pub proof fn lemma_from_nat(v: FieldValue)
        ensures
            FieldValue::from_nat(v@) == v,
    {
        FieldValue::lemma_from_nat_value(v@);
        FieldValue::lemma_view_injective(FieldValue::from_nat(v@), v);
    }

    /// The additive identity.
    pub fn zero() -> (r: FieldValue)
        ensures
            r.wf(),
            r@ == 0,
    {
        FieldValue { l0: 0, l1: 0, l2: 0, l3: 0 }
    }

    /// The multiplicative identity.
    pub fn one() -> (r: FieldValue)
        ensures
            r.wf(),
            r@ == 1,
    {
        FieldValue { l0: 1, l1: 0, l2: 0, l3: 0 }
    }

    /// The element that a machine word stands for.
    pub fn from_u64(x: u64) -> (r: FieldValue)
        ensures
            r.wf(),
            r@ == x,
    {
        FieldValue { l0: x, l1: 0, l2: 0, l3: 0 }
    }

    /// The element with the given little-endian limbs, if they denote an
    /// integer below the modulus.
    pub fn from_raw(limbs: [u64; 4]) -> (r: Option<FieldValue>)
        ensures
            r is Some <==> limbs_value(limbs[0], limbs[1], limbs[2], limbs[3]) < modulus(),
            r is Some ==> r->0@ == limbs_value(limbs[0], limbs[1], limbs[2], limbs[3]),
    {
        let l0: u64 = limbs[0];
        let l1: u64 = limbs[1];
        let l2: u64 = limbs[2];
        let l3: u64 = limbs[3];
        let below = l3 < 0x4000000000000000 || (l3 == 0x4000000000000000 && l2 == 0 && (l1
            < 0x224698fc094cf91b || (l1 == 0x224698fc094cf91b && l0 < 0x992d30ed00000001)));
        if below {
            Some(FieldValue { l0, l1, l2, l3 })
        } else {
            None
        }
    }

    /// The little-endian limbs of the element's canonical integer.
    pub fn to_raw(&self) -> (r: [u64; 4])
        ensures
            limbs_value(r[0], r[1], r[2], r[3]) == self@,
    {
        [self.l0, self.l1, self.l2, self.l3]
    }

    /// Whether the element is the additive identity.
    pub fn is_zero(&self) -> (r: bool)
        ensures
            r == (self@ == 0),
    {
        self.l0 == 0 && self.l1 == 0 && self.l2 == 0 && self.l3 == 0
    }

    /// The sum of two elements.
    pub fn add(&self, rhs: &FieldValue) -> (r: FieldValue)
        requires
            self.wf(),
            rhs.wf(),
        ensures
            r.wf(),
            r@ == field_add(self@, rhs@),
    {
        fp_add(self, rhs)
    }

    /// The product of two elements.
    pub fn mul(&self, rhs: &FieldValue) -> (r: FieldValue)
        requires
            self.wf(),
            rhs.wf(),
        ensures
            r.wf(),
            r@ == field_mul(self@, rhs@),
    {
        fp_mul(self, rhs)
    }

    /// The additive inverse of an element.
    pub fn neg(&self) -> (r: FieldValue)
        requires
            self.wf(),
        ensures
            r.wf(),
            r@ == field_neg(self@),
    {
        fp_neg(self)
    }
}

/// `Fp`'s addition, between `Fp::from_raw` on the limbs of both operands and
/// `to_repr` on the sum: the canonical integer of the result is the sum of
/// the operands' integers, reduced by the modulus.
#[verifier::external_body]
fn fp_add(a: &FieldValue, b: &FieldValue) -> (r: FieldValue)
    requires
        a.wf(),
        b.wf(),
    ensures
        r.wf(),
        r@ == field_add(a@, b@),
{
    let sum = Fp::from_raw([a.l0, a.l1, a.l2, a.l3]) + Fp::from_raw([b.l0, b.l1, b.l2, b.l3]);
    let repr = sum.to_repr();
    FieldValue {
        l0: u64::from_le_bytes(repr[0..8].try_into().unwrap()),
        l1: u64::from_le_bytes(repr[8..16].try_into().unwrap()),
        l2: u64::from_le_bytes(repr[16..24].try_into().unwrap()),
        l3: u64::from_le_bytes(repr[24..32].try_into().unwrap()),
    }
}

/// `Fp`'s multiplication, between `Fp::from_raw` on the limbs of both
/// operands and `to_repr` on the product: the canonical integer of the result
/// is the product of the operands' integers, reduced by the modulus.
#[verifier::external_body]
fn fp_mul(a: &FieldValue, b: &FieldValue) -> (r: FieldValue)
    requires
        a.wf(),
        b.wf(),
    ensures
        r.wf(),
        r@ == field_mul(a@, b@),
{
    let product = Fp::from_raw([a.l0, a.l1, a.l2, a.l3]) * Fp::from_raw([b.l0, b.l1, b.l2, b.l3]);
    let repr = product.to_repr();
    FieldValue {
        l0: u64::from_le_bytes(repr[0..8].try_into().unwrap()),
        l1: u64::from_le_bytes(repr[8..16].try_into().unwrap()),
        l2: u64::from_le_bytes(repr[16..24].try_into().unwrap()),
        l3: u64::from_le_bytes(repr[24..32].try_into().unwrap()),
    }
}

/// `Fp`'s negation, between `Fp::from_raw` on the operand's limbs and
/// `to_repr` on the result: zero stays zero, and any other element becomes
/// the modulus less its integer.
#[verifier::external_body]
fn fp_neg(a: &FieldValue) -> (r: FieldValue)
    requires
        a.wf(),
    ensures
        r.wf(),
        r@ == field_neg(a@),
{
    let negated = -Fp::from_raw([a.l0, a.l1, a.l2, a.l3]);
    let repr = negated.to_repr();
    FieldValue {
        l0: u64::from_le_bytes(repr[0..8].try_into().unwrap()),
        l1: u64::from_le_bytes(repr[8..16].try_into().unwrap()),
        l2: u64::from_le_bytes(repr[16..24].try_into().unwrap()),
        l3: u64::from_le_bytes(repr[24..32].try_into().unwrap()),
    }
}

} // verus!
