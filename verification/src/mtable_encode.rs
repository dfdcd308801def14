//! The encoding of memory accesses for the memory table.
//!
//! An access is a tuple of the step that performs it, its position among the
//! accesses of that step, its address, the kind of memory, the direction,
//! the type and the value. The tuple is folded into one field element as a
//! weighted sum, each component at a weight of its own. An instruction
//! encodes what it reads and writes, once over the values of a step and once
//! over its cells; the memory table encodes what it holds in the same way.

use crate::expr::Expr;
use crate::field::{
    field_add, field_mul, lemma_digits_unique, lemma_field_add_congruent, modulus, FieldValue,
};
use vstd::arithmetic::div_mod::lemma_small_mod;
use vstd::prelude::*;

verus! {

/// The weight of the type in an encoded access.
pub open spec fn vtype_shift() -> nat {
    0x1_0000_0000_0000_0000
}

/// The weight of the direction in an encoded access.
pub open spec fn atype_shift() -> nat {
    0x1_0000_0000_0000_0000_0000
}

/// The weight of the kind of memory in an encoded access.
pub open spec fn ltype_shift() -> nat {
    0x100_0000_0000_0000_0000_0000
}

/// The weight of the offset in an encoded access.
pub open spec fn offset_shift() -> nat {
    0x1_0000_0000_0000_0000_0000_0000
}

/// The weight of the memory instance in an encoded access.
pub open spec fn mmid_shift() -> nat {
    0x1_0000_0000_0000_0000_0000_0000_0000_0000nat
}

/// The weight of the position within the step in an encoded access.
pub open spec fn emid_shift() -> nat {
    0x1_0000_0000_0000_0000_0000_0000_0000_0000_0000nat
}

/// The weight of the step in an encoded access.
pub open spec fn eid_shift() -> nat {
    0x1_0000_0000_0000_0000_0000_0000_0000_0000_0000_0000nat
}

/// The kind of memory that an access goes to.
#[derive(Clone, Copy, Debug, PartialEq, Eq, Structural)]
pub enum LocationType {
    Stack,
    Heap,
    Global,
}

impl LocationType {
    /// The number that stands for the kind in an encoded access.
    pub open spec fn number(self) -> nat {
        match self {
            LocationType::Stack => 1,
            LocationType::Heap => 2,
            LocationType::Global => 3,
        }
    }

    /// Computes the number that stands for the kind.
    pub fn index(&self) -> (r: u64)
        ensures
            r == self.number(),
    {
        match self {
            LocationType::Stack => 1,
            LocationType::Heap => 2,
            LocationType::Global => 3,
        }
    }
}

/// The direction of an access.
#[derive(Clone, Copy, Debug, PartialEq, Eq, Structural)]
pub enum AccessType {
    Read,
    Write,
    Init,
}

impl AccessType {
    /// The number that stands for the direction in an encoded access.
    pub open spec fn number(self) -> nat {
        match self {
            AccessType::Read => 1,
            AccessType::Write => 2,
            AccessType::Init => 3,
        }
    }

    /// Computes the number that stands for the direction.
    pub fn index(&self) -> (r: u64)
        ensures
            r == self.number(),
    {
        match self {
            AccessType::Read => 1,
            AccessType::Write => 2,
            AccessType::Init => 3,
        }
    }
}

/// The weighted sum of the components of an access, as an integer.
pub open spec fn weighted_sum(
    eid: nat,
    emid: nat,
    mmid: nat,
    offset: nat,
    ltype: nat,
    atype: nat,
    vtype: nat,
    value: nat,
) -> nat {
    eid * eid_shift() + emid * emid_shift() + mmid * mmid_shift() + offset * offset_shift() + ltype
        * ltype_shift() + atype * atype_shift() + vtype * vtype_shift() + value
}

/// The field element that encodes an access.
pub open spec fn lookup_encoding(
    eid: nat,
    emid: nat,
    mmid: nat,
    offset: nat,
    ltype: nat,
    atype: nat,
    vtype: nat,
    value: nat,
) -> nat {
    weighted_sum(eid, emid, mmid, offset, ltype, atype, vtype, value) % modulus()
}

/// Each component of an access lies within the width that the encoding
/// gives it.
pub open spec fn components_in_range(
    eid: nat,
    emid: nat,
    mmid: nat,
    offset: nat,
    ltype: nat,
    atype: nat,
    vtype: nat,
    value: nat,
) -> bool {
    &&& eid < 0x1_0000_0000_0000_0000
    &&& emid < 0x1_0000
    &&& mmid < 0x1_0000
    &&& offset < 0x1_0000_0000
    &&& ltype < 0x100
    &&& atype < 0x100
    &&& vtype < 0x1_0000
    &&& value < 0x1_0000_0000_0000_0000
}

/// The encoding of a read from the stack.
pub open spec fn stack_read_encoding(eid: nat, emid: nat, sp: nat, vtype: nat, value: nat) -> nat {
    lookup_encoding(
        eid,
        emid,
        0,
        sp,
        LocationType::Stack.number(),
        AccessType::Read.number(),
        vtype,
        value,
    )
}

/// The encoding of a write to the stack.
pub open spec fn stack_write_encoding(eid: nat, emid: nat, sp: nat, vtype: nat, value: nat) -> nat {
    lookup_encoding(
        eid,
        emid,
        0,
        sp,
        LocationType::Stack.number(),
        AccessType::Write.number(),
        vtype,
        value,
    )
}

/// The encoding of a read of a global variable.
pub open spec fn global_get_encoding(
    eid: nat,
    emid: nat,
    moid: nat,
    idx: nat,
    vtype: nat,
    value: nat,
) -> nat {
    lookup_encoding(
        eid,
        emid,
        moid,
        idx,
        LocationType::Global.number(),
        AccessType::Read.number(),
        vtype,
        value,
    )
}

/// The encoding of a write of a global variable.
pub open spec fn global_set_encoding(
    eid: nat,
    emid: nat,
    moid: nat,
    idx: nat,
    vtype: nat,
    value: nat,
) -> nat {
    lookup_encoding(
        eid,
        emid,
        moid,
        idx,
        LocationType::Global.number(),
        AccessType::Write.number(),
        vtype,
        value,
    )
}

/// The weighted sum as the field computes it, term by term.
pub open spec fn folded_sum(
    eid: nat,
    emid: nat,
    mmid: nat,
    offset: nat,
    ltype: nat,
    atype: nat,
    vtype: nat,
    value: nat,
) -> nat {
    let s1 = field_mul(eid, eid_shift());
    let s2 = field_add(s1, field_mul(emid, emid_shift()));
    let s3 = field_add(s2, field_mul(mmid, mmid_shift()));
    let s4 = field_add(s3, field_mul(offset, offset_shift()));
    let s5 = field_add(s4, field_mul(ltype, ltype_shift()));
    let s6 = field_add(s5, field_mul(atype, atype_shift()));
    let s7 = field_add(s6, field_mul(vtype, vtype_shift()));
    field_add(s7, value)
}

/// Folding the sum term by term in the field gives the encoding.
pub proof fn lemma_folded_sum(
    eid: nat,
    emid: nat,
    mmid: nat,
    offset: nat,
    ltype: nat,
    atype: nat,
    vtype: nat,
    value: nat,
)
    ensures
        folded_sum(eid, emid, mmid, offset, ltype, atype, vtype, value) == lookup_encoding(
            eid,
            emid,
            mmid,
            offset,
            ltype,
            atype,
            vtype,
            value,
        ),
{
    let a1 = eid * eid_shift();
    let a2 = emid * emid_shift();
    let a3 = mmid * mmid_shift();
    let a4 = offset * offset_shift();
    let a5 = ltype * ltype_shift();
    let a6 = atype * atype_shift();
    let a7 = vtype * vtype_shift();
    lemma_field_add_congruent(a1, a2);
    lemma_field_add_congruent(a1 + a2, a3);
    lemma_field_add_congruent(a1 + a2 + a3, a4);
    lemma_field_add_congruent(a1 + a2 + a3 + a4, a5);
    lemma_field_add_congruent(a1 + a2 + a3 + a4 + a5, a6);
    lemma_field_add_congruent(a1 + a2 + a3 + a4 + a5 + a6, a7);
    lemma_field_add_congruent(a1 + a2 + a3 + a4 + a5 + a6 + a7, value);
}

/// An access whose components are in range is encoded by its weighted sum
/// itself: the sum stays below 2^224 and so below the modulus.
pub proof fn lemma_encoding_fits(
    eid: nat,
    emid: nat,
    mmid: nat,
    offset: nat,
    ltype: nat,
    atype: nat,
    vtype: nat,
    value: nat,
)
    requires
        components_in_range(eid, emid, mmid, offset, ltype, atype, vtype, value),
    ensures
        weighted_sum(eid, emid, mmid, offset, ltype, atype, vtype, value)
            < 0x1_0000_0000_0000_0000_0000_0000_0000_0000_0000_0000_0000_0000_0000_0000nat,
        lookup_encoding(eid, emid, mmid, offset, ltype, atype, vtype, value) == weighted_sum(
            eid,
            emid,
            mmid,
            offset,
            ltype,
            atype,
            vtype,
            value,
        ),
{
    lemma_small_mod(weighted_sum(eid, emid, mmid, offset, ltype, atype, vtype, value), modulus());
}

/// The encoding tells accesses apart: two accesses in range with the same
/// encoding agree in every component.
pub proof fn lemma_encoding_injective(
    eid: nat,
    emid: nat,
    mmid: nat,
    offset: nat,
    ltype: nat,
    atype: nat,
    vtype: nat,
    value: nat,
    eid2: nat,
    emid2: nat,
    mmid2: nat,
    offset2: nat,
    ltype2: nat,
    atype2: nat,
    vtype2: nat,
    value2: nat,
)
    requires
        components_in_range(eid, emid, mmid, offset, ltype, atype, vtype, value),
        components_in_range(eid2, emid2, mmid2, offset2, ltype2, atype2, vtype2, value2),
        lookup_encoding(eid, emid, mmid, offset, ltype, atype, vtype, value) == lookup_encoding(
            eid2,
            emid2,
            mmid2,
            offset2,
            ltype2,
            atype2,
            vtype2,
            value2,
        ),
    ensures
        eid == eid2,
        emid == emid2,
        mmid == mmid2,
        offset == offset2,
        ltype == ltype2,
        atype == atype2,
        vtype == vtype2,
        value == value2,
{
    lemma_encoding_fits(eid, emid, mmid, offset, ltype, atype, vtype, value);
    lemma_encoding_fits(eid2, emid2, mmid2, offset2, ltype2, atype2, vtype2, value2);
    let h6: int = (emid + 0x1_0000 * eid) as int;
    let k6: int = (emid2 + 0x1_0000 * eid2) as int;
    let h5: int = mmid + 0x1_0000 * h6;
    let k5: int = mmid2 + 0x1_0000 * k6;
    let h4: int = offset + 0x1_0000_0000 * h5;
    let k4: int = offset2 + 0x1_0000_0000 * k5;
    let h3: int = ltype + 0x100 * h4;
    let k3: int = ltype2 + 0x100 * k4;
    let h2: int = atype + 0x100 * h3;
    let k2: int = atype2 + 0x100 * k3;
    let h1: int = vtype + 0x1_0000 * h2;
    let k1: int = vtype2 + 0x1_0000 * k2;
    assert(weighted_sum(eid, emid, mmid, offset, ltype, atype, vtype, value) == value
        + 0x1_0000_0000_0000_0000 * h1);
    assert(weighted_sum(eid2, emid2, mmid2, offset2, ltype2, atype2, vtype2, value2) == value2
        + 0x1_0000_0000_0000_0000 * k1);
    lemma_digits_unique(value as int, h1, value2 as int, k1, 0x1_0000_0000_0000_0000);
    lemma_digits_unique(vtype as int, h2, vtype2 as int, k2, 0x1_0000);
    lemma_digits_unique(atype as int, h3, atype2 as int, k3, 0x100);
    lemma_digits_unique(ltype as int, h4, ltype2 as int, k4, 0x100);
    lemma_digits_unique(offset as int, h5, offset2 as int, k5, 0x1_0000_0000);
    lemma_digits_unique(mmid as int, h6, mmid2 as int, k6, 0x1_0000);
    lemma_digits_unique(emid as int, eid as int, emid2 as int, eid2 as int, 0x1_0000);
}

/// The constant whose integer is `l1 * 2^64 + l2 * 2^128`.
fn weight(l1: u64, l2: u64) -> (r: FieldValue)
    ensures
        r.wf(),
        r@ == l1 * 0x1_0000_0000_0000_0000 + l2 * 0x1_0000_0000_0000_0000_0000_0000_0000_0000int,
        r == FieldValue::from_nat(r@),
{
    let r = FieldValue::from_raw([0, l1, l2, 0]).unwrap();
    proof {
        FieldValue::lemma_from_nat(r);
    }
    r
}

/// Folds the components of an access into one field element.
pub fn encode_for_lookup(
    eid: &FieldValue,
    emid: &FieldValue,
    mmid: &FieldValue,
    offset: &FieldValue,
    ltype: &FieldValue,
    atype: &FieldValue,
    vtype: &FieldValue,
    value: &FieldValue,
) -> (r: FieldValue)
    requires
        eid.wf(),
        emid.wf(),
        mmid.wf(),
        offset.wf(),
        ltype.wf(),
        atype.wf(),
        vtype.wf(),
        value.wf(),
    ensures
        r.wf(),
        r@ == lookup_encoding(eid@, emid@, mmid@, offset@, ltype@, atype@, vtype@, value@),
{
    let s1 = eid.mul(&weight(0, 0x1_0000_0000));
    let s2 = s1.add(&emid.mul(&weight(0, 0x1_0000)));
    let s3 = s2.add(&mmid.mul(&weight(0, 1)));
    let s4 = s3.add(&offset.mul(&weight(0x1_0000_0000, 0)));
    let s5 = s4.add(&ltype.mul(&weight(0x100_0000, 0)));
    let s6 = s5.add(&atype.mul(&weight(0x1_0000, 0)));
    let s7 = s6.add(&vtype.mul(&weight(1, 0)));
    let r = s7.add(value);
    proof {
        assert(r@ == folded_sum(eid@, emid@, mmid@, offset@, ltype@, atype@, vtype@, value@));
        lemma_folded_sum(eid@, emid@, mmid@, offset@, ltype@, atype@, vtype@, value@);
    }
    r
}

/// Encodes a read from the stack at `sp`.
pub fn encode_stack_read(
    eid: &FieldValue,
    emid: &FieldValue,
    sp: &FieldValue,
    vtype: &FieldValue,
    value: &FieldValue,
) -> (r: FieldValue)
    requires
        eid.wf(),
        emid.wf(),
        sp.wf(),
        vtype.wf(),
        value.wf(),
    ensures
        r.wf(),
        r@ == stack_read_encoding(eid@, emid@, sp@, vtype@, value@),
{
    encode_for_lookup(
        eid,
        emid,
        &FieldValue::zero(),
        sp,
        &FieldValue::from_u64(LocationType::Stack.index()),
        &FieldValue::from_u64(AccessType::Read.index()),
        vtype,
        value,
    )
}

/// Encodes a write to the stack at `sp`.
pub fn encode_stack_write(
    eid: &FieldValue,
    emid: &FieldValue,
    sp: &FieldValue,
    vtype: &FieldValue,
    value: &FieldValue,
) -> (r: FieldValue)
    requires
        eid.wf(),
        emid.wf(),
        sp.wf(),
        vtype.wf(),
        value.wf(),
    ensures
        r.wf(),
        r@ == stack_write_encoding(eid@, emid@, sp@, vtype@, value@),
{
    encode_for_lookup(
        eid,
        emid,
        &FieldValue::zero(),
        sp,
        &FieldValue::from_u64(LocationType::Stack.index()),
        &FieldValue::from_u64(AccessType::Write.index()),
        vtype,
        value,
    )
}

/// Encodes a read of the global variable `idx` of module `moid`.
pub fn encode_global_get(
    eid: &FieldValue,
    emid: &FieldValue,
    moid: &FieldValue,
    idx: &FieldValue,
    vtype: &FieldValue,
    value: &FieldValue,
) -> (r: FieldValue)
    requires
        eid.wf(),
        emid.wf(),
        moid.wf(),
        idx.wf(),
        vtype.wf(),
        value.wf(),
    ensures
        r.wf(),
        r@ == global_get_encoding(eid@, emid@, moid@, idx@, vtype@, value@),
{
    encode_for_lookup(
        eid,
        emid,
        moid,
        idx,
        &FieldValue::from_u64(LocationType::Global.index()),
        &FieldValue::from_u64(AccessType::Read.index()),
        vtype,
        value,
    )
}

/// Encodes a write of the global variable `idx` of module `moid`.
pub fn encode_global_set(
    eid: &FieldValue,
    emid: &FieldValue,
    moid: &FieldValue,
    idx: &FieldValue,
    vtype: &FieldValue,
    value: &FieldValue,
) -> (r: FieldValue)
    requires
        eid.wf(),
        emid.wf(),
        moid.wf(),
        idx.wf(),
        vtype.wf(),
        value.wf(),
    ensures
        r.wf(),
        r@ == global_set_encoding(eid@, emid@, moid@, idx@, vtype@, value@),
{
    encode_for_lookup(
        eid,
        emid,
        moid,
        idx,
        &FieldValue::from_u64(LocationType::Global.index()),
        &FieldValue::from_u64(AccessType::Write.index()),
        vtype,
        value,
    )
}

/// The expression of a constant, named by its integer.
pub open spec fn constant_expr(n: nat) -> Expr {
    Expr::Constant(FieldValue::from_nat(n))
}

/// The expression of a component at its weight.
pub open spec fn scaled_expr(e: Expr, weight: nat) -> Expr {
    Expr::Product(Box::new(e), Box::new(constant_expr(weight)))
}

/// The sum of two expressions.
pub open spec fn sum_expr(a: Expr, b: Expr) -> Expr {
    Expr::Sum(Box::new(a), Box::new(b))
}

/// The expression that encodes an access whose components are expressions:
/// the weighted sum, term by term from the step down to the value.
pub open spec fn lookup_expr(
    eid: Expr,
    emid: Expr,
    mmid: Expr,
    offset: Expr,
    ltype: Expr,
    atype: Expr,
    vtype: Expr,
    value: Expr,
) -> Expr {
    let s1 = scaled_expr(eid, eid_shift());
    let s2 = sum_expr(s1, scaled_expr(emid, emid_shift()));
    let s3 = sum_expr(s2, scaled_expr(mmid, mmid_shift()));
    let s4 = sum_expr(s3, scaled_expr(offset, offset_shift()));
    let s5 = sum_expr(s4, scaled_expr(ltype, ltype_shift()));
    let s6 = sum_expr(s5, scaled_expr(atype, atype_shift()));
    let s7 = sum_expr(s6, scaled_expr(vtype, vtype_shift()));
    sum_expr(s7, value)
}

/// The expression that encodes a read from the stack.
pub open spec fn stack_read_expr(eid: Expr, emid: Expr, sp: Expr, vtype: Expr, value: Expr) -> Expr {
    lookup_expr(
        eid,
        emid,
        constant_expr(0),
        sp,
        constant_expr(LocationType::Stack.number()),
        constant_expr(AccessType::Read.number()),
        vtype,
        value,
    )
}

/// The expression that encodes a write to the stack.
pub open spec fn stack_write_expr(
    eid: Expr,
    emid: Expr,
    sp: Expr,
    vtype: Expr,
    value: Expr,
) -> Expr {
    lookup_expr(
        eid,
        emid,
        constant_expr(0),
        sp,
        constant_expr(LocationType::Stack.number()),
        constant_expr(AccessType::Write.number()),
        vtype,
        value,
    )
}

/// The expression that encodes a read of a global variable.
pub open spec fn global_get_expr(
    eid: Expr,
    emid: Expr,
    moid: Expr,
    idx: Expr,
    vtype: Expr,
    value: Expr,
) -> Expr {
    lookup_expr(
        eid,
        emid,
        moid,
        idx,
        constant_expr(LocationType::Global.number()),
        constant_expr(AccessType::Read.number()),
        vtype,
        value,
    )
}

/// The expression that encodes a write of a global variable.
pub open spec fn global_set_expr(
    eid: Expr,
    emid: Expr,
    moid: Expr,
    idx: Expr,
    vtype: Expr,
    value: Expr,
) -> Expr {
    lookup_expr(
        eid,
        emid,
        moid,
        idx,
        constant_expr(LocationType::Global.number()),
        constant_expr(AccessType::Write.number()),
        vtype,
        value,
    )
}

/// On every row the encoding expression takes the encoding of the values
/// that its components take.
pub proof fn lemma_lookup_expr_eval(
    eid: Expr,
    emid: Expr,
    mmid: Expr,
    offset: Expr,
    ltype: Expr,
    atype: Expr,
    vtype: Expr,
    value: Expr,
    row: Seq<nat>,
)
    ensures
        lookup_expr(eid, emid, mmid, offset, ltype, atype, vtype, value).eval(row)
            == lookup_encoding(
            eid.eval(row),
            emid.eval(row),
            mmid.eval(row),
            offset.eval(row),
            ltype.eval(row),
            atype.eval(row),
            vtype.eval(row),
            value.eval(row),
        ),
{
    lemma_scaled_expr_eval(eid, eid_shift(), row);
    lemma_scaled_expr_eval(emid, emid_shift(), row);
    lemma_scaled_expr_eval(mmid, mmid_shift(), row);
    lemma_scaled_expr_eval(offset, offset_shift(), row);
    lemma_scaled_expr_eval(ltype, ltype_shift(), row);
    lemma_scaled_expr_eval(atype, atype_shift(), row);
    lemma_scaled_expr_eval(vtype, vtype_shift(), row);
    let s1 = scaled_expr(eid, eid_shift());
    let s2 = sum_expr(s1, scaled_expr(emid, emid_shift()));
    let s3 = sum_expr(s2, scaled_expr(mmid, mmid_shift()));
    let s4 = sum_expr(s3, scaled_expr(offset, offset_shift()));
    let s5 = sum_expr(s4, scaled_expr(ltype, ltype_shift()));
    let s6 = sum_expr(s5, scaled_expr(atype, atype_shift()));
    let s7 = sum_expr(s6, scaled_expr(vtype, vtype_shift()));
    assert(s2.eval(row) == field_add(s1.eval(row), scaled_expr(emid, emid_shift()).eval(row)));
    assert(s3.eval(row) == field_add(s2.eval(row), scaled_expr(mmid, mmid_shift()).eval(row)));
    assert(s4.eval(row) == field_add(s3.eval(row), scaled_expr(offset, offset_shift()).eval(row)));
    assert(s5.eval(row) == field_add(s4.eval(row), scaled_expr(ltype, ltype_shift()).eval(row)));
    assert(s6.eval(row) == field_add(s5.eval(row), scaled_expr(atype, atype_shift()).eval(row)));
    assert(s7.eval(row) == field_add(s6.eval(row), scaled_expr(vtype, vtype_shift()).eval(row)));
    assert(sum_expr(s7, value).eval(row) == field_add(s7.eval(row), value.eval(row)));
    lemma_folded_sum(
        eid.eval(row),
        emid.eval(row),
        mmid.eval(row),
        offset.eval(row),
        ltype.eval(row),
        atype.eval(row),
        vtype.eval(row),
        value.eval(row),
    );
}

/// A component at its weight takes the product of its value and the weight.
proof fn lemma_scaled_expr_eval(e: Expr, weight: nat, row: Seq<nat>)
    requires
        weight < modulus(),
    ensures
        scaled_expr(e, weight).eval(row) == field_mul(e.eval(row), weight),
{
    FieldValue::lemma_from_nat_value(weight);
    lemma_small_mod(weight, modulus());
    reveal_with_fuel(Expr::eval, 2);
}

/// A constant expression takes its integer on every row.
pub proof fn lemma_constant_expr_eval(n: nat, row: Seq<nat>)
    requires
        n < modulus(),
    ensures
        constant_expr(n).eval(row) == n,
        constant_expr(n).wf(),
{
    FieldValue::lemma_from_nat_value(n);
    lemma_small_mod(n, modulus());
}

/// Builds the expression of a component at a weight.
fn scale(e: Expr, l1: u64, l2: u64) -> (r: Expr)
    requires
        e.wf(),
    ensures
        r.wf(),
        r == scaled_expr(
            e,
            (l1 * 0x1_0000_0000_0000_0000 + l2 * 0x1_0000_0000_0000_0000_0000_0000_0000_0000int) as nat,
        ),
{
    proof {
        reveal_with_fuel(Expr::wf, 2);
    }
    Expr::Product(Box::new(e), Box::new(Expr::Constant(weight(l1, l2))))
}

/// Builds the expression of a constant that fits a machine word.
pub fn constant_from(n: u64) -> (r: Expr)
    ensures
        r.wf(),
        r == constant_expr(n as nat),
{
    let c = FieldValue::from_u64(n);
    proof {
        FieldValue::lemma_from_nat(c);
    }
    Expr::Constant(c)
}

/// Builds the expression that encodes an access whose components are
/// expressions.
pub fn encode_for_lookup_expr(
    eid: Expr,
    emid: Expr,
    mmid: Expr,
    offset: Expr,
    ltype: Expr,
    atype: Expr,
    vtype: Expr,
    value: Expr,
) -> (r: Expr)
    requires
        eid.wf(),
        emid.wf(),
        mmid.wf(),
        offset.wf(),
        ltype.wf(),
        atype.wf(),
        vtype.wf(),
        value.wf(),
    ensures
        r.wf(),
        r == lookup_expr(eid, emid, mmid, offset, ltype, atype, vtype, value),
{
    let s1 = scale(eid, 0, 0x1_0000_0000);
    let s2 = Expr::Sum(Box::new(s1), Box::new(scale(emid, 0, 0x1_0000)));
    let s3 = Expr::Sum(Box::new(s2), Box::new(scale(mmid, 0, 1)));
    let s4 = Expr::Sum(Box::new(s3), Box::new(scale(offset, 0x1_0000_0000, 0)));
    let s5 = Expr::Sum(Box::new(s4), Box::new(scale(ltype, 0x100_0000, 0)));
    let s6 = Expr::Sum(Box::new(s5), Box::new(scale(atype, 0x1_0000, 0)));
    let s7 = Expr::Sum(Box::new(s6), Box::new(scale(vtype, 1, 0)));
    proof {
        assert(s2.wf());
        assert(s3.wf());
        assert(s4.wf());
        assert(s5.wf());
        assert(s6.wf());
        assert(s7.wf());
    }
    Expr::Sum(Box::new(s7), Box::new(value))
}

/// Builds the expression that encodes a read from the stack.
pub fn encode_stack_read_expr(eid: Expr, emid: Expr, sp: Expr, vtype: Expr, value: Expr) -> (r:
    Expr)
    requires
        eid.wf(),
        emid.wf(),
        sp.wf(),
        vtype.wf(),
        value.wf(),
    ensures
        r.wf(),
        r == stack_read_expr(eid, emid, sp, vtype, value),
{
    encode_for_lookup_expr(
        eid,
        emid,
        constant_from(0),
        sp,
        constant_from(LocationType::Stack.index()),
        constant_from(AccessType::Read.index()),
        vtype,
        value,
    )
}

/// Builds the expression that encodes a write to the stack.
pub fn encode_stack_write_expr(eid: Expr, emid: Expr, sp: Expr, vtype: Expr, value: Expr) -> (r:
    Expr)
    requires
        eid.wf(),
        emid.wf(),
        sp.wf(),
        vtype.wf(),
        value.wf(),
    ensures
        r.wf(),
        r == stack_write_expr(eid, emid, sp, vtype, value),
{
    encode_for_lookup_expr(
        eid,
        emid,
        constant_from(0),
        sp,
        constant_from(LocationType::Stack.index()),
        constant_from(AccessType::Write.index()),
        vtype,
        value,
    )
}

/// Builds the expression that encodes a read of a global variable.
pub fn encode_global_get_expr(
    eid: Expr,
    emid: Expr,
    moid: Expr,
    idx: Expr,
    vtype: Expr,
    value: Expr,
) -> (r: Expr)
    requires
        eid.wf(),
        emid.wf(),
        moid.wf(),
        idx.wf(),
        vtype.wf(),
        value.wf(),
    ensures
        r.wf(),
        r == global_get_expr(eid, emid, moid, idx, vtype, value),
{
    encode_for_lookup_expr(
        eid,
        emid,
        moid,
        idx,
        constant_from(LocationType::Global.index()),
        constant_from(AccessType::Read.index()),
        vtype,
        value,
    )
}

/// Builds the expression that encodes a write of a global variable.
pub fn encode_global_set_expr(
    eid: Expr,
    emid: Expr,
    moid: Expr,
    idx: Expr,
    vtype: Expr,
    value: Expr,
) -> (r: Expr)
    requires
        eid.wf(),
        emid.wf(),
        moid.wf(),
        idx.wf(),
        vtype.wf(),
        value.wf(),
    ensures
        r.wf(),
        r == global_set_expr(eid, emid, moid, idx, vtype, value),
{
    encode_for_lookup_expr(
        eid,
        emid,
        moid,
        idx,
        constant_from(LocationType::Global.index()),
        constant_from(AccessType::Write.index()),
        vtype,
        value,
    )
}

} // verus!
