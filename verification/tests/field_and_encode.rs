use etable_compact::expr::Expr;
use etable_compact::field::FieldValue;
use etable_compact::mtable_encode::{
    constant_from, encode_for_lookup, encode_for_lookup_expr, encode_global_get,
    encode_global_get_expr, encode_global_set, encode_global_set_expr, encode_stack_read,
    encode_stack_read_expr, encode_stack_write, encode_stack_write_expr, AccessType, LocationType,
};
use etable_compact::row::{AssignError, Cell, Context};
use etable_compact::step;

const MODULUS: [u64; 4] = [0x992d30ed00000001, 0x224698fc094cf91b, 0, 0x4000000000000000];

fn value(limbs: [u64; 4]) -> FieldValue {
    FieldValue::from_raw(limbs).unwrap()
}

fn word(x: u64) -> FieldValue {
    FieldValue::from_u64(x)
}

#[test]
fn from_raw_accepts_exactly_the_integers_below_the_modulus() {
    assert!(FieldValue::from_raw([0, 0, 0, 0]).is_some());
    assert!(FieldValue::from_raw([MODULUS[0] - 1, MODULUS[1], MODULUS[2], MODULUS[3]]).is_some());
    assert!(FieldValue::from_raw(MODULUS).is_none());
    assert!(FieldValue::from_raw([MODULUS[0] + 1, MODULUS[1], 0, MODULUS[3]]).is_none());
    assert!(FieldValue::from_raw([0, MODULUS[1] + 1, 0, MODULUS[3]]).is_none());
    assert!(FieldValue::from_raw([u64::MAX, MODULUS[1] - 1, 0, MODULUS[3]]).is_some());
    assert!(FieldValue::from_raw([0, 0, 1, MODULUS[3]]).is_none());
    assert!(FieldValue::from_raw([u64::MAX, u64::MAX, u64::MAX, MODULUS[3] - 1]).is_some());
    assert!(FieldValue::from_raw([0, 0, 0, MODULUS[3] + 1]).is_none());
    assert!(FieldValue::from_raw([u64::MAX; 4]).is_none());
}

#[test]
fn raw_limbs_round_trip() {
    let limbs = [1, 2, 3, 4];
    assert_eq!(value(limbs).to_raw(), limbs);
    assert_eq!(word(77).to_raw(), [77, 0, 0, 0]);
    assert_eq!(FieldValue::zero().to_raw(), [0, 0, 0, 0]);
    assert_eq!(FieldValue::one().to_raw(), [1, 0, 0, 0]);
    assert!(FieldValue::zero().is_zero());
    assert!(!FieldValue::one().is_zero());
    assert!(!value([0, 0, 0, 1]).is_zero());
}

#[test]
fn addition_reduces_by_the_modulus() {
    assert_eq!(word(2).add(&word(3)), word(5));
    assert_eq!(word(u64::MAX).add(&word(1)), value([0, 1, 0, 0]));
    let last = value([MODULUS[0] - 1, MODULUS[1], MODULUS[2], MODULUS[3]]);
    assert_eq!(last.add(&word(1)), FieldValue::zero());
    assert_eq!(last.add(&word(6)), word(5));
    assert_eq!(last.add(&last), value([MODULUS[0] - 2, MODULUS[1], MODULUS[2], MODULUS[3]]));
    assert_eq!(word(9).add(&FieldValue::zero()), word(9));
}

#[test]
fn multiplication_reduces_by_the_modulus() {
    assert_eq!(word(6).mul(&word(7)), word(42));
    assert_eq!(word(1 << 32).mul(&word(1 << 32)), value([0, 1, 0, 0]));
    assert_eq!(value([0, 0, 1, 0]).mul(&value([0, 1, 0, 0])), value([0, 0, 0, 1]));
    let last = value([MODULUS[0] - 1, MODULUS[1], MODULUS[2], MODULUS[3]]);
    // (-1) * (-1) = 1 and (-1) * 2 = -2
    assert_eq!(last.mul(&last), FieldValue::one());
    assert_eq!(last.mul(&word(2)), value([MODULUS[0] - 2, MODULUS[1], MODULUS[2], MODULUS[3]]));
    assert_eq!(word(9).mul(&FieldValue::zero()), FieldValue::zero());
    assert_eq!(word(9).mul(&FieldValue::one()), word(9));
    // 2^128 * 2^128 = 2^256, which is 2^256 - 3 * modulus after reduction
    assert_eq!(
        value([0, 0, 1, 0]).mul(&value([0, 0, 1, 0])),
        value([0x34786d38fffffffd, 0x992c350be41914ad, 0xffffffffffffffff, 0x3fffffffffffffff])
    );
}

#[test]
fn negation_is_the_additive_inverse() {
    assert_eq!(FieldValue::zero().neg(), FieldValue::zero());
    assert_eq!(
        FieldValue::one().neg(),
        value([MODULUS[0] - 1, MODULUS[1], MODULUS[2], MODULUS[3]])
    );
    assert_eq!(FieldValue::one().neg().neg(), FieldValue::one());
    assert_eq!(word(5).neg().add(&word(5)), FieldValue::zero());
    assert_eq!(
        value([0, 0, 0, 1]).neg(),
        value([MODULUS[0], MODULUS[1], MODULUS[2], MODULUS[3] - 1])
    );
}

#[test]
fn expressions_evaluate_over_the_row() {
    let mut ctx = Context::new(3);
    assert_eq!(ctx.len(), 3);
    assert_eq!(ctx.set(Cell { index: 0 }, word(4)), Ok(()));
    assert_eq!(ctx.set(Cell { index: 1 }, word(6)), Ok(()));
    assert_eq!(ctx.set(Cell { index: 3 }, word(6)), Err(AssignError::CellOutOfBounds));
    let a = || Expr::Query(Cell { index: 0 });
    let b = || Expr::Query(Cell { index: 1 });
    assert_eq!(a().evaluate(&ctx), word(4));
    assert_eq!(Expr::Query(Cell { index: 2 }).evaluate(&ctx), FieldValue::zero());
    assert_eq!(Expr::Query(Cell { index: 9 }).evaluate(&ctx), FieldValue::zero());
    assert_eq!(Expr::Constant(word(8)).evaluate(&ctx), word(8));
    assert_eq!(Expr::Sum(Box::new(a()), Box::new(b())).evaluate(&ctx), word(10));
    assert_eq!(Expr::Product(Box::new(a()), Box::new(b())).evaluate(&ctx), word(24));
    assert_eq!(Expr::Negated(Box::new(a())).evaluate(&ctx), word(4).neg());
    assert_eq!(Expr::sub(b(), a()).evaluate(&ctx), word(2));
    assert_eq!(Expr::sub(a(), b()).evaluate(&ctx), word(2).neg());
    assert_eq!(Expr::sub(a(), a()).evaluate(&ctx), FieldValue::zero());
    assert_eq!(constant_from(12).evaluate(&ctx), word(12));
}

#[test]
fn an_access_is_the_weighted_sum_of_its_components() {
    let encoded = encode_for_lookup(
        &word(0x1111),
        &word(0x2222),
        &word(0x3333),
        &word(0x4444_5555),
        &word(0x66),
        &word(0x77),
        &word(0x8888),
        &word(0x9999_aaaa_bbbb_cccc),
    );
    assert_eq!(
        encoded,
        value([0x9999_aaaa_bbbb_cccc, 0x4444_5555_6677_8888, 0x0000_1111_2222_3333, 0])
    );
    // a 64-bit step index reaches into the fourth limb
    let wide = encode_for_lookup(
        &word(u64::MAX),
        &word(0),
        &word(0),
        &word(0),
        &word(0),
        &word(0),
        &word(0),
        &word(0),
    );
    assert_eq!(wide, value([0, 0, 0xffff_ffff_0000_0000, 0x0000_0000_ffff_ffff]));
}

#[test]
fn components_beyond_their_width_carry_into_the_next() {
    // a type of 2^16 lands where the direction starts
    let carried = encode_for_lookup(
        &word(0),
        &word(0),
        &word(0),
        &word(0),
        &word(0),
        &word(0),
        &word(0x1_0000),
        &word(0),
    );
    let direction = encode_for_lookup(
        &word(0),
        &word(0),
        &word(0),
        &word(0),
        &word(0),
        &word(1),
        &word(0),
        &word(0),
    );
    assert_eq!(carried, direction);
}

#[test]
fn the_four_accesses_differ_in_kind_and_direction() {
    let eid = word(3);
    let emid = word(1);
    let at = word(9);
    let vtype = word(1);
    let v = word(10);
    assert_eq!(
        encode_stack_read(&eid, &emid, &at, &vtype, &v),
        value([10, 0x0000_0009_0101_0001, 0x0000_0003_0001_0000, 0])
    );
    assert_eq!(
        encode_stack_write(&eid, &emid, &at, &vtype, &v),
        value([10, 0x0000_0009_0102_0001, 0x0000_0003_0001_0000, 0])
    );
    let moid = word(4);
    assert_eq!(
        encode_global_get(&eid, &emid, &moid, &at, &vtype, &v),
        value([10, 0x0000_0009_0301_0001, 0x0000_0003_0001_0004, 0])
    );
    assert_eq!(
        encode_global_set(&eid, &emid, &moid, &at, &vtype, &v),
        value([10, 0x0000_0009_0302_0001, 0x0000_0003_0001_0004, 0])
    );
    assert_eq!(LocationType::Stack.index(), 1);
    assert_eq!(LocationType::Heap.index(), 2);
    assert_eq!(LocationType::Global.index(), 3);
    assert_eq!(AccessType::Read.index(), 1);
    assert_eq!(AccessType::Write.index(), 2);
    assert_eq!(AccessType::Init.index(), 3);
}

#[test]
fn distinct_accesses_have_distinct_encodings() {
    let base = encode_global_get(&word(1), &word(1), &word(0), &word(0), &word(1), &word(10));
    assert_ne!(base, encode_global_get(&word(2), &word(1), &word(0), &word(0), &word(1), &word(10)));
    assert_ne!(base, encode_global_get(&word(1), &word(2), &word(0), &word(0), &word(1), &word(10)));
    assert_ne!(base, encode_global_get(&word(1), &word(1), &word(1), &word(0), &word(1), &word(10)));
    assert_ne!(base, encode_global_get(&word(1), &word(1), &word(0), &word(1), &word(1), &word(10)));
    assert_ne!(base, encode_global_get(&word(1), &word(1), &word(0), &word(0), &word(2), &word(10)));
    assert_ne!(base, encode_global_get(&word(1), &word(1), &word(0), &word(0), &word(1), &word(11)));
    assert_ne!(base, encode_global_set(&word(1), &word(1), &word(0), &word(0), &word(1), &word(10)));
    assert_eq!(base, encode_global_get(&word(1), &word(1), &word(0), &word(0), &word(1), &word(10)));
}

#[test]
fn expressions_encode_as_values_do() {
    let mut ctx = Context::new(6);
    let values = [3, 1, 4, 9, 2, 10];
    for (i, v) in values.iter().enumerate() {
        assert_eq!(ctx.set(Cell { index: i }, word(*v)), Ok(()));
    }
    let q = |i: usize| Expr::Query(Cell { index: i });
    let w = |i: usize| word(values[i]);
    assert_eq!(
        encode_global_get_expr(q(0), q(1), q(2), q(3), q(4), q(5)).evaluate(&ctx),
        encode_global_get(&w(0), &w(1), &w(2), &w(3), &w(4), &w(5))
    );
    assert_eq!(
        encode_global_set_expr(q(0), q(1), q(2), q(3), q(4), q(5)).evaluate(&ctx),
        encode_global_set(&w(0), &w(1), &w(2), &w(3), &w(4), &w(5))
    );
    assert_eq!(
        encode_stack_read_expr(q(0), q(1), q(3), q(4), q(5)).evaluate(&ctx),
        encode_stack_read(&w(0), &w(1), &w(3), &w(4), &w(5))
    );
    assert_eq!(
        encode_stack_write_expr(q(0), q(1), q(3), q(4), q(5)).evaluate(&ctx),
        encode_stack_write(&w(0), &w(1), &w(3), &w(4), &w(5))
    );
    assert_eq!(
        encode_for_lookup_expr(q(0), q(1), q(2), q(3), q(4), q(5), q(0), q(1)).evaluate(&ctx),
        encode_for_lookup(&w(0), &w(1), &w(2), &w(3), &w(4), &w(5), &w(0), &w(1))
    );
}

#[test]
fn the_tag_of_global_get_over_an_operand() {
    let mut ctx = Context::new(1);
    assert_eq!(ctx.set(Cell { index: 0 }, word(0x1234)), Ok(()));
    let tag = step::encode_global_get(Expr::Query(Cell { index: 0 }));
    assert_eq!(tag.evaluate(&ctx), value([0, 0x0000_0003_0000_1234, 0, 0]));
    assert_eq!(tag.evaluate(&Context::new(0)), value([0, 0x0000_0003_0000_0000, 0, 0]));
}
