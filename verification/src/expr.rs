//! Polynomial expressions over the cells of a row.
//!
//! An expression is a tree of field constants and cell queries under
//! negation, sum and product. Its meaning is the field element that it takes
//! on a given row.

use crate::field::{field_add, field_mul, field_neg, modulus, FieldValue};
use crate::row::{cell_value, Cell, Context};
use vstd::arithmetic::div_mod::lemma_small_mod;
use vstd::prelude::*;

verus! {

/// A polynomial over the cells of the current row.
#[derive(Debug)]
pub enum Expr {
    /// A fixed field element.
    Constant(FieldValue),
    /// The value of a cell.
    Query(Cell),
    /// The additive inverse of an expression.
    Negated(Box<Expr>),
    /// The sum of two expressions.
    Sum(Box<Expr>, Box<Expr>),
    /// The product of two expressions.
    Product(Box<Expr>, Box<Expr>),
}

impl Expr {
    /// Every constant of the expression is a canonical field element.
    pub open spec fn wf(self) -> bool
        decreases self,
    {
        match self {
            Expr::Constant(c) => c.wf(),
            Expr::Query(_) => true,
            Expr::Negated(e) => e.wf(),
            Expr::Sum(a, b) => a.wf() && b.wf(),
            Expr::Product(a, b) => a.wf() && b.wf(),
        }
    }

    /// The field element that the expression takes on a row.
    pub open spec fn eval(self, row: Seq<nat>) -> nat
        decreases self,
    {
        match self {
            Expr::Constant(c) => c@ % modulus(),
            Expr::Query(cell) => cell_value(row, cell),
            Expr::Negated(e) => field_neg(e.eval(row)),
            Expr::Sum(a, b) => field_add(a.eval(row), b.eval(row)),
            Expr::Product(a, b) => field_mul(a.eval(row), b.eval(row)),
        }
    }

    /// The difference of two expressions: the sum of the first and the
    /// negated second.
    pub open spec fn difference(a: Expr, b: Expr) -> Expr {
        Expr::Sum(Box::new(a), Box::new(Expr::Negated(Box::new(b))))
    }

    /// Builds the difference of two expressions.
    pub fn sub(a: Expr, b: Expr) -> (r: Expr)
        ensures
            r == Expr::difference(a, b),
    {
        Expr::Sum(Box::new(a), Box::new(Expr::Negated(Box::new(b))))
    }

    /// Computes the value of the expression on a row.
    pub fn evaluate(&self, ctx: &Context) -> (r: FieldValue)
        requires
            self.wf(),
            ctx.wf(),
        ensures
            r.wf(),
            r@ == self.eval(ctx@),
        decreases self,
    {
        match self {
            Expr::Constant(c) => {
                proof {
                    lemma_small_mod(c@, modulus());
                }
                *c
            },
            Expr::Query(cell) => ctx.get(*cell),
            Expr::Negated(e) => e.evaluate(ctx).neg(),
            Expr::Sum(a, b) => a.evaluate(ctx).add(&b.evaluate(ctx)),
            Expr::Product(a, b) => a.evaluate(ctx).mul(&b.evaluate(ctx)),
        }
    }
}

} // verus!
