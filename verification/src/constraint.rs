//! Named polynomial identities.
//!
//! A constraint is a list of expressions under a name. It holds on a row
//! when every one of its expressions takes the value zero there. The builder
//! collects the constraints of all instructions, in the order in which they
//! were registered; names serve diagnostics and may repeat.

use crate::expr::Expr;
use crate::row::Context;
use vstd::prelude::*;

verus! {

/// A constraint as contracts speak of it: its name and its expressions.
pub ghost struct ConstraintView {
    pub name: Seq<char>,
    pub exprs: Seq<Expr>,
}

impl ConstraintView {
    /// Every expression is well formed.
    pub open spec fn wf(self) -> bool {
        forall|i: int| 0 <= i < self.exprs.len() ==> (#[trigger] self.exprs[i]).wf()
    }

    /// Every expression vanishes on the row.
    pub open spec fn satisfied(self, row: Seq<nat>) -> bool {
        forall|i: int| 0 <= i < self.exprs.len() ==> (#[trigger] self.exprs[i]).eval(row) == 0
    }
}

/// A list of expressions that must all vanish, under a name.
pub struct Constraint {
    pub name: &'static str,
    pub exprs: Vec<Expr>,
}

impl View for Constraint {
    type V = ConstraintView;

    open spec fn view(&self) -> ConstraintView {
        ConstraintView { name: self.name@, exprs: self.exprs@ }
    }
}

impl Constraint {
    /// Whether every expression of the constraint vanishes on the row.
    pub fn is_satisfied(&self, ctx: &Context) -> (r: bool)
        requires
            self@.wf(),
            ctx.wf(),
        ensures
            r == self@.satisfied(ctx@),
    {
        let mut i: usize = 0;
        while i < self.exprs.len()
            invariant
                i <= self.exprs@.len(),
                self@.wf(),
                ctx.wf(),
                forall|j: int| 0 <= j < i ==> (#[trigger] self.exprs@[j]).eval(ctx@) == 0,
            decreases self.exprs@.len() - i,
        {
            assert(self@.exprs[i as int].wf());
            if !self.exprs[i].evaluate(ctx).is_zero() {
                return false;
            }
            i = i + 1;
        }
        true
    }
}

/// The constraints registered so far.
pub struct ConstraintBuilder {
    constraints: Vec<Constraint>,
}

impl View for ConstraintBuilder {
    type V = Seq<ConstraintView>;

    closed spec fn view(&self) -> Seq<ConstraintView> {
        Seq::new(self.constraints@.len(), |i: int| self.constraints@[i]@)
    }
}

impl ConstraintBuilder {
    /// Every registered constraint is well formed.
    pub open spec fn wf(&self) -> bool {
        forall|i: int| 0 <= i < self@.len() ==> (#[trigger] self@[i]).wf()
    }

    /// Every registered constraint holds on the row.
    pub open spec fn satisfied(&self, row: Seq<nat>) -> bool {
        forall|i: int| 0 <= i < self@.len() ==> (#[trigger] self@[i]).satisfied(row)
    }

    /// Constraints only add up: after one more is registered, all hold on a
    /// row exactly when those before it held and the new one holds.
    pub proof fn lemma_push_satisfied(
        before: ConstraintBuilder,
        after: ConstraintBuilder,
        constraint: ConstraintView,
        row: Seq<nat>,
    )
        requires
            after@ == before@.push(constraint),
        ensures
            after.satisfied(row) <==> before.satisfied(row) && constraint.satisfied(row),
    {
        if after.satisfied(row) {
            assert(after@[before@.len() as int] == constraint);
            assert forall|i: int| 0 <= i < before@.len() implies (#[trigger] before@[i]).satisfied(
                row,
            ) by {
                assert(after@[i] == before@[i]);
            }
        }
    }

    /// A builder without constraints.
    pub fn new() -> (r: ConstraintBuilder)
        ensures
            r@ == Seq::<ConstraintView>::empty(),
            r.wf(),
    {
        let r = ConstraintBuilder { constraints: Vec::new() };
        assert(r@ =~= Seq::<ConstraintView>::empty());
        r
    }

    /// Registers a constraint behind those that are there.
    pub fn push(&mut self, name: &'static str, exprs: Vec<Expr>)
        requires
            old(self).wf(),
            forall|i: int| 0 <= i < exprs@.len() ==> (#[trigger] exprs@[i]).wf(),
        ensures
            final(self).wf(),
            final(self)@ == old(self)@.push(ConstraintView { name: name@, exprs: exprs@ }),
    {
        self.constraints.push(Constraint { name, exprs });
        assert(self@ =~= old(self)@.push(ConstraintView { name: name@, exprs: exprs@ }));
    }

    /// The number of registered constraints.
    pub fn len(&self) -> (r: usize)
        ensures
            r == self@.len(),
    {
        self.constraints.len()
    }

    /// The constraint registered at a position.
    pub fn get(&self, index: usize) -> (r: &Constraint)
        requires
            index < self@.len(),
        ensures
            r@ == self@[index as int],
    {
        &self.constraints[index]
    }

    /// The position of the first constraint that does not hold on the row,
    /// if there is one.
    pub fn first_violated(&self, ctx: &Context) -> (r: Option<usize>)
        requires
            self.wf(),
            ctx.wf(),
        ensures
            r is None <==> self.satisfied(ctx@),
            r matches Some(i) ==> i < self@.len() && !self@[i as int].satisfied(ctx@) && forall|
                j: int,
            | 0 <= j < i ==> (#[trigger] self@[j]).satisfied(ctx@),
    {
        let mut i: usize = 0;
        while i < self.constraints.len()
            invariant
                i <= self@.len(),
                self@.len() == self.constraints@.len(),
                self.wf(),
                ctx.wf(),
                forall|j: int| 0 <= j < i ==> (#[trigger] self@[j]).satisfied(ctx@),
            decreases self@.len() - i,
        {
            assert(self@[i as int] == self.constraints@[i as int]@);
            if !self.constraints[i].is_satisfied(ctx) {
                return Some(i);
            }
            i = i + 1;
        }
        None
    }
}

} // verus!
