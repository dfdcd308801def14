//! The instruction `global.get`: it reads a global variable and pushes the
//! value onto the stack.
//!
//! The instruction owns cells for its operand, for the module and index
//! where the variable is defined, for the type and for the value, and two
//! cells for its memory accesses: the read of the global and the write to
//! the stack. Its one constraint ties the place where the variable is
//! defined to the current module and the operand.

use crate::allocator::{
    lemma_u16_limbs, u16_limb, CellKind, CommonRangeCell, EventTableCellAllocator,
    EventTableCommonConfig, MTableLookupCell, U64Cell, COMMON_CELLS, COMMON_RANGE,
};
use crate::constraint::{ConstraintBuilder, ConstraintView};
use crate::expr::Expr;
use crate::field::{
    field_add, field_neg, lemma_add_minus_one, lemma_difference_zero, modulus, FieldValue,
};
use crate::mtable_encode::{
    constant_expr, constant_from, encode_global_get, encode_global_get_expr, encode_stack_write,
    encode_stack_write_expr, global_get_encoding, global_get_expr, lemma_constant_expr_eval,
    lemma_lookup_expr_eval, stack_write_encoding, stack_write_expr, AccessType, LocationType,
};
use crate::row::{cell_value, AssignError, Context};
use crate::step;
use crate::step::{
    global_get_tag, lemma_global_get_tag_eval, EventTableEntry, Opcode, OpcodeClass, StepInfo,
    StepStatus,
};
use vstd::arithmetic::div_mod::{lemma_mod_twice, lemma_small_mod};
use vstd::prelude::*;

verus! {

/// The number of cells that the instruction owns.
pub const GLOBAL_GET_CELLS: usize = 11;

/// The position of a memory access among those of one step.
#[derive(Clone, Copy, Debug, PartialEq, Eq, Structural)]
pub enum MLookupItem {
    First,
    Second,
    Third,
    Fourth,
}

/// The cells of `global.get`.
#[derive(Clone, Copy, Debug)]
pub struct GlobalGetConfig {
    pub origin_moid: CommonRangeCell,
    pub origin_idx: CommonRangeCell,
    pub idx: CommonRangeCell,
    pub vtype: CommonRangeCell,
    pub value: U64Cell,
    pub lookup_global_read: MTableLookupCell,
    pub lookup_stack_write: MTableLookupCell,
}

/// Configures `global.get`.
pub struct GlobalGetConfigBuilder {}

impl GlobalGetConfigBuilder {
    /// Allocates the cells of the instruction, in the order of the fields
    /// of its configuration, and registers its constraint.
    pub fn configure(
        common: &mut EventTableCellAllocator,
        constraint_builder: &mut ConstraintBuilder,
    ) -> (r: GlobalGetConfig)
        requires
            old(common).wf(),
            old(common)@.len() + GLOBAL_GET_CELLS <= old(common).capacity(),
            old(constraint_builder).wf(),
        ensures
            final(common).wf(),
            final(common).capacity() == old(common).capacity(),
            final(common)@ == old(common)@ + GlobalGetConfig::layout(),
            r.wf(),
            r.origin_moid.cell.index == old(common)@.len(),
            final(constraint_builder).wf(),
            final(constraint_builder)@ == old(constraint_builder)@.push(r.constraint()),
    {
        let origin_moid = common.alloc_common_range_value();
        let origin_idx = common.alloc_common_range_value();
        let moid = common.moid_cell();
        let idx = common.alloc_common_range_value();

        let vtype = common.alloc_common_range_value();
        let value = common.alloc_u64();

        let lookup_global_read = common.alloc_mtable_lookup();
        let lookup_stack_write = common.alloc_mtable_lookup();

        let mut exprs: Vec<Expr> = Vec::new();
        exprs.push(Expr::sub(origin_moid.expr(), moid.expr()));
        exprs.push(Expr::sub(origin_idx.expr(), idx.expr()));

        let r = GlobalGetConfig {
            origin_moid,
            origin_idx,
            idx,
            vtype,
            value,
            lookup_global_read,
            lookup_stack_write,
        };
        proof {
            reveal_with_fuel(Expr::wf, 3);
            assert(exprs@ =~= r.constraint().exprs);
            assert(common@ =~= old(common)@ + GlobalGetConfig::layout());
        }
        constraint_builder.push("op_global_get idx constraints", exprs);
        r
    }
}

impl GlobalGetConfig {
    /// The cells lie in a row behind the shared cells, in the order of the
    /// fields.
    pub open spec fn wf(self) -> bool {
        &&& self.origin_moid.cell.index >= COMMON_CELLS
        &&& self.origin_idx.cell.index == self.origin_moid.cell.index + 1
        &&& self.idx.cell.index == self.origin_moid.cell.index + 2
        &&& self.vtype.cell.index == self.origin_moid.cell.index + 3
        &&& self.value.value_cell.index == self.origin_moid.cell.index + 4
        &&& self.value.wf()
        &&& self.lookup_global_read.cell.index == self.origin_moid.cell.index + 9
        &&& self.lookup_stack_write.cell.index == self.origin_moid.cell.index + 10
    }

    /// The kinds of the cells, in the order of their allocation.
    pub open spec fn layout() -> Seq<CellKind> {
        seq![
            CellKind::CommonRange,
            CellKind::CommonRange,
            CellKind::CommonRange,
            CellKind::CommonRange,
            CellKind::U64,
            CellKind::CommonRange,
            CellKind::CommonRange,
            CellKind::CommonRange,
            CellKind::CommonRange,
            CellKind::MTableLookup,
            CellKind::MTableLookup,
        ]
    }

    /// The constraint of the instruction: the module where the variable is
    /// defined is the current module, and its index there is the operand.
    pub open spec fn constraint(self) -> ConstraintView {
        ConstraintView {
            name: "op_global_get idx constraints"@,
            exprs: seq![
                Expr::difference(
                    Expr::Query(self.origin_moid.cell),
                    Expr::Query(EventTableCellAllocator::common().moid.cell),
                ),
                Expr::difference(Expr::Query(self.origin_idx.cell), Expr::Query(self.idx.cell)),
            ],
        }
    }

    /// The expression that selects the rows of this instruction.
    pub open spec fn opcode_expr(self) -> Expr {
        global_get_tag(Expr::Query(self.idx.cell))
    }

    /// The change of the stack pointer as an expression: the constant
    /// minus one.
    pub open spec fn sp_diff_expr() -> Expr {
        constant_expr((modulus() - 1) as nat)
    }

    /// The number of memory accesses as an expression: the constant two.
    pub open spec fn mops_expr() -> Expr {
        constant_expr(2)
    }

    /// The expression of a memory access of the instruction: first the read
    /// of the global, second the write to the stack, and no others.
    pub open spec fn lookup_expr(self, item: MLookupItem, common: EventTableCommonConfig) -> Option<
        Expr,
    > {
        match item {
            MLookupItem::First => Some(
                global_get_expr(
                    Expr::Query(common.eid.cell),
                    constant_expr(1),
                    Expr::Query(self.origin_moid.cell),
                    Expr::Query(self.origin_idx.cell),
                    Expr::Query(self.vtype.cell),
                    Expr::Query(self.value.value_cell),
                ),
            ),
            MLookupItem::Second => Some(
                stack_write_expr(
                    Expr::Query(common.eid.cell),
                    constant_expr(2),
                    Expr::Query(common.sp.cell),
                    Expr::Query(self.vtype.cell),
                    Expr::Query(self.value.value_cell),
                ),
            ),
            _ => None,
        }
    }

    /// How the assignment of a step ends on a row of `len` cells. A step of
    /// another instruction is a defect of the dispatcher; the operand must
    /// fit its cell; and the row must have all cells of the instruction.
    pub open spec fn assign_result(self, len: nat, entry: EventTableEntry) -> Result<
        (),
        AssignError,
    > {
        match entry.step_info {
            StepInfo::GetGlobal { idx, .. } => {
                if idx >= COMMON_RANGE {
                    Err(AssignError::ValueOutOfRange)
                } else if self.lookup_stack_write.cell.index >= len {
                    Err(AssignError::CellOutOfBounds)
                } else {
                    Ok(())
                }
            },
            _ => Err(AssignError::DispatchDefect),
        }
    }

    /// The row after a step was assigned: every cell of the instruction
    /// holds what the step recorded, and the two lookup cells hold the
    /// encoded read of the global and the encoded write to the stack.
    pub open spec fn assigned(
        self,
        row: Seq<nat>,
        step_info: StepStatus,
        entry: EventTableEntry,
    ) -> Seq<nat> {
        match entry.step_info {
            StepInfo::GetGlobal { idx, origin_module, origin_idx, vtype, value } => {
                let cells = row.update(self.idx.cell.index as int, idx as nat).update(
                    self.origin_idx.cell.index as int,
                    origin_idx as nat,
                ).update(self.origin_moid.cell.index as int, origin_module as nat).update(
                    self.vtype.cell.index as int,
                    vtype.number(),
                );
                self.value.assigned(cells, value).update(
                    self.lookup_global_read.cell.index as int,
                    global_get_encoding(
                        step_info.current.eid as nat,
                        1,
                        origin_module as nat,
                        origin_idx as nat,
                        vtype.number(),
                        value as nat,
                    ),
                ).update(
                    self.lookup_stack_write.cell.index as int,
                    stack_write_encoding(
                        step_info.current.eid as nat,
                        2,
                        step_info.current.sp as nat,
                        vtype.number(),
                        value as nat,
                    ),
                )
            },
            _ => row,
        }
    }

    /// Builds the expression that selects the rows of this instruction: the
    /// encoding of `global.get` over the cell of the operand.
    pub fn opcode(&self) -> (r: Expr)
        ensures
            r == self.opcode_expr(),
            r.wf(),
    {
        step::encode_global_get(self.idx.expr())
    }

    /// Writes the witness of one step: the operand, the place where the
    /// variable is defined, the type, the value, and the two encoded memory
    /// accesses. On an error the row stays as it was.
    pub fn assign(&self, ctx: &mut Context, step_info: &StepStatus, entry: &EventTableEntry) -> (r:
        Result<(), AssignError>)
        requires
            self.wf(),
            old(ctx).wf(),
        ensures
            final(ctx).wf(),
            r == self.assign_result(old(ctx)@.len(), *entry),
            r is Ok ==> final(ctx)@ == self.assigned(old(ctx)@, *step_info, *entry),
            r is Err ==> final(ctx)@ == old(ctx)@,
    {
        match &entry.step_info {
            StepInfo::GetGlobal { idx, origin_module, origin_idx, vtype, value } => {
                if *idx as u64 >= COMMON_RANGE {
                    return Err(AssignError::ValueOutOfRange);
                }
                if self.lookup_stack_write.cell.index >= ctx.len() {
                    return Err(AssignError::CellOutOfBounds);
                }
                self.idx.assign(ctx, *idx as u64)?;
                self.origin_idx.assign(ctx, *origin_idx as u64)?;
                self.origin_moid.assign(ctx, *origin_module as u64)?;
                self.vtype.assign(ctx, vtype.index())?;
                self.value.assign(ctx, *value)?;

                let eid = FieldValue::from_u64(step_info.current.eid);
                let vtype = FieldValue::from_u64(vtype.index());
                let value = FieldValue::from_u64(*value);

                self.lookup_global_read.assign(
                    ctx,
                    &encode_global_get(
                        &eid,
                        &FieldValue::from_u64(1),
                        &FieldValue::from_u64(*origin_module as u64),
                        &FieldValue::from_u64(*origin_idx as u64),
                        &vtype,
                        &value,
                    ),
                )?;

                self.lookup_stack_write.assign(
                    ctx,
                    &encode_stack_write(
                        &eid,
                        &FieldValue::from_u64(2),
                        &FieldValue::from_u64(step_info.current.sp),
                        &vtype,
                        &value,
                    ),
                )?;

                Ok(())
            },
            _ => Err(AssignError::DispatchDefect),
        }
    }

    /// The kind of the instruction.
    pub fn opcode_class(&self) -> (r: OpcodeClass)
        ensures
            r == OpcodeClass::GlobalGet,
    {
        OpcodeClass::GlobalGet
    }

    /// The change of the stack pointer that the instruction causes: minus
    /// one, for the value that it pushes.
    pub fn sp_diff(&self) -> (r: Option<Expr>)
        ensures
            r == Some(Self::sp_diff_expr()),
            r->0.wf(),
    {
        let minus_one = FieldValue::one().neg();
        proof {
            assert(minus_one@ == modulus() - 1);
            FieldValue::lemma_from_nat(minus_one);
        }
        Some(Expr::Constant(minus_one))
    }

    /// The number of memory accesses of the instruction: two.
    pub fn mops(&self) -> (r: Option<Expr>)
        ensures
            r == Some(Self::mops_expr()),
            r->0.wf(),
    {
        let two = FieldValue::from_u64(2);
        proof {
            FieldValue::lemma_from_nat(two);
        }
        Some(Expr::Constant(two))
    }

    /// Builds the expression of a memory access of the instruction over its
    /// own cells and the shared ones.
    pub fn mtable_lookup(&self, item: MLookupItem, common_config: &EventTableCommonConfig) -> (r:
        Option<Expr>)
        ensures
            r == self.lookup_expr(item, *common_config),
            r matches Some(e) ==> e.wf(),
    {
        match item {
            MLookupItem::First => Some(
                encode_global_get_expr(
                    common_config.eid(),
                    constant_from(1),
                    self.origin_moid.expr(),
                    self.origin_idx.expr(),
                    self.vtype.expr(),
                    self.value.expr(),
                ),
            ),
            MLookupItem::Second => Some(
                encode_stack_write_expr(
                    common_config.eid(),
                    constant_from(2),
                    common_config.sp(),
                    self.vtype.expr(),
                    self.value.expr(),
                ),
            ),
            _ => None,
        }
    }

    /// What the cells hold after a step was assigned: each cell of the
    /// instruction holds what the step recorded, the row keeps its length,
    /// and the cells before those of the instruction keep their values.
    pub proof fn lemma_assigned_cells(
        self,
        row: Seq<nat>,
        step_info: StepStatus,
        entry: EventTableEntry,
    )
        requires
            self.wf(),
            self.assign_result(row.len(), entry) is Ok,
        ensures
            ({
                let after = self.assigned(row, step_info, entry);
                &&& entry.step_info is GetGlobal
                &&& after.len() == row.len()
                &&& forall|i: int| 0 <= i < self.origin_moid.cell.index ==> after[i] == row[i]
                &&& cell_value(after, self.idx.cell) == entry.step_info->idx
                &&& cell_value(after, self.origin_idx.cell) == entry.step_info->origin_idx
                &&& cell_value(after, self.origin_moid.cell) == entry.step_info->origin_module
                &&& cell_value(after, self.vtype.cell) == entry.step_info->vtype.number()
                &&& cell_value(after, self.value.value_cell) == entry.step_info->value
                &&& forall|k: int|
                    0 <= k < 4 ==> cell_value(after, #[trigger] self.value.u16_cells_le[k].cell)
                        == u16_limb(entry.step_info->value, k)
                &&& cell_value(after, self.lookup_global_read.cell) == global_get_encoding(
                    step_info.current.eid as nat,
                    1,
                    entry.step_info->origin_module as nat,
                    entry.step_info->origin_idx as nat,
                    entry.step_info->vtype.number(),
                    entry.step_info->value as nat,
                )
                &&& cell_value(after, self.lookup_stack_write.cell) == stack_write_encoding(
                    step_info.current.eid as nat,
                    2,
                    step_info.current.sp as nat,
                    entry.step_info->vtype.number(),
                    entry.step_info->value as nat,
                )
            }),
    {
        let p = modulus();
        let value = entry.step_info->value;
        lemma_u16_limbs(value);
        lemma_small_mod(entry.step_info->idx as nat, p);
        lemma_small_mod(entry.step_info->origin_idx as nat, p);
        lemma_small_mod(entry.step_info->origin_module as nat, p);
        lemma_small_mod(entry.step_info->vtype.number(), p);
        lemma_small_mod(value as nat, p);
        lemma_small_mod(u16_limb(value, 0), p);
        lemma_small_mod(u16_limb(value, 1), p);
        lemma_small_mod(u16_limb(value, 2), p);
        lemma_small_mod(u16_limb(value, 3), p);
        let read = global_get_encoding(
            step_info.current.eid as nat,
            1,
            entry.step_info->origin_module as nat,
            entry.step_info->origin_idx as nat,
            entry.step_info->vtype.number(),
            value as nat,
        );
        let write = stack_write_encoding(
            step_info.current.eid as nat,
            2,
            step_info.current.sp as nat,
            entry.step_info->vtype.number(),
            value as nat,
        );
        lemma_mod_twice(read as int, p as int);
        lemma_mod_twice(write as int, p as int);
    }

    /// The expression that selects the rows of the instruction takes, on
    /// every assigned row, the encoding under which the program table lists
    /// `global.get` with the operand of the step.
    pub proof fn lemma_opcode_tag(
        self,
        row: Seq<nat>,
        step_info: StepStatus,
        entry: EventTableEntry,
    )
        requires
            self.wf(),
            self.assign_result(row.len(), entry) is Ok,
        ensures
            self.opcode_expr().eval(self.assigned(row, step_info, entry)) == (Opcode::GlobalGet {
                idx: entry.step_info->idx,
            }).encoding(),
    {
        self.lemma_assigned_cells(row, step_info, entry);
        lemma_global_get_tag_eval(
            Expr::Query(self.idx.cell),
            self.assigned(row, step_info, entry),
        );
    }

    /// On an assigned row whose shared cells hold the state of the step, the
    /// constraint of the instruction holds exactly when the variable is
    /// defined in the current module, at the index that the operand names.
    /// Its first expression vanishes exactly when the modules agree, its
    /// second exactly when the indices agree.
    pub proof fn lemma_address_constraint(
        self,
        common: EventTableCommonConfig,
        row: Seq<nat>,
        step_info: StepStatus,
        entry: EventTableEntry,
    )
        requires
            self.wf(),
            common.wf(),
            common.holds(row, step_info.current),
            self.assign_result(row.len(), entry) is Ok,
        ensures
            ({
                let after = self.assigned(row, step_info, entry);
                let constraint = self.constraint();
                &&& constraint.exprs[0].eval(after) == 0 <==> entry.step_info->origin_module
                    == step_info.current.moid
                &&& constraint.exprs[1].eval(after) == 0 <==> entry.step_info->origin_idx
                    == entry.step_info->idx
                &&& constraint.satisfied(after) <==> (entry.step_info->origin_module
                    == step_info.current.moid && entry.step_info->origin_idx
                    == entry.step_info->idx)
            }),
    {
        let after = self.assigned(row, step_info, entry);
        let constraint = self.constraint();
        self.lemma_assigned_cells(row, step_info, entry);
        self.lemma_shared_cells_kept(common, row, step_info, entry);
        reveal_with_fuel(Expr::eval, 3);
        lemma_difference_zero(
            entry.step_info->origin_module as nat,
            step_info.current.moid as nat,
        );
        lemma_difference_zero(entry.step_info->origin_idx as nat, entry.step_info->idx as nat);
        assert(constraint.exprs[0].eval(after) == field_add(
            entry.step_info->origin_module as nat,
            field_neg(step_info.current.moid as nat),
        ));
        assert(constraint.exprs[1].eval(after) == field_add(
            entry.step_info->origin_idx as nat,
            field_neg(entry.step_info->idx as nat),
        ));
    }

    /// The assignment of a step leaves the shared cells as they were.
    pub proof fn lemma_shared_cells_kept(
        self,
        common: EventTableCommonConfig,
        row: Seq<nat>,
        step_info: StepStatus,
        entry: EventTableEntry,
    )
        requires
            self.wf(),
            common.wf(),
            common.holds(row, step_info.current),
            self.assign_result(row.len(), entry) is Ok,
        ensures
            common.holds(self.assigned(row, step_info, entry), step_info.current),
    {
        self.lemma_assigned_cells(row, step_info, entry);
    }

    /// The change of the stack pointer takes the value minus one on every
    /// row, and a stack pointer other than zero plus that change is the
    /// stack pointer less one.
    pub proof fn lemma_stack_pointer_delta(row: Seq<nat>, sp: nat)
        requires
            0 < sp < modulus(),
        ensures
            Self::sp_diff_expr().eval(row) == field_neg(1),
            Self::sp_diff_expr().eval(row) == modulus() - 1,
            field_add(sp, Self::sp_diff_expr().eval(row)) == sp - 1,
    {
        lemma_constant_expr_eval((modulus() - 1) as nat, row);
        lemma_add_minus_one(sp);
    }

    /// The number of memory accesses takes the value two on every row, and
    /// the instruction has an expression for its first and its second
    /// access and for no other.
    pub proof fn lemma_memory_operation_count(self, common: EventTableCommonConfig, row: Seq<nat>)
        ensures
            Self::mops_expr().eval(row) == 2,
            self.lookup_expr(MLookupItem::First, common) is Some,
            self.lookup_expr(MLookupItem::Second, common) is Some,
            self.lookup_expr(MLookupItem::Third, common) is None,
            self.lookup_expr(MLookupItem::Fourth, common) is None,
    {
        lemma_constant_expr_eval(2, row);
    }

    /// On an assigned row whose shared cells hold the state of the step, the
    /// expression of each memory access takes the very value that the
    /// assignment wrote into the cell of that access.
    pub proof fn lemma_lookup_round_trip(
        self,
        common: EventTableCommonConfig,
        row: Seq<nat>,
        step_info: StepStatus,
        entry: EventTableEntry,
    )
        requires
            self.wf(),
            common.wf(),
            common.holds(row, step_info.current),
            self.assign_result(row.len(), entry) is Ok,
        ensures
            ({
                let after = self.assigned(row, step_info, entry);
                &&& self.lookup_expr(MLookupItem::First, common)->0.eval(after) == cell_value(
                    after,
                    self.lookup_global_read.cell,
                )
                &&& self.lookup_expr(MLookupItem::Second, common)->0.eval(after) == cell_value(
                    after,
                    self.lookup_stack_write.cell,
                )
            }),
    {
        let after = self.assigned(row, step_info, entry);
        self.lemma_assigned_cells(row, step_info, entry);
        self.lemma_shared_cells_kept(common, row, step_info, entry);
        lemma_constant_expr_eval(1, after);
        lemma_constant_expr_eval(2, after);
        lemma_constant_expr_eval(0, after);
        lemma_constant_expr_eval(LocationType::Global.number(), after);
        lemma_constant_expr_eval(LocationType::Stack.number(), after);
        lemma_constant_expr_eval(AccessType::Read.number(), after);
        lemma_constant_expr_eval(AccessType::Write.number(), after);
        lemma_lookup_expr_eval(
            Expr::Query(common.eid.cell),
            constant_expr(1),
            Expr::Query(self.origin_moid.cell),
            Expr::Query(self.origin_idx.cell),
            constant_expr(LocationType::Global.number()),
            constant_expr(AccessType::Read.number()),
            Expr::Query(self.vtype.cell),
            Expr::Query(self.value.value_cell),
            after,
        );
        lemma_lookup_expr_eval(
            Expr::Query(common.eid.cell),
            constant_expr(2),
            constant_expr(0),
            Expr::Query(common.sp.cell),
            constant_expr(LocationType::Stack.number()),
            constant_expr(AccessType::Write.number()),
            Expr::Query(self.vtype.cell),
            Expr::Query(self.value.value_cell),
            after,
        );
    }
}

} // verus!
