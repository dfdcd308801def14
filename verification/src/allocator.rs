//! Cells and their allocation.
//!
//! An instruction owns cells of three kinds: cells for small numbers, cells
//! for machine words together with their 16-bit limbs, and cells for encoded
//! memory accesses. The allocator hands them out in the order of the
//! requests, so the layout of a row follows from the order in which the
//! instructions were configured. Three cells are shared by all instructions:
//! the index of the step, the current module and the stack pointer.

use crate::expr::Expr;
use crate::field::{modulus, FieldValue};
use crate::row::{cell_value, AssignError, Cell, Context};
use crate::step::Status;
use vstd::arithmetic::div_mod::lemma_small_mod;
use vstd::prelude::*;

verus! {

/// What a cell is declared to hold.
#[derive(Clone, Copy, Debug, PartialEq, Eq, Structural)]
pub enum CellKind {
    /// A number below 2^16.
    CommonRange,
    /// A 64-bit machine word.
    U64,
    /// An encoded memory access.
    MTableLookup,
}

/// The number of cells that a machine word takes: one for the word and four
/// for its limbs.
pub const U64_CELLS: usize = 5;

/// The number of cells that all instructions share.
pub const COMMON_CELLS: usize = 3;

/// The exclusive bound of the numbers that a bounded cell holds.
pub const COMMON_RANGE: u64 = 0x1_0000;

/// A cell for a number below 2^16.
#[derive(Clone, Copy, Debug, PartialEq, Eq, Structural)]
pub struct CommonRangeCell {
    pub cell: Cell,
}

impl CommonRangeCell {
    /// How an assignment of `value` ends on a row of `len` cells: the value
    /// must fit the range, and the cell must lie within the row.
    pub open spec fn assign_result(self, len: nat, value: u64) -> Result<(), AssignError> {
        if value >= COMMON_RANGE {
            Err(AssignError::ValueOutOfRange)
        } else if self.cell.index >= len {
            Err(AssignError::CellOutOfBounds)
        } else {
            Ok(())
        }
    }

    /// The expression that queries the cell.
    pub fn expr(&self) -> (r: Expr)
        ensures
            r == Expr::Query(self.cell),
            r.wf(),
    {
        Expr::Query(self.cell)
    }

    /// Writes a number into the cell. On an error the row stays as it was.
    pub fn assign(&self, ctx: &mut Context, value: u64) -> (r: Result<(), AssignError>)
        requires
            old(ctx).wf(),
        ensures
            final(ctx).wf(),
            r == self.assign_result(old(ctx)@.len(), value),
            r is Ok ==> final(ctx)@ == old(ctx)@.update(self.cell.index as int, value as nat),
            r is Err ==> final(ctx)@ == old(ctx)@,
    {
        if value >= COMMON_RANGE {
            return Err(AssignError::ValueOutOfRange);
        }
        ctx.set(self.cell, FieldValue::from_u64(value))
    }
}

/// The limb of a machine word at position `i`, least significant first.
pub open spec fn u16_limb(value: u64, i: int) -> nat {
    if i == 0 {
        (value % 0x1_0000) as nat
    } else if i == 1 {
        ((value / 0x1_0000) % 0x1_0000) as nat
    } else if i == 2 {
        ((value / 0x1_0000_0000) % 0x1_0000) as nat
    } else {
        ((value / 0x1_0000_0000_0000) % 0x1_0000) as nat
    }
}

/// The four limbs of a machine word are below 2^16 and add up to the word,
/// each at the weight of its position.
pub proof fn lemma_u16_limbs(value: u64)
    ensures
        u16_limb(value, 0) < 0x1_0000,
        u16_limb(value, 1) < 0x1_0000,
        u16_limb(value, 2) < 0x1_0000,
        u16_limb(value, 3) < 0x1_0000,
        value == u16_limb(value, 0) + u16_limb(value, 1) * 0x1_0000 + u16_limb(value, 2)
            * 0x1_0000_0000 + u16_limb(value, 3) * 0x1_0000_0000_0000,
{
}

/// A cell for a machine word, followed by the cells of its four limbs.
#[derive(Clone, Copy, Debug)]
pub struct U64Cell {
    pub value_cell: Cell,
    pub u16_cells_le: [CommonRangeCell; 4],
}

impl U64Cell {
    /// The limbs lie right behind the word, least significant first.
    pub open spec fn wf(self) -> bool {
        forall|i: int|
            0 <= i < 4 ==> (#[trigger] self.u16_cells_le[i]).cell.index == self.value_cell.index + 1
                + i
    }

    /// The row after `value` was written: the word in its cell and each
    /// limb in its own.
    pub open spec fn assigned(self, row: Seq<nat>, value: u64) -> Seq<nat> {
        row.update(self.value_cell.index as int, value as nat).update(
            self.u16_cells_le[0].cell.index as int,
            u16_limb(value, 0),
        ).update(self.u16_cells_le[1].cell.index as int, u16_limb(value, 1)).update(
            self.u16_cells_le[2].cell.index as int,
            u16_limb(value, 2),
        ).update(self.u16_cells_le[3].cell.index as int, u16_limb(value, 3))
    }

    /// The expression that queries the word.
    pub fn expr(&self) -> (r: Expr)
        ensures
            r == Expr::Query(self.value_cell),
            r.wf(),
    {
        Expr::Query(self.value_cell)
    }

    /// Writes a word and its limbs. Unless all five cells lie within the
    /// row, nothing is written.
    pub fn assign(&self, ctx: &mut Context, value: u64) -> (r: Result<(), AssignError>)
        requires
            old(ctx).wf(),
            self.wf(),
        ensures
            final(ctx).wf(),
            self.value_cell.index + U64_CELLS <= old(ctx)@.len() ==> r == Ok::<(), AssignError>(())
                && final(ctx)@ == self.assigned(old(ctx)@, value),
            self.value_cell.index + U64_CELLS > old(ctx)@.len() ==> r == Err::<(), AssignError>(
                AssignError::CellOutOfBounds,
            ) && final(ctx)@ == old(ctx)@,
    {
        if self.u16_cells_le[3].cell.index >= ctx.len() {
            return Err(AssignError::CellOutOfBounds);
        }
        ctx.set(self.value_cell, FieldValue::from_u64(value))?;
        ctx.set(self.u16_cells_le[0].cell, FieldValue::from_u64(value % 0x1_0000))?;
        ctx.set(self.u16_cells_le[1].cell, FieldValue::from_u64((value / 0x1_0000) % 0x1_0000))?;
        ctx.set(
            self.u16_cells_le[2].cell,
            FieldValue::from_u64((value / 0x1_0000_0000) % 0x1_0000),
        )?;
        ctx.set(
            self.u16_cells_le[3].cell,
            FieldValue::from_u64((value / 0x1_0000_0000_0000) % 0x1_0000),
        )?;
        Ok(())
    }
}

/// A cell for an encoded memory access.
#[derive(Clone, Copy, Debug, PartialEq, Eq, Structural)]
pub struct MTableLookupCell {
    pub cell: Cell,
}

impl MTableLookupCell {
    /// The expression that queries the cell.
    pub fn expr(&self) -> (r: Expr)
        ensures
            r == Expr::Query(self.cell),
            r.wf(),
    {
        Expr::Query(self.cell)
    }

    /// Writes an encoded access into the cell. A cell beyond the end of the
    /// row is refused and the row stays as it was.
    pub fn assign(&self, ctx: &mut Context, value: &FieldValue) -> (r: Result<(), AssignError>)
        requires
            old(ctx).wf(),
            value.wf(),
        ensures
            final(ctx).wf(),
            self.cell.index < old(ctx)@.len() ==> r == Ok::<(), AssignError>(()) && final(ctx)@
                == old(ctx)@.update(self.cell.index as int, value@),
            self.cell.index >= old(ctx)@.len() ==> r == Err::<(), AssignError>(
                AssignError::CellOutOfBounds,
            ) && final(ctx)@ == old(ctx)@,
    {
        ctx.set(self.cell, *value)
    }
}

/// The cells that all instructions share.
#[derive(Clone, Copy, Debug, PartialEq, Eq, Structural)]
pub struct EventTableCommonConfig {
    pub eid: CommonRangeCell,
    pub moid: CommonRangeCell,
    pub sp: CommonRangeCell,
}

impl EventTableCommonConfig {
    /// The shared cells are the first three of every row.
    pub open spec fn wf(self) -> bool {
        &&& self.eid.cell.index == 0
        &&& self.moid.cell.index == 1
        &&& self.sp.cell.index == 2
    }

    /// The shared cells of the row hold the given state.
    pub open spec fn holds(self, row: Seq<nat>, status: Status) -> bool {
        &&& cell_value(row, self.eid.cell) == status.eid
        &&& cell_value(row, self.moid.cell) == status.moid
        &&& cell_value(row, self.sp.cell) == status.sp
    }

    /// The row after the shared state was written.
    pub open spec fn assigned(self, row: Seq<nat>, status: Status) -> Seq<nat> {
        row.update(self.eid.cell.index as int, status.eid as nat).update(
            self.moid.cell.index as int,
            status.moid as nat,
        ).update(self.sp.cell.index as int, status.sp as nat)
    }

    /// How an assignment of the shared state ends on a row of `len` cells:
    /// the step index and the stack pointer must fit a bounded cell, and the
    /// row must have the three cells.
    pub open spec fn assign_result(self, len: nat, status: Status) -> Result<(), AssignError> {
        if status.eid >= COMMON_RANGE || status.sp >= COMMON_RANGE {
            Err(AssignError::ValueOutOfRange)
        } else if len < COMMON_CELLS {
            Err(AssignError::CellOutOfBounds)
        } else {
            Ok(())
        }
    }

    /// The expression of the step index.
    pub fn eid(&self) -> (r: Expr)
        ensures
            r == Expr::Query(self.eid.cell),
            r.wf(),
    {
        self.eid.expr()
    }

    /// The expression of the current module.
    pub fn moid(&self) -> (r: Expr)
        ensures
            r == Expr::Query(self.moid.cell),
            r.wf(),
    {
        self.moid.expr()
    }

    /// The expression of the stack pointer.
    pub fn sp(&self) -> (r: Expr)
        ensures
            r == Expr::Query(self.sp.cell),
            r.wf(),
    {
        self.sp.expr()
    }

    /// Writes the shared state of a step into the row. On an error the row
    /// stays as it was.
    pub fn assign(&self, ctx: &mut Context, status: &Status) -> (r: Result<(), AssignError>)
        requires
            old(ctx).wf(),
            self.wf(),
        ensures
            final(ctx).wf(),
            r == self.assign_result(old(ctx)@.len(), *status),
            r is Ok ==> final(ctx)@ == self.assigned(old(ctx)@, *status) && self.holds(
                final(ctx)@,
                *status,
            ),
            r is Err ==> final(ctx)@ == old(ctx)@,
    {
        if status.eid >= COMMON_RANGE || status.sp >= COMMON_RANGE {
            return Err(AssignError::ValueOutOfRange);
        }
        if ctx.len() < COMMON_CELLS {
            return Err(AssignError::CellOutOfBounds);
        }
        proof {
            self.lemma_assigned_holds(ctx@, *status);
        }
        self.eid.assign(ctx, status.eid)?;
        self.moid.assign(ctx, status.moid as u64)?;
        self.sp.assign(ctx, status.sp)?;
        Ok(())
    }

    /// After the shared state was written, the row holds it.
    pub proof fn lemma_assigned_holds(self, row: Seq<nat>, status: Status)
        requires
            self.wf(),
            self.assign_result(row.len(), status) is Ok,
        ensures
            self.holds(self.assigned(row, status), status),
    {
        lemma_small_mod(status.eid as nat, modulus());
        lemma_small_mod(status.moid as nat, modulus());
        lemma_small_mod(status.sp as nat, modulus());
    }
}

/// Hands out the cells of a row, in the order of the requests.
pub struct EventTableCellAllocator {
    kinds: Vec<CellKind>,
    capacity: usize,
}

impl View for EventTableCellAllocator {
    type V = Seq<CellKind>;

    /// The kinds of the cells handed out so far, by position in the row.
    closed spec fn view(&self) -> Seq<CellKind> {
        self.kinds@
    }
}

impl EventTableCellAllocator {
    /// The number of cells that a row has room for.
    pub closed spec fn capacity(&self) -> nat {
        self.capacity as nat
    }

    /// The shared cells come first, and no more cells were handed out than
    /// the row has room for.
    pub open spec fn wf(&self) -> bool {
        &&& COMMON_CELLS <= self@.len() <= self.capacity()
        &&& forall|i: int| 0 <= i < COMMON_CELLS ==> self@[i] == CellKind::CommonRange
    }

    /// The shared cells, which every allocator lays out alike.
    pub open spec fn common() -> EventTableCommonConfig {
        EventTableCommonConfig {
            eid: CommonRangeCell { cell: Cell { index: 0 } },
            moid: CommonRangeCell { cell: Cell { index: 1 } },
            sp: CommonRangeCell { cell: Cell { index: 2 } },
        }
    }

    /// An allocator for rows of `capacity` cells, with the shared cells
    /// handed out.
    pub fn new(capacity: usize) -> (r: EventTableCellAllocator)
        requires
            capacity >= COMMON_CELLS,
        ensures
            r.wf(),
            r.capacity() == capacity,
            r@ == seq![CellKind::CommonRange, CellKind::CommonRange, CellKind::CommonRange],
    {
        let mut kinds: Vec<CellKind> = Vec::new();
        kinds.push(CellKind::CommonRange);
        kinds.push(CellKind::CommonRange);
        kinds.push(CellKind::CommonRange);
        let r = EventTableCellAllocator { kinds, capacity };
        assert(r@ =~= seq![CellKind::CommonRange, CellKind::CommonRange, CellKind::CommonRange]);
        r
    }

    /// The number of cells handed out so far.
    pub fn len(&self) -> (r: usize)
        ensures
            r == self@.len(),
    {
        self.kinds.len()
    }

    /// The number of cells that can still be handed out.
    pub fn remaining(&self) -> (r: usize)
        requires
            self.wf(),
        ensures
            r == self.capacity() - self@.len(),
    {
        self.capacity - self.kinds.len()
    }

    /// The kind of the cell at a position of the row, if it was handed out.
    pub fn kind(&self, index: usize) -> (r: Option<CellKind>)
        ensures
            r == if index < self@.len() {
                Some(self@[index as int])
            } else {
                None
            },
    {
        if index < self.kinds.len() {
            Some(self.kinds[index])
        } else {
            None
        }
    }

    /// The shared cells.
    pub fn common_config(&self) -> (r: EventTableCommonConfig)
        ensures
            r == Self::common(),
            r.wf(),
    {
        EventTableCommonConfig {
            eid: CommonRangeCell { cell: Cell { index: 0 } },
            moid: CommonRangeCell { cell: Cell { index: 1 } },
            sp: CommonRangeCell { cell: Cell { index: 2 } },
        }
    }

    /// The shared cell of the step index.
    pub fn eid_cell(&self) -> (r: CommonRangeCell)
        ensures
            r == Self::common().eid,
    {
        CommonRangeCell { cell: Cell { index: 0 } }
    }

    /// The shared cell of the current module.
    pub fn moid_cell(&self) -> (r: CommonRangeCell)
        ensures
            r == Self::common().moid,
    {
        CommonRangeCell { cell: Cell { index: 1 } }
    }

    /// The shared cell of the stack pointer.
    pub fn sp_cell(&self) -> (r: CommonRangeCell)
        ensures
            r == Self::common().sp,
    {
        CommonRangeCell { cell: Cell { index: 2 } }
    }

    /// Hands out the next cell as a cell for a number below 2^16.
    pub fn alloc_common_range_value(&mut self) -> (r: CommonRangeCell)
        requires
            old(self).wf(),
            old(self)@.len() < old(self).capacity(),
        ensures
            final(self).wf(),
            final(self).capacity() == old(self).capacity(),
            final(self)@ == old(self)@.push(CellKind::CommonRange),
            r.cell.index == old(self)@.len(),
    {
        let index = self.kinds.len();
        self.kinds.push(CellKind::CommonRange);
        CommonRangeCell { cell: Cell { index } }
    }

    /// Hands out the next five cells as a cell for a machine word and the
    /// cells of its limbs.
    pub fn alloc_u64(&mut self) -> (r: U64Cell)
        requires
            old(self).wf(),
            old(self)@.len() + U64_CELLS <= old(self).capacity(),
        ensures
            final(self).wf(),
            final(self).capacity() == old(self).capacity(),
            final(self)@ == old(self)@.push(CellKind::U64).push(CellKind::CommonRange).push(
                CellKind::CommonRange,
            ).push(CellKind::CommonRange).push(CellKind::CommonRange),
            r.wf(),
            r.value_cell.index == old(self)@.len(),
    {
        let index = self.kinds.len();
        self.kinds.push(CellKind::U64);
        self.kinds.push(CellKind::CommonRange);
        self.kinds.push(CellKind::CommonRange);
        self.kinds.push(CellKind::CommonRange);
        self.kinds.push(CellKind::CommonRange);
        U64Cell {
            value_cell: Cell { index },
            u16_cells_le: [
                CommonRangeCell { cell: Cell { index: index + 1 } },
                CommonRangeCell { cell: Cell { index: index + 2 } },
                CommonRangeCell { cell: Cell { index: index + 3 } },
                CommonRangeCell { cell: Cell { index: index + 4 } },
            ],
        }
    }

    /// Hands out the next cell as a cell for an encoded memory access.
    pub fn alloc_mtable_lookup(&mut self) -> (r: MTableLookupCell)
        requires
            old(self).wf(),
            old(self)@.len() < old(self).capacity(),
        ensures
            final(self).wf(),
            final(self).capacity() == old(self).capacity(),
            final(self)@ == old(self)@.push(CellKind::MTableLookup),
            r.cell.index == old(self)@.len(),
    {
        let index = self.kinds.len();
        self.kinds.push(CellKind::MTableLookup);
        MTableLookupCell { cell: Cell { index } }
    }
}

} // verus!
