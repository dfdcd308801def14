//! The storage of one circuit row: a value for every cell that instructions
//! may own in it.

use crate::field::{modulus, FieldValue};
use vstd::arithmetic::div_mod::lemma_small_mod;
use vstd::prelude::*;

verus! {

/// A storage slot of a circuit row, named by its position in the row.
#[derive(Clone, Copy, Debug, PartialEq, Eq, Structural)]
pub struct Cell {
    pub index: usize,
}

/// Why the witness of a step could not be written.
#[derive(Clone, Copy, Debug, PartialEq, Eq, Structural)]
pub enum AssignError {
    /// A value does not fit the range that its cell declares.
    ValueOutOfRange,
    /// A cell lies beyond the end of the row.
    CellOutOfBounds,
    /// The step was routed to the configuration of another instruction.
    /// This is a defect of the dispatcher, not of the trace.
    DispatchDefect,
}

/// What a row holds in a cell: the stored value as a field element, and zero
/// for a cell that the row has no slot for.
pub open spec fn cell_value(row: Seq<nat>, cell: Cell) -> nat {
    if cell.index < row.len() {
        row[cell.index as int] % modulus()
    } else {
        0
    }
}

/// The values of one row during witness assignment.
pub struct Context {
    cells: Vec<FieldValue>,
}

impl View for Context {
    type V = Seq<nat>;

    closed spec fn view(&self) -> Seq<nat> {
        Seq::new(self.cells@.len(), |i: int| self.cells@[i]@)
    }
}

impl Context {
    /// Every stored value is a canonical field element.
    pub open spec fn wf(&self) -> bool {
        forall|i: int| 0 <= i < self@.len() ==> #[trigger] self@[i] < modulus()
    }

    /// A row of `len` cells, all zero.
    pub fn new(len: usize) -> (r: Context)
        ensures
            r.wf(),
            r@ == Seq::new(len as nat, |i: int| 0nat),
    {
        let mut cells: Vec<FieldValue> = Vec::new();
        let mut n: usize = 0;
        while n < len
            invariant
                n <= len,
                cells@.len() == n,
                forall|i: int| 0 <= i < n ==> (#[trigger] cells@[i]).wf() && cells@[i]@ == 0,
            decreases len - n,
        {
            cells.push(FieldValue::zero());
            n = n + 1;
        }
        let r = Context { cells };
        assert(r@ =~= Seq::new(len as nat, |i: int| 0nat));
        r
    }

    /// The number of cells in the row.
    pub fn len(&self) -> (r: usize)
        ensures
            r == self@.len(),
    {
        self.cells.len()
    }

    /// The value held in a cell; zero where the row has no such cell.
    pub fn get(&self, cell: Cell) -> (r: FieldValue)
        requires
            self.wf(),
        ensures
            r.wf(),
            r@ == cell_value(self@, cell),
    {
        if cell.index < self.cells.len() {
            let r = self.cells[cell.index];
            proof {
                assert(self@[cell.index as int] == r@);
                lemma_small_mod(r@, modulus());
            }
            r
        } else {
            FieldValue::zero()
        }
    }

    /// Stores a value in a cell. A cell beyond the end of the row is refused
    /// and the row stays as it was.
    pub fn set(&mut self, cell: Cell, value: FieldValue) -> (r: Result<(), AssignError>)
        requires
            old(self).wf(),
            value.wf(),
        ensures
            final(self).wf(),
            cell.index < old(self)@.len() ==> r == Ok::<(), AssignError>(()) && final(self)@ == old(
                self,
            )@.update(cell.index as int, value@),
            cell.index >= old(self)@.len() ==> r == Err::<(), AssignError>(
                AssignError::CellOutOfBounds,
            ) && final(self)@ == old(self)@,
    {
        if cell.index < self.cells.len() {
            self.cells.set(cell.index, value);
            assert(self@ =~= old(self)@.update(cell.index as int, value@));
            Ok(())
        } else {
            Err(AssignError::CellOutOfBounds)
        }
    }
}

} // verus!
