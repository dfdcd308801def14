//! The execution trace as the circuit sees it: instructions of the program,
//! and the steps that an interpreter recorded while running them.

use crate::expr::Expr;
use crate::field::{field_add, field_mul, modulus, FieldValue};
use vstd::arithmetic::div_mod::lemma_small_mod;
use vstd::prelude::*;

verus! {

/// The weight of the instruction class in an encoded instruction.
pub open spec fn opcode_class_shift() -> nat {
    0x1_0000_0000_0000_0000_0000_0000
}

/// The weight of the first operand in an encoded instruction.
pub open spec fn opcode_arg0_shift() -> nat {
    0x1_0000_0000_0000_0000
}

/// The declared type of a value.
#[derive(Clone, Copy, Debug, PartialEq, Eq, Structural)]
pub enum VarType {
    I32,
    I64,
}

impl VarType {
    /// The number that stands for the type in a cell.
    pub open spec fn number(self) -> nat {
        match self {
            VarType::I32 => 1,
            VarType::I64 => 2,
        }
    }

    /// Computes the number that stands for the type in a cell.
    pub fn index(&self) -> (r: u64)
        ensures
            r == self.number(),
    {
        match self {
            VarType::I32 => 1,
            VarType::I64 => 2,
        }
    }
}

/// The kind of an instruction, without its operands.
#[derive(Clone, Copy, Debug, PartialEq, Eq, Structural)]
pub enum OpcodeClass {
    Return,
    Drop,
    GlobalGet,
}

impl OpcodeClass {
    /// The number that stands for the class in an encoded instruction.
    pub open spec fn number(self) -> nat {
        match self {
            OpcodeClass::Return => 1,
            OpcodeClass::Drop => 2,
            OpcodeClass::GlobalGet => 3,
        }
    }

    /// Computes the number that stands for the class.
    pub fn index(&self) -> (r: u64)
        ensures
            r == self.number(),
    {
        match self {
            OpcodeClass::Return => 1,
            OpcodeClass::Drop => 2,
            OpcodeClass::GlobalGet => 3,
        }
    }
}

/// An instruction of the compiled program.
#[derive(Clone, Copy, Debug, PartialEq, Eq, Structural)]
pub enum Opcode {
    Return,
    Drop,
    GlobalGet { idx: u32 },
}

impl Opcode {
    /// The kind of the instruction.
    pub open spec fn class(self) -> OpcodeClass {
        match self {
            Opcode::Return => OpcodeClass::Return,
            Opcode::Drop => OpcodeClass::Drop,
            Opcode::GlobalGet { .. } => OpcodeClass::GlobalGet,
        }
    }

    /// The first operand of the instruction; zero where it has none.
    pub open spec fn arg0(self) -> nat {
        match self {
            Opcode::GlobalGet { idx } => idx as nat,
            _ => 0,
        }
    }

    /// The integer under which the program table lists the instruction: its
    /// class and its operand, each at its own weight.
    pub open spec fn encoding(self) -> nat {
        self.class().number() * opcode_class_shift() + self.arg0() * opcode_arg0_shift()
    }

    /// Computes the kind of the instruction.
    pub fn opcode_class(&self) -> (r: OpcodeClass)
        ensures
            r == self.class(),
    {
        match self {
            Opcode::Return => OpcodeClass::Return,
            Opcode::Drop => OpcodeClass::Drop,
            Opcode::GlobalGet { .. } => OpcodeClass::GlobalGet,
        }
    }

    /// Computes the field element under which the program table lists the
    /// instruction.
    pub fn encode(&self) -> (r: FieldValue)
        ensures
            r.wf(),
            r@ == self.encoding(),
    {
        let class: u64 = self.opcode_class().index();
        let arg0: u64 = match self {
            Opcode::GlobalGet { idx } => *idx as u64,
            _ => 0,
        };
        let high: u64 = class * 0x1_0000_0000 + arg0;
        let r = FieldValue::from_raw([0, high, 0, 0]);
        assert(self.encoding() == high * 0x1_0000_0000_0000_0000) by (nonlinear_arith)
            requires
                self.encoding() == class * 0x1_0000_0000_0000_0000_0000_0000 + arg0
                    * 0x1_0000_0000_0000_0000,
                high == class * 0x1_0000_0000 + arg0,
        ;
        r.unwrap()
    }
}

/// The expression that the instruction `global.get` takes in the program
/// table, over an expression for its operand.
pub open spec fn global_get_tag(idx: Expr) -> Expr {
    Expr::Sum(
        Box::new(
            Expr::Constant(
                FieldValue::from_nat(OpcodeClass::GlobalGet.number() * opcode_class_shift()),
            ),
        ),
        Box::new(
            Expr::Product(
                Box::new(idx),
                Box::new(Expr::Constant(FieldValue::from_nat(opcode_arg0_shift()))),
            ),
        ),
    )
}

/// Builds the expression that the instruction `global.get` takes in the
/// program table.
pub fn encode_global_get(idx: Expr) -> (r: Expr)
    ensures
        r == global_get_tag(idx),
        idx.wf() ==> r.wf(),
{
    let class = FieldValue::from_raw([0, 0x3_0000_0000, 0, 0]).unwrap();
    let shift = FieldValue::from_raw([0, 1, 0, 0]).unwrap();
    proof {
        FieldValue::lemma_from_nat(class);
        FieldValue::lemma_from_nat(shift);
        reveal_with_fuel(Expr::wf, 3);
    }
    Expr::Sum(
        Box::new(Expr::Constant(class)),
        Box::new(Expr::Product(Box::new(idx), Box::new(Expr::Constant(shift)))),
    )
}

/// On a row, the instruction's expression takes the encoding of
/// `global.get` with the operand that the row holds, as long as that operand
/// fits in 32 bits.
pub proof fn lemma_global_get_tag_eval(idx: Expr, row: Seq<nat>)
    requires
        idx.eval(row) < 0x1_0000_0000,
    ensures
        global_get_tag(idx).eval(row) == (Opcode::GlobalGet { idx: idx.eval(row) as u32 }).encoding(),
{
    let p = modulus();
    let i = idx.eval(row);
    let class = FieldValue::from_nat(OpcodeClass::GlobalGet.number() * opcode_class_shift());
    let shift = FieldValue::from_nat(opcode_arg0_shift());
    FieldValue::lemma_from_nat_value(OpcodeClass::GlobalGet.number() * opcode_class_shift());
    FieldValue::lemma_from_nat_value(opcode_arg0_shift());
    reveal_with_fuel(Expr::eval, 3);
    lemma_small_mod(class@, p);
    lemma_small_mod(shift@, p);
    assert(i * opcode_arg0_shift() < 0x1_0000_0000 * 0x1_0000_0000_0000_0000) by (nonlinear_arith)
        requires
            i < 0x1_0000_0000,
            opcode_arg0_shift() == 0x1_0000_0000_0000_0000,
    ;
    lemma_small_mod(i * opcode_arg0_shift(), p);
    lemma_small_mod(class@ + i * opcode_arg0_shift(), p);
    assert(field_mul(i, shift@) == i * opcode_arg0_shift());
    assert(field_add(class@, i * opcode_arg0_shift()) == class@ + i * opcode_arg0_shift());
}

/// What an interpreter recorded of one executed instruction.
#[derive(Clone, Copy, Debug, PartialEq, Eq, Structural)]
pub enum StepInfo {
    Return,
    Drop,
    /// A read of a global variable: the operand of the instruction, the
    /// module and index where the variable is defined, its type and the
    /// value read.
    GetGlobal { idx: u32, origin_module: u16, origin_idx: u16, vtype: VarType, value: u64 },
}

/// One step of the execution trace.
#[derive(Clone, Copy, Debug, PartialEq, Eq, Structural)]
pub struct EventTableEntry {
    pub eid: u64,
    pub sp: u64,
    pub step_info: StepInfo,
}

/// The state shared by all instructions at one point of the trace.
#[derive(Clone, Copy, Debug, PartialEq, Eq, Structural)]
pub struct Status {
    /// The index of the step in the trace.
    pub eid: u64,
    /// The module that the running function belongs to.
    pub moid: u16,
    /// The stack pointer before the step.
    pub sp: u64,
}

/// The shared state around the step that is being assigned.
#[derive(Clone, Copy, Debug, PartialEq, Eq, Structural)]
pub struct StepStatus {
    pub current: Status,
}

} // verus!
