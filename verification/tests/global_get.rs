use etable_compact::allocator::{
    CellKind, CommonRangeCell, EventTableCellAllocator, EventTableCommonConfig,
};
use etable_compact::constraint::ConstraintBuilder;
use etable_compact::expr::Expr;
use etable_compact::field::FieldValue;
use etable_compact::op_global_get::{
    GlobalGetConfig, GlobalGetConfigBuilder, MLookupItem, GLOBAL_GET_CELLS,
};
use etable_compact::row::{AssignError, Cell, Context};
use etable_compact::step::{
    EventTableEntry, Opcode, OpcodeClass, Status, StepInfo, StepStatus, VarType,
};

fn raw(limbs: [u64; 4]) -> FieldValue {
    FieldValue::from_raw(limbs).unwrap()
}

struct Circuit {
    allocator: EventTableCellAllocator,
    constraints: ConstraintBuilder,
    common: EventTableCommonConfig,
    config: GlobalGetConfig,
}

fn circuit() -> Circuit {
    let mut allocator = EventTableCellAllocator::new(3 + GLOBAL_GET_CELLS);
    let mut constraints = ConstraintBuilder::new();
    let config = GlobalGetConfigBuilder::configure(&mut allocator, &mut constraints);
    let common = allocator.common_config();
    Circuit { allocator, constraints, common, config }
}

// The step of `global.get 0` in a module whose only global is an i32 of
// value 10, run as the first instruction of the exported function.
fn read_of_ten() -> (StepStatus, EventTableEntry) {
    let status = StepStatus { current: Status { eid: 1, moid: 0, sp: 4095 } };
    let entry = EventTableEntry {
        eid: 1,
        sp: 4095,
        step_info: StepInfo::GetGlobal {
            idx: 0,
            origin_module: 0,
            origin_idx: 0,
            vtype: VarType::I32,
            value: 10,
        },
    };
    (status, entry)
}

fn assigned_row(circuit: &Circuit, status: &StepStatus, entry: &EventTableEntry) -> Context {
    let mut ctx = Context::new(circuit.allocator.len());
    assert_eq!(circuit.common.assign(&mut ctx, &status.current), Ok(()));
    assert_eq!(circuit.config.assign(&mut ctx, status, entry), Ok(()));
    ctx
}

#[test]
fn test_global_get() {
    let circuit = circuit();
    let (status, entry) = read_of_ten();
    let ctx = assigned_row(&circuit, &status, &entry);
    assert_eq!(circuit.constraints.len(), 1);
    assert_eq!(circuit.constraints.first_violated(&ctx), None);
    assert!(circuit.constraints.get(0).is_satisfied(&ctx));
}

#[test]
fn perturbed_module_violates_the_constraint() {
    let circuit = circuit();
    let (status, mut entry) = read_of_ten();
    entry.step_info = StepInfo::GetGlobal {
        idx: 0,
        origin_module: 1,
        origin_idx: 0,
        vtype: VarType::I32,
        value: 10,
    };
    let ctx = assigned_row(&circuit, &status, &entry);
    assert_eq!(circuit.constraints.first_violated(&ctx), Some(0));
    let constraint = circuit.constraints.get(0);
    assert_eq!(constraint.name, "op_global_get idx constraints");
    assert_eq!(constraint.exprs.len(), 2);
    assert_eq!(constraint.exprs[0].evaluate(&ctx), FieldValue::one());
    assert_eq!(constraint.exprs[1].evaluate(&ctx), FieldValue::zero());
}

#[test]
fn perturbed_index_violates_the_constraint() {
    let circuit = circuit();
    let (status, mut entry) = read_of_ten();
    entry.step_info = StepInfo::GetGlobal {
        idx: 3,
        origin_module: 0,
        origin_idx: 2,
        vtype: VarType::I32,
        value: 10,
    };
    let ctx = assigned_row(&circuit, &status, &entry);
    assert_eq!(circuit.constraints.first_violated(&ctx), Some(0));
    let constraint = circuit.constraints.get(0);
    assert_eq!(constraint.exprs[0].evaluate(&ctx), FieldValue::zero());
    // 2 - 3 in the field is the modulus less one.
    assert_eq!(
        constraint.exprs[1].evaluate(&ctx),
        raw([0x992d30ed00000000, 0x224698fc094cf91b, 0, 0x4000000000000000])
    );
}

#[test]
fn configure_lays_the_cells_out_in_order() {
    let circuit = circuit();
    let config = &circuit.config;
    assert_eq!(circuit.common.eid.cell.index, 0);
    assert_eq!(circuit.common.moid.cell.index, 1);
    assert_eq!(circuit.common.sp.cell.index, 2);
    assert_eq!(config.origin_moid.cell.index, 3);
    assert_eq!(config.origin_idx.cell.index, 4);
    assert_eq!(config.idx.cell.index, 5);
    assert_eq!(config.vtype.cell.index, 6);
    assert_eq!(config.value.value_cell.index, 7);
    assert_eq!(config.value.u16_cells_le[0].cell.index, 8);
    assert_eq!(config.value.u16_cells_le[3].cell.index, 11);
    assert_eq!(config.lookup_global_read.cell.index, 12);
    assert_eq!(config.lookup_stack_write.cell.index, 13);
    assert_eq!(circuit.allocator.len(), 14);
    assert_eq!(circuit.allocator.remaining(), 0);
    assert_eq!(circuit.allocator.kind(2), Some(CellKind::CommonRange));
    assert_eq!(circuit.allocator.kind(7), Some(CellKind::U64));
    assert_eq!(circuit.allocator.kind(8), Some(CellKind::CommonRange));
    assert_eq!(circuit.allocator.kind(12), Some(CellKind::MTableLookup));
    assert_eq!(circuit.allocator.kind(13), Some(CellKind::MTableLookup));
    assert_eq!(circuit.allocator.kind(14), None);
}

#[test]
fn allocation_is_deterministic() {
    let first = circuit();
    let second = circuit();
    assert_eq!(first.config.origin_moid, second.config.origin_moid);
    assert_eq!(first.config.idx, second.config.idx);
    assert_eq!(first.config.value.value_cell, second.config.value.value_cell);
    assert_eq!(first.config.lookup_stack_write, second.config.lookup_stack_write);
}

#[test]
fn assign_writes_every_cell() {
    let circuit = circuit();
    let status = StepStatus { current: Status { eid: 7, moid: 2, sp: 100 } };
    let entry = EventTableEntry {
        eid: 7,
        sp: 100,
        step_info: StepInfo::GetGlobal {
            idx: 5,
            origin_module: 2,
            origin_idx: 5,
            vtype: VarType::I64,
            value: 0x0123_4567_89ab_cdef,
        },
    };
    let ctx = assigned_row(&circuit, &status, &entry);
    let config = &circuit.config;
    assert_eq!(ctx.get(circuit.common.eid.cell), FieldValue::from_u64(7));
    assert_eq!(ctx.get(circuit.common.moid.cell), FieldValue::from_u64(2));
    assert_eq!(ctx.get(circuit.common.sp.cell), FieldValue::from_u64(100));
    assert_eq!(ctx.get(config.idx.cell), FieldValue::from_u64(5));
    assert_eq!(ctx.get(config.origin_idx.cell), FieldValue::from_u64(5));
    assert_eq!(ctx.get(config.origin_moid.cell), FieldValue::from_u64(2));
    assert_eq!(ctx.get(config.vtype.cell), FieldValue::from_u64(2));
    assert_eq!(ctx.get(config.value.value_cell), FieldValue::from_u64(0x0123_4567_89ab_cdef));
    assert_eq!(ctx.get(config.value.u16_cells_le[0].cell), FieldValue::from_u64(0xcdef));
    assert_eq!(ctx.get(config.value.u16_cells_le[1].cell), FieldValue::from_u64(0x89ab));
    assert_eq!(ctx.get(config.value.u16_cells_le[2].cell), FieldValue::from_u64(0x4567));
    assert_eq!(ctx.get(config.value.u16_cells_le[3].cell), FieldValue::from_u64(0x0123));
    // eid 7 at 2^160, emid 1 at 2^144, module 2 at 2^128, index 5 at 2^96,
    // global (3) at 2^88, read (1) at 2^80, i64 (2) at 2^64, then the value.
    assert_eq!(
        ctx.get(config.lookup_global_read.cell),
        raw([0x0123_4567_89ab_cdef, 0x0000_0005_0301_0002, 0x0000_0007_0001_0002, 0])
    );
    // eid 7, emid 2, no memory instance, sp 100 at 2^96, stack (1), write (2).
    assert_eq!(
        ctx.get(config.lookup_stack_write.cell),
        raw([0x0123_4567_89ab_cdef, 0x0000_0064_0102_0002, 0x0000_0007_0002_0000, 0])
    );
    assert_eq!(circuit.constraints.first_violated(&ctx), None);
}

#[test]
fn opcode_tag_is_the_encoding_of_the_instruction() {
    let circuit = circuit();
    let status = StepStatus { current: Status { eid: 7, moid: 2, sp: 100 } };
    let entry = EventTableEntry {
        eid: 7,
        sp: 100,
        step_info: StepInfo::GetGlobal {
            idx: 5,
            origin_module: 2,
            origin_idx: 5,
            vtype: VarType::I64,
            value: 1,
        },
    };
    let ctx = assigned_row(&circuit, &status, &entry);
    let tag = circuit.config.opcode().evaluate(&ctx);
    assert_eq!(tag, (Opcode::GlobalGet { idx: 5 }).encode());
    // class 3 at 2^96 and operand 5 at 2^64
    assert_eq!(tag, raw([0, 0x0000_0003_0000_0005, 0, 0]));
    assert_ne!(tag, (Opcode::GlobalGet { idx: 6 }).encode());
    assert_eq!(circuit.config.opcode_class(), OpcodeClass::GlobalGet);
}

#[test]
fn instructions_encode_class_and_operand() {
    assert_eq!(Opcode::Return.encode(), raw([0, 0x0000_0001_0000_0000, 0, 0]));
    assert_eq!(Opcode::Drop.encode(), raw([0, 0x0000_0002_0000_0000, 0, 0]));
    assert_eq!(
        (Opcode::GlobalGet { idx: u32::MAX }).encode(),
        raw([0, 0x0000_0003_ffff_ffff, 0, 0])
    );
    assert_eq!(Opcode::Return.opcode_class(), OpcodeClass::Return);
    assert_eq!(Opcode::Drop.opcode_class(), OpcodeClass::Drop);
    assert_eq!((Opcode::GlobalGet { idx: 0 }).opcode_class(), OpcodeClass::GlobalGet);
    assert_eq!(OpcodeClass::Return.index(), 1);
    assert_eq!(OpcodeClass::Drop.index(), 2);
    assert_eq!(OpcodeClass::GlobalGet.index(), 3);
    assert_eq!(VarType::I32.index(), 1);
    assert_eq!(VarType::I64.index(), 2);
}

#[test]
fn stack_pointer_delta_is_minus_one() {
    let circuit = circuit();
    let (status, entry) = read_of_ten();
    let ctx = assigned_row(&circuit, &status, &entry);
    let delta = circuit.config.sp_diff().unwrap();
    assert_eq!(
        delta.evaluate(&ctx),
        raw([0x992d30ed00000000, 0x224698fc094cf91b, 0, 0x4000000000000000])
    );
    assert_eq!(delta.evaluate(&Context::new(0)), FieldValue::one().neg());
    // the stack pointer after the step is the one before it plus the delta
    let after = Expr::Sum(Box::new(circuit.common.sp()), Box::new(delta));
    assert_eq!(after.evaluate(&ctx), FieldValue::from_u64(4094));
}

#[test]
fn memory_operation_count_is_two() {
    let circuit = circuit();
    let (status, entry) = read_of_ten();
    let ctx = assigned_row(&circuit, &status, &entry);
    let mops = circuit.config.mops().unwrap();
    assert_eq!(mops.evaluate(&ctx), FieldValue::from_u64(2));
    assert_eq!(mops.evaluate(&Context::new(0)), FieldValue::from_u64(2));
    let common = &circuit.common;
    assert!(circuit.config.mtable_lookup(MLookupItem::First, common).is_some());
    assert!(circuit.config.mtable_lookup(MLookupItem::Second, common).is_some());
    assert!(circuit.config.mtable_lookup(MLookupItem::Third, common).is_none());
    assert!(circuit.config.mtable_lookup(MLookupItem::Fourth, common).is_none());
}

#[test]
fn lookup_expressions_take_what_assign_wrote() {
    let circuit = circuit();
    let status = StepStatus { current: Status { eid: 65535, moid: 9, sp: 65535 } };
    let entry = EventTableEntry {
        eid: 65535,
        sp: 65535,
        step_info: StepInfo::GetGlobal {
            idx: 65535,
            origin_module: 65535,
            origin_idx: 65535,
            vtype: VarType::I64,
            value: u64::MAX,
        },
    };
    let ctx = assigned_row(&circuit, &status, &entry);
    let config = &circuit.config;
    let read = config.mtable_lookup(MLookupItem::First, &circuit.common).unwrap();
    let write = config.mtable_lookup(MLookupItem::Second, &circuit.common).unwrap();
    assert_eq!(read.evaluate(&ctx), ctx.get(config.lookup_global_read.cell));
    assert_eq!(write.evaluate(&ctx), ctx.get(config.lookup_stack_write.cell));
    assert_eq!(
        read.evaluate(&ctx),
        raw([u64::MAX, 0x0000_ffff_0301_0002, 0x0000_ffff_0001_ffff, 0])
    );
    assert_eq!(
        write.evaluate(&ctx),
        raw([u64::MAX, 0x0000_ffff_0102_0002, 0x0000_ffff_0002_0000, 0])
    );
    assert_ne!(read.evaluate(&ctx), write.evaluate(&ctx));
}

#[test]
fn lookup_expressions_follow_the_row() {
    let circuit = circuit();
    let (status, entry) = read_of_ten();
    let mut ctx = assigned_row(&circuit, &status, &entry);
    let config = &circuit.config;
    let read = config.mtable_lookup(MLookupItem::First, &circuit.common).unwrap();
    assert_eq!(read.evaluate(&ctx), ctx.get(config.lookup_global_read.cell));
    // another value in the value cell changes what the expression takes
    assert_eq!(ctx.set(config.value.value_cell, FieldValue::from_u64(11)), Ok(()));
    assert_ne!(read.evaluate(&ctx), ctx.get(config.lookup_global_read.cell));
}

#[test]
fn a_step_of_another_instruction_is_a_dispatch_defect() {
    let circuit = circuit();
    let status = StepStatus { current: Status { eid: 1, moid: 0, sp: 10 } };
    let mut ctx = Context::new(circuit.allocator.len());
    let drop = EventTableEntry { eid: 1, sp: 10, step_info: StepInfo::Drop };
    assert_eq!(circuit.config.assign(&mut ctx, &status, &drop), Err(AssignError::DispatchDefect));
    let ret = EventTableEntry { eid: 1, sp: 10, step_info: StepInfo::Return };
    assert_eq!(circuit.config.assign(&mut ctx, &status, &ret), Err(AssignError::DispatchDefect));
    for i in 0..ctx.len() {
        assert_eq!(ctx.get(Cell { index: i }), FieldValue::zero());
    }
}

#[test]
fn an_operand_beyond_its_cell_is_out_of_range() {
    let circuit = circuit();
    let status = StepStatus { current: Status { eid: 1, moid: 0, sp: 10 } };
    let mut ctx = Context::new(circuit.allocator.len());
    let entry = EventTableEntry {
        eid: 1,
        sp: 10,
        step_info: StepInfo::GetGlobal {
            idx: 65536,
            origin_module: 0,
            origin_idx: 0,
            vtype: VarType::I32,
            value: 10,
        },
    };
    assert_eq!(
        circuit.config.assign(&mut ctx, &status, &entry),
        Err(AssignError::ValueOutOfRange)
    );
    for i in 0..ctx.len() {
        assert_eq!(ctx.get(Cell { index: i }), FieldValue::zero());
    }
    // the range is checked before the row
    let mut short = Context::new(0);
    assert_eq!(
        circuit.config.assign(&mut short, &status, &entry),
        Err(AssignError::ValueOutOfRange)
    );
}

#[test]
fn a_short_row_is_out_of_bounds() {
    let circuit = circuit();
    let (status, entry) = read_of_ten();
    let mut ctx = Context::new(circuit.allocator.len() - 1);
    assert_eq!(
        circuit.config.assign(&mut ctx, &status, &entry),
        Err(AssignError::CellOutOfBounds)
    );
    for i in 0..ctx.len() {
        assert_eq!(ctx.get(Cell { index: i }), FieldValue::zero());
    }
    let mut tiny = Context::new(2);
    assert_eq!(
        circuit.common.assign(&mut tiny, &status.current),
        Err(AssignError::CellOutOfBounds)
    );
}

#[test]
fn shared_state_must_fit_its_cells() {
    let circuit = circuit();
    let mut ctx = Context::new(circuit.allocator.len());
    let late = Status { eid: 65536, moid: 0, sp: 10 };
    assert_eq!(circuit.common.assign(&mut ctx, &late), Err(AssignError::ValueOutOfRange));
    let deep = Status { eid: 1, moid: 0, sp: 65536 };
    assert_eq!(circuit.common.assign(&mut ctx, &deep), Err(AssignError::ValueOutOfRange));
    assert_eq!(ctx.get(circuit.common.eid.cell), FieldValue::zero());
    let edge = Status { eid: 65535, moid: 65535, sp: 65535 };
    assert_eq!(circuit.common.assign(&mut ctx, &edge), Ok(()));
    assert_eq!(ctx.get(circuit.common.eid.cell), FieldValue::from_u64(65535));
    assert_eq!(ctx.get(circuit.common.moid.cell), FieldValue::from_u64(65535));
    assert_eq!(ctx.get(circuit.common.sp.cell), FieldValue::from_u64(65535));
}

#[test]
fn bounded_cell_checks_range_then_bounds() {
    let cell = CommonRangeCell { cell: Cell { index: 1 } };
    let mut ctx = Context::new(2);
    assert_eq!(cell.assign(&mut ctx, 65535), Ok(()));
    assert_eq!(ctx.get(cell.cell), FieldValue::from_u64(65535));
    assert_eq!(cell.assign(&mut ctx, 65536), Err(AssignError::ValueOutOfRange));
    assert_eq!(ctx.get(cell.cell), FieldValue::from_u64(65535));
    let beyond = CommonRangeCell { cell: Cell { index: 2 } };
    assert_eq!(beyond.assign(&mut ctx, 1), Err(AssignError::CellOutOfBounds));
    assert_eq!(beyond.assign(&mut ctx, 65536), Err(AssignError::ValueOutOfRange));
}

#[test]
fn constraints_keep_their_order_and_duplicate_names() {
    let mut constraints = ConstraintBuilder::new();
    let ctx = Context::new(1);
    assert_eq!(constraints.len(), 0);
    assert_eq!(constraints.first_violated(&ctx), None);
    constraints.push("zero", vec![Expr::Constant(FieldValue::zero())]);
    constraints.push("one", vec![Expr::Constant(FieldValue::zero()), Expr::Constant(FieldValue::one())]);
    constraints.push("one", vec![Expr::Constant(FieldValue::one())]);
    constraints.push("empty", vec![]);
    assert_eq!(constraints.len(), 4);
    assert_eq!(constraints.get(0).name, "zero");
    assert_eq!(constraints.get(1).name, "one");
    assert_eq!(constraints.get(2).name, "one");
    assert_eq!(constraints.first_violated(&ctx), Some(1));
    assert!(constraints.get(0).is_satisfied(&ctx));
    assert!(!constraints.get(1).is_satisfied(&ctx));
    assert!(!constraints.get(2).is_satisfied(&ctx));
    assert!(constraints.get(3).is_satisfied(&ctx));
}
