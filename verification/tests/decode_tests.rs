use bad64::{
    decode_record, Condition, DecodeError, Imm, Instruction, Operand, Operation, RawOperandSlot,
    RawRecord, Reg, Shift, ShiftKind, SysReg, MAX_OPERANDS,
};

fn empty_slot() -> RawOperandSlot {
    RawOperandSlot {
        class: 0,
        reg0: 0,
        reg1: 0,
        sysreg: 0,
        cond: 0,
        imm: 0,
        simm: false,
        shift_kind: 0,
        shift_amount: 0,
        shift_used: false,
    }
}

fn reg_slot(code: u32) -> RawOperandSlot {
    let mut s = empty_slot();
    s.class = 5;
    s.reg0 = code;
    s
}

fn imm64_slot(val: u64) -> RawOperandSlot {
    let mut s = empty_slot();
    s.class = 2;
    s.imm = val;
    s
}

fn record(operation: u32, filled: &[RawOperandSlot]) -> RawRecord {
    assert!(filled.len() <= MAX_OPERANDS);
    let mut slots = Vec::new();
    for s in filled {
        slots.push(*s);
    }
    while slots.len() < MAX_OPERANDS {
        slots.push(empty_slot());
    }
    RawRecord { operation, slots }
}

fn decode_ok(operation: u32, filled: &[RawOperandSlot], address: u64) -> Instruction {
    decode_record(0, record(operation, filled), address).unwrap()
}

const OP_NOP: u32 = 919;
const OP_ADD: u32 = 6;
const REG_X0: u32 = 34;
const REG_X1: u32 = 35;

#[test]
fn nop_decode() {
    let ins = decode_ok(OP_NOP, &[], 0x1000);
    assert_eq!(ins.address(), 0x1000);
    assert_eq!(ins.operation(), Operation::NOP);
    assert_eq!(ins.num_operands(), 0);
    assert_eq!(ins.mnem(), "nop");
    assert_eq!(ins.operand(0), None);
}

#[test]
fn add_immediate_decode() {
    // add x0, x1, #0x41
    let ins = decode_ok(OP_ADD, &[reg_slot(REG_X0), reg_slot(REG_X1), imm64_slot(0x41)], 0x1000);
    assert_eq!(ins.operation(), Operation::ADD);
    assert_eq!(ins.mnem(), "add");
    assert_eq!(ins.num_operands(), 3);
    assert_eq!(ins.operand(0), Some(Operand::Reg { reg: Reg::X0, shift: None }));
    assert_eq!(ins.operand(1), Some(Operand::Reg { reg: Reg::X1, shift: None }));
    assert_eq!(
        ins.operand(2),
        Some(Operand::Imm64 { imm: Imm { neg: false, val: 0x41 }, shift: None })
    );
    assert_eq!(ins.operand(3), None);
}

#[test]
fn no_operand_at_or_past_count() {
    let ins = decode_ok(OP_ADD, &[reg_slot(REG_X0), reg_slot(REG_X1), imm64_slot(0x41)], 0x1000);
    let n = ins.num_operands();
    for k in n..(MAX_OPERANDS + 3) {
        assert_eq!(ins.operand(k), None);
    }
}

#[test]
fn mnem_is_pure_in_operation() {
    let a = decode_ok(OP_ADD, &[reg_slot(REG_X0), reg_slot(REG_X1), imm64_slot(0x41)], 0x1000);
    let b = decode_ok(OP_ADD, &[reg_slot(REG_X1), reg_slot(REG_X0), imm64_slot(0x7)], 0x2000);
    assert_eq!(a.operation(), b.operation());
    assert_eq!(a.mnem(), b.mnem());
}

#[test]
fn operands_enumeration_is_restartable() {
    let ins = decode_ok(OP_ADD, &[reg_slot(REG_X0), reg_slot(REG_X1), imm64_slot(0x41)], 0x1000);
    let mut first = Vec::new();
    let mut it = ins.operands();
    while let Some(op) = it.next() {
        first.push(op);
    }
    let mut second = Vec::new();
    let mut it2 = ins.operands();
    while let Some(op) = it2.next() {
        second.push(op);
    }
    assert_eq!(first.len(), 3);
    assert_eq!(first, second);
    // the instruction itself is unaffected by the enumeration
    assert_eq!(ins.num_operands(), 3);
    assert_eq!(ins.operand(0), Some(Operand::Reg { reg: Reg::X0, shift: None }));
}

#[test]
fn duplicate_preserves_everything() {
    let ins = decode_ok(OP_ADD, &[reg_slot(REG_X0)], 0x1234);
    let copy = ins.duplicate();
    assert_eq!(copy, ins);
    assert_eq!(copy.address(), 0x1234);
    assert_eq!(copy.operand(0), ins.operand(0));
}

#[test]
fn error_statuses_map_to_their_variants() {
    let cases: [(i32, DecodeError); 7] = [
        (-1, DecodeError::Reserved),
        (-2, DecodeError::Unmatched),
        (-3, DecodeError::Unallocated),
        (-4, DecodeError::Undefined),
        (-5, DecodeError::EndOfInstruction),
        (-6, DecodeError::Lost),
        (-7, DecodeError::Unreachable),
    ];
    for (status, expected) in cases {
        assert_eq!(DecodeError::from_status(status), Some(expected));
        let r = decode_record(status, record(0, &[]), 0x40);
        assert_eq!(r, Err(expected));
    }
}

#[test]
fn unmapped_statuses_have_no_error() {
    assert_eq!(DecodeError::from_status(-8), None);
    assert_eq!(DecodeError::from_status(-9), None);
    assert_eq!(DecodeError::from_status(1), None);
}

#[test]
fn register_catalog() {
    assert_eq!(Reg::from_code(0), None);
    assert_eq!(Reg::from_code(1), Some(Reg::W0));
    assert_eq!(Reg::from_code(31), Some(Reg::W30));
    assert_eq!(Reg::from_code(32), Some(Reg::WZR));
    assert_eq!(Reg::from_code(33), Some(Reg::WSP));
    assert_eq!(Reg::from_code(34), Some(Reg::X0));
    assert_eq!(Reg::from_code(64), Some(Reg::X30));
    assert_eq!(Reg::from_code(65), Some(Reg::XZR));
    assert_eq!(Reg::from_code(66), Some(Reg::SP));
    assert_eq!(Reg::from_code(67), Some(Reg::V0));
    assert_eq!(Reg::from_code(98), Some(Reg::V31));
    assert_eq!(Reg::from_code(99), Some(Reg::B0));
    assert_eq!(Reg::from_code(195), Some(Reg::D0));
    assert_eq!(Reg::from_code(258), Some(Reg::Q31));
    assert_eq!(Reg::from_code(259), None);
}

#[test]
fn operation_catalog() {
    assert_eq!(Operation::from_code(0), None);
    assert_eq!(Operation::from_code(OP_NOP), Some(Operation::NOP));
    assert_eq!(Operation::from_code(1404), Some(Operation::STR));
    assert_eq!(Operation::from_code(769), Some(Operation::LDR));
    assert_eq!(Operation::from_code(397), Some(Operation::EOR));
    assert_eq!(Operation::from_code(1700), None);
    assert_eq!(Operation::NOP.mnemonic(), "nop");
    assert_eq!(Operation::LDRSW.mnemonic(), "ldrsw");
}

#[test]
fn shift_and_condition_and_sysreg_catalogs() {
    assert_eq!(ShiftKind::from_code(0), None);
    assert_eq!(ShiftKind::from_code(1), Some(ShiftKind::LSL));
    assert_eq!(ShiftKind::from_code(13), Some(ShiftKind::MSL));
    assert_eq!(ShiftKind::from_code(14), None);
    assert_eq!(Condition::from_code(0), Some(Condition::EQ));
    assert_eq!(Condition::from_code(15), Some(Condition::NV));
    assert_eq!(Condition::from_code(16), None);
    assert_eq!(SysReg::from_code(55824), Some(SysReg::NZCV));
    assert_eq!(SysReg::from_code(56962), Some(SysReg::TPIDR_EL0));
    assert_eq!(SysReg::from_code(12345), None);
}

#[test]
fn classifier_memory_forms() {
    let mut pre = empty_slot();
    pre.class = 9;
    pre.reg0 = 66; // SP
    pre.imm = 16;
    assert_eq!(
        Operand::classify(pre),
        Some(Operand::MemPreIdx { reg: Reg::SP, offset: 16 })
    );

    let mut post_imm = empty_slot();
    post_imm.class = 10;
    post_imm.reg0 = 66;
    post_imm.imm = 16;
    assert_eq!(
        Operand::classify(post_imm),
        Some(Operand::MemPostIdxImm { reg: Reg::SP, imm: Imm { neg: false, val: 16 } })
    );

    let mut post_reg = post_imm;
    post_reg.reg1 = REG_X1;
    assert_eq!(
        Operand::classify(post_reg),
        Some(Operand::MemPostIdxReg { reg: Reg::SP, idx: Reg::X1 })
    );

    let mut off = empty_slot();
    off.class = 11;
    off.reg0 = REG_X0;
    off.imm = 8;
    assert_eq!(Operand::classify(off), Some(Operand::MemOffset { reg: Reg::X0, offset: 8 }));

    let mut mem_reg = empty_slot();
    mem_reg.class = 8;
    mem_reg.reg0 = REG_X0;
    assert_eq!(Operand::classify(mem_reg), Some(Operand::MemReg { reg: Reg::X0 }));

    let mut ext = empty_slot();
    ext.class = 12;
    ext.reg0 = REG_X0;
    ext.reg1 = REG_X1;
    ext.shift_used = true;
    ext.shift_kind = 5; // UXTW
    ext.shift_amount = 2;
    assert_eq!(
        Operand::classify(ext),
        Some(Operand::MemExt {
            reg: Reg::X0,
            idx: Reg::X1,
            shift: Some(Shift { kind: ShiftKind::UXTW, amount: 2 }),
        })
    );
}

#[test]
fn classifier_value_forms() {
    let mut imm32 = empty_slot();
    imm32.class = 1;
    imm32.imm = 7;
    imm32.simm = true;
    assert_eq!(
        Operand::classify(imm32),
        Some(Operand::Imm32 { imm: Imm { neg: true, val: 7 }, shift: None })
    );

    let mut shifted = empty_slot();
    shifted.class = 2;
    shifted.imm = 0x41;
    shifted.shift_used = true;
    shifted.shift_kind = 1; // LSL
    shifted.shift_amount = 12;
    assert_eq!(
        Operand::classify(shifted),
        Some(Operand::Imm64 {
            imm: Imm { neg: false, val: 0x41 },
            shift: Some(Shift { kind: ShiftKind::LSL, amount: 12 }),
        })
    );

    let mut fimm = empty_slot();
    fimm.class = 3;
    fimm.imm = 0x3fc0_0000;
    assert_eq!(Operand::classify(fimm), Some(Operand::FImm32 { bits: 0x3fc0_0000 }));

    let mut label = empty_slot();
    label.class = 16;
    label.imm = 0x2000;
    assert_eq!(
        Operand::classify(label),
        Some(Operand::Label { imm: Imm { neg: false, val: 0x2000 } })
    );

    let mut cond = empty_slot();
    cond.class = 17;
    cond.cond = 10;
    assert_eq!(Operand::classify(cond), Some(Operand::Cond { cond: Condition::GE }));

    let mut sys = empty_slot();
    sys.class = 7;
    sys.sysreg = 55824;
    assert_eq!(Operand::classify(sys), Some(Operand::SysReg { sysreg: SysReg::NZCV }));
}

#[test]
fn classifier_rejects_what_is_outside_the_model() {
    assert_eq!(Operand::classify(empty_slot()), None);

    // a slot class outside the modeled forms
    let mut multi = empty_slot();
    multi.class = 6;
    assert_eq!(Operand::classify(multi), None);

    // a register code outside the catalog
    let mut bad_reg = empty_slot();
    bad_reg.class = 5;
    bad_reg.reg0 = 300;
    assert_eq!(Operand::classify(bad_reg), None);

    // a zero-amount shift is still a shift, distinct from no shift
    let mut zero_shift = reg_slot(REG_X0);
    zero_shift.shift_used = true;
    zero_shift.shift_kind = 1;
    zero_shift.shift_amount = 0;
    assert_eq!(
        Operand::classify(zero_shift),
        Some(Operand::Reg { reg: Reg::X0, shift: Some(Shift { kind: ShiftKind::LSL, amount: 0 }) })
    );
}
