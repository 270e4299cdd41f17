use bad64::{
    decode_record, DecodeError, Disassembler, Imm, Operand, Operation, RawOperandSlot, RawRecord,
    Reg, Window, MAX_OPERANDS,
};

fn empty_slot() -> RawOperandSlot {
    RawOperandSlot {
        class: 0,
        reg0: 0,
        reg1: 0,
        sysreg: 0,
        cond: 0,
        imm: 0,
        simm: false,
        shift_kind: 0,
        shift_amount: 0,
        shift_used: false,
    }
}

fn record(operation: u32, filled: &[RawOperandSlot]) -> RawRecord {
    let mut slots = Vec::new();
    for s in filled {
        slots.push(*s);
    }
    while slots.len() < MAX_OPERANDS {
        slots.push(empty_slot());
    }
    RawRecord { operation, slots }
}

const OP_STR: u32 = 1404;
const OP_LDR: u32 = 769;
const REG_X0: u32 = 34;
const REG_SP: u32 = 66;

#[test]
fn eight_bytes_give_two_full_windows() {
    // 1000: str x0, [sp, #-16]!   1004: ldr x0, [sp], #16
    let code = vec![0xe0, 0x0f, 0x1f, 0xf8, 0xe0, 0x07, 0x41, 0xf8];
    let mut d = Disassembler::new(code, 0x1000);
    assert_eq!(d.next_window(), Some(Window::Full { address: 0x1000, word: 0xf81f0fe0 }));
    assert_eq!(d.next_window(), Some(Window::Full { address: 0x1004, word: 0xf84107e0 }));
    assert_eq!(d.next_window(), None);
    assert_eq!(d.next_window(), None);
}

#[test]
fn push_and_pop_records_decode_to_their_operands() {
    // what the external decoder answers for the two windows above
    let mut x0 = empty_slot();
    x0.class = 5;
    x0.reg0 = REG_X0;

    let mut pre = empty_slot();
    pre.class = 9;
    pre.reg0 = REG_SP;
    pre.imm = 16;

    let push = decode_record(0, record(OP_STR, &[x0, pre]), 0x1000).unwrap();
    assert_eq!(push.address(), 0x1000);
    assert_eq!(push.operation(), Operation::STR);
    assert_eq!(push.num_operands(), 2);
    assert_eq!(push.operand(0), Some(Operand::Reg { reg: Reg::X0, shift: None }));
    assert_eq!(push.operand(1), Some(Operand::MemPreIdx { reg: Reg::SP, offset: 16 }));
    assert_eq!(push.operand(2), None);

    let mut post = empty_slot();
    post.class = 10;
    post.reg0 = REG_SP;
    post.imm = 16;

    let pop = decode_record(0, record(OP_LDR, &[x0, post]), 0x1004).unwrap();
    assert_eq!(pop.address(), 0x1004);
    assert_eq!(pop.operation(), Operation::LDR);
    assert_eq!(pop.num_operands(), 2);
    assert_eq!(pop.operand(0), Some(Operand::Reg { reg: Reg::X0, shift: None }));
    assert_eq!(
        pop.operand(1),
        Some(Operand::MemPostIdxImm { reg: Reg::SP, imm: Imm { neg: false, val: 16 } })
    );
    assert_eq!(pop.operand(2), None);
}

#[test]
fn five_bytes_give_one_full_and_one_short_window() {
    let code = vec![0x1f, 0x20, 0x03, 0xd5, 0x99];
    let mut d = Disassembler::new(code, 0x1000);
    assert_eq!(d.next_window(), Some(Window::Full { address: 0x1000, word: 0xd503201f }));
    let short = d.next_window().unwrap();
    assert_eq!(short, Window::Short { address: 0x1004 });
    assert_eq!(short.short_error(), Some((0x1004, DecodeError::Short)));
    assert_eq!(d.next_window(), None);
}

#[test]
fn empty_buffer_gives_no_windows() {
    let mut d = Disassembler::new(Vec::new(), 0x1000);
    assert_eq!(d.next_window(), None);
    assert_eq!(d.next_window(), None);
}

#[test]
fn partial_windows_of_every_width_are_short_and_last() {
    for extra in 1..4usize {
        let mut code = vec![0xe0, 0x0f, 0x1f, 0xf8];
        for _ in 0..extra {
            code.push(0xaa);
        }
        let mut d = Disassembler::new(code, 0);
        assert_eq!(d.next_window(), Some(Window::Full { address: 0, word: 0xf81f0fe0 }));
        assert_eq!(d.next_window(), Some(Window::Short { address: 4 }));
        assert_eq!(d.next_window(), None);
    }
}

#[test]
fn full_windows_carry_no_short_error() {
    let w = Window::Full { address: 0, word: 0x1234 };
    assert_eq!(w.short_error(), None);
}
