//! The raw operand slot, the typed operand model, and the classifier
//! between them.

use vstd::prelude::*;

use crate::reg::Reg;
use crate::shift::{Shift, ShiftKind};
use crate::sysreg::SysReg;

verus! {

/// Operand-class code of the empty slot: the end-of-operand-list sentinel.
pub const CLASS_NONE: u32 = 0;
/// Operand-class code of a 32-bit immediate.
pub const CLASS_IMM32: u32 = 1;
/// Operand-class code of a 64-bit immediate.
pub const CLASS_IMM64: u32 = 2;
/// Operand-class code of a 32-bit floating-point immediate.
pub const CLASS_FIMM32: u32 = 3;
/// Operand-class code of a register.
pub const CLASS_REG: u32 = 5;
/// Operand-class code of a system register.
pub const CLASS_SYS_REG: u32 = 7;
/// Operand-class code of a plain register-indirect memory reference.
pub const CLASS_MEM_REG: u32 = 8;
/// Operand-class code of a pre-indexed memory reference.
pub const CLASS_MEM_PRE_IDX: u32 = 9;
/// Operand-class code of a post-indexed memory reference.
pub const CLASS_MEM_POST_IDX: u32 = 10;
/// Operand-class code of a base-plus-offset memory reference.
pub const CLASS_MEM_OFFSET: u32 = 11;
/// Operand-class code of a register-extended memory reference.
pub const CLASS_MEM_EXTENDED: u32 = 12;
/// Operand-class code of a code label.
pub const CLASS_LABEL: u32 = 16;
/// Operand-class code of a condition.
pub const CLASS_CONDITION: u32 = 17;

/// Register code of the empty register slot.
pub const REG_CODE_NONE: u32 = 0;

/// A sign-magnitude immediate: the signed value is `-val` when `neg` holds,
/// `val` otherwise.
#[derive(Clone, Copy, Debug, PartialEq, Eq, Hash, Structural)]
pub struct Imm {
    pub neg: bool,
    pub val: u64,
}

/// A condition, as used by conditional-compare and conditional-select forms.
#[derive(Clone, Copy, Debug, PartialEq, Eq, Hash, Structural)]
pub enum Condition {
    EQ,
    NE,
    CS,
    CC,
    MI,
    PL,
    VS,
    VC,
    HI,
    LS,
    GE,
    LT,
    GT,
    LE,
    AL,
    NV,
}

impl Condition {
    /// The condition named by a numeric code of the external decoder, or
    /// `None` for codes outside the catalog.
    pub open spec fn spec_from_code(code: u32) -> Option<Condition> {
        match code {
            0u32 => Some(Condition::EQ),
            1u32 => Some(Condition::NE),
            2u32 => Some(Condition::CS),
            3u32 => Some(Condition::CC),
            4u32 => Some(Condition::MI),
            5u32 => Some(Condition::PL),
            6u32 => Some(Condition::VS),
            7u32 => Some(Condition::VC),
            8u32 => Some(Condition::HI),
            9u32 => Some(Condition::LS),
            10u32 => Some(Condition::GE),
            11u32 => Some(Condition::LT),
            12u32 => Some(Condition::GT),
            13u32 => Some(Condition::LE),
            14u32 => Some(Condition::AL),
            15u32 => Some(Condition::NV),
            _ => None,
        }
    }

    /// Maps a numeric condition code of the external decoder to its symbol.
    pub fn from_code(code: u32) -> (r: Option<Condition>)
        ensures
            r == Condition::spec_from_code(code),
    {
        match code {
            0u32 => Some(Condition::EQ),
            1u32 => Some(Condition::NE),
            2u32 => Some(Condition::CS),
            3u32 => Some(Condition::CC),
            4u32 => Some(Condition::MI),
            5u32 => Some(Condition::PL),
            6u32 => Some(Condition::VS),
            7u32 => Some(Condition::VC),
            8u32 => Some(Condition::HI),
            9u32 => Some(Condition::LS),
            10u32 => Some(Condition::GE),
            11u32 => Some(Condition::LT),
            12u32 => Some(Condition::GT),
            13u32 => Some(Condition::LE),
            14u32 => Some(Condition::AL),
            15u32 => Some(Condition::NV),
            _ => None,
        }
    }
}

/// One raw operand slot, as the external decoder fills it: a discriminant
/// tag and the union of the fields the decoder can set, all as plain
/// values.  Which fields are meaningful depends on the tag.
#[derive(Clone, Copy, Debug, PartialEq, Eq, Hash, Structural)]
pub struct RawOperandSlot {
    /// The operand-class tag (one of the `CLASS_` codes).
    pub class: u32,
    /// The first register code.
    pub reg0: u32,
    /// The second register code (post-indexed and extended forms).
    pub reg1: u32,
    /// The system-register encoding.
    pub sysreg: u32,
    /// The condition code.
    pub cond: u32,
    /// The immediate value.
    pub imm: u64,
    /// Whether the immediate is negative (sign-magnitude convention).
    pub simm: bool,
    /// The shift-kind code.
    pub shift_kind: u32,
    /// The shift amount.
    pub shift_amount: u32,
    /// Whether a shift amount is attached at all.
    pub shift_used: bool,
}

/// A typed operand: one case per addressing or value form of the model.
/// Every field is copied verbatim from the raw slot, with no derived
/// computation.
#[derive(Clone, Copy, Debug, PartialEq, Eq, Hash)]
pub enum Operand {
    /// A 32-bit immediate, possibly shifted.
    Imm32 { imm: Imm, shift: Option<Shift> },
    /// A 64-bit immediate, possibly shifted.
    Imm64 { imm: Imm, shift: Option<Shift> },
    /// A 32-bit floating-point immediate, carried as its raw bits.
    FImm32 { bits: u32 },
    /// A register, possibly shifted or extended.
    Reg { reg: Reg, shift: Option<Shift> },
    /// A system register.
    SysReg { sysreg: SysReg },
    /// A register-indirect memory reference: `[base]`.
    MemReg { reg: Reg },
    /// A base-plus-offset memory reference: `[base, #offset]`.
    MemOffset { reg: Reg, offset: u64 },
    /// A pre-indexed memory reference: `[base, #offset]!`.
    MemPreIdx { reg: Reg, offset: u64 },
    /// A post-indexed memory reference with an immediate: `[base], #imm`.
    MemPostIdxImm { reg: Reg, imm: Imm },
    /// A post-indexed memory reference with a register index: `[base], Xm`.
    MemPostIdxReg { reg: Reg, idx: Reg },
    /// A register-extended memory reference: `[base, index, ext]`.
    MemExt { reg: Reg, idx: Reg, shift: Option<Shift> },
    /// A code label, carried as an immediate.
    Label { imm: Imm },
    /// A condition.
    Cond { cond: Condition },
}

/// The shift attached to a slot: present exactly when the decoder marked
/// the slot as shifted and the shift kind is in the catalog.
pub open spec fn spec_shift_of(s: RawOperandSlot) -> Option<Shift> {
    if s.shift_used {
        match ShiftKind::spec_from_code(s.shift_kind) {
            Some(kind) => Some(Shift { kind, amount: s.shift_amount }),
            None => None,
        }
    } else {
        None
    }
}

/// The sign-magnitude immediate carried by a slot.
pub open spec fn spec_imm_of(s: RawOperandSlot) -> Imm {
    Imm { neg: s.simm, val: s.imm }
}

impl Operand {
    /// The classification of one raw slot.  The result is `None` exactly
    /// when the slot does not carry an operand of the model: for the empty
    /// sentinel tag, which ends the operand list, and for a slot whose tag
    /// or codes fall outside the closed catalogs.
    pub open spec fn spec_classify(s: RawOperandSlot) -> Option<Operand> {
        if s.class == CLASS_IMM32 {
            Some(Operand::Imm32 { imm: spec_imm_of(s), shift: spec_shift_of(s) })
        } else if s.class == CLASS_IMM64 {
            Some(Operand::Imm64 { imm: spec_imm_of(s), shift: spec_shift_of(s) })
        } else if s.class == CLASS_FIMM32 {
            Some(Operand::FImm32 { bits: s.imm as u32 })
        } else if s.class == CLASS_REG {
            match Reg::spec_from_code(s.reg0) {
                Some(reg) => Some(Operand::Reg { reg, shift: spec_shift_of(s) }),
                None => None,
            }
        } else if s.class == CLASS_SYS_REG {
            match SysReg::spec_from_code(s.sysreg) {
                Some(sr) => Some(Operand::SysReg { sysreg: sr }),
                None => None,
            }
        } else if s.class == CLASS_MEM_REG {
            match Reg::spec_from_code(s.reg0) {
                Some(reg) => Some(Operand::MemReg { reg }),
                None => None,
            }
        } else if s.class == CLASS_MEM_OFFSET {
            match Reg::spec_from_code(s.reg0) {
                Some(reg) => Some(Operand::MemOffset { reg, offset: s.imm }),
                None => None,
            }
        } else if s.class == CLASS_MEM_PRE_IDX {
            match Reg::spec_from_code(s.reg0) {
                Some(reg) => Some(Operand::MemPreIdx { reg, offset: s.imm }),
                None => None,
            }
        } else if s.class == CLASS_MEM_POST_IDX {
            match Reg::spec_from_code(s.reg0) {
                Some(reg) => if s.reg1 == REG_CODE_NONE {
                    Some(Operand::MemPostIdxImm { reg, imm: spec_imm_of(s) })
                } else {
                    match Reg::spec_from_code(s.reg1) {
                        Some(idx) => Some(Operand::MemPostIdxReg { reg, idx }),
                        None => None,
                    }
                },
                None => None,
            }
        } else if s.class == CLASS_MEM_EXTENDED {
            match (Reg::spec_from_code(s.reg0), Reg::spec_from_code(s.reg1)) {
                (Some(reg), Some(idx)) => Some(
                    Operand::MemExt { reg, idx, shift: spec_shift_of(s) },
                ),
                _ => None,
            }
        } else if s.class == CLASS_LABEL {
            Some(Operand::Label { imm: spec_imm_of(s) })
        } else if s.class == CLASS_CONDITION {
            match Condition::spec_from_code(s.cond) {
                Some(cond) => Some(Operand::Cond { cond }),
                None => None,
            }
        } else {
            None
        }
    }

    /// Classifies one raw operand slot into a typed operand, or `None` for
    /// the end-of-list sentinel and for slots outside the model.
    pub fn classify(s: RawOperandSlot) -> (r: Option<Operand>)
        ensures
            r == Operand::spec_classify(s),
    {
        if s.class == CLASS_IMM32 {
            Some(Operand::Imm32 { imm: imm_of(s), shift: shift_of(s) })
        } else if s.class == CLASS_IMM64 {
            Some(Operand::Imm64 { imm: imm_of(s), shift: shift_of(s) })
        } else if s.class == CLASS_FIMM32 {
            Some(Operand::FImm32 { bits: s.imm as u32 })
        } else if s.class == CLASS_REG {
            match Reg::from_code(s.reg0) {
                Some(reg) => Some(Operand::Reg { reg, shift: shift_of(s) }),
                None => None,
            }
        } else if s.class == CLASS_SYS_REG {
            match SysReg::from_code(s.sysreg) {
                Some(sr) => Some(Operand::SysReg { sysreg: sr }),
                None => None,
            }
        } else if s.class == CLASS_MEM_REG {
            match Reg::from_code(s.reg0) {
                Some(reg) => Some(Operand::MemReg { reg }),
                None => None,
            }
        } else if s.class == CLASS_MEM_OFFSET {
            match Reg::from_code(s.reg0) {
                Some(reg) => Some(Operand::MemOffset { reg, offset: s.imm }),
                None => None,
            }
        } else if s.class == CLASS_MEM_PRE_IDX {
            match Reg::from_code(s.reg0) {
                Some(reg) => Some(Operand::MemPreIdx { reg, offset: s.imm }),
                None => None,
            }
        } else if s.class == CLASS_MEM_POST_IDX {
            match Reg::from_code(s.reg0) {
                Some(reg) => if s.reg1 == REG_CODE_NONE {
                    Some(Operand::MemPostIdxImm { reg, imm: imm_of(s) })
                } else {
                    match Reg::from_code(s.reg1) {
                        Some(idx) => Some(Operand::MemPostIdxReg { reg, idx }),
                        None => None,
                    }
                },
                None => None,
            }
        } else if s.class == CLASS_MEM_EXTENDED {
            match (Reg::from_code(s.reg0), Reg::from_code(s.reg1)) {
                (Some(reg), Some(idx)) => Some(
                    Operand::MemExt { reg, idx, shift: shift_of(s) },
                ),
                _ => None,
            }
        } else if s.class == CLASS_LABEL {
            Some(Operand::Label { imm: imm_of(s) })
        } else if s.class == CLASS_CONDITION {
            match Condition::from_code(s.cond) {
                Some(cond) => Some(Operand::Cond { cond }),
                None => None,
            }
        } else {
            None
        }
    }
}

/// Builds the shift of a slot, exactly as [`spec_shift_of`] states it.
fn shift_of(s: RawOperandSlot) -> (r: Option<Shift>)
    ensures
        r == spec_shift_of(s),
{
    if s.shift_used {
        match ShiftKind::from_code(s.shift_kind) {
            Some(kind) => Some(Shift { kind, amount: s.shift_amount }),
            None => None,
        }
    } else {
        None
    }
}

/// Builds the immediate of a slot, exactly as [`spec_imm_of`] states it.
fn imm_of(s: RawOperandSlot) -> (r: Imm)
    ensures
        r == spec_imm_of(s),
{
    Imm { neg: s.simm, val: s.imm }
}

} // verus!
