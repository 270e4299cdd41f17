//! The closed catalog of system-register encodings.

use vstd::prelude::*;

verus! {

/// A system register, named by its architectural encoding.
#[allow(non_camel_case_types)]
#[derive(Clone, Copy, Debug, PartialEq, Eq, Hash, Structural)]
pub enum SysReg {
    MIDR_EL1,
    CTR_EL0,
    DCZID_EL0,
    NZCV,
    FPCR,
    FPSR,
    TPIDR_EL0,
    TPIDRRO_EL0,
    CNTFRQ_EL0,
    CNTVCT_EL0,
}

impl SysReg {
    /// The system register named by a numeric encoding of the external
    /// decoder, or `None` for the empty sentinel and for encodings outside
    /// the catalog.
    pub open spec fn spec_from_code(code: u32) -> Option<SysReg> {
        match code {
            49152u32 => Some(SysReg::MIDR_EL1),
            55297u32 => Some(SysReg::CTR_EL0),
            55303u32 => Some(SysReg::DCZID_EL0),
            55824u32 => Some(SysReg::NZCV),
            55840u32 => Some(SysReg::FPCR),
            55841u32 => Some(SysReg::FPSR),
            56962u32 => Some(SysReg::TPIDR_EL0),
            56963u32 => Some(SysReg::TPIDRRO_EL0),
            57088u32 => Some(SysReg::CNTFRQ_EL0),
            57090u32 => Some(SysReg::CNTVCT_EL0),
            _ => None,
        }
    }

    /// Maps a numeric system-register encoding of the external decoder to
    /// its symbol.
    pub fn from_code(code: u32) -> (r: Option<SysReg>)
        ensures
            r == SysReg::spec_from_code(code),
    {
        match code {
            49152u32 => Some(SysReg::MIDR_EL1),
            55297u32 => Some(SysReg::CTR_EL0),
            55303u32 => Some(SysReg::DCZID_EL0),
            55824u32 => Some(SysReg::NZCV),
            55840u32 => Some(SysReg::FPCR),
            55841u32 => Some(SysReg::FPSR),
            56962u32 => Some(SysReg::TPIDR_EL0),
            56963u32 => Some(SysReg::TPIDRRO_EL0),
            57088u32 => Some(SysReg::CNTFRQ_EL0),
            57090u32 => Some(SysReg::CNTVCT_EL0),
            _ => None,
        }
    }
}

} // verus!
