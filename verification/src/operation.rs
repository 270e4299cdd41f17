//! The closed catalog of operations, with their mnemonics.

use vstd::prelude::*;

verus! {

/// A symbolic operation of the instruction set, as classified by the
/// external decoder.  The catalog is closed: a decoded operation code
/// outside it has no symbol, which [`Operation::spec_from_code`] reports
/// as `None`.
#[derive(Clone, Copy, Debug, PartialEq, Eq, Hash, Structural)]
pub enum Operation {
    ADC,
    ADCS,
    ADD,
    ADDS,
    AND,
    ANDS,
    ASR,
    B,
    BL,
    BLR,
    BR,
    BRK,
    CBNZ,
    CBZ,
    CCMP,
    CMN,
    CMP,
    CSEL,
    CSET,
    EOR,
    LDP,
    LDR,
    LDRB,
    LDRH,
    LDRSW,
    LDUR,
    LSL,
    LSR,
    MADD,
    MOV,
    MOVK,
    MOVN,
    MOVZ,
    MRS,
    MSR,
    MSUB,
    MUL,
    MVN,
    NEG,
    NOP,
    ORN,
    ORR,
    RET,
    ROR,
    SDIV,
    STP,
    STR,
    STRB,
    STRH,
    STUR,
    SUB,
    SUBS,
    SVC,
    TBNZ,
    TBZ,
    TST,
    UDIV,
}

impl Operation {
    /// The operation named by a numeric code of the external decoder, or
    /// `None` for the error sentinel and for codes outside the catalog.
    pub open spec fn spec_from_code(code: u32) -> Option<Operation> {
        match code {
            2u32 => Some(Operation::ADC),
            5u32 => Some(Operation::ADCS),
            6u32 => Some(Operation::ADD),
            18u32 => Some(Operation::ADDS),
            33u32 => Some(Operation::AND),
            35u32 => Some(Operation::ANDS),
            38u32 => Some(Operation::ASR),
            64u32 => Some(Operation::B),
            115u32 => Some(Operation::BL),
            116u32 => Some(Operation::BLR),
            123u32 => Some(Operation::BR),
            129u32 => Some(Operation::BRK),
            215u32 => Some(Operation::CBNZ),
            216u32 => Some(Operation::CBZ),
            218u32 => Some(Operation::CCMP),
            239u32 => Some(Operation::CMN),
            240u32 => Some(Operation::CMP),
            370u32 => Some(Operation::CSEL),
            371u32 => Some(Operation::CSET),
            397u32 => Some(Operation::EOR),
            767u32 => Some(Operation::LDP),
            769u32 => Some(Operation::LDR),
            772u32 => Some(Operation::LDRB),
            773u32 => Some(Operation::LDRH),
            776u32 => Some(Operation::LDRSW),
            862u32 => Some(Operation::LDUR),
            872u32 => Some(Operation::LSL),
            875u32 => Some(Operation::LSR),
            882u32 => Some(Operation::MADD),
            891u32 => Some(Operation::MOV),
            895u32 => Some(Operation::MOVK),
            896u32 => Some(Operation::MOVN),
            900u32 => Some(Operation::MOVZ),
            902u32 => Some(Operation::MRS),
            904u32 => Some(Operation::MSR),
            906u32 => Some(Operation::MSUB),
            908u32 => Some(Operation::MUL),
            909u32 => Some(Operation::MVN),
            914u32 => Some(Operation::NEG),
            919u32 => Some(Operation::NOP),
            924u32 => Some(Operation::ORN),
            927u32 => Some(Operation::ORR),
            1051u32 => Some(Operation::RET),
            1067u32 => Some(Operation::ROR),
            1112u32 => Some(Operation::SDIV),
            1403u32 => Some(Operation::STP),
            1404u32 => Some(Operation::STR),
            1405u32 => Some(Operation::STRB),
            1406u32 => Some(Operation::STRH),
            1450u32 => Some(Operation::STUR),
            1460u32 => Some(Operation::SUB),
            1470u32 => Some(Operation::SUBS),
            1483u32 => Some(Operation::SVC),
            1515u32 => Some(Operation::TBNZ),
            1518u32 => Some(Operation::TBZ),
            1525u32 => Some(Operation::TST),
            1555u32 => Some(Operation::UDIV),
            _ => None,
        }
    }

    /// Maps a numeric operation code of the external decoder to its symbol.
    pub fn from_code(code: u32) -> (r: Option<Operation>)
        ensures
            r == Operation::spec_from_code(code),
    {
        match code {
            2u32 => Some(Operation::ADC),
            5u32 => Some(Operation::ADCS),
            6u32 => Some(Operation::ADD),
            18u32 => Some(Operation::ADDS),
            33u32 => Some(Operation::AND),
            35u32 => Some(Operation::ANDS),
            38u32 => Some(Operation::ASR),
            64u32 => Some(Operation::B),
            115u32 => Some(Operation::BL),
            116u32 => Some(Operation::BLR),
            123u32 => Some(Operation::BR),
            129u32 => Some(Operation::BRK),
            215u32 => Some(Operation::CBNZ),
            216u32 => Some(Operation::CBZ),
            218u32 => Some(Operation::CCMP),
            239u32 => Some(Operation::CMN),
            240u32 => Some(Operation::CMP),
            370u32 => Some(Operation::CSEL),
            371u32 => Some(Operation::CSET),
            397u32 => Some(Operation::EOR),
            767u32 => Some(Operation::LDP),
            769u32 => Some(Operation::LDR),
            772u32 => Some(Operation::LDRB),
            773u32 => Some(Operation::LDRH),
            776u32 => Some(Operation::LDRSW),
            862u32 => Some(Operation::LDUR),
            872u32 => Some(Operation::LSL),
            875u32 => Some(Operation::LSR),
            882u32 => Some(Operation::MADD),
            891u32 => Some(Operation::MOV),
            895u32 => Some(Operation::MOVK),
            896u32 => Some(Operation::MOVN),
            900u32 => Some(Operation::MOVZ),
            902u32 => Some(Operation::MRS),
            904u32 => Some(Operation::MSR),
            906u32 => Some(Operation::MSUB),
            908u32 => Some(Operation::MUL),
            909u32 => Some(Operation::MVN),
            914u32 => Some(Operation::NEG),
            919u32 => Some(Operation::NOP),
            924u32 => Some(Operation::ORN),
            927u32 => Some(Operation::ORR),
            1051u32 => Some(Operation::RET),
            1067u32 => Some(Operation::ROR),
            1112u32 => Some(Operation::SDIV),
            1403u32 => Some(Operation::STP),
            1404u32 => Some(Operation::STR),
            1405u32 => Some(Operation::STRB),
            1406u32 => Some(Operation::STRH),
            1450u32 => Some(Operation::STUR),
            1460u32 => Some(Operation::SUB),
            1470u32 => Some(Operation::SUBS),
            1483u32 => Some(Operation::SVC),
            1515u32 => Some(Operation::TBNZ),
            1518u32 => Some(Operation::TBZ),
            1525u32 => Some(Operation::TST),
            1555u32 => Some(Operation::UDIV),
            _ => None,
        }
    }

    /// The canonical mnemonic of an operation.  The mapping is pure and
    /// total: equal operations always have the same mnemonic.
    pub open spec fn spec_mnemonic(self) -> Seq<char> {
        match self {
            Operation::ADC => "adc"@,
            Operation::ADCS => "adcs"@,
            Operation::ADD => "add"@,
            Operation::ADDS => "adds"@,
            Operation::AND => "and"@,
            Operation::ANDS => "ands"@,
            Operation::ASR => "asr"@,
            Operation::B => "b"@,
            Operation::BL => "bl"@,
            Operation::BLR => "blr"@,
            Operation::BR => "br"@,
            Operation::BRK => "brk"@,
            Operation::CBNZ => "cbnz"@,
            Operation::CBZ => "cbz"@,
            Operation::CCMP => "ccmp"@,
            Operation::CMN => "cmn"@,
            Operation::CMP => "cmp"@,
            Operation::CSEL => "csel"@,
            Operation::CSET => "cset"@,
            Operation::EOR => "eor"@,
            Operation::LDP => "ldp"@,
            Operation::LDR => "ldr"@,
            Operation::LDRB => "ldrb"@,
            Operation::LDRH => "ldrh"@,
            Operation::LDRSW => "ldrsw"@,
            Operation::LDUR => "ldur"@,
            Operation::LSL => "lsl"@,
            Operation::LSR => "lsr"@,
            Operation::MADD => "madd"@,
            Operation::MOV => "mov"@,
            Operation::MOVK => "movk"@,
            Operation::MOVN => "movn"@,
            Operation::MOVZ => "movz"@,
            Operation::MRS => "mrs"@,
            Operation::MSR => "msr"@,
            Operation::MSUB => "msub"@,
            Operation::MUL => "mul"@,
            Operation::MVN => "mvn"@,
            Operation::NEG => "neg"@,
            Operation::NOP => "nop"@,
            Operation::ORN => "orn"@,
            Operation::ORR => "orr"@,
            Operation::RET => "ret"@,
            Operation::ROR => "ror"@,
            Operation::SDIV => "sdiv"@,
            Operation::STP => "stp"@,
            Operation::STR => "str"@,
            Operation::STRB => "strb"@,
            Operation::STRH => "strh"@,
            Operation::STUR => "stur"@,
            Operation::SUB => "sub"@,
            Operation::SUBS => "subs"@,
            Operation::SVC => "svc"@,
            Operation::TBNZ => "tbnz"@,
            Operation::TBZ => "tbz"@,
            Operation::TST => "tst"@,
            Operation::UDIV => "udiv"@,
        }
    }

    /// Returns the mnemonic of this operation.
    pub fn mnemonic(self) -> (r: &'static str)
        ensures
            r@ == self.spec_mnemonic(),
    {
        match self {
            Operation::ADC => "adc",
            Operation::ADCS => "adcs",
            Operation::ADD => "add",
            Operation::ADDS => "adds",
            Operation::AND => "and",
            Operation::ANDS => "ands",
            Operation::ASR => "asr",
            Operation::B => "b",
            Operation::BL => "bl",
            Operation::BLR => "blr",
            Operation::BR => "br",
            Operation::BRK => "brk",
            Operation::CBNZ => "cbnz",
            Operation::CBZ => "cbz",
            Operation::CCMP => "ccmp",
            Operation::CMN => "cmn",
            Operation::CMP => "cmp",
            Operation::CSEL => "csel",
            Operation::CSET => "cset",
            Operation::EOR => "eor",
            Operation::LDP => "ldp",
            Operation::LDR => "ldr",
            Operation::LDRB => "ldrb",
            Operation::LDRH => "ldrh",
            Operation::LDRSW => "ldrsw",
            Operation::LDUR => "ldur",
            Operation::LSL => "lsl",
            Operation::LSR => "lsr",
            Operation::MADD => "madd",
            Operation::MOV => "mov",
            Operation::MOVK => "movk",
            Operation::MOVN => "movn",
            Operation::MOVZ => "movz",
            Operation::MRS => "mrs",
            Operation::MSR => "msr",
            Operation::MSUB => "msub",
            Operation::MUL => "mul",
            Operation::MVN => "mvn",
            Operation::NEG => "neg",
            Operation::NOP => "nop",
            Operation::ORN => "orn",
            Operation::ORR => "orr",
            Operation::RET => "ret",
            Operation::ROR => "ror",
            Operation::SDIV => "sdiv",
            Operation::STP => "stp",
            Operation::STR => "str",
            Operation::STRB => "strb",
            Operation::STRH => "strh",
            Operation::STUR => "stur",
            Operation::SUB => "sub",
            Operation::SUBS => "subs",
            Operation::SVC => "svc",
            Operation::TBNZ => "tbnz",
            Operation::TBZ => "tbz",
            Operation::TST => "tst",
            Operation::UDIV => "udiv",
        }
    }
}

} // verus!
