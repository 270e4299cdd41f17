//! The closed catalog of architectural register names.

use vstd::prelude::*;

verus! {

/// An architectural register: the general-purpose registers in their
/// 32-bit (`W`) and 64-bit (`X`) forms, the zero registers, the stack
/// pointers, the SIMD/vector registers, and their scalar `B`/`H`/`S`/
/// `D`/`Q` views.
#[derive(Clone, Copy, Debug, PartialEq, Eq, Hash, Structural)]
pub enum Reg {
    W0,
    W1,
    W2,
    W3,
    W4,
    W5,
    W6,
    W7,
    W8,
    W9,
    W10,
    W11,
    W12,
    W13,
    W14,
    W15,
    W16,
    W17,
    W18,
    W19,
    W20,
    W21,
    W22,
    W23,
    W24,
    W25,
    W26,
    W27,
    W28,
    W29,
    W30,
    WZR,
    WSP,
    X0,
    X1,
    X2,
    X3,
    X4,
    X5,
    X6,
    X7,
    X8,
    X9,
    X10,
    X11,
    X12,
    X13,
    X14,
    X15,
    X16,
    X17,
    X18,
    X19,
    X20,
    X21,
    X22,
    X23,
    X24,
    X25,
    X26,
    X27,
    X28,
    X29,
    X30,
    XZR,
    SP,
    V0,
    V1,
    V2,
    V3,
    V4,
    V5,
    V6,
    V7,
    V8,
    V9,
    V10,
    V11,
    V12,
    V13,
    V14,
    V15,
    V16,
    V17,
    V18,
    V19,
    V20,
    V21,
    V22,
    V23,
    V24,
    V25,
    V26,
    V27,
    V28,
    V29,
    V30,
    V31,
    B0,
    B1,
    B2,
    B3,
    B4,
    B5,
    B6,
    B7,
    B8,
    B9,
    B10,
    B11,
    B12,
    B13,
    B14,
    B15,
    B16,
    B17,
    B18,
    B19,
    B20,
    B21,
    B22,
    B23,
    B24,
    B25,
    B26,
    B27,
    B28,
    B29,
    B30,
    B31,
    H0,
    H1,
    H2,
    H3,
    H4,
    H5,
    H6,
    H7,
    H8,
    H9,
    H10,
    H11,
    H12,
    H13,
    H14,
    H15,
    H16,
    H17,
    H18,
    H19,
    H20,
    H21,
    H22,
    H23,
    H24,
    H25,
    H26,
    H27,
    H28,
    H29,
    H30,
    H31,
    S0,
    S1,
    S2,
    S3,
    S4,
    S5,
    S6,
    S7,
    S8,
    S9,
    S10,
    S11,
    S12,
    S13,
    S14,
    S15,
    S16,
    S17,
    S18,
    S19,
    S20,
    S21,
    S22,
    S23,
    S24,
    S25,
    S26,
    S27,
    S28,
    S29,
    S30,
    S31,
    D0,
    D1,
    D2,
    D3,
    D4,
    D5,
    D6,
    D7,
    D8,
    D9,
    D10,
    D11,
    D12,
    D13,
    D14,
    D15,
    D16,
    D17,
    D18,
    D19,
    D20,
    D21,
    D22,
    D23,
    D24,
    D25,
    D26,
    D27,
    D28,
    D29,
    D30,
    D31,
    Q0,
    Q1,
    Q2,
    Q3,
    Q4,
    Q5,
    Q6,
    Q7,
    Q8,
    Q9,
    Q10,
    Q11,
    Q12,
    Q13,
    Q14,
    Q15,
    Q16,
    Q17,
    Q18,
    Q19,
    Q20,
    Q21,
    Q22,
    Q23,
    Q24,
    Q25,
    Q26,
    Q27,
    Q28,
    Q29,
    Q30,
    Q31,
}

impl Reg {
    /// The register named by a numeric code of the external decoder,
    /// or `None` for the empty sentinel and for codes outside the catalog.
    pub open spec fn spec_from_code(code: u32) -> Option<Reg> {
        match code {
            1u32 => Some(Reg::W0),
            2u32 => Some(Reg::W1),
            3u32 => Some(Reg::W2),
            4u32 => Some(Reg::W3),
            5u32 => Some(Reg::W4),
            6u32 => Some(Reg::W5),
            7u32 => Some(Reg::W6),
            8u32 => Some(Reg::W7),
            9u32 => Some(Reg::W8),
            10u32 => Some(Reg::W9),
            11u32 => Some(Reg::W10),
            12u32 => Some(Reg::W11),
            13u32 => Some(Reg::W12),
            14u32 => Some(Reg::W13),
            15u32 => Some(Reg::W14),
            16u32 => Some(Reg::W15),
            17u32 => Some(Reg::W16),
            18u32 => Some(Reg::W17),
            19u32 => Some(Reg::W18),
            20u32 => Some(Reg::W19),
            21u32 => Some(Reg::W20),
            22u32 => Some(Reg::W21),
            23u32 => Some(Reg::W22),
            24u32 => Some(Reg::W23),
            25u32 => Some(Reg::W24),
            26u32 => Some(Reg::W25),
            27u32 => Some(Reg::W26),
            28u32 => Some(Reg::W27),
            29u32 => Some(Reg::W28),
            30u32 => Some(Reg::W29),
            31u32 => Some(Reg::W30),
            32u32 => Some(Reg::WZR),
            33u32 => Some(Reg::WSP),
            34u32 => Some(Reg::X0),
            35u32 => Some(Reg::X1),
            36u32 => Some(Reg::X2),
            37u32 => Some(Reg::X3),
            38u32 => Some(Reg::X4),
            39u32 => Some(Reg::X5),
            40u32 => Some(Reg::X6),
            41u32 => Some(Reg::X7),
            42u32 => Some(Reg::X8),
            43u32 => Some(Reg::X9),
            44u32 => Some(Reg::X10),
            45u32 => Some(Reg::X11),
            46u32 => Some(Reg::X12),
            47u32 => Some(Reg::X13),
            48u32 => Some(Reg::X14),
            49u32 => Some(Reg::X15),
            50u32 => Some(Reg::X16),
            51u32 => Some(Reg::X17),
            52u32 => Some(Reg::X18),
            53u32 => Some(Reg::X19),
            54u32 => Some(Reg::X20),
            55u32 => Some(Reg::X21),
            56u32 => Some(Reg::X22),
            57u32 => Some(Reg::X23),
            58u32 => Some(Reg::X24),
            59u32 => Some(Reg::X25),
            60u32 => Some(Reg::X26),
            61u32 => Some(Reg::X27),
            62u32 => Some(Reg::X28),
            63u32 => Some(Reg::X29),
            64u32 => Some(Reg::X30),
            65u32 => Some(Reg::XZR),
            66u32 => Some(Reg::SP),
            67u32 => Some(Reg::V0),
            68u32 => Some(Reg::V1),
            69u32 => Some(Reg::V2),
            70u32 => Some(Reg::V3),
            71u32 => Some(Reg::V4),
            72u32 => Some(Reg::V5),
            73u32 => Some(Reg::V6),
            74u32 => Some(Reg::V7),
            75u32 => Some(Reg::V8),
            76u32 => Some(Reg::V9),
            77u32 => Some(Reg::V10),
            78u32 => Some(Reg::V11),
            79u32 => Some(Reg::V12),
            80u32 => Some(Reg::V13),
            81u32 => Some(Reg::V14),
            82u32 => Some(Reg::V15),
            83u32 => Some(Reg::V16),
            84u32 => Some(Reg::V17),
            85u32 => Some(Reg::V18),
            86u32 => Some(Reg::V19),
            87u32 => Some(Reg::V20),
            88u32 => Some(Reg::V21),
            89u32 => Some(Reg::V22),
            90u32 => Some(Reg::V23),
            91u32 => Some(Reg::V24),
            92u32 => Some(Reg::V25),
            93u32 => Some(Reg::V26),
            94u32 => Some(Reg::V27),
            95u32 => Some(Reg::V28),
            96u32 => Some(Reg::V29),
            97u32 => Some(Reg::V30),
            98u32 => Some(Reg::V31),
            99u32 => Some(Reg::B0),
            100u32 => Some(Reg::B1),
            101u32 => Some(Reg::B2),
            102u32 => Some(Reg::B3),
            103u32 => Some(Reg::B4),
            104u32 => Some(Reg::B5),
            105u32 => Some(Reg::B6),
            106u32 => Some(Reg::B7),
            107u32 => Some(Reg::B8),
            108u32 => Some(Reg::B9),
            109u32 => Some(Reg::B10),
            110u32 => Some(Reg::B11),
            111u32 => Some(Reg::B12),
            112u32 => Some(Reg::B13),
            113u32 => Some(Reg::B14),
            114u32 => Some(Reg::B15),
            115u32 => Some(Reg::B16),
            116u32 => Some(Reg::B17),
            117u32 => Some(Reg::B18),
            118u32 => Some(Reg::B19),
            119u32 => Some(Reg::B20),
            120u32 => Some(Reg::B21),
            121u32 => Some(Reg::B22),
            122u32 => Some(Reg::B23),
            123u32 => Some(Reg::B24),
            124u32 => Some(Reg::B25),
            125u32 => Some(Reg::B26),
            126u32 => Some(Reg::B27),
            127u32 => Some(Reg::B28),
            128u32 => Some(Reg::B29),
            129u32 => Some(Reg::B30),
            130u32 => Some(Reg::B31),
            131u32 => Some(Reg::H0),
            132u32 => Some(Reg::H1),
            133u32 => Some(Reg::H2),
            134u32 => Some(Reg::H3),
            135u32 => Some(Reg::H4),
            136u32 => Some(Reg::H5),
            137u32 => Some(Reg::H6),
            138u32 => Some(Reg::H7),
            139u32 => Some(Reg::H8),
            140u32 => Some(Reg::H9),
            141u32 => Some(Reg::H10),
            142u32 => Some(Reg::H11),
            143u32 => Some(Reg::H12),
            144u32 => Some(Reg::H13),
            145u32 => Some(Reg::H14),
            146u32 => Some(Reg::H15),
            147u32 => Some(Reg::H16),
            148u32 => Some(Reg::H17),
            149u32 => Some(Reg::H18),
            150u32 => Some(Reg::H19),
            151u32 => Some(Reg::H20),
            152u32 => Some(Reg::H21),
            153u32 => Some(Reg::H22),
            154u32 => Some(Reg::H23),
            155u32 => Some(Reg::H24),
            156u32 => Some(Reg::H25),
            157u32 => Some(Reg::H26),
            158u32 => Some(Reg::H27),
            159u32 => Some(Reg::H28),
            160u32 => Some(Reg::H29),
            161u32 => Some(Reg::H30),
            162u32 => Some(Reg::H31),
            163u32 => Some(Reg::S0),
            164u32 => Some(Reg::S1),
            165u32 => Some(Reg::S2),
            166u32 => Some(Reg::S3),
            167u32 => Some(Reg::S4),
            168u32 => Some(Reg::S5),
            169u32 => Some(Reg::S6),
            170u32 => Some(Reg::S7),
            171u32 => Some(Reg::S8),
            172u32 => Some(Reg::S9),
            173u32 => Some(Reg::S10),
            174u32 => Some(Reg::S11),
            175u32 => Some(Reg::S12),
            176u32 => Some(Reg::S13),
            177u32 => Some(Reg::S14),
            178u32 => Some(Reg::S15),
            179u32 => Some(Reg::S16),
            180u32 => Some(Reg::S17),
            181u32 => Some(Reg::S18),
            182u32 => Some(Reg::S19),
            183u32 => Some(Reg::S20),
            184u32 => Some(Reg::S21),
            185u32 => Some(Reg::S22),
            186u32 => Some(Reg::S23),
            187u32 => Some(Reg::S24),
            188u32 => Some(Reg::S25),
            189u32 => Some(Reg::S26),
            190u32 => Some(Reg::S27),
            191u32 => Some(Reg::S28),
            192u32 => Some(Reg::S29),
            193u32 => Some(Reg::S30),
            194u32 => Some(Reg::S31),
            195u32 => Some(Reg::D0),
            196u32 => Some(Reg::D1),
            197u32 => Some(Reg::D2),
            198u32 => Some(Reg::D3),
            199u32 => Some(Reg::D4),
            200u32 => Some(Reg::D5),
            201u32 => Some(Reg::D6),
            202u32 => Some(Reg::D7),
            203u32 => Some(Reg::D8),
            204u32 => Some(Reg::D9),
            205u32 => Some(Reg::D10),
            206u32 => Some(Reg::D11),
            207u32 => Some(Reg::D12),
            208u32 => Some(Reg::D13),
            209u32 => Some(Reg::D14),
            210u32 => Some(Reg::D15),
            211u32 => Some(Reg::D16),
            212u32 => Some(Reg::D17),
            213u32 => Some(Reg::D18),
            214u32 => Some(Reg::D19),
            215u32 => Some(Reg::D20),
            216u32 => Some(Reg::D21),
            217u32 => Some(Reg::D22),
            218u32 => Some(Reg::D23),
            219u32 => Some(Reg::D24),
            220u32 => Some(Reg::D25),
            221u32 => Some(Reg::D26),
            222u32 => Some(Reg::D27),
            223u32 => Some(Reg::D28),
            224u32 => Some(Reg::D29),
            225u32 => Some(Reg::D30),
            226u32 => Some(Reg::D31),
            227u32 => Some(Reg::Q0),
            228u32 => Some(Reg::Q1),
            229u32 => Some(Reg::Q2),
            230u32 => Some(Reg::Q3),
            231u32 => Some(Reg::Q4),
            232u32 => Some(Reg::Q5),
            233u32 => Some(Reg::Q6),
            234u32 => Some(Reg::Q7),
            235u32 => Some(Reg::Q8),
            236u32 => Some(Reg::Q9),
            237u32 => Some(Reg::Q10),
            238u32 => Some(Reg::Q11),
            239u32 => Some(Reg::Q12),
            240u32 => Some(Reg::Q13),
            241u32 => Some(Reg::Q14),
            242u32 => Some(Reg::Q15),
            243u32 => Some(Reg::Q16),
            244u32 => Some(Reg::Q17),
            245u32 => Some(Reg::Q18),
            246u32 => Some(Reg::Q19),
            247u32 => Some(Reg::Q20),
            248u32 => Some(Reg::Q21),
            249u32 => Some(Reg::Q22),
            250u32 => Some(Reg::Q23),
            251u32 => Some(Reg::Q24),
            252u32 => Some(Reg::Q25),
            253u32 => Some(Reg::Q26),
            254u32 => Some(Reg::Q27),
            255u32 => Some(Reg::Q28),
            256u32 => Some(Reg::Q29),
            257u32 => Some(Reg::Q30),
            258u32 => Some(Reg::Q31),
            _ => None,
        }
    }

    /// Maps a numeric register code of the external decoder to its symbol.
    pub fn from_code(code: u32) -> (r: Option<Reg>)
        ensures
            r == Reg::spec_from_code(code),
    {
        match code {
            1u32 => Some(Reg::W0),
            2u32 => Some(Reg::W1),
            3u32 => Some(Reg::W2),
            4u32 => Some(Reg::W3),
            5u32 => Some(Reg::W4),
            6u32 => Some(Reg::W5),
            7u32 => Some(Reg::W6),
            8u32 => Some(Reg::W7),
            9u32 => Some(Reg::W8),
            10u32 => Some(Reg::W9),
            11u32 => Some(Reg::W10),
            12u32 => Some(Reg::W11),
            13u32 => Some(Reg::W12),
            14u32 => Some(Reg::W13),
            15u32 => Some(Reg::W14),
            16u32 => Some(Reg::W15),
            17u32 => Some(Reg::W16),
            18u32 => Some(Reg::W17),
            19u32 => Some(Reg::W18),
            20u32 => Some(Reg::W19),
            21u32 => Some(Reg::W20),
            22u32 => Some(Reg::W21),
            23u32 => Some(Reg::W22),
            24u32 => Some(Reg::W23),
            25u32 => Some(Reg::W24),
            26u32 => Some(Reg::W25),
            27u32 => Some(Reg::W26),
            28u32 => Some(Reg::W27),
            29u32 => Some(Reg::W28),
            30u32 => Some(Reg::W29),
            31u32 => Some(Reg::W30),
            32u32 => Some(Reg::WZR),
            33u32 => Some(Reg::WSP),
            34u32 => Some(Reg::X0),
            35u32 => Some(Reg::X1),
            36u32 => Some(Reg::X2),
            37u32 => Some(Reg::X3),
            38u32 => Some(Reg::X4),
            39u32 => Some(Reg::X5),
            40u32 => Some(Reg::X6),
            41u32 => Some(Reg::X7),
            42u32 => Some(Reg::X8),
            43u32 => Some(Reg::X9),
            44u32 => Some(Reg::X10),
            45u32 => Some(Reg::X11),
            46u32 => Some(Reg::X12),
            47u32 => Some(Reg::X13),
            48u32 => Some(Reg::X14),
            49u32 => Some(Reg::X15),
            50u32 => Some(Reg::X16),
            51u32 => Some(Reg::X17),
            52u32 => Some(Reg::X18),
            53u32 => Some(Reg::X19),
            54u32 => Some(Reg::X20),
            55u32 => Some(Reg::X21),
            56u32 => Some(Reg::X22),
            57u32 => Some(Reg::X23),
            58u32 => Some(Reg::X24),
            59u32 => Some(Reg::X25),
            60u32 => Some(Reg::X26),
            61u32 => Some(Reg::X27),
            62u32 => Some(Reg::X28),
            63u32 => Some(Reg::X29),
            64u32 => Some(Reg::X30),
            65u32 => Some(Reg::XZR),
            66u32 => Some(Reg::SP),
            67u32 => Some(Reg::V0),
            68u32 => Some(Reg::V1),
            69u32 => Some(Reg::V2),
            70u32 => Some(Reg::V3),
            71u32 => Some(Reg::V4),
            72u32 => Some(Reg::V5),
            73u32 => Some(Reg::V6),
            74u32 => Some(Reg::V7),
            75u32 => Some(Reg::V8),
            76u32 => Some(Reg::V9),
            77u32 => Some(Reg::V10),
            78u32 => Some(Reg::V11),
            79u32 => Some(Reg::V12),
            80u32 => Some(Reg::V13),
            81u32 => Some(Reg::V14),
            82u32 => Some(Reg::V15),
            83u32 => Some(Reg::V16),
            84u32 => Some(Reg::V17),
            85u32 => Some(Reg::V18),
            86u32 => Some(Reg::V19),
            87u32 => Some(Reg::V20),
            88u32 => Some(Reg::V21),
            89u32 => Some(Reg::V22),
            90u32 => Some(Reg::V23),
            91u32 => Some(Reg::V24),
            92u32 => Some(Reg::V25),
            93u32 => Some(Reg::V26),
            94u32 => Some(Reg::V27),
            95u32 => Some(Reg::V28),
            96u32 => Some(Reg::V29),
            97u32 => Some(Reg::V30),
            98u32 => Some(Reg::V31),
            99u32 => Some(Reg::B0),
            100u32 => Some(Reg::B1),
            101u32 => Some(Reg::B2),
            102u32 => Some(Reg::B3),
            103u32 => Some(Reg::B4),
            104u32 => Some(Reg::B5),
            105u32 => Some(Reg::B6),
            106u32 => Some(Reg::B7),
            107u32 => Some(Reg::B8),
            108u32 => Some(Reg::B9),
            109u32 => Some(Reg::B10),
            110u32 => Some(Reg::B11),
            111u32 => Some(Reg::B12),
            112u32 => Some(Reg::B13),
            113u32 => Some(Reg::B14),
            114u32 => Some(Reg::B15),
            115u32 => Some(Reg::B16),
            116u32 => Some(Reg::B17),
            117u32 => Some(Reg::B18),
            118u32 => Some(Reg::B19),
            119u32 => Some(Reg::B20),
            120u32 => Some(Reg::B21),
            121u32 => Some(Reg::B22),
            122u32 => Some(Reg::B23),
            123u32 => Some(Reg::B24),
            124u32 => Some(Reg::B25),
            125u32 => Some(Reg::B26),
            126u32 => Some(Reg::B27),
            127u32 => Some(Reg::B28),
            128u32 => Some(Reg::B29),
            129u32 => Some(Reg::B30),
            130u32 => Some(Reg::B31),
            131u32 => Some(Reg::H0),
            132u32 => Some(Reg::H1),
            133u32 => Some(Reg::H2),
            134u32 => Some(Reg::H3),
            135u32 => Some(Reg::H4),
            136u32 => Some(Reg::H5),
            137u32 => Some(Reg::H6),
            138u32 => Some(Reg::H7),
            139u32 => Some(Reg::H8),
            140u32 => Some(Reg::H9),
            141u32 => Some(Reg::H10),
            142u32 => Some(Reg::H11),
            143u32 => Some(Reg::H12),
            144u32 => Some(Reg::H13),
            145u32 => Some(Reg::H14),
            146u32 => Some(Reg::H15),
            147u32 => Some(Reg::H16),
            148u32 => Some(Reg::H17),
            149u32 => Some(Reg::H18),
            150u32 => Some(Reg::H19),
            151u32 => Some(Reg::H20),
            152u32 => Some(Reg::H21),
            153u32 => Some(Reg::H22),
            154u32 => Some(Reg::H23),
            155u32 => Some(Reg::H24),
            156u32 => Some(Reg::H25),
            157u32 => Some(Reg::H26),
            158u32 => Some(Reg::H27),
            159u32 => Some(Reg::H28),
            160u32 => Some(Reg::H29),
            161u32 => Some(Reg::H30),
            162u32 => Some(Reg::H31),
            163u32 => Some(Reg::S0),
            164u32 => Some(Reg::S1),
            165u32 => Some(Reg::S2),
            166u32 => Some(Reg::S3),
            167u32 => Some(Reg::S4),
            168u32 => Some(Reg::S5),
            169u32 => Some(Reg::S6),
            170u32 => Some(Reg::S7),
            171u32 => Some(Reg::S8),
            172u32 => Some(Reg::S9),
            173u32 => Some(Reg::S10),
            174u32 => Some(Reg::S11),
            175u32 => Some(Reg::S12),
            176u32 => Some(Reg::S13),
            177u32 => Some(Reg::S14),
            178u32 => Some(Reg::S15),
            179u32 => Some(Reg::S16),
            180u32 => Some(Reg::S17),
            181u32 => Some(Reg::S18),
            182u32 => Some(Reg::S19),
            183u32 => Some(Reg::S20),
            184u32 => Some(Reg::S21),
            185u32 => Some(Reg::S22),
            186u32 => Some(Reg::S23),
            187u32 => Some(Reg::S24),
            188u32 => Some(Reg::S25),
            189u32 => Some(Reg::S26),
            190u32 => Some(Reg::S27),
            191u32 => Some(Reg::S28),
            192u32 => Some(Reg::S29),
            193u32 => Some(Reg::S30),
            194u32 => Some(Reg::S31),
            195u32 => Some(Reg::D0),
            196u32 => Some(Reg::D1),
            197u32 => Some(Reg::D2),
            198u32 => Some(Reg::D3),
            199u32 => Some(Reg::D4),
            200u32 => Some(Reg::D5),
            201u32 => Some(Reg::D6),
            202u32 => Some(Reg::D7),
            203u32 => Some(Reg::D8),
            204u32 => Some(Reg::D9),
            205u32 => Some(Reg::D10),
            206u32 => Some(Reg::D11),
            207u32 => Some(Reg::D12),
            208u32 => Some(Reg::D13),
            209u32 => Some(Reg::D14),
            210u32 => Some(Reg::D15),
            211u32 => Some(Reg::D16),
            212u32 => Some(Reg::D17),
            213u32 => Some(Reg::D18),
            214u32 => Some(Reg::D19),
            215u32 => Some(Reg::D20),
            216u32 => Some(Reg::D21),
            217u32 => Some(Reg::D22),
            218u32 => Some(Reg::D23),
            219u32 => Some(Reg::D24),
            220u32 => Some(Reg::D25),
            221u32 => Some(Reg::D26),
            222u32 => Some(Reg::D27),
            223u32 => Some(Reg::D28),
            224u32 => Some(Reg::D29),
            225u32 => Some(Reg::D30),
            226u32 => Some(Reg::D31),
            227u32 => Some(Reg::Q0),
            228u32 => Some(Reg::Q1),
            229u32 => Some(Reg::Q2),
            230u32 => Some(Reg::Q3),
            231u32 => Some(Reg::Q4),
            232u32 => Some(Reg::Q5),
            233u32 => Some(Reg::Q6),
            234u32 => Some(Reg::Q7),
            235u32 => Some(Reg::Q8),
            236u32 => Some(Reg::Q9),
            237u32 => Some(Reg::Q10),
            238u32 => Some(Reg::Q11),
            239u32 => Some(Reg::Q12),
            240u32 => Some(Reg::Q13),
            241u32 => Some(Reg::Q14),
            242u32 => Some(Reg::Q15),
            243u32 => Some(Reg::Q16),
            244u32 => Some(Reg::Q17),
            245u32 => Some(Reg::Q18),
            246u32 => Some(Reg::Q19),
            247u32 => Some(Reg::Q20),
            248u32 => Some(Reg::Q21),
            249u32 => Some(Reg::Q22),
            250u32 => Some(Reg::Q23),
            251u32 => Some(Reg::Q24),
            252u32 => Some(Reg::Q25),
            253u32 => Some(Reg::Q26),
            254u32 => Some(Reg::Q27),
            255u32 => Some(Reg::Q28),
            256u32 => Some(Reg::Q29),
            257u32 => Some(Reg::Q30),
            258u32 => Some(Reg::Q31),
            _ => None,
        }
    }
}

} // verus!
