//! The instruction set: a closed, tagged union with one variant per
//! (mnemonic, addressing-mode) pair, a decoder that is total over all 256
//! opcode bytes, and the byte encoding each variant is recoverable from.

use vstd::prelude::*;

verus! {

/// A 16-bit little-endian operand held as two unaligned bytes, exactly as
/// it appears in the instruction stream.
#[derive(Copy, Clone, Debug, PartialEq, Eq, Structural)]
pub struct UnalignedU16 {
    pub lo: u8,
    pub hi: u8,
}

/// The 16-bit value of a little-endian operand pair.
pub open spec fn u16_of(a: UnalignedU16) -> u16 {
    ((a.hi as u16) << 8) | (a.lo as u16)
}

impl UnalignedU16 {
    /// Split a 16-bit value into its little-endian byte pair.
    pub fn from_u16(v: u16) -> (r: UnalignedU16)
        ensures
            u16_of(r) == v,
            r.lo == (v & 0xFF) as u8,
            r.hi == (v >> 8) as u8,
    {
        let r = UnalignedU16 { lo: (v & 0xFF) as u8, hi: (v >> 8) as u8 };
        proof {
            assert(((((v >> 8) as u8) as u16) << 8) | (((v & 0xFF) as u8) as u16) == v)
                by (bit_vector);
        }
        r
    }

    /// The 16-bit value of the pair.
    pub fn to_u16(&self) -> (r: u16)
        ensures
            r == u16_of(*self),
    {
        ((self.hi as u16) << 8) | (self.lo as u16)
    }
}

/// The operand an addressing mode carries: nothing, the accumulator, an
/// immediate byte, a zero-page offset (plain or indexed), an absolute
/// address (plain or indexed), a zero-page pointer (pre- or post-indexed),
/// an indirect jump target, or a relative branch offset.
#[derive(Copy, Clone, Debug, PartialEq, Eq, Structural)]
pub enum Operand {
    Implied,
    Accumulator,
    Imm(u8),
    Zp(u8),
    ZpX(u8),
    ZpY(u8),
    Abs(u16),
    AbsX(u16),
    AbsY(u16),
    IndX(u8),
    IndY(u8),
    Ind(u16),
    Rel(i8),
}

/// The mnemonic of an instruction. Official mnemonics carry their usual
/// names; `NopU` and `SbcU` stand for the undocumented no-operation and
/// subtract encodings, and the remaining entries are the other undocumented
/// mnemonics, which decode but have no modeled effect.
#[derive(Copy, Clone, Debug, PartialEq, Eq, Structural)]
pub enum Op {
    Adc,
    Ahx,
    Alr,
    Anc,
    And,
    Arr,
    Asl,
    Axs,
    Bcc,
    Bcs,
    Beq,
    Bit,
    Bmi,
    Bne,
    Bpl,
    Brk,
    Bvc,
    Bvs,
    Clc,
    Cld,
    Cli,
    Clv,
    Cmp,
    Cpx,
    Cpy,
    Dcp,
    Dec,
    Dex,
    Dey,
    Eor,
    Inc,
    Inx,
    Iny,
    Isc,
    Jmp,
    Jsr,
    Las,
    Lax,
    Lda,
    Ldx,
    Ldy,
    Lsr,
    Nop,
    NopU,
    Ora,
    Pha,
    Php,
    Pla,
    Plp,
    Rla,
    Rol,
    Ror,
    Rra,
    Rti,
    Rts,
    Sax,
    Sbc,
    SbcU,
    Sec,
    Sed,
    Sei,
    Shx,
    Shy,
    Slo,
    Sre,
    Sta,
    Stx,
    Sty,
    Tas,
    Tax,
    Tay,
    Tsx,
    Txa,
    Txs,
    Tya,
    Xaa,
}

/// One variant per (mnemonic, addressing-mode) pair, covering every one of
/// the 256 opcode bytes. Each variant carries exactly the operand bytes its
/// addressing mode requires.
#[derive(Copy, Clone, Debug, PartialEq, Eq, Structural)]
pub enum Inst {
    AdcAbsolute(UnalignedU16),
    AdcAbsoluteX(UnalignedU16),
    AdcAbsoluteY(UnalignedU16),
    AdcImmediate(u8),
    AdcIndirectX(u8),
    AdcIndirectY(u8),
    AdcZeroPage(u8),
    AdcZeroPageX(u8),
    AhxAbsoluteY(UnalignedU16),
    AhxIndirectY(u8),
    AlrImmediate(u8),
    AncImmediate2(u8),
    AncImmediate(u8),
    AndAbsolute(UnalignedU16),
    AndAbsoluteX(UnalignedU16),
    AndAbsoluteY(UnalignedU16),
    AndImmediate(u8),
    AndIndirectX(u8),
    AndIndirectY(u8),
    AndZeroPage(u8),
    AndZeroPageX(u8),
    ArrImmediate(u8),
    AslAbsolute(UnalignedU16),
    AslAbsoluteX(UnalignedU16),
    AslAccumulator,
    AslZeroPage(u8),
    AslZeroPageX(u8),
    AxsImmediate(u8),
    Bcc(i8),
    Bcs(i8),
    Beq(i8),
    BitAbsolute(UnalignedU16),
    BitZeroPage(u8),
    Bmi(i8),
    Bne(i8),
    Bpl(i8),
    Brk,
    Bvc(i8),
    Bvs(i8),
    Clc,
    Cld,
    Cli,
    Clv,
    CmpAbsolute(UnalignedU16),
    CmpAbsoluteX(UnalignedU16),
    CmpAbsoluteY(UnalignedU16),
    CmpImmediate(u8),
    CmpIndirectX(u8),
    CmpIndirectY(u8),
    CmpZeroPage(u8),
    CmpZeroPageX(u8),
    CpxAbsolute(UnalignedU16),
    CpxImmediate(u8),
    CpxZeroPage(u8),
    CpyAbsolute(UnalignedU16),
    CpyImmediate(u8),
    CpyZeroPage(u8),
    DCPAbsolute(UnalignedU16),
    DCPAbsoluteX(UnalignedU16),
    DCPAbsoluteY(UnalignedU16),
    DCPIndirectX(u8),
    DCPIndirectY(u8),
    DCPZeroPage(u8),
    DCPZeroPageX(u8),
    DecAbsolute(UnalignedU16),
    DecAbsoluteX(UnalignedU16),
    DecZeroPage(u8),
    DecZeroPageX(u8),
    Dex,
    Dey,
    EorAbsolute(UnalignedU16),
    EorAbsoluteX(UnalignedU16),
    EorAbsoluteY(UnalignedU16),
    EorImmediate(u8),
    EorIndirectX(u8),
    EorIndirectY(u8),
    EorZeroPage(u8),
    EorZeroPageX(u8),
    IncAbsolute(UnalignedU16),
    IncAbsoluteX(UnalignedU16),
    IncZeroPage(u8),
    IncZeroPageX(u8),
    Inx,
    Iny,
    ISCAbsolute(UnalignedU16),
    ISCAbsoluteX(UnalignedU16),
    ISCAbsoluteY(UnalignedU16),
    ISCIndirectX(u8),
    ISCIndirectY(u8),
    ISCZeroPage(u8),
    ISCZeroPageX(u8),
    JmpAbsolute(UnalignedU16),
    JmpIndirect(UnalignedU16),
    Jsr(UnalignedU16),
    LASAbsoluteY(UnalignedU16),
    LAXAbsolute(UnalignedU16),
    LAXAbsoluteY(UnalignedU16),
    LAXImmediate(u8),
    LAXIndirectX(u8),
    LAXIndirectY(u8),
    LAXZeroPage(u8),
    LAXZeroPageY(u8),
    LdaAbsolute(UnalignedU16),
    LdaAbsoluteX(UnalignedU16),
    LdaAbsoluteY(UnalignedU16),
    LdaImmediate(u8),
    LdaIndirectX(u8),
    LdaIndirectY(u8),
    LdaZeroPage(u8),
    LdaZeroPageX(u8),
    LdxAbsolute(UnalignedU16),
    LdxAbsoluteY(UnalignedU16),
    LdxImmediate(u8),
    LdxZeroPage(u8),
    LdxZeroPageY(u8),
    LdyAbsolute(UnalignedU16),
    LdyAbsoluteX(UnalignedU16),
    LdyImmediate(u8),
    LdyZeroPage(u8),
    LdyZeroPageX(u8),
    LsrAbsolute(UnalignedU16),
    LsrAbsoluteX(UnalignedU16),
    LsrAccumulator,
    LsrZeroPage(u8),
    LsrZeroPageX(u8),
    NOP10,
    NOP11,
    NOP12,
    NOP13,
    NOP14,
    NOP15,
    NOP16,
    NOP17,
    NOP18,
    NOP19,
    Nop2,
    NOP20,
    NOP21,
    NOP22,
    NOP3,
    NOP4,
    NOP5,
    NOP6,
    NOP7,
    NOP8,
    NOP9,
    NOPAbsolute(UnalignedU16),
    NOPAbsoluteX(UnalignedU16),
    NOPAbsoluteX2(UnalignedU16),
    NOPAbsoluteX3(UnalignedU16),
    NOPAbsoluteX4(UnalignedU16),
    NOPAbsoluteX5(UnalignedU16),
    NOPAbsoluteX6(UnalignedU16),
    NOPImmediate(u8),
    NOPImmediate2(u8),
    NOPImmediate3(u8),
    NOPZeroPage(u8),
    NOPZeroPage3(u8),
    NOPZeroPage4(u8),
    NOPZeroPageX(u8),
    NOPZeroPageX2(u8),
    NOPZeroPageX3(u8),
    NOPZeroPageX4(u8),
    NOPZeroPageX5(u8),
    NOPZeroPageX6(u8),
    OraAbsolute(UnalignedU16),
    OraAbsoluteX(UnalignedU16),
    OraAbsoluteY(UnalignedU16),
    OraImmediate(u8),
    OraIndirectX(u8),
    OraIndirectY(u8),
    OraZeroPage(u8),
    OraZeroPageX(u8),
    Pha,
    Php,
    Pla,
    Plp,
    RLAAbsolute(UnalignedU16),
    RLAAbsoluteX(UnalignedU16),
    RLAAbsoluteY(UnalignedU16),
    RLAIndirectX(u8),
    RLAIndirectY(u8),
    RLAZeroPage(u8),
    RLAZeroPageX(u8),
    RolAbsolute(UnalignedU16),
    RolAbsoluteX(UnalignedU16),
    RolAccumulator,
    RolZeroPage(u8),
    RolZeroPageX(u8),
    RorAbsolute(UnalignedU16),
    RorAbsoluteX(UnalignedU16),
    RorAccumulator,
    RorZeroPage(u8),
    RorZeroPageX(u8),
    RRAAbsolute(UnalignedU16),
    RRAAbsoluteX(UnalignedU16),
    RRAAbsoluteY(UnalignedU16),
    RRAIndirectX(u8),
    RRAIndirectY(u8),
    RRAZeroPage(u8),
    RRAZeroPageX(u8),
    Rti,
    Rts,
    SAXAbsolute(UnalignedU16),
    SAXIndirectX(u8),
    SAXZeroPage(u8),
    SAXZeroPageY(u8),
    SbcAbsolute(UnalignedU16),
    SbcAbsoluteX(UnalignedU16),
    SbcAbsoluteY(UnalignedU16),
    SbcImmediate(u8),
    SbcImmediate2(u8),
    SbcIndirectX(u8),
    SbcIndirectY(u8),
    SbcZeroPage(u8),
    SbcZeroPageX(u8),
    Sec,
    Sed,
    Sei,
    SHXAbsoluteY(UnalignedU16),
    SHYAbsoluteX(UnalignedU16),
    SLOAbsolute(UnalignedU16),
    SLOAbsoluteX(UnalignedU16),
    SLOAbsoluteY(UnalignedU16),
    SLOIndirectX(u8),
    SLOIndirectY(u8),
    SLOZeroPage(u8),
    SLOZeroPageX(u8),
    SREAbsolute(UnalignedU16),
    SREAbsoluteX(UnalignedU16),
    SREAbsoluteY(UnalignedU16),
    SREIndirectX(u8),
    SREIndirectY(u8),
    SREZeroPage(u8),
    SREZeroPageX(u8),
    StaAbsolute(UnalignedU16),
    StaAbsoluteX(UnalignedU16),
    StaAbsoluteY(UnalignedU16),
    StaIndirectX(u8),
    StaIndirectY(u8),
    StaZeroPage(u8),
    StaZeroPageX(u8),
    StxAbsolute(UnalignedU16),
    StxZeroPage(u8),
    StxZeroPageY(u8),
    StyAbsolute(UnalignedU16),
    StyZeroPage(u8),
    StyZeroPageX(u8),
    TASAbsoluteY(UnalignedU16),
    Tax,
    Tay,
    Tsx,
    Txa,
    Txs,
    Tya,
    XAAImmediate(u8),
}

/// The opcode byte each variant encodes to.
pub open spec fn opcode_of(i: Inst) -> u8 {
    match i {
        Inst::AdcAbsolute(..) => 0x6D,
        Inst::AdcAbsoluteX(..) => 0x7D,
        Inst::AdcAbsoluteY(..) => 0x79,
        Inst::AdcImmediate(..) => 0x69,
        Inst::AdcIndirectX(..) => 0x61,
        Inst::AdcIndirectY(..) => 0x71,
        Inst::AdcZeroPage(..) => 0x65,
        Inst::AdcZeroPageX(..) => 0x75,
        Inst::AhxAbsoluteY(..) => 0x9F,
        Inst::AhxIndirectY(..) => 0x93,
        Inst::AlrImmediate(..) => 0x4B,
        Inst::AncImmediate2(..) => 0x2B,
        Inst::AncImmediate(..) => 0x0B,
        Inst::AndAbsolute(..) => 0x2D,
        Inst::AndAbsoluteX(..) => 0x3D,
        Inst::AndAbsoluteY(..) => 0x39,
        Inst::AndImmediate(..) => 0x29,
        Inst::AndIndirectX(..) => 0x21,
        Inst::AndIndirectY(..) => 0x31,
        Inst::AndZeroPage(..) => 0x25,
        Inst::AndZeroPageX(..) => 0x35,
        Inst::ArrImmediate(..) => 0x6B,
        Inst::AslAbsolute(..) => 0x0E,
        Inst::AslAbsoluteX(..) => 0x1E,
        Inst::AslAccumulator => 0x0A,
        Inst::AslZeroPage(..) => 0x06,
        Inst::AslZeroPageX(..) => 0x16,
        Inst::AxsImmediate(..) => 0xCB,
        Inst::Bcc(..) => 0x90,
        Inst::Bcs(..) => 0xB0,
        Inst::Beq(..) => 0xF0,
        Inst::BitAbsolute(..) => 0x2C,
        Inst::BitZeroPage(..) => 0x24,
        Inst::Bmi(..) => 0x30,
        Inst::Bne(..) => 0xD0,
        Inst::Bpl(..) => 0x10,
        Inst::Brk => 0x00,
        Inst::Bvc(..) => 0x50,
        Inst::Bvs(..) => 0x70,
        Inst::Clc => 0x18,
        Inst::Cld => 0xD8,
        Inst::Cli => 0x58,
        Inst::Clv => 0xB8,
        Inst::CmpAbsolute(..) => 0xCD,
        Inst::CmpAbsoluteX(..) => 0xDD,
        Inst::CmpAbsoluteY(..) => 0xD9,
        Inst::CmpImmediate(..) => 0xC9,
        Inst::CmpIndirectX(..) => 0xC1,
        Inst::CmpIndirectY(..) => 0xD1,
        Inst::CmpZeroPage(..) => 0xC5,
        Inst::CmpZeroPageX(..) => 0xD5,
        Inst::CpxAbsolute(..) => 0xEC,
        Inst::CpxImmediate(..) => 0xE0,
        Inst::CpxZeroPage(..) => 0xE4,
        Inst::CpyAbsolute(..) => 0xCC,
        Inst::CpyImmediate(..) => 0xC0,
        Inst::CpyZeroPage(..) => 0xC4,
        Inst::DCPAbsolute(..) => 0xCF,
        Inst::DCPAbsoluteX(..) => 0xDF,
        Inst::DCPAbsoluteY(..) => 0xDB,
        Inst::DCPIndirectX(..) => 0xC3,
        Inst::DCPIndirectY(..) => 0xD3,
        Inst::DCPZeroPage(..) => 0xC7,
        Inst::DCPZeroPageX(..) => 0xD7,
        Inst::DecAbsolute(..) => 0xCE,
        Inst::DecAbsoluteX(..) => 0xDE,
        Inst::DecZeroPage(..) => 0xC6,
        Inst::DecZeroPageX(..) => 0xD6,
        Inst::Dex => 0xCA,
        Inst::Dey => 0x88,
        Inst::EorAbsolute(..) => 0x4D,
        Inst::EorAbsoluteX(..) => 0x5D,
        Inst::EorAbsoluteY(..) => 0x59,
        Inst::EorImmediate(..) => 0x49,
        Inst::EorIndirectX(..) => 0x41,
        Inst::EorIndirectY(..) => 0x51,
        Inst::EorZeroPage(..) => 0x45,
        Inst::EorZeroPageX(..) => 0x55,
        Inst::IncAbsolute(..) => 0xEE,
        Inst::IncAbsoluteX(..) => 0xFE,
        Inst::IncZeroPage(..) => 0xE6,
        Inst::IncZeroPageX(..) => 0xF6,
        Inst::Inx => 0xE8,
        Inst::Iny => 0xC8,
        Inst::ISCAbsolute(..) => 0xEF,
        Inst::ISCAbsoluteX(..) => 0xFF,
        Inst::ISCAbsoluteY(..) => 0xFB,
        Inst::ISCIndirectX(..) => 0xE3,
        Inst::ISCIndirectY(..) => 0xF3,
        Inst::ISCZeroPage(..) => 0xE7,
        Inst::ISCZeroPageX(..) => 0xF7,
        Inst::JmpAbsolute(..) => 0x4C,
        Inst::JmpIndirect(..) => 0x6C,
        Inst::Jsr(..) => 0x20,
        Inst::LASAbsoluteY(..) => 0xBB,
        Inst::LAXAbsolute(..) => 0xAF,
        Inst::LAXAbsoluteY(..) => 0xBF,
        Inst::LAXImmediate(..) => 0xAB,
        Inst::LAXIndirectX(..) => 0xA3,
        Inst::LAXIndirectY(..) => 0xB3,
        Inst::LAXZeroPage(..) => 0xA7,
        Inst::LAXZeroPageY(..) => 0xB7,
        Inst::LdaAbsolute(..) => 0xAD,
        Inst::LdaAbsoluteX(..) => 0xBD,
        Inst::LdaAbsoluteY(..) => 0xB9,
        Inst::LdaImmediate(..) => 0xA9,
        Inst::LdaIndirectX(..) => 0xA1,
        Inst::LdaIndirectY(..) => 0xB1,
        Inst::LdaZeroPage(..) => 0xA5,
        Inst::LdaZeroPageX(..) => 0xB5,
        Inst::LdxAbsolute(..) => 0xAE,
        Inst::LdxAbsoluteY(..) => 0xBE,
        Inst::LdxImmediate(..) => 0xA2,
        Inst::LdxZeroPage(..) => 0xA6,
        Inst::LdxZeroPageY(..) => 0xB6,
        Inst::LdyAbsolute(..) => 0xAC,
        Inst::LdyAbsoluteX(..) => 0xBC,
        Inst::LdyImmediate(..) => 0xA0,
        Inst::LdyZeroPage(..) => 0xA4,
        Inst::LdyZeroPageX(..) => 0xB4,
        Inst::LsrAbsolute(..) => 0x4E,
        Inst::LsrAbsoluteX(..) => 0x5E,
        Inst::LsrAccumulator => 0x4A,
        Inst::LsrZeroPage(..) => 0x46,
        Inst::LsrZeroPageX(..) => 0x56,
        Inst::NOP10 => 0x5A,
        Inst::NOP11 => 0x62,
        Inst::NOP12 => 0x72,
        Inst::NOP13 => 0x7A,
        Inst::NOP14 => 0x82,
        Inst::NOP15 => 0x92,
        Inst::NOP16 => 0xB2,
        Inst::NOP17 => 0xC2,
        Inst::NOP18 => 0xD2,
        Inst::NOP19 => 0xDA,
        Inst::Nop2 => 0x02,
        Inst::NOP20 => 0xE2,
        Inst::NOP21 => 0xF2,
        Inst::NOP22 => 0xFA,
        Inst::NOP3 => 0x12,
        Inst::NOP4 => 0x1A,
        Inst::NOP5 => 0x22,
        Inst::NOP6 => 0x32,
        Inst::NOP7 => 0x3A,
        Inst::NOP8 => 0x42,
        Inst::NOP9 => 0x52,
        Inst::NOPAbsolute(..) => 0x0C,
        Inst::NOPAbsoluteX(..) => 0x1C,
        Inst::NOPAbsoluteX2(..) => 0x3C,
        Inst::NOPAbsoluteX3(..) => 0x5C,
        Inst::NOPAbsoluteX4(..) => 0x7C,
        Inst::NOPAbsoluteX5(..) => 0xDC,
        Inst::NOPAbsoluteX6(..) => 0xFC,
        Inst::NOPImmediate(..) => 0x80,
        Inst::NOPImmediate2(..) => 0x89,
        Inst::NOPImmediate3(..) => 0xEA,
        Inst::NOPZeroPage(..) => 0x04,
        Inst::NOPZeroPage3(..) => 0x44,
        Inst::NOPZeroPage4(..) => 0x64,
        Inst::NOPZeroPageX(..) => 0x14,
        Inst::NOPZeroPageX2(..) => 0x34,
        Inst::NOPZeroPageX3(..) => 0x54,
        Inst::NOPZeroPageX4(..) => 0x74,
        Inst::NOPZeroPageX5(..) => 0xD4,
        Inst::NOPZeroPageX6(..) => 0xF4,
        Inst::OraAbsolute(..) => 0x0D,
        Inst::OraAbsoluteX(..) => 0x1D,
        Inst::OraAbsoluteY(..) => 0x19,
        Inst::OraImmediate(..) => 0x09,
        Inst::OraIndirectX(..) => 0x01,
        Inst::OraIndirectY(..) => 0x11,
        Inst::OraZeroPage(..) => 0x05,
        Inst::OraZeroPageX(..) => 0x15,
        Inst::Pha => 0x48,
        Inst::Php => 0x08,
        Inst::Pla => 0x68,
        Inst::Plp => 0x28,
        Inst::RLAAbsolute(..) => 0x2F,
        Inst::RLAAbsoluteX(..) => 0x3F,
        Inst::RLAAbsoluteY(..) => 0x3B,
        Inst::RLAIndirectX(..) => 0x23,
        Inst::RLAIndirectY(..) => 0x33,
        Inst::RLAZeroPage(..) => 0x27,
        Inst::RLAZeroPageX(..) => 0x37,
        Inst::RolAbsolute(..) => 0x2E,
        Inst::RolAbsoluteX(..) => 0x3E,
        Inst::RolAccumulator => 0x2A,
        Inst::RolZeroPage(..) => 0x26,
        Inst::RolZeroPageX(..) => 0x36,
        Inst::RorAbsolute(..) => 0x6E,
        Inst::RorAbsoluteX(..) => 0x7E,
        Inst::RorAccumulator => 0x6A,
        Inst::RorZeroPage(..) => 0x66,
        Inst::RorZeroPageX(..) => 0x76,
        Inst::RRAAbsolute(..) => 0x6F,
        Inst::RRAAbsoluteX(..) => 0x7F,
        Inst::RRAAbsoluteY(..) => 0x7B,
        Inst::RRAIndirectX(..) => 0x63,
        Inst::RRAIndirectY(..) => 0x73,
        Inst::RRAZeroPage(..) => 0x67,
        Inst::RRAZeroPageX(..) => 0x77,
        Inst::Rti => 0x40,
        Inst::Rts => 0x60,
        Inst::SAXAbsolute(..) => 0x8F,
        Inst::SAXIndirectX(..) => 0x83,
        Inst::SAXZeroPage(..) => 0x87,
        Inst::SAXZeroPageY(..) => 0x97,
        Inst::SbcAbsolute(..) => 0xED,
        Inst::SbcAbsoluteX(..) => 0xFD,
        Inst::SbcAbsoluteY(..) => 0xF9,
        Inst::SbcImmediate(..) => 0xE9,
        Inst::SbcImmediate2(..) => 0xEB,
        Inst::SbcIndirectX(..) => 0xE1,
        Inst::SbcIndirectY(..) => 0xF1,
        Inst::SbcZeroPage(..) => 0xE5,
        Inst::SbcZeroPageX(..) => 0xF5,
        Inst::Sec => 0x38,
        Inst::Sed => 0xF8,
        Inst::Sei => 0x78,
        Inst::SHXAbsoluteY(..) => 0x9E,
        Inst::SHYAbsoluteX(..) => 0x9C,
        Inst::SLOAbsolute(..) => 0x0F,
        Inst::SLOAbsoluteX(..) => 0x1F,
        Inst::SLOAbsoluteY(..) => 0x1B,
        Inst::SLOIndirectX(..) => 0x03,
        Inst::SLOIndirectY(..) => 0x13,
        Inst::SLOZeroPage(..) => 0x07,
        Inst::SLOZeroPageX(..) => 0x17,
        Inst::SREAbsolute(..) => 0x4F,
        Inst::SREAbsoluteX(..) => 0x5F,
        Inst::SREAbsoluteY(..) => 0x5B,
        Inst::SREIndirectX(..) => 0x43,
        Inst::SREIndirectY(..) => 0x53,
        Inst::SREZeroPage(..) => 0x47,
        Inst::SREZeroPageX(..) => 0x57,
        Inst::StaAbsolute(..) => 0x8D,
        Inst::StaAbsoluteX(..) => 0x9D,
        Inst::StaAbsoluteY(..) => 0x99,
        Inst::StaIndirectX(..) => 0x81,
        Inst::StaIndirectY(..) => 0x91,
        Inst::StaZeroPage(..) => 0x85,
        Inst::StaZeroPageX(..) => 0x95,
        Inst::StxAbsolute(..) => 0x8E,
        Inst::StxZeroPage(..) => 0x86,
        Inst::StxZeroPageY(..) => 0x96,
        Inst::StyAbsolute(..) => 0x8C,
        Inst::StyZeroPage(..) => 0x84,
        Inst::StyZeroPageX(..) => 0x94,
        Inst::TASAbsoluteY(..) => 0x9B,
        Inst::Tax => 0xAA,
        Inst::Tay => 0xA8,
        Inst::Tsx => 0xBA,
        Inst::Txa => 0x8A,
        Inst::Txs => 0x9A,
        Inst::Tya => 0x98,
        Inst::XAAImmediate(..) => 0x8B,
    }
}

/// The mnemonic of each variant.
pub open spec fn op_of(i: Inst) -> Op {
    match i {
        Inst::AdcAbsolute(..) => Op::Adc,
        Inst::AdcAbsoluteX(..) => Op::Adc,
        Inst::AdcAbsoluteY(..) => Op::Adc,
        Inst::AdcImmediate(..) => Op::Adc,
        Inst::AdcIndirectX(..) => Op::Adc,
        Inst::AdcIndirectY(..) => Op::Adc,
        Inst::AdcZeroPage(..) => Op::Adc,
        Inst::AdcZeroPageX(..) => Op::Adc,
        Inst::AhxAbsoluteY(..) => Op::Ahx,
        Inst::AhxIndirectY(..) => Op::Ahx,
        Inst::AlrImmediate(..) => Op::Alr,
        Inst::AncImmediate2(..) => Op::Anc,
        Inst::AncImmediate(..) => Op::Anc,
        Inst::AndAbsolute(..) => Op::And,
        Inst::AndAbsoluteX(..) => Op::And,
        Inst::AndAbsoluteY(..) => Op::And,
        Inst::AndImmediate(..) => Op::And,
        Inst::AndIndirectX(..) => Op::And,
        Inst::AndIndirectY(..) => Op::And,
        Inst::AndZeroPage(..) => Op::And,
        Inst::AndZeroPageX(..) => Op::And,
        Inst::ArrImmediate(..) => Op::Arr,
        Inst::AslAbsolute(..) => Op::Asl,
        Inst::AslAbsoluteX(..) => Op::Asl,
        Inst::AslAccumulator => Op::Asl,
        Inst::AslZeroPage(..) => Op::Asl,
        Inst::AslZeroPageX(..) => Op::Asl,
        Inst::AxsImmediate(..) => Op::Axs,
        Inst::Bcc(..) => Op::Bcc,
        Inst::Bcs(..) => Op::Bcs,
        Inst::Beq(..) => Op::Beq,
        Inst::BitAbsolute(..) => Op::Bit,
        Inst::BitZeroPage(..) => Op::Bit,
        Inst::Bmi(..) => Op::Bmi,
        Inst::Bne(..) => Op::Bne,
        Inst::Bpl(..) => Op::Bpl,
        Inst::Brk => Op::Brk,
        Inst::Bvc(..) => Op::Bvc,
        Inst::Bvs(..) => Op::Bvs,
        Inst::Clc => Op::Clc,
        Inst::Cld => Op::Cld,
        Inst::Cli => Op::Cli,
        Inst::Clv => Op::Clv,
        Inst::CmpAbsolute(..) => Op::Cmp,
        Inst::CmpAbsoluteX(..) => Op::Cmp,
        Inst::CmpAbsoluteY(..) => Op::Cmp,
        Inst::CmpImmediate(..) => Op::Cmp,
        Inst::CmpIndirectX(..) => Op::Cmp,
        Inst::CmpIndirectY(..) => Op::Cmp,
        Inst::CmpZeroPage(..) => Op::Cmp,
        Inst::CmpZeroPageX(..) => Op::Cmp,
        Inst::CpxAbsolute(..) => Op::Cpx,
        Inst::CpxImmediate(..) => Op::Cpx,
        Inst::CpxZeroPage(..) => Op::Cpx,
        Inst::CpyAbsolute(..) => Op::Cpy,
        Inst::CpyImmediate(..) => Op::Cpy,
        Inst::CpyZeroPage(..) => Op::Cpy,
        Inst::DCPAbsolute(..) => Op::Dcp,
        Inst::DCPAbsoluteX(..) => Op::Dcp,
        Inst::DCPAbsoluteY(..) => Op::Dcp,
        Inst::DCPIndirectX(..) => Op::Dcp,
        Inst::DCPIndirectY(..) => Op::Dcp,
        Inst::DCPZeroPage(..) => Op::Dcp,
        Inst::DCPZeroPageX(..) => Op::Dcp,
        Inst::DecAbsolute(..) => Op::Dec,
        Inst::DecAbsoluteX(..) => Op::Dec,
        Inst::DecZeroPage(..) => Op::Dec,
        Inst::DecZeroPageX(..) => Op::Dec,
        Inst::Dex => Op::Dex,
        Inst::Dey => Op::Dey,
        Inst::EorAbsolute(..) => Op::Eor,
        Inst::EorAbsoluteX(..) => Op::Eor,
        Inst::EorAbsoluteY(..) => Op::Eor,
        Inst::EorImmediate(..) => Op::Eor,
        Inst::EorIndirectX(..) => Op::Eor,
        Inst::EorIndirectY(..) => Op::Eor,
        Inst::EorZeroPage(..) => Op::Eor,
        Inst::EorZeroPageX(..) => Op::Eor,
        Inst::IncAbsolute(..) => Op::Inc,
        Inst::IncAbsoluteX(..) => Op::Inc,
        Inst::IncZeroPage(..) => Op::Inc,
        Inst::IncZeroPageX(..) => Op::Inc,
        Inst::Inx => Op::Inx,
        Inst::Iny => Op::Iny,
        Inst::ISCAbsolute(..) => Op::Isc,
        Inst::ISCAbsoluteX(..) => Op::Isc,
        Inst::ISCAbsoluteY(..) => Op::Isc,
        Inst::ISCIndirectX(..) => Op::Isc,
        Inst::ISCIndirectY(..) => Op::Isc,
        Inst::ISCZeroPage(..) => Op::Isc,
        Inst::ISCZeroPageX(..) => Op::Isc,
        Inst::JmpAbsolute(..) => Op::Jmp,
        Inst::JmpIndirect(..) => Op::Jmp,
        Inst::Jsr(..) => Op::Jsr,
        Inst::LASAbsoluteY(..) => Op::Las,
        Inst::LAXAbsolute(..) => Op::Lax,
        Inst::LAXAbsoluteY(..) => Op::Lax,
        Inst::LAXImmediate(..) => Op::Lax,
        Inst::LAXIndirectX(..) => Op::Lax,
        Inst::LAXIndirectY(..) => Op::Lax,
        Inst::LAXZeroPage(..) => Op::Lax,
        Inst::LAXZeroPageY(..) => Op::Lax,
        Inst::LdaAbsolute(..) => Op::Lda,
        Inst::LdaAbsoluteX(..) => Op::Lda,
        Inst::LdaAbsoluteY(..) => Op::Lda,
        Inst::LdaImmediate(..) => Op::Lda,
        Inst::LdaIndirectX(..) => Op::Lda,
        Inst::LdaIndirectY(..) => Op::Lda,
        Inst::LdaZeroPage(..) => Op::Lda,
        Inst::LdaZeroPageX(..) => Op::Lda,
        Inst::LdxAbsolute(..) => Op::Ldx,
        Inst::LdxAbsoluteY(..) => Op::Ldx,
        Inst::LdxImmediate(..) => Op::Ldx,
        Inst::LdxZeroPage(..) => Op::Ldx,
        Inst::LdxZeroPageY(..) => Op::Ldx,
        Inst::LdyAbsolute(..) => Op::Ldy,
        Inst::LdyAbsoluteX(..) => Op::Ldy,
        Inst::LdyImmediate(..) => Op::Ldy,
        Inst::LdyZeroPage(..) => Op::Ldy,
        Inst::LdyZeroPageX(..) => Op::Ldy,
        Inst::LsrAbsolute(..) => Op::Lsr,
        Inst::LsrAbsoluteX(..) => Op::Lsr,
        Inst::LsrAccumulator => Op::Lsr,
        Inst::LsrZeroPage(..) => Op::Lsr,
        Inst::LsrZeroPageX(..) => Op::Lsr,
        Inst::NOP10 => Op::NopU,
        Inst::NOP11 => Op::NopU,
        Inst::NOP12 => Op::NopU,
        Inst::NOP13 => Op::NopU,
        Inst::NOP14 => Op::NopU,
        Inst::NOP15 => Op::NopU,
        Inst::NOP16 => Op::NopU,
        Inst::NOP17 => Op::NopU,
        Inst::NOP18 => Op::NopU,
        Inst::NOP19 => Op::NopU,
        Inst::Nop2 => Op::Nop,
        Inst::NOP20 => Op::NopU,
        Inst::NOP21 => Op::NopU,
        Inst::NOP22 => Op::NopU,
        Inst::NOP3 => Op::NopU,
        Inst::NOP4 => Op::NopU,
        Inst::NOP5 => Op::NopU,
        Inst::NOP6 => Op::NopU,
        Inst::NOP7 => Op::NopU,
        Inst::NOP8 => Op::NopU,
        Inst::NOP9 => Op::NopU,
        Inst::NOPAbsolute(..) => Op::NopU,
        Inst::NOPAbsoluteX(..) => Op::NopU,
        Inst::NOPAbsoluteX2(..) => Op::NopU,
        Inst::NOPAbsoluteX3(..) => Op::NopU,
        Inst::NOPAbsoluteX4(..) => Op::NopU,
        Inst::NOPAbsoluteX5(..) => Op::NopU,
        Inst::NOPAbsoluteX6(..) => Op::NopU,
        Inst::NOPImmediate(..) => Op::NopU,
        Inst::NOPImmediate2(..) => Op::NopU,
        Inst::NOPImmediate3(..) => Op::NopU,
        Inst::NOPZeroPage(..) => Op::NopU,
        Inst::NOPZeroPage3(..) => Op::NopU,
        Inst::NOPZeroPage4(..) => Op::NopU,
        Inst::NOPZeroPageX(..) => Op::NopU,
        Inst::NOPZeroPageX2(..) => Op::NopU,
        Inst::NOPZeroPageX3(..) => Op::NopU,
        Inst::NOPZeroPageX4(..) => Op::NopU,
        Inst::NOPZeroPageX5(..) => Op::NopU,
        Inst::NOPZeroPageX6(..) => Op::NopU,
        Inst::OraAbsolute(..) => Op::Ora,
        Inst::OraAbsoluteX(..) => Op::Ora,
        Inst::OraAbsoluteY(..) => Op::Ora,
        Inst::OraImmediate(..) => Op::Ora,
        Inst::OraIndirectX(..) => Op::Ora,
        Inst::OraIndirectY(..) => Op::Ora,
        Inst::OraZeroPage(..) => Op::Ora,
        Inst::OraZeroPageX(..) => Op::Ora,
        Inst::Pha => Op::Pha,
        Inst::Php => Op::Php,
        Inst::Pla => Op::Pla,
        Inst::Plp => Op::Plp,
        Inst::RLAAbsolute(..) => Op::Rla,
        Inst::RLAAbsoluteX(..) => Op::Rla,
        Inst::RLAAbsoluteY(..) => Op::Rla,
        Inst::RLAIndirectX(..) => Op::Rla,
        Inst::RLAIndirectY(..) => Op::Rla,
        Inst::RLAZeroPage(..) => Op::Rla,
        Inst::RLAZeroPageX(..) => Op::Rla,
        Inst::RolAbsolute(..) => Op::Rol,
        Inst::RolAbsoluteX(..) => Op::Rol,
        Inst::RolAccumulator => Op::Rol,
        Inst::RolZeroPage(..) => Op::Rol,
        Inst::RolZeroPageX(..) => Op::Rol,
        Inst::RorAbsolute(..) => Op::Ror,
        Inst::RorAbsoluteX(..) => Op::Ror,
        Inst::RorAccumulator => Op::Ror,
        Inst::RorZeroPage(..) => Op::Ror,
        Inst::RorZeroPageX(..) => Op::Ror,
        Inst::RRAAbsolute(..) => Op::Rra,
        Inst::RRAAbsoluteX(..) => Op::Rra,
        Inst::RRAAbsoluteY(..) => Op::Rra,
        Inst::RRAIndirectX(..) => Op::Rra,
        Inst::RRAIndirectY(..) => Op::Rra,
        Inst::RRAZeroPage(..) => Op::Rra,
        Inst::RRAZeroPageX(..) => Op::Rra,
        Inst::Rti => Op::Rti,
        Inst::Rts => Op::Rts,
        Inst::SAXAbsolute(..) => Op::Sax,
        Inst::SAXIndirectX(..) => Op::Sax,
        Inst::SAXZeroPage(..) => Op::Sax,
        Inst::SAXZeroPageY(..) => Op::Sax,
        Inst::SbcAbsolute(..) => Op::Sbc,
        Inst::SbcAbsoluteX(..) => Op::Sbc,
        Inst::SbcAbsoluteY(..) => Op::Sbc,
        Inst::SbcImmediate(..) => Op::Sbc,
        Inst::SbcImmediate2(..) => Op::SbcU,
        Inst::SbcIndirectX(..) => Op::Sbc,
        Inst::SbcIndirectY(..) => Op::Sbc,
        Inst::SbcZeroPage(..) => Op::Sbc,
        Inst::SbcZeroPageX(..) => Op::Sbc,
        Inst::Sec => Op::Sec,
        Inst::Sed => Op::Sed,
        Inst::Sei => Op::Sei,
        Inst::SHXAbsoluteY(..) => Op::Shx,
        Inst::SHYAbsoluteX(..) => Op::Shy,
        Inst::SLOAbsolute(..) => Op::Slo,
        Inst::SLOAbsoluteX(..) => Op::Slo,
        Inst::SLOAbsoluteY(..) => Op::Slo,
        Inst::SLOIndirectX(..) => Op::Slo,
        Inst::SLOIndirectY(..) => Op::Slo,
        Inst::SLOZeroPage(..) => Op::Slo,
        Inst::SLOZeroPageX(..) => Op::Slo,
        Inst::SREAbsolute(..) => Op::Sre,
        Inst::SREAbsoluteX(..) => Op::Sre,
        Inst::SREAbsoluteY(..) => Op::Sre,
        Inst::SREIndirectX(..) => Op::Sre,
        Inst::SREIndirectY(..) => Op::Sre,
        Inst::SREZeroPage(..) => Op::Sre,
        Inst::SREZeroPageX(..) => Op::Sre,
        Inst::StaAbsolute(..) => Op::Sta,
        Inst::StaAbsoluteX(..) => Op::Sta,
        Inst::StaAbsoluteY(..) => Op::Sta,
        Inst::StaIndirectX(..) => Op::Sta,
        Inst::StaIndirectY(..) => Op::Sta,
        Inst::StaZeroPage(..) => Op::Sta,
        Inst::StaZeroPageX(..) => Op::Sta,
        Inst::StxAbsolute(..) => Op::Stx,
        Inst::StxZeroPage(..) => Op::Stx,
        Inst::StxZeroPageY(..) => Op::Stx,
        Inst::StyAbsolute(..) => Op::Sty,
        Inst::StyZeroPage(..) => Op::Sty,
        Inst::StyZeroPageX(..) => Op::Sty,
        Inst::TASAbsoluteY(..) => Op::Tas,
        Inst::Tax => Op::Tax,
        Inst::Tay => Op::Tay,
        Inst::Tsx => Op::Tsx,
        Inst::Txa => Op::Txa,
        Inst::Txs => Op::Txs,
        Inst::Tya => Op::Tya,
        Inst::XAAImmediate(..) => Op::Xaa,
    }
}

/// The addressing-mode operand of each variant.
pub open spec fn operand_of(i: Inst) -> Operand {
    match i {
        Inst::AdcAbsolute(x) => Operand::Abs(u16_of(x)),
        Inst::AdcAbsoluteX(x) => Operand::AbsX(u16_of(x)),
        Inst::AdcAbsoluteY(x) => Operand::AbsY(u16_of(x)),
        Inst::AdcImmediate(x) => Operand::Imm(x),
        Inst::AdcIndirectX(x) => Operand::IndX(x),
        Inst::AdcIndirectY(x) => Operand::IndY(x),
        Inst::AdcZeroPage(x) => Operand::Zp(x),
        Inst::AdcZeroPageX(x) => Operand::ZpX(x),
        Inst::AhxAbsoluteY(x) => Operand::AbsY(u16_of(x)),
        Inst::AhxIndirectY(x) => Operand::IndY(x),
        Inst::AlrImmediate(x) => Operand::Imm(x),
        Inst::AncImmediate2(x) => Operand::Imm(x),
        Inst::AncImmediate(x) => Operand::Imm(x),
        Inst::AndAbsolute(x) => Operand::Abs(u16_of(x)),
        Inst::AndAbsoluteX(x) => Operand::AbsX(u16_of(x)),
        Inst::AndAbsoluteY(x) => Operand::AbsY(u16_of(x)),
        Inst::AndImmediate(x) => Operand::Imm(x),
        Inst::AndIndirectX(x) => Operand::IndX(x),
        Inst::AndIndirectY(x) => Operand::IndY(x),
        Inst::AndZeroPage(x) => Operand::Zp(x),
        Inst::AndZeroPageX(x) => Operand::ZpX(x),
        Inst::ArrImmediate(x) => Operand::Imm(x),
        Inst::AslAbsolute(x) => Operand::Abs(u16_of(x)),
        Inst::AslAbsoluteX(x) => Operand::AbsX(u16_of(x)),
        Inst::AslAccumulator => Operand::Accumulator,
        Inst::AslZeroPage(x) => Operand::Zp(x),
        Inst::AslZeroPageX(x) => Operand::ZpX(x),
        Inst::AxsImmediate(x) => Operand::Imm(x),
        Inst::Bcc(x) => Operand::Rel(x),
        Inst::Bcs(x) => Operand::Rel(x),
        Inst::Beq(x) => Operand::Rel(x),
        Inst::BitAbsolute(x) => Operand::Abs(u16_of(x)),
        Inst::BitZeroPage(x) => Operand::Zp(x),
        Inst::Bmi(x) => Operand::Rel(x),
        Inst::Bne(x) => Operand::Rel(x),
        Inst::Bpl(x) => Operand::Rel(x),
        Inst::Brk => Operand::Implied,
        Inst::Bvc(x) => Operand::Rel(x),
        Inst::Bvs(x) => Operand::Rel(x),
        Inst::Clc => Operand::Implied,
        Inst::Cld => Operand::Implied,
        Inst::Cli => Operand::Implied,
        Inst::Clv => Operand::Implied,
        Inst::CmpAbsolute(x) => Operand::Abs(u16_of(x)),
        Inst::CmpAbsoluteX(x) => Operand::AbsX(u16_of(x)),
        Inst::CmpAbsoluteY(x) => Operand::AbsY(u16_of(x)),
        Inst::CmpImmediate(x) => Operand::Imm(x),
        Inst::CmpIndirectX(x) => Operand::IndX(x),
        Inst::CmpIndirectY(x) => Operand::IndY(x),
        Inst::CmpZeroPage(x) => Operand::Zp(x),
        Inst::CmpZeroPageX(x) => Operand::ZpX(x),
        Inst::CpxAbsolute(x) => Operand::Abs(u16_of(x)),
        Inst::CpxImmediate(x) => Operand::Imm(x),
        Inst::CpxZeroPage(x) => Operand::Zp(x),
        Inst::CpyAbsolute(x) => Operand::Abs(u16_of(x)),
        Inst::CpyImmediate(x) => Operand::Imm(x),
        Inst::CpyZeroPage(x) => Operand::Zp(x),
        Inst::DCPAbsolute(x) => Operand::Abs(u16_of(x)),
        Inst::DCPAbsoluteX(x) => Operand::AbsX(u16_of(x)),
        Inst::DCPAbsoluteY(x) => Operand::AbsY(u16_of(x)),
        Inst::DCPIndirectX(x) => Operand::IndX(x),
        Inst::DCPIndirectY(x) => Operand::IndY(x),
        Inst::DCPZeroPage(x) => Operand::Zp(x),
        Inst::DCPZeroPageX(x) => Operand::ZpX(x),
        Inst::DecAbsolute(x) => Operand::Abs(u16_of(x)),
        Inst::DecAbsoluteX(x) => Operand::AbsX(u16_of(x)),
        Inst::DecZeroPage(x) => Operand::Zp(x),
        Inst::DecZeroPageX(x) => Operand::ZpX(x),
        Inst::Dex => Operand::Implied,
        Inst::Dey => Operand::Implied,
        Inst::EorAbsolute(x) => Operand::Abs(u16_of(x)),
        Inst::EorAbsoluteX(x) => Operand::AbsX(u16_of(x)),
        Inst::EorAbsoluteY(x) => Operand::AbsY(u16_of(x)),
        Inst::EorImmediate(x) => Operand::Imm(x),
        Inst::EorIndirectX(x) => Operand::IndX(x),
        Inst::EorIndirectY(x) => Operand::IndY(x),
        Inst::EorZeroPage(x) => Operand::Zp(x),
        Inst::EorZeroPageX(x) => Operand::ZpX(x),
        Inst::IncAbsolute(x) => Operand::Abs(u16_of(x)),
        Inst::IncAbsoluteX(x) => Operand::AbsX(u16_of(x)),
        Inst::IncZeroPage(x) => Operand::Zp(x),
        Inst::IncZeroPageX(x) => Operand::ZpX(x),
        Inst::Inx => Operand::Implied,
        Inst::Iny => Operand::Implied,
        Inst::ISCAbsolute(x) => Operand::Abs(u16_of(x)),
        Inst::ISCAbsoluteX(x) => Operand::AbsX(u16_of(x)),
        Inst::ISCAbsoluteY(x) => Operand::AbsY(u16_of(x)),
        Inst::ISCIndirectX(x) => Operand::IndX(x),
        Inst::ISCIndirectY(x) => Operand::IndY(x),
        Inst::ISCZeroPage(x) => Operand::Zp(x),
        Inst::ISCZeroPageX(x) => Operand::ZpX(x),
        Inst::JmpAbsolute(x) => Operand::Abs(u16_of(x)),
        Inst::JmpIndirect(x) => Operand::Ind(u16_of(x)),
        Inst::Jsr(x) => Operand::Abs(u16_of(x)),
        Inst::LASAbsoluteY(x) => Operand::AbsY(u16_of(x)),
        Inst::LAXAbsolute(x) => Operand::Abs(u16_of(x)),
        Inst::LAXAbsoluteY(x) => Operand::AbsY(u16_of(x)),
        Inst::LAXImmediate(x) => Operand::Imm(x),
        Inst::LAXIndirectX(x) => Operand::IndX(x),
        Inst::LAXIndirectY(x) => Operand::IndY(x),
        Inst::LAXZeroPage(x) => Operand::Zp(x),
        Inst::LAXZeroPageY(x) => Operand::ZpY(x),
        Inst::LdaAbsolute(x) => Operand::Abs(u16_of(x)),
        Inst::LdaAbsoluteX(x) => Operand::AbsX(u16_of(x)),
        Inst::LdaAbsoluteY(x) => Operand::AbsY(u16_of(x)),
        Inst::LdaImmediate(x) => Operand::Imm(x),
        Inst::LdaIndirectX(x) => Operand::IndX(x),
        Inst::LdaIndirectY(x) => Operand::IndY(x),
        Inst::LdaZeroPage(x) => Operand::Zp(x),
        Inst::LdaZeroPageX(x) => Operand::ZpX(x),
        Inst::LdxAbsolute(x) => Operand::Abs(u16_of(x)),
        Inst::LdxAbsoluteY(x) => Operand::AbsY(u16_of(x)),
        Inst::LdxImmediate(x) => Operand::Imm(x),
        Inst::LdxZeroPage(x) => Operand::Zp(x),
        Inst::LdxZeroPageY(x) => Operand::ZpY(x),
        Inst::LdyAbsolute(x) => Operand::Abs(u16_of(x)),
        Inst::LdyAbsoluteX(x) => Operand::AbsX(u16_of(x)),
        Inst::LdyImmediate(x) => Operand::Imm(x),
        Inst::LdyZeroPage(x) => Operand::Zp(x),
        Inst::LdyZeroPageX(x) => Operand::ZpX(x),
        Inst::LsrAbsolute(x) => Operand::Abs(u16_of(x)),
        Inst::LsrAbsoluteX(x) => Operand::AbsX(u16_of(x)),
        Inst::LsrAccumulator => Operand::Accumulator,
        Inst::LsrZeroPage(x) => Operand::Zp(x),
        Inst::LsrZeroPageX(x) => Operand::ZpX(x),
        Inst::NOP10 => Operand::Implied,
        Inst::NOP11 => Operand::Implied,
        Inst::NOP12 => Operand::Implied,
        Inst::NOP13 => Operand::Implied,
        Inst::NOP14 => Operand::Implied,
        Inst::NOP15 => Operand::Implied,
        Inst::NOP16 => Operand::Implied,
        Inst::NOP17 => Operand::Implied,
        Inst::NOP18 => Operand::Implied,
        Inst::NOP19 => Operand::Implied,
        Inst::Nop2 => Operand::Implied,
        Inst::NOP20 => Operand::Implied,
        Inst::NOP21 => Operand::Implied,
        Inst::NOP22 => Operand::Implied,
        Inst::NOP3 => Operand::Implied,
        Inst::NOP4 => Operand::Implied,
        Inst::NOP5 => Operand::Implied,
        Inst::NOP6 => Operand::Implied,
        Inst::NOP7 => Operand::Implied,
        Inst::NOP8 => Operand::Implied,
        Inst::NOP9 => Operand::Implied,
        Inst::NOPAbsolute(x) => Operand::Abs(u16_of(x)),
        Inst::NOPAbsoluteX(x) => Operand::AbsX(u16_of(x)),
        Inst::NOPAbsoluteX2(x) => Operand::AbsX(u16_of(x)),
        Inst::NOPAbsoluteX3(x) => Operand::AbsX(u16_of(x)),
        Inst::NOPAbsoluteX4(x) => Operand::AbsX(u16_of(x)),
        Inst::NOPAbsoluteX5(x) => Operand::AbsX(u16_of(x)),
        Inst::NOPAbsoluteX6(x) => Operand::AbsX(u16_of(x)),
        Inst::NOPImmediate(x) => Operand::Imm(x),
        Inst::NOPImmediate2(x) => Operand::Imm(x),
        Inst::NOPImmediate3(x) => Operand::Imm(x),
        Inst::NOPZeroPage(x) => Operand::Zp(x),
        Inst::NOPZeroPage3(x) => Operand::Zp(x),
        Inst::NOPZeroPage4(x) => Operand::Zp(x),
        Inst::NOPZeroPageX(x) => Operand::ZpX(x),
        Inst::NOPZeroPageX2(x) => Operand::ZpX(x),
        Inst::NOPZeroPageX3(x) => Operand::ZpX(x),
        Inst::NOPZeroPageX4(x) => Operand::ZpX(x),
        Inst::NOPZeroPageX5(x) => Operand::ZpX(x),
        Inst::NOPZeroPageX6(x) => Operand::ZpX(x),
        Inst::OraAbsolute(x) => Operand::Abs(u16_of(x)),
        Inst::OraAbsoluteX(x) => Operand::AbsX(u16_of(x)),
        Inst::OraAbsoluteY(x) => Operand::AbsY(u16_of(x)),
        Inst::OraImmediate(x) => Operand::Imm(x),
        Inst::OraIndirectX(x) => Operand::IndX(x),
        Inst::OraIndirectY(x) => Operand::IndY(x),
        Inst::OraZeroPage(x) => Operand::Zp(x),
        Inst::OraZeroPageX(x) => Operand::ZpX(x),
        Inst::Pha => Operand::Implied,
        Inst::Php => Operand::Implied,
        Inst::Pla => Operand::Implied,
        Inst::Plp => Operand::Implied,
        Inst::RLAAbsolute(x) => Operand::Abs(u16_of(x)),
        Inst::RLAAbsoluteX(x) => Operand::AbsX(u16_of(x)),
        Inst::RLAAbsoluteY(x) => Operand::AbsY(u16_of(x)),
        Inst::RLAIndirectX(x) => Operand::IndX(x),
        Inst::RLAIndirectY(x) => Operand::IndY(x),
        Inst::RLAZeroPage(x) => Operand::Zp(x),
        Inst::RLAZeroPageX(x) => Operand::ZpX(x),
        Inst::RolAbsolute(x) => Operand::Abs(u16_of(x)),
        Inst::RolAbsoluteX(x) => Operand::AbsX(u16_of(x)),
        Inst::RolAccumulator => Operand::Accumulator,
        Inst::RolZeroPage(x) => Operand::Zp(x),
        Inst::RolZeroPageX(x) => Operand::ZpX(x),
        Inst::RorAbsolute(x) => Operand::Abs(u16_of(x)),
        Inst::RorAbsoluteX(x) => Operand::AbsX(u16_of(x)),
        Inst::RorAccumulator => Operand::Accumulator,
        Inst::RorZeroPage(x) => Operand::Zp(x),
        Inst::RorZeroPageX(x) => Operand::ZpX(x),
        Inst::RRAAbsolute(x) => Operand::Abs(u16_of(x)),
        Inst::RRAAbsoluteX(x) => Operand::AbsX(u16_of(x)),
        Inst::RRAAbsoluteY(x) => Operand::AbsY(u16_of(x)),
        Inst::RRAIndirectX(x) => Operand::IndX(x),
        Inst::RRAIndirectY(x) => Operand::IndY(x),
        Inst::RRAZeroPage(x) => Operand::Zp(x),
        Inst::RRAZeroPageX(x) => Operand::ZpX(x),
        Inst::Rti => Operand::Implied,
        Inst::Rts => Operand::Implied,
        Inst::SAXAbsolute(x) => Operand::Abs(u16_of(x)),
        Inst::SAXIndirectX(x) => Operand::IndX(x),
        Inst::SAXZeroPage(x) => Operand::Zp(x),
        Inst::SAXZeroPageY(x) => Operand::ZpY(x),
        Inst::SbcAbsolute(x) => Operand::Abs(u16_of(x)),
        Inst::SbcAbsoluteX(x) => Operand::AbsX(u16_of(x)),
        Inst::SbcAbsoluteY(x) => Operand::AbsY(u16_of(x)),
        Inst::SbcImmediate(x) => Operand::Imm(x),
        Inst::SbcImmediate2(x) => Operand::Imm(x),
        Inst::SbcIndirectX(x) => Operand::IndX(x),
        Inst::SbcIndirectY(x) => Operand::IndY(x),
        Inst::SbcZeroPage(x) => Operand::Zp(x),
        Inst::SbcZeroPageX(x) => Operand::ZpX(x),
        Inst::Sec => Operand::Implied,
        Inst::Sed => Operand::Implied,
        Inst::Sei => Operand::Implied,
        Inst::SHXAbsoluteY(x) => Operand::AbsY(u16_of(x)),
        Inst::SHYAbsoluteX(x) => Operand::AbsX(u16_of(x)),
        Inst::SLOAbsolute(x) => Operand::Abs(u16_of(x)),
        Inst::SLOAbsoluteX(x) => Operand::AbsX(u16_of(x)),
        Inst::SLOAbsoluteY(x) => Operand::AbsY(u16_of(x)),
        Inst::SLOIndirectX(x) => Operand::IndX(x),
        Inst::SLOIndirectY(x) => Operand::IndY(x),
        Inst::SLOZeroPage(x) => Operand::Zp(x),
        Inst::SLOZeroPageX(x) => Operand::ZpX(x),
        Inst::SREAbsolute(x) => Operand::Abs(u16_of(x)),
        Inst::SREAbsoluteX(x) => Operand::AbsX(u16_of(x)),
        Inst::SREAbsoluteY(x) => Operand::AbsY(u16_of(x)),
        Inst::SREIndirectX(x) => Operand::IndX(x),
        Inst::SREIndirectY(x) => Operand::IndY(x),
        Inst::SREZeroPage(x) => Operand::Zp(x),
        Inst::SREZeroPageX(x) => Operand::ZpX(x),
        Inst::StaAbsolute(x) => Operand::Abs(u16_of(x)),
        Inst::StaAbsoluteX(x) => Operand::AbsX(u16_of(x)),
        Inst::StaAbsoluteY(x) => Operand::AbsY(u16_of(x)),
        Inst::StaIndirectX(x) => Operand::IndX(x),
        Inst::StaIndirectY(x) => Operand::IndY(x),
        Inst::StaZeroPage(x) => Operand::Zp(x),
        Inst::StaZeroPageX(x) => Operand::ZpX(x),
        Inst::StxAbsolute(x) => Operand::Abs(u16_of(x)),
        Inst::StxZeroPage(x) => Operand::Zp(x),
        Inst::StxZeroPageY(x) => Operand::ZpY(x),
        Inst::StyAbsolute(x) => Operand::Abs(u16_of(x)),
        Inst::StyZeroPage(x) => Operand::Zp(x),
        Inst::StyZeroPageX(x) => Operand::ZpX(x),
        Inst::TASAbsoluteY(x) => Operand::AbsY(u16_of(x)),
        Inst::Tax => Operand::Implied,
        Inst::Tay => Operand::Implied,
        Inst::Tsx => Operand::Implied,
        Inst::Txa => Operand::Implied,
        Inst::Txs => Operand::Implied,
        Inst::Tya => Operand::Implied,
        Inst::XAAImmediate(x) => Operand::Imm(x),
    }
}

/// The operand bytes of an instruction as they stand in memory, in
/// little-endian order for two-byte operands.
pub open spec fn operand_bytes(o: Operand) -> Seq<u8> {
    match o {
        Operand::Implied | Operand::Accumulator => seq![],
        Operand::Imm(v) | Operand::Zp(v) | Operand::ZpX(v) | Operand::ZpY(v)
            | Operand::IndX(v) | Operand::IndY(v) => seq![v],
        Operand::Rel(d) => seq![d as u8],
        Operand::Abs(a) | Operand::AbsX(a) | Operand::AbsY(a) | Operand::Ind(a) => seq![
            (a & 0xFF) as u8,
            (a >> 8) as u8,
        ],
    }
}

/// The byte length of an instruction: a pure function of its tag alone.
pub open spec fn spec_len(i: Inst) -> u8 {
    match operand_of(i) {
        Operand::Implied | Operand::Accumulator => 1,
        Operand::Imm(_) | Operand::Zp(_) | Operand::ZpX(_) | Operand::ZpY(_)
            | Operand::IndX(_) | Operand::IndY(_) | Operand::Rel(_) => 2,
        Operand::Abs(_) | Operand::AbsX(_) | Operand::AbsY(_) | Operand::Ind(_) => 3,
    }
}

/// The full byte encoding of an instruction: its opcode followed by its
/// operand bytes.
pub open spec fn encode_spec(i: Inst) -> Seq<u8> {
    seq![opcode_of(i)] + operand_bytes(operand_of(i))
}

/// Whether an instruction ends a basic block: branches, jumps, the
/// subroutine call, and the two returns.
pub open spec fn spec_ends_bb(i: Inst) -> bool {
    match op_of(i) {
        Op::Bcc | Op::Bcs | Op::Beq | Op::Bmi | Op::Bne | Op::Bpl | Op::Bvc | Op::Bvs
            | Op::Jmp | Op::Jsr | Op::Rti | Op::Rts => true,
        _ => false,
    }
}

/// Masking and shifting the value of a little-endian pair recovers its bytes.
pub proof fn lemma_u16_of_bytes()
    ensures
        forall|a: UnalignedU16|
            ((#[trigger] u16_of(a)) & 0xFF) as u8 == a.lo && (u16_of(a) >> 8) as u8 == a.hi,
{
    assert forall|a: UnalignedU16|
        ((#[trigger] u16_of(a)) & 0xFF) as u8 == a.lo && (u16_of(a) >> 8) as u8 == a.hi by {
        let l = a.lo;
        let h = a.hi;
        assert((((((h as u16) << 8) | (l as u16)) & 0xFF) as u8 == l) && (((((h as u16) << 8) | (
        l as u16)) >> 8) as u8 == h)) by (bit_vector);
    }
}

impl Inst {
    /// The mnemonic and addressing-mode operand of this instruction.
    pub fn classify(&self) -> (r: (Op, Operand))
        ensures
            r.0 == op_of(*self),
            r.1 == operand_of(*self),
    {
        match self {
            Inst::AdcAbsolute(x) => (Op::Adc, Operand::Abs(x.to_u16())),
            Inst::AdcAbsoluteX(x) => (Op::Adc, Operand::AbsX(x.to_u16())),
            Inst::AdcAbsoluteY(x) => (Op::Adc, Operand::AbsY(x.to_u16())),
            Inst::AdcImmediate(x) => (Op::Adc, Operand::Imm(*x)),
            Inst::AdcIndirectX(x) => (Op::Adc, Operand::IndX(*x)),
            Inst::AdcIndirectY(x) => (Op::Adc, Operand::IndY(*x)),
            Inst::AdcZeroPage(x) => (Op::Adc, Operand::Zp(*x)),
            Inst::AdcZeroPageX(x) => (Op::Adc, Operand::ZpX(*x)),
            Inst::AhxAbsoluteY(x) => (Op::Ahx, Operand::AbsY(x.to_u16())),
            Inst::AhxIndirectY(x) => (Op::Ahx, Operand::IndY(*x)),
            Inst::AlrImmediate(x) => (Op::Alr, Operand::Imm(*x)),
            Inst::AncImmediate2(x) => (Op::Anc, Operand::Imm(*x)),
            Inst::AncImmediate(x) => (Op::Anc, Operand::Imm(*x)),
            Inst::AndAbsolute(x) => (Op::And, Operand::Abs(x.to_u16())),
            Inst::AndAbsoluteX(x) => (Op::And, Operand::AbsX(x.to_u16())),
            Inst::AndAbsoluteY(x) => (Op::And, Operand::AbsY(x.to_u16())),
            Inst::AndImmediate(x) => (Op::And, Operand::Imm(*x)),
            Inst::AndIndirectX(x) => (Op::And, Operand::IndX(*x)),
            Inst::AndIndirectY(x) => (Op::And, Operand::IndY(*x)),
            Inst::AndZeroPage(x) => (Op::And, Operand::Zp(*x)),
            Inst::AndZeroPageX(x) => (Op::And, Operand::ZpX(*x)),
            Inst::ArrImmediate(x) => (Op::Arr, Operand::Imm(*x)),
            Inst::AslAbsolute(x) => (Op::Asl, Operand::Abs(x.to_u16())),
            Inst::AslAbsoluteX(x) => (Op::Asl, Operand::AbsX(x.to_u16())),
            Inst::AslAccumulator => (Op::Asl, Operand::Accumulator),
            Inst::AslZeroPage(x) => (Op::Asl, Operand::Zp(*x)),
            Inst::AslZeroPageX(x) => (Op::Asl, Operand::ZpX(*x)),
            Inst::AxsImmediate(x) => (Op::Axs, Operand::Imm(*x)),
            Inst::Bcc(x) => (Op::Bcc, Operand::Rel(*x)),
            Inst::Bcs(x) => (Op::Bcs, Operand::Rel(*x)),
            Inst::Beq(x) => (Op::Beq, Operand::Rel(*x)),
            Inst::BitAbsolute(x) => (Op::Bit, Operand::Abs(x.to_u16())),
            Inst::BitZeroPage(x) => (Op::Bit, Operand::Zp(*x)),
            Inst::Bmi(x) => (Op::Bmi, Operand::Rel(*x)),
            Inst::Bne(x) => (Op::Bne, Operand::Rel(*x)),
            Inst::Bpl(x) => (Op::Bpl, Operand::Rel(*x)),
            Inst::Brk => (Op::Brk, Operand::Implied),
            Inst::Bvc(x) => (Op::Bvc, Operand::Rel(*x)),
            Inst::Bvs(x) => (Op::Bvs, Operand::Rel(*x)),
            Inst::Clc => (Op::Clc, Operand::Implied),
            Inst::Cld => (Op::Cld, Operand::Implied),
            Inst::Cli => (Op::Cli, Operand::Implied),
            Inst::Clv => (Op::Clv, Operand::Implied),
            Inst::CmpAbsolute(x) => (Op::Cmp, Operand::Abs(x.to_u16())),
            Inst::CmpAbsoluteX(x) => (Op::Cmp, Operand::AbsX(x.to_u16())),
            Inst::CmpAbsoluteY(x) => (Op::Cmp, Operand::AbsY(x.to_u16())),
            Inst::CmpImmediate(x) => (Op::Cmp, Operand::Imm(*x)),
            Inst::CmpIndirectX(x) => (Op::Cmp, Operand::IndX(*x)),
            Inst::CmpIndirectY(x) => (Op::Cmp, Operand::IndY(*x)),
            Inst::CmpZeroPage(x) => (Op::Cmp, Operand::Zp(*x)),
            Inst::CmpZeroPageX(x) => (Op::Cmp, Operand::ZpX(*x)),
            Inst::CpxAbsolute(x) => (Op::Cpx, Operand::Abs(x.to_u16())),
            Inst::CpxImmediate(x) => (Op::Cpx, Operand::Imm(*x)),
            Inst::CpxZeroPage(x) => (Op::Cpx, Operand::Zp(*x)),
            Inst::CpyAbsolute(x) => (Op::Cpy, Operand::Abs(x.to_u16())),
            Inst::CpyImmediate(x) => (Op::Cpy, Operand::Imm(*x)),
            Inst::CpyZeroPage(x) => (Op::Cpy, Operand::Zp(*x)),
            Inst::DCPAbsolute(x) => (Op::Dcp, Operand::Abs(x.to_u16())),
            Inst::DCPAbsoluteX(x) => (Op::Dcp, Operand::AbsX(x.to_u16())),
            Inst::DCPAbsoluteY(x) => (Op::Dcp, Operand::AbsY(x.to_u16())),
            Inst::DCPIndirectX(x) => (Op::Dcp, Operand::IndX(*x)),
            Inst::DCPIndirectY(x) => (Op::Dcp, Operand::IndY(*x)),
            Inst::DCPZeroPage(x) => (Op::Dcp, Operand::Zp(*x)),
            Inst::DCPZeroPageX(x) => (Op::Dcp, Operand::ZpX(*x)),
            Inst::DecAbsolute(x) => (Op::Dec, Operand::Abs(x.to_u16())),
            Inst::DecAbsoluteX(x) => (Op::Dec, Operand::AbsX(x.to_u16())),
            Inst::DecZeroPage(x) => (Op::Dec, Operand::Zp(*x)),
            Inst::DecZeroPageX(x) => (Op::Dec, Operand::ZpX(*x)),
            Inst::Dex => (Op::Dex, Operand::Implied),
            Inst::Dey => (Op::Dey, Operand::Implied),
            Inst::EorAbsolute(x) => (Op::Eor, Operand::Abs(x.to_u16())),
            Inst::EorAbsoluteX(x) => (Op::Eor, Operand::AbsX(x.to_u16())),
            Inst::EorAbsoluteY(x) => (Op::Eor, Operand::AbsY(x.to_u16())),
            Inst::EorImmediate(x) => (Op::Eor, Operand::Imm(*x)),
            Inst::EorIndirectX(x) => (Op::Eor, Operand::IndX(*x)),
            Inst::EorIndirectY(x) => (Op::Eor, Operand::IndY(*x)),
            Inst::EorZeroPage(x) => (Op::Eor, Operand::Zp(*x)),
            Inst::EorZeroPageX(x) => (Op::Eor, Operand::ZpX(*x)),
            Inst::IncAbsolute(x) => (Op::Inc, Operand::Abs(x.to_u16())),
            Inst::IncAbsoluteX(x) => (Op::Inc, Operand::AbsX(x.to_u16())),
            Inst::IncZeroPage(x) => (Op::Inc, Operand::Zp(*x)),
            Inst::IncZeroPageX(x) => (Op::Inc, Operand::ZpX(*x)),
            Inst::Inx => (Op::Inx, Operand::Implied),
            Inst::Iny => (Op::Iny, Operand::Implied),
            Inst::ISCAbsolute(x) => (Op::Isc, Operand::Abs(x.to_u16())),
            Inst::ISCAbsoluteX(x) => (Op::Isc, Operand::AbsX(x.to_u16())),
            Inst::ISCAbsoluteY(x) => (Op::Isc, Operand::AbsY(x.to_u16())),
            Inst::ISCIndirectX(x) => (Op::Isc, Operand::IndX(*x)),
            Inst::ISCIndirectY(x) => (Op::Isc, Operand::IndY(*x)),
            Inst::ISCZeroPage(x) => (Op::Isc, Operand::Zp(*x)),
            Inst::ISCZeroPageX(x) => (Op::Isc, Operand::ZpX(*x)),
            Inst::JmpAbsolute(x) => (Op::Jmp, Operand::Abs(x.to_u16())),
            Inst::JmpIndirect(x) => (Op::Jmp, Operand::Ind(x.to_u16())),
            Inst::Jsr(x) => (Op::Jsr, Operand::Abs(x.to_u16())),
            Inst::LASAbsoluteY(x) => (Op::Las, Operand::AbsY(x.to_u16())),
            Inst::LAXAbsolute(x) => (Op::Lax, Operand::Abs(x.to_u16())),
            Inst::LAXAbsoluteY(x) => (Op::Lax, Operand::AbsY(x.to_u16())),
            Inst::LAXImmediate(x) => (Op::Lax, Operand::Imm(*x)),
            Inst::LAXIndirectX(x) => (Op::Lax, Operand::IndX(*x)),
            Inst::LAXIndirectY(x) => (Op::Lax, Operand::IndY(*x)),
            Inst::LAXZeroPage(x) => (Op::Lax, Operand::Zp(*x)),
            Inst::LAXZeroPageY(x) => (Op::Lax, Operand::ZpY(*x)),
            Inst::LdaAbsolute(x) => (Op::Lda, Operand::Abs(x.to_u16())),
            Inst::LdaAbsoluteX(x) => (Op::Lda, Operand::AbsX(x.to_u16())),
            Inst::LdaAbsoluteY(x) => (Op::Lda, Operand::AbsY(x.to_u16())),
            Inst::LdaImmediate(x) => (Op::Lda, Operand::Imm(*x)),
            Inst::LdaIndirectX(x) => (Op::Lda, Operand::IndX(*x)),
            Inst::LdaIndirectY(x) => (Op::Lda, Operand::IndY(*x)),
            Inst::LdaZeroPage(x) => (Op::Lda, Operand::Zp(*x)),
            Inst::LdaZeroPageX(x) => (Op::Lda, Operand::ZpX(*x)),
            Inst::LdxAbsolute(x) => (Op::Ldx, Operand::Abs(x.to_u16())),
            Inst::LdxAbsoluteY(x) => (Op::Ldx, Operand::AbsY(x.to_u16())),
            Inst::LdxImmediate(x) => (Op::Ldx, Operand::Imm(*x)),
            Inst::LdxZeroPage(x) => (Op::Ldx, Operand::Zp(*x)),
            Inst::LdxZeroPageY(x) => (Op::Ldx, Operand::ZpY(*x)),
            Inst::LdyAbsolute(x) => (Op::Ldy, Operand::Abs(x.to_u16())),
            Inst::LdyAbsoluteX(x) => (Op::Ldy, Operand::AbsX(x.to_u16())),
            Inst::LdyImmediate(x) => (Op::Ldy, Operand::Imm(*x)),
            Inst::LdyZeroPage(x) => (Op::Ldy, Operand::Zp(*x)),
            Inst::LdyZeroPageX(x) => (Op::Ldy, Operand::ZpX(*x)),
            Inst::LsrAbsolute(x) => (Op::Lsr, Operand::Abs(x.to_u16())),
            Inst::LsrAbsoluteX(x) => (Op::Lsr, Operand::AbsX(x.to_u16())),
            Inst::LsrAccumulator => (Op::Lsr, Operand::Accumulator),
            Inst::LsrZeroPage(x) => (Op::Lsr, Operand::Zp(*x)),
            Inst::LsrZeroPageX(x) => (Op::Lsr, Operand::ZpX(*x)),
            Inst::NOP10 => (Op::NopU, Operand::Implied),
            Inst::NOP11 => (Op::NopU, Operand::Implied),
            Inst::NOP12 => (Op::NopU, Operand::Implied),
            Inst::NOP13 => (Op::NopU, Operand::Implied),
            Inst::NOP14 => (Op::NopU, Operand::Implied),
            Inst::NOP15 => (Op::NopU, Operand::Implied),
            Inst::NOP16 => (Op::NopU, Operand::Implied),
            Inst::NOP17 => (Op::NopU, Operand::Implied),
            Inst::NOP18 => (Op::NopU, Operand::Implied),
            Inst::NOP19 => (Op::NopU, Operand::Implied),
            Inst::Nop2 => (Op::Nop, Operand::Implied),
            Inst::NOP20 => (Op::NopU, Operand::Implied),
            Inst::NOP21 => (Op::NopU, Operand::Implied),
            Inst::NOP22 => (Op::NopU, Operand::Implied),
            Inst::NOP3 => (Op::NopU, Operand::Implied),
            Inst::NOP4 => (Op::NopU, Operand::Implied),
            Inst::NOP5 => (Op::NopU, Operand::Implied),
            Inst::NOP6 => (Op::NopU, Operand::Implied),
            Inst::NOP7 => (Op::NopU, Operand::Implied),
            Inst::NOP8 => (Op::NopU, Operand::Implied),
            Inst::NOP9 => (Op::NopU, Operand::Implied),
            Inst::NOPAbsolute(x) => (Op::NopU, Operand::Abs(x.to_u16())),
            Inst::NOPAbsoluteX(x) => (Op::NopU, Operand::AbsX(x.to_u16())),
            Inst::NOPAbsoluteX2(x) => (Op::NopU, Operand::AbsX(x.to_u16())),
            Inst::NOPAbsoluteX3(x) => (Op::NopU, Operand::AbsX(x.to_u16())),
            Inst::NOPAbsoluteX4(x) => (Op::NopU, Operand::AbsX(x.to_u16())),
            Inst::NOPAbsoluteX5(x) => (Op::NopU, Operand::AbsX(x.to_u16())),
            Inst::NOPAbsoluteX6(x) => (Op::NopU, Operand::AbsX(x.to_u16())),
            Inst::NOPImmediate(x) => (Op::NopU, Operand::Imm(*x)),
            Inst::NOPImmediate2(x) => (Op::NopU, Operand::Imm(*x)),
            Inst::NOPImmediate3(x) => (Op::NopU, Operand::Imm(*x)),
            Inst::NOPZeroPage(x) => (Op::NopU, Operand::Zp(*x)),
            Inst::NOPZeroPage3(x) => (Op::NopU, Operand::Zp(*x)),
            Inst::NOPZeroPage4(x) => (Op::NopU, Operand::Zp(*x)),
            Inst::NOPZeroPageX(x) => (Op::NopU, Operand::ZpX(*x)),
            Inst::NOPZeroPageX2(x) => (Op::NopU, Operand::ZpX(*x)),
            Inst::NOPZeroPageX3(x) => (Op::NopU, Operand::ZpX(*x)),
            Inst::NOPZeroPageX4(x) => (Op::NopU, Operand::ZpX(*x)),
            Inst::NOPZeroPageX5(x) => (Op::NopU, Operand::ZpX(*x)),
            Inst::NOPZeroPageX6(x) => (Op::NopU, Operand::ZpX(*x)),
            Inst::OraAbsolute(x) => (Op::Ora, Operand::Abs(x.to_u16())),
            Inst::OraAbsoluteX(x) => (Op::Ora, Operand::AbsX(x.to_u16())),
            Inst::OraAbsoluteY(x) => (Op::Ora, Operand::AbsY(x.to_u16())),
            Inst::OraImmediate(x) => (Op::Ora, Operand::Imm(*x)),
            Inst::OraIndirectX(x) => (Op::Ora, Operand::IndX(*x)),
            Inst::OraIndirectY(x) => (Op::Ora, Operand::IndY(*x)),
            Inst::OraZeroPage(x) => (Op::Ora, Operand::Zp(*x)),
            Inst::OraZeroPageX(x) => (Op::Ora, Operand::ZpX(*x)),
            Inst::Pha => (Op::Pha, Operand::Implied),
            Inst::Php => (Op::Php, Operand::Implied),
            Inst::Pla => (Op::Pla, Operand::Implied),
            Inst::Plp => (Op::Plp, Operand::Implied),
            Inst::RLAAbsolute(x) => (Op::Rla, Operand::Abs(x.to_u16())),
            Inst::RLAAbsoluteX(x) => (Op::Rla, Operand::AbsX(x.to_u16())),
            Inst::RLAAbsoluteY(x) => (Op::Rla, Operand::AbsY(x.to_u16())),
            Inst::RLAIndirectX(x) => (Op::Rla, Operand::IndX(*x)),
            Inst::RLAIndirectY(x) => (Op::Rla, Operand::IndY(*x)),
            Inst::RLAZeroPage(x) => (Op::Rla, Operand::Zp(*x)),
            Inst::RLAZeroPageX(x) => (Op::Rla, Operand::ZpX(*x)),
            Inst::RolAbsolute(x) => (Op::Rol, Operand::Abs(x.to_u16())),
            Inst::RolAbsoluteX(x) => (Op::Rol, Operand::AbsX(x.to_u16())),
            Inst::RolAccumulator => (Op::Rol, Operand::Accumulator),
            Inst::RolZeroPage(x) => (Op::Rol, Operand::Zp(*x)),
            Inst::RolZeroPageX(x) => (Op::Rol, Operand::ZpX(*x)),
            Inst::RorAbsolute(x) => (Op::Ror, Operand::Abs(x.to_u16())),
            Inst::RorAbsoluteX(x) => (Op::Ror, Operand::AbsX(x.to_u16())),
            Inst::RorAccumulator => (Op::Ror, Operand::Accumulator),
            Inst::RorZeroPage(x) => (Op::Ror, Operand::Zp(*x)),
            Inst::RorZeroPageX(x) => (Op::Ror, Operand::ZpX(*x)),
            Inst::RRAAbsolute(x) => (Op::Rra, Operand::Abs(x.to_u16())),
            Inst::RRAAbsoluteX(x) => (Op::Rra, Operand::AbsX(x.to_u16())),
            Inst::RRAAbsoluteY(x) => (Op::Rra, Operand::AbsY(x.to_u16())),
            Inst::RRAIndirectX(x) => (Op::Rra, Operand::IndX(*x)),
            Inst::RRAIndirectY(x) => (Op::Rra, Operand::IndY(*x)),
            Inst::RRAZeroPage(x) => (Op::Rra, Operand::Zp(*x)),
            Inst::RRAZeroPageX(x) => (Op::Rra, Operand::ZpX(*x)),
            Inst::Rti => (Op::Rti, Operand::Implied),
            Inst::Rts => (Op::Rts, Operand::Implied),
            Inst::SAXAbsolute(x) => (Op::Sax, Operand::Abs(x.to_u16())),
            Inst::SAXIndirectX(x) => (Op::Sax, Operand::IndX(*x)),
            Inst::SAXZeroPage(x) => (Op::Sax, Operand::Zp(*x)),
            Inst::SAXZeroPageY(x) => (Op::Sax, Operand::ZpY(*x)),
            Inst::SbcAbsolute(x) => (Op::Sbc, Operand::Abs(x.to_u16())),
            Inst::SbcAbsoluteX(x) => (Op::Sbc, Operand::AbsX(x.to_u16())),
            Inst::SbcAbsoluteY(x) => (Op::Sbc, Operand::AbsY(x.to_u16())),
            Inst::SbcImmediate(x) => (Op::Sbc, Operand::Imm(*x)),
            Inst::SbcImmediate2(x) => (Op::SbcU, Operand::Imm(*x)),
            Inst::SbcIndirectX(x) => (Op::Sbc, Operand::IndX(*x)),
            Inst::SbcIndirectY(x) => (Op::Sbc, Operand::IndY(*x)),
            Inst::SbcZeroPage(x) => (Op::Sbc, Operand::Zp(*x)),
            Inst::SbcZeroPageX(x) => (Op::Sbc, Operand::ZpX(*x)),
            Inst::Sec => (Op::Sec, Operand::Implied),
            Inst::Sed => (Op::Sed, Operand::Implied),
            Inst::Sei => (Op::Sei, Operand::Implied),
            Inst::SHXAbsoluteY(x) => (Op::Shx, Operand::AbsY(x.to_u16())),
            Inst::SHYAbsoluteX(x) => (Op::Shy, Operand::AbsX(x.to_u16())),
            Inst::SLOAbsolute(x) => (Op::Slo, Operand::Abs(x.to_u16())),
            Inst::SLOAbsoluteX(x) => (Op::Slo, Operand::AbsX(x.to_u16())),
            Inst::SLOAbsoluteY(x) => (Op::Slo, Operand::AbsY(x.to_u16())),
            Inst::SLOIndirectX(x) => (Op::Slo, Operand::IndX(*x)),
            Inst::SLOIndirectY(x) => (Op::Slo, Operand::IndY(*x)),
            Inst::SLOZeroPage(x) => (Op::Slo, Operand::Zp(*x)),
            Inst::SLOZeroPageX(x) => (Op::Slo, Operand::ZpX(*x)),
            Inst::SREAbsolute(x) => (Op::Sre, Operand::Abs(x.to_u16())),
            Inst::SREAbsoluteX(x) => (Op::Sre, Operand::AbsX(x.to_u16())),
            Inst::SREAbsoluteY(x) => (Op::Sre, Operand::AbsY(x.to_u16())),
            Inst::SREIndirectX(x) => (Op::Sre, Operand::IndX(*x)),
            Inst::SREIndirectY(x) => (Op::Sre, Operand::IndY(*x)),
            Inst::SREZeroPage(x) => (Op::Sre, Operand::Zp(*x)),
            Inst::SREZeroPageX(x) => (Op::Sre, Operand::ZpX(*x)),
            Inst::StaAbsolute(x) => (Op::Sta, Operand::Abs(x.to_u16())),
            Inst::StaAbsoluteX(x) => (Op::Sta, Operand::AbsX(x.to_u16())),
            Inst::StaAbsoluteY(x) => (Op::Sta, Operand::AbsY(x.to_u16())),
            Inst::StaIndirectX(x) => (Op::Sta, Operand::IndX(*x)),
            Inst::StaIndirectY(x) => (Op::Sta, Operand::IndY(*x)),
            Inst::StaZeroPage(x) => (Op::Sta, Operand::Zp(*x)),
            Inst::StaZeroPageX(x) => (Op::Sta, Operand::ZpX(*x)),
            Inst::StxAbsolute(x) => (Op::Stx, Operand::Abs(x.to_u16())),
            Inst::StxZeroPage(x) => (Op::Stx, Operand::Zp(*x)),
            Inst::StxZeroPageY(x) => (Op::Stx, Operand::ZpY(*x)),
            Inst::StyAbsolute(x) => (Op::Sty, Operand::Abs(x.to_u16())),
            Inst::StyZeroPage(x) => (Op::Sty, Operand::Zp(*x)),
            Inst::StyZeroPageX(x) => (Op::Sty, Operand::ZpX(*x)),
            Inst::TASAbsoluteY(x) => (Op::Tas, Operand::AbsY(x.to_u16())),
            Inst::Tax => (Op::Tax, Operand::Implied),
            Inst::Tay => (Op::Tay, Operand::Implied),
            Inst::Tsx => (Op::Tsx, Operand::Implied),
            Inst::Txa => (Op::Txa, Operand::Implied),
            Inst::Txs => (Op::Txs, Operand::Implied),
            Inst::Tya => (Op::Tya, Operand::Implied),
            Inst::XAAImmediate(x) => (Op::Xaa, Operand::Imm(*x)),
        }
    }

    /// The opcode byte this instruction encodes to.
    pub fn opcode(&self) -> (r: u8)
        ensures
            r == opcode_of(*self),
    {
        match self {
            Inst::AdcAbsolute(..) => 0x6D,
            Inst::AdcAbsoluteX(..) => 0x7D,
            Inst::AdcAbsoluteY(..) => 0x79,
            Inst::AdcImmediate(..) => 0x69,
            Inst::AdcIndirectX(..) => 0x61,
            Inst::AdcIndirectY(..) => 0x71,
            Inst::AdcZeroPage(..) => 0x65,
            Inst::AdcZeroPageX(..) => 0x75,
            Inst::AhxAbsoluteY(..) => 0x9F,
            Inst::AhxIndirectY(..) => 0x93,
            Inst::AlrImmediate(..) => 0x4B,
            Inst::AncImmediate2(..) => 0x2B,
            Inst::AncImmediate(..) => 0x0B,
            Inst::AndAbsolute(..) => 0x2D,
            Inst::AndAbsoluteX(..) => 0x3D,
            Inst::AndAbsoluteY(..) => 0x39,
            Inst::AndImmediate(..) => 0x29,
            Inst::AndIndirectX(..) => 0x21,
            Inst::AndIndirectY(..) => 0x31,
            Inst::AndZeroPage(..) => 0x25,
            Inst::AndZeroPageX(..) => 0x35,
            Inst::ArrImmediate(..) => 0x6B,
            Inst::AslAbsolute(..) => 0x0E,
            Inst::AslAbsoluteX(..) => 0x1E,
            Inst::AslAccumulator => 0x0A,
            Inst::AslZeroPage(..) => 0x06,
            Inst::AslZeroPageX(..) => 0x16,
            Inst::AxsImmediate(..) => 0xCB,
            Inst::Bcc(..) => 0x90,
            Inst::Bcs(..) => 0xB0,
            Inst::Beq(..) => 0xF0,
            Inst::BitAbsolute(..) => 0x2C,
            Inst::BitZeroPage(..) => 0x24,
            Inst::Bmi(..) => 0x30,
            Inst::Bne(..) => 0xD0,
            Inst::Bpl(..) => 0x10,
            Inst::Brk => 0x00,
            Inst::Bvc(..) => 0x50,
            Inst::Bvs(..) => 0x70,
            Inst::Clc => 0x18,
            Inst::Cld => 0xD8,
            Inst::Cli => 0x58,
            Inst::Clv => 0xB8,
            Inst::CmpAbsolute(..) => 0xCD,
            Inst::CmpAbsoluteX(..) => 0xDD,
            Inst::CmpAbsoluteY(..) => 0xD9,
            Inst::CmpImmediate(..) => 0xC9,
            Inst::CmpIndirectX(..) => 0xC1,
            Inst::CmpIndirectY(..) => 0xD1,
            Inst::CmpZeroPage(..) => 0xC5,
            Inst::CmpZeroPageX(..) => 0xD5,
            Inst::CpxAbsolute(..) => 0xEC,
            Inst::CpxImmediate(..) => 0xE0,
            Inst::CpxZeroPage(..) => 0xE4,
            Inst::CpyAbsolute(..) => 0xCC,
            Inst::CpyImmediate(..) => 0xC0,
            Inst::CpyZeroPage(..) => 0xC4,
            Inst::DCPAbsolute(..) => 0xCF,
            Inst::DCPAbsoluteX(..) => 0xDF,
            Inst::DCPAbsoluteY(..) => 0xDB,
            Inst::DCPIndirectX(..) => 0xC3,
            Inst::DCPIndirectY(..) => 0xD3,
            Inst::DCPZeroPage(..) => 0xC7,
            Inst::DCPZeroPageX(..) => 0xD7,
            Inst::DecAbsolute(..) => 0xCE,
            Inst::DecAbsoluteX(..) => 0xDE,
            Inst::DecZeroPage(..) => 0xC6,
            Inst::DecZeroPageX(..) => 0xD6,
            Inst::Dex => 0xCA,
            Inst::Dey => 0x88,
            Inst::EorAbsolute(..) => 0x4D,
            Inst::EorAbsoluteX(..) => 0x5D,
            Inst::EorAbsoluteY(..) => 0x59,
            Inst::EorImmediate(..) => 0x49,
            Inst::EorIndirectX(..) => 0x41,
            Inst::EorIndirectY(..) => 0x51,
            Inst::EorZeroPage(..) => 0x45,
            Inst::EorZeroPageX(..) => 0x55,
            Inst::IncAbsolute(..) => 0xEE,
            Inst::IncAbsoluteX(..) => 0xFE,
            Inst::IncZeroPage(..) => 0xE6,
            Inst::IncZeroPageX(..) => 0xF6,
            Inst::Inx => 0xE8,
            Inst::Iny => 0xC8,
            Inst::ISCAbsolute(..) => 0xEF,
            Inst::ISCAbsoluteX(..) => 0xFF,
            Inst::ISCAbsoluteY(..) => 0xFB,
            Inst::ISCIndirectX(..) => 0xE3,
            Inst::ISCIndirectY(..) => 0xF3,
            Inst::ISCZeroPage(..) => 0xE7,
            Inst::ISCZeroPageX(..) => 0xF7,
            Inst::JmpAbsolute(..) => 0x4C,
            Inst::JmpIndirect(..) => 0x6C,
            Inst::Jsr(..) => 0x20,
            Inst::LASAbsoluteY(..) => 0xBB,
            Inst::LAXAbsolute(..) => 0xAF,
            Inst::LAXAbsoluteY(..) => 0xBF,
            Inst::LAXImmediate(..) => 0xAB,
            Inst::LAXIndirectX(..) => 0xA3,
            Inst::LAXIndirectY(..) => 0xB3,
            Inst::LAXZeroPage(..) => 0xA7,
            Inst::LAXZeroPageY(..) => 0xB7,
            Inst::LdaAbsolute(..) => 0xAD,
            Inst::LdaAbsoluteX(..) => 0xBD,
            Inst::LdaAbsoluteY(..) => 0xB9,
            Inst::LdaImmediate(..) => 0xA9,
            Inst::LdaIndirectX(..) => 0xA1,
            Inst::LdaIndirectY(..) => 0xB1,
            Inst::LdaZeroPage(..) => 0xA5,
            Inst::LdaZeroPageX(..) => 0xB5,
            Inst::LdxAbsolute(..) => 0xAE,
            Inst::LdxAbsoluteY(..) => 0xBE,
            Inst::LdxImmediate(..) => 0xA2,
            Inst::LdxZeroPage(..) => 0xA6,
            Inst::LdxZeroPageY(..) => 0xB6,
            Inst::LdyAbsolute(..) => 0xAC,
            Inst::LdyAbsoluteX(..) => 0xBC,
            Inst::LdyImmediate(..) => 0xA0,
            Inst::LdyZeroPage(..) => 0xA4,
            Inst::LdyZeroPageX(..) => 0xB4,
            Inst::LsrAbsolute(..) => 0x4E,
            Inst::LsrAbsoluteX(..) => 0x5E,
            Inst::LsrAccumulator => 0x4A,
            Inst::LsrZeroPage(..) => 0x46,
            Inst::LsrZeroPageX(..) => 0x56,
            Inst::NOP10 => 0x5A,
            Inst::NOP11 => 0x62,
            Inst::NOP12 => 0x72,
            Inst::NOP13 => 0x7A,
            Inst::NOP14 => 0x82,
            Inst::NOP15 => 0x92,
            Inst::NOP16 => 0xB2,
            Inst::NOP17 => 0xC2,
            Inst::NOP18 => 0xD2,
            Inst::NOP19 => 0xDA,
            Inst::Nop2 => 0x02,
            Inst::NOP20 => 0xE2,
            Inst::NOP21 => 0xF2,
            Inst::NOP22 => 0xFA,
            Inst::NOP3 => 0x12,
            Inst::NOP4 => 0x1A,
            Inst::NOP5 => 0x22,
            Inst::NOP6 => 0x32,
            Inst::NOP7 => 0x3A,
            Inst::NOP8 => 0x42,
            Inst::NOP9 => 0x52,
            Inst::NOPAbsolute(..) => 0x0C,
            Inst::NOPAbsoluteX(..) => 0x1C,
            Inst::NOPAbsoluteX2(..) => 0x3C,
            Inst::NOPAbsoluteX3(..) => 0x5C,
            Inst::NOPAbsoluteX4(..) => 0x7C,
            Inst::NOPAbsoluteX5(..) => 0xDC,
            Inst::NOPAbsoluteX6(..) => 0xFC,
            Inst::NOPImmediate(..) => 0x80,
            Inst::NOPImmediate2(..) => 0x89,
            Inst::NOPImmediate3(..) => 0xEA,
            Inst::NOPZeroPage(..) => 0x04,
            Inst::NOPZeroPage3(..) => 0x44,
            Inst::NOPZeroPage4(..) => 0x64,
            Inst::NOPZeroPageX(..) => 0x14,
            Inst::NOPZeroPageX2(..) => 0x34,
            Inst::NOPZeroPageX3(..) => 0x54,
            Inst::NOPZeroPageX4(..) => 0x74,
            Inst::NOPZeroPageX5(..) => 0xD4,
            Inst::NOPZeroPageX6(..) => 0xF4,
            Inst::OraAbsolute(..) => 0x0D,
            Inst::OraAbsoluteX(..) => 0x1D,
            Inst::OraAbsoluteY(..) => 0x19,
            Inst::OraImmediate(..) => 0x09,
            Inst::OraIndirectX(..) => 0x01,
            Inst::OraIndirectY(..) => 0x11,
            Inst::OraZeroPage(..) => 0x05,
            Inst::OraZeroPageX(..) => 0x15,
            Inst::Pha => 0x48,
            Inst::Php => 0x08,
            Inst::Pla => 0x68,
            Inst::Plp => 0x28,
            Inst::RLAAbsolute(..) => 0x2F,
            Inst::RLAAbsoluteX(..) => 0x3F,
            Inst::RLAAbsoluteY(..) => 0x3B,
            Inst::RLAIndirectX(..) => 0x23,
            Inst::RLAIndirectY(..) => 0x33,
            Inst::RLAZeroPage(..) => 0x27,
            Inst::RLAZeroPageX(..) => 0x37,
            Inst::RolAbsolute(..) => 0x2E,
            Inst::RolAbsoluteX(..) => 0x3E,
            Inst::RolAccumulator => 0x2A,
            Inst::RolZeroPage(..) => 0x26,
            Inst::RolZeroPageX(..) => 0x36,
            Inst::RorAbsolute(..) => 0x6E,
            Inst::RorAbsoluteX(..) => 0x7E,
            Inst::RorAccumulator => 0x6A,
            Inst::RorZeroPage(..) => 0x66,
            Inst::RorZeroPageX(..) => 0x76,
            Inst::RRAAbsolute(..) => 0x6F,
            Inst::RRAAbsoluteX(..) => 0x7F,
            Inst::RRAAbsoluteY(..) => 0x7B,
            Inst::RRAIndirectX(..) => 0x63,
            Inst::RRAIndirectY(..) => 0x73,
            Inst::RRAZeroPage(..) => 0x67,
            Inst::RRAZeroPageX(..) => 0x77,
            Inst::Rti => 0x40,
            Inst::Rts => 0x60,
            Inst::SAXAbsolute(..) => 0x8F,
            Inst::SAXIndirectX(..) => 0x83,
            Inst::SAXZeroPage(..) => 0x87,
            Inst::SAXZeroPageY(..) => 0x97,
            Inst::SbcAbsolute(..) => 0xED,
            Inst::SbcAbsoluteX(..) => 0xFD,
            Inst::SbcAbsoluteY(..) => 0xF9,
            Inst::SbcImmediate(..) => 0xE9,
            Inst::SbcImmediate2(..) => 0xEB,
            Inst::SbcIndirectX(..) => 0xE1,
            Inst::SbcIndirectY(..) => 0xF1,
            Inst::SbcZeroPage(..) => 0xE5,
            Inst::SbcZeroPageX(..) => 0xF5,
            Inst::Sec => 0x38,
            Inst::Sed => 0xF8,
            Inst::Sei => 0x78,
            Inst::SHXAbsoluteY(..) => 0x9E,
            Inst::SHYAbsoluteX(..) => 0x9C,
            Inst::SLOAbsolute(..) => 0x0F,
            Inst::SLOAbsoluteX(..) => 0x1F,
            Inst::SLOAbsoluteY(..) => 0x1B,
            Inst::SLOIndirectX(..) => 0x03,
            Inst::SLOIndirectY(..) => 0x13,
            Inst::SLOZeroPage(..) => 0x07,
            Inst::SLOZeroPageX(..) => 0x17,
            Inst::SREAbsolute(..) => 0x4F,
            Inst::SREAbsoluteX(..) => 0x5F,
            Inst::SREAbsoluteY(..) => 0x5B,
            Inst::SREIndirectX(..) => 0x43,
            Inst::SREIndirectY(..) => 0x53,
            Inst::SREZeroPage(..) => 0x47,
            Inst::SREZeroPageX(..) => 0x57,
            Inst::StaAbsolute(..) => 0x8D,
            Inst::StaAbsoluteX(..) => 0x9D,
            Inst::StaAbsoluteY(..) => 0x99,
            Inst::StaIndirectX(..) => 0x81,
            Inst::StaIndirectY(..) => 0x91,
            Inst::StaZeroPage(..) => 0x85,
            Inst::StaZeroPageX(..) => 0x95,
            Inst::StxAbsolute(..) => 0x8E,
            Inst::StxZeroPage(..) => 0x86,
            Inst::StxZeroPageY(..) => 0x96,
            Inst::StyAbsolute(..) => 0x8C,
            Inst::StyZeroPage(..) => 0x84,
            Inst::StyZeroPageX(..) => 0x94,
            Inst::TASAbsoluteY(..) => 0x9B,
            Inst::Tax => 0xAA,
            Inst::Tay => 0xA8,
            Inst::Tsx => 0xBA,
            Inst::Txa => 0x8A,
            Inst::Txs => 0x9A,
            Inst::Tya => 0x98,
            Inst::XAAImmediate(..) => 0x8B,
        }
    }

    /// The byte length of this instruction: the number of bytes to skip to
    /// reach the next one.
    pub fn len(&self) -> (r: u8)
        ensures
            r == spec_len(*self),
            1 <= r <= 3,
    {
        match self.classify().1 {
            Operand::Implied | Operand::Accumulator => 1,
            Operand::Imm(_) | Operand::Zp(_) | Operand::ZpX(_) | Operand::ZpY(_)
                | Operand::IndX(_) | Operand::IndY(_) | Operand::Rel(_) => 2,
            Operand::Abs(_) | Operand::AbsX(_) | Operand::AbsY(_) | Operand::Ind(_) => 3,
        }
    }

    /// Whether this instruction ends a basic block.
    pub fn ends_bb(&self) -> (r: bool)
        ensures
            r == spec_ends_bb(*self),
    {
        match self.classify().0 {
            Op::Bcc | Op::Bcs | Op::Beq | Op::Bmi | Op::Bne | Op::Bpl | Op::Bvc | Op::Bvs
                | Op::Jmp | Op::Jsr | Op::Rti | Op::Rts => true,
            _ => false,
        }
    }

    /// The raw byte encoding of this instruction, opcode first.
    pub fn encode(&self) -> (r: Vec<u8>)
        ensures
            r@ == encode_spec(*self),
    {
        let mut v: Vec<u8> = Vec::new();
        v.push(self.opcode());
        match self.classify().1 {
            Operand::Implied | Operand::Accumulator => {}
            Operand::Imm(b) | Operand::Zp(b) | Operand::ZpX(b) | Operand::ZpY(b)
                | Operand::IndX(b) | Operand::IndY(b) => v.push(b),
            Operand::Rel(d) => v.push(d as u8),
            Operand::Abs(a) | Operand::AbsX(a) | Operand::AbsY(a) | Operand::Ind(a) => {
                v.push((a & 0xFF) as u8);
                v.push((a >> 8) as u8);
            }
        }
        proof {
            assert(v@ =~= encode_spec(*self));
        }
        v
    }
}

/// The instruction a three-byte window decodes to: the first byte picks
/// the variant, the following bytes fill its operand.
pub open spec fn decode_spec(b0: u8, b1: u8, b2: u8) -> Inst {
    if b0 == 0x00 {
        Inst::Brk
    } else if b0 == 0x01 {
        Inst::OraIndirectX(b1)
    } else if b0 == 0x02 {
        Inst::Nop2
    } else if b0 == 0x03 {
        Inst::SLOIndirectX(b1)
    } else if b0 == 0x04 {
        Inst::NOPZeroPage(b1)
    } else if b0 == 0x05 {
        Inst::OraZeroPage(b1)
    } else if b0 == 0x06 {
        Inst::AslZeroPage(b1)
    } else if b0 == 0x07 {
        Inst::SLOZeroPage(b1)
    } else if b0 == 0x08 {
        Inst::Php
    } else if b0 == 0x09 {
        Inst::OraImmediate(b1)
    } else if b0 == 0x0A {
        Inst::AslAccumulator
    } else if b0 == 0x0B {
        Inst::AncImmediate(b1)
    } else if b0 == 0x0C {
        Inst::NOPAbsolute(UnalignedU16 { lo: b1, hi: b2 })
    } else if b0 == 0x0D {
        Inst::OraAbsolute(UnalignedU16 { lo: b1, hi: b2 })
    } else if b0 == 0x0E {
        Inst::AslAbsolute(UnalignedU16 { lo: b1, hi: b2 })
    } else if b0 == 0x0F {
        Inst::SLOAbsolute(UnalignedU16 { lo: b1, hi: b2 })
    } else if b0 == 0x10 {
        Inst::Bpl(b1 as i8)
    } else if b0 == 0x11 {
        Inst::OraIndirectY(b1)
    } else if b0 == 0x12 {
        Inst::NOP3
    } else if b0 == 0x13 {
        Inst::SLOIndirectY(b1)
    } else if b0 == 0x14 {
        Inst::NOPZeroPageX(b1)
    } else if b0 == 0x15 {
        Inst::OraZeroPageX(b1)
    } else if b0 == 0x16 {
        Inst::AslZeroPageX(b1)
    } else if b0 == 0x17 {
        Inst::SLOZeroPageX(b1)
    } else if b0 == 0x18 {
        Inst::Clc
    } else if b0 == 0x19 {
        Inst::OraAbsoluteY(UnalignedU16 { lo: b1, hi: b2 })
    } else if b0 == 0x1A {
        Inst::NOP4
    } else if b0 == 0x1B {
        Inst::SLOAbsoluteY(UnalignedU16 { lo: b1, hi: b2 })
    } else if b0 == 0x1C {
        Inst::NOPAbsoluteX(UnalignedU16 { lo: b1, hi: b2 })
    } else if b0 == 0x1D {
        Inst::OraAbsoluteX(UnalignedU16 { lo: b1, hi: b2 })
    } else if b0 == 0x1E {
        Inst::AslAbsoluteX(UnalignedU16 { lo: b1, hi: b2 })
    } else if b0 == 0x1F {
        Inst::SLOAbsoluteX(UnalignedU16 { lo: b1, hi: b2 })
    } else if b0 == 0x20 {
        Inst::Jsr(UnalignedU16 { lo: b1, hi: b2 })
    } else if b0 == 0x21 {
        Inst::AndIndirectX(b1)
    } else if b0 == 0x22 {
        Inst::NOP5
    } else if b0 == 0x23 {
        Inst::RLAIndirectX(b1)
    } else if b0 == 0x24 {
        Inst::BitZeroPage(b1)
    } else if b0 == 0x25 {
        Inst::AndZeroPage(b1)
    } else if b0 == 0x26 {
        Inst::RolZeroPage(b1)
    } else if b0 == 0x27 {
        Inst::RLAZeroPage(b1)
    } else if b0 == 0x28 {
        Inst::Plp
    } else if b0 == 0x29 {
        Inst::AndImmediate(b1)
    } else if b0 == 0x2A {
        Inst::RolAccumulator
    } else if b0 == 0x2B {
        Inst::AncImmediate2(b1)
    } else if b0 == 0x2C {
        Inst::BitAbsolute(UnalignedU16 { lo: b1, hi: b2 })
    } else if b0 == 0x2D {
        Inst::AndAbsolute(UnalignedU16 { lo: b1, hi: b2 })
    } else if b0 == 0x2E {
        Inst::RolAbsolute(UnalignedU16 { lo: b1, hi: b2 })
    } else if b0 == 0x2F {
        Inst::RLAAbsolute(UnalignedU16 { lo: b1, hi: b2 })
    } else if b0 == 0x30 {
        Inst::Bmi(b1 as i8)
    } else if b0 == 0x31 {
        Inst::AndIndirectY(b1)
    } else if b0 == 0x32 {
        Inst::NOP6
    } else if b0 == 0x33 {
        Inst::RLAIndirectY(b1)
    } else if b0 == 0x34 {
        Inst::NOPZeroPageX2(b1)
    } else if b0 == 0x35 {
        Inst::AndZeroPageX(b1)
    } else if b0 == 0x36 {
        Inst::RolZeroPageX(b1)
    } else if b0 == 0x37 {
        Inst::RLAZeroPageX(b1)
    } else if b0 == 0x38 {
        Inst::Sec
    } else if b0 == 0x39 {
        Inst::AndAbsoluteY(UnalignedU16 { lo: b1, hi: b2 })
    } else if b0 == 0x3A {
        Inst::NOP7
    } else if b0 == 0x3B {
        Inst::RLAAbsoluteY(UnalignedU16 { lo: b1, hi: b2 })
    } else if b0 == 0x3C {
        Inst::NOPAbsoluteX2(UnalignedU16 { lo: b1, hi: b2 })
    } else if b0 == 0x3D {
        Inst::AndAbsoluteX(UnalignedU16 { lo: b1, hi: b2 })
    } else if b0 == 0x3E {
        Inst::RolAbsoluteX(UnalignedU16 { lo: b1, hi: b2 })
    } else if b0 == 0x3F {
        Inst::RLAAbsoluteX(UnalignedU16 { lo: b1, hi: b2 })
    } else if b0 == 0x40 {
        Inst::Rti
    } else if b0 == 0x41 {
        Inst::EorIndirectX(b1)
    } else if b0 == 0x42 {
        Inst::NOP8
    } else if b0 == 0x43 {
        Inst::SREIndirectX(b1)
    } else if b0 == 0x44 {
        Inst::NOPZeroPage3(b1)
    } else if b0 == 0x45 {
        Inst::EorZeroPage(b1)
    } else if b0 == 0x46 {
        Inst::LsrZeroPage(b1)
    } else if b0 == 0x47 {
        Inst::SREZeroPage(b1)
    } else if b0 == 0x48 {
        Inst::Pha
    } else if b0 == 0x49 {
        Inst::EorImmediate(b1)
    } else if b0 == 0x4A {
        Inst::LsrAccumulator
    } else if b0 == 0x4B {
        Inst::AlrImmediate(b1)
    } else if b0 == 0x4C {
        Inst::JmpAbsolute(UnalignedU16 { lo: b1, hi: b2 })
    } else if b0 == 0x4D {
        Inst::EorAbsolute(UnalignedU16 { lo: b1, hi: b2 })
    } else if b0 == 0x4E {
        Inst::LsrAbsolute(UnalignedU16 { lo: b1, hi: b2 })
    } else if b0 == 0x4F {
        Inst::SREAbsolute(UnalignedU16 { lo: b1, hi: b2 })
    } else if b0 == 0x50 {
        Inst::Bvc(b1 as i8)
    } else if b0 == 0x51 {
        Inst::EorIndirectY(b1)
    } else if b0 == 0x52 {
        Inst::NOP9
    } else if b0 == 0x53 {
        Inst::SREIndirectY(b1)
    } else if b0 == 0x54 {
        Inst::NOPZeroPageX3(b1)
    } else if b0 == 0x55 {
        Inst::EorZeroPageX(b1)
    } else if b0 == 0x56 {
        Inst::LsrZeroPageX(b1)
    } else if b0 == 0x57 {
        Inst::SREZeroPageX(b1)
    } else if b0 == 0x58 {
        Inst::Cli
    } else if b0 == 0x59 {
        Inst::EorAbsoluteY(UnalignedU16 { lo: b1, hi: b2 })
    } else if b0 == 0x5A {
        Inst::NOP10
    } else if b0 == 0x5B {
        Inst::SREAbsoluteY(UnalignedU16 { lo: b1, hi: b2 })
    } else if b0 == 0x5C {
        Inst::NOPAbsoluteX3(UnalignedU16 { lo: b1, hi: b2 })
    } else if b0 == 0x5D {
        Inst::EorAbsoluteX(UnalignedU16 { lo: b1, hi: b2 })
    } else if b0 == 0x5E {
        Inst::LsrAbsoluteX(UnalignedU16 { lo: b1, hi: b2 })
    } else if b0 == 0x5F {
        Inst::SREAbsoluteX(UnalignedU16 { lo: b1, hi: b2 })
    } else if b0 == 0x60 {
        Inst::Rts
    } else if b0 == 0x61 {
        Inst::AdcIndirectX(b1)
    } else if b0 == 0x62 {
        Inst::NOP11
    } else if b0 == 0x63 {
        Inst::RRAIndirectX(b1)
    } else if b0 == 0x64 {
        Inst::NOPZeroPage4(b1)
    } else if b0 == 0x65 {
        Inst::AdcZeroPage(b1)
    } else if b0 == 0x66 {
        Inst::RorZeroPage(b1)
    } else if b0 == 0x67 {
        Inst::RRAZeroPage(b1)
    } else if b0 == 0x68 {
        Inst::Pla
    } else if b0 == 0x69 {
        Inst::AdcImmediate(b1)
    } else if b0 == 0x6A {
        Inst::RorAccumulator
    } else if b0 == 0x6B {
        Inst::ArrImmediate(b1)
    } else if b0 == 0x6C {
        Inst::JmpIndirect(UnalignedU16 { lo: b1, hi: b2 })
    } else if b0 == 0x6D {
        Inst::AdcAbsolute(UnalignedU16 { lo: b1, hi: b2 })
    } else if b0 == 0x6E {
        Inst::RorAbsolute(UnalignedU16 { lo: b1, hi: b2 })
    } else if b0 == 0x6F {
        Inst::RRAAbsolute(UnalignedU16 { lo: b1, hi: b2 })
    } else if b0 == 0x70 {
        Inst::Bvs(b1 as i8)
    } else if b0 == 0x71 {
        Inst::AdcIndirectY(b1)
    } else if b0 == 0x72 {
        Inst::NOP12
    } else if b0 == 0x73 {
        Inst::RRAIndirectY(b1)
    } else if b0 == 0x74 {
        Inst::NOPZeroPageX4(b1)
    } else if b0 == 0x75 {
        Inst::AdcZeroPageX(b1)
    } else if b0 == 0x76 {
        Inst::RorZeroPageX(b1)
    } else if b0 == 0x77 {
        Inst::RRAZeroPageX(b1)
    } else if b0 == 0x78 {
        Inst::Sei
    } else if b0 == 0x79 {
        Inst::AdcAbsoluteY(UnalignedU16 { lo: b1, hi: b2 })
    } else if b0 == 0x7A {
        Inst::NOP13
    } else if b0 == 0x7B {
        Inst::RRAAbsoluteY(UnalignedU16 { lo: b1, hi: b2 })
    } else if b0 == 0x7C {
        Inst::NOPAbsoluteX4(UnalignedU16 { lo: b1, hi: b2 })
    } else if b0 == 0x7D {
        Inst::AdcAbsoluteX(UnalignedU16 { lo: b1, hi: b2 })
    } else if b0 == 0x7E {
        Inst::RorAbsoluteX(UnalignedU16 { lo: b1, hi: b2 })
    } else if b0 == 0x7F {
        Inst::RRAAbsoluteX(UnalignedU16 { lo: b1, hi: b2 })
    } else if b0 == 0x80 {
        Inst::NOPImmediate(b1)
    } else if b0 == 0x81 {
        Inst::StaIndirectX(b1)
    } else if b0 == 0x82 {
        Inst::NOP14
    } else if b0 == 0x83 {
        Inst::SAXIndirectX(b1)
    } else if b0 == 0x84 {
        Inst::StyZeroPage(b1)
    } else if b0 == 0x85 {
        Inst::StaZeroPage(b1)
    } else if b0 == 0x86 {
        Inst::StxZeroPage(b1)
    } else if b0 == 0x87 {
        Inst::SAXZeroPage(b1)
    } else if b0 == 0x88 {
        Inst::Dey
    } else if b0 == 0x89 {
        Inst::NOPImmediate2(b1)
    } else if b0 == 0x8A {
        Inst::Txa
    } else if b0 == 0x8B {
        Inst::XAAImmediate(b1)
    } else if b0 == 0x8C {
        Inst::StyAbsolute(UnalignedU16 { lo: b1, hi: b2 })
    } else if b0 == 0x8D {
        Inst::StaAbsolute(UnalignedU16 { lo: b1, hi: b2 })
    } else if b0 == 0x8E {
        Inst::StxAbsolute(UnalignedU16 { lo: b1, hi: b2 })
    } else if b0 == 0x8F {
        Inst::SAXAbsolute(UnalignedU16 { lo: b1, hi: b2 })
    } else if b0 == 0x90 {
        Inst::Bcc(b1 as i8)
    } else if b0 == 0x91 {
        Inst::StaIndirectY(b1)
    } else if b0 == 0x92 {
        Inst::NOP15
    } else if b0 == 0x93 {
        Inst::AhxIndirectY(b1)
    } else if b0 == 0x94 {
        Inst::StyZeroPageX(b1)
    } else if b0 == 0x95 {
        Inst::StaZeroPageX(b1)
    } else if b0 == 0x96 {
        Inst::StxZeroPageY(b1)
    } else if b0 == 0x97 {
        Inst::SAXZeroPageY(b1)
    } else if b0 == 0x98 {
        Inst::Tya
    } else if b0 == 0x99 {
        Inst::StaAbsoluteY(UnalignedU16 { lo: b1, hi: b2 })
    } else if b0 == 0x9A {
        Inst::Txs
    } else if b0 == 0x9B {
        Inst::TASAbsoluteY(UnalignedU16 { lo: b1, hi: b2 })
    } else if b0 == 0x9C {
        Inst::SHYAbsoluteX(UnalignedU16 { lo: b1, hi: b2 })
    } else if b0 == 0x9D {
        Inst::StaAbsoluteX(UnalignedU16 { lo: b1, hi: b2 })
    } else if b0 == 0x9E {
        Inst::SHXAbsoluteY(UnalignedU16 { lo: b1, hi: b2 })
    } else if b0 == 0x9F {
        Inst::AhxAbsoluteY(UnalignedU16 { lo: b1, hi: b2 })
    } else if b0 == 0xA0 {
        Inst::LdyImmediate(b1)
    } else if b0 == 0xA1 {
        Inst::LdaIndirectX(b1)
    } else if b0 == 0xA2 {
        Inst::LdxImmediate(b1)
    } else if b0 == 0xA3 {
        Inst::LAXIndirectX(b1)
    } else if b0 == 0xA4 {
        Inst::LdyZeroPage(b1)
    } else if b0 == 0xA5 {
        Inst::LdaZeroPage(b1)
    } else if b0 == 0xA6 {
        Inst::LdxZeroPage(b1)
    } else if b0 == 0xA7 {
        Inst::LAXZeroPage(b1)
    } else if b0 == 0xA8 {
        Inst::Tay
    } else if b0 == 0xA9 {
        Inst::LdaImmediate(b1)
    } else if b0 == 0xAA {
        Inst::Tax
    } else if b0 == 0xAB {
        Inst::LAXImmediate(b1)
    } else if b0 == 0xAC {
        Inst::LdyAbsolute(UnalignedU16 { lo: b1, hi: b2 })
    } else if b0 == 0xAD {
        Inst::LdaAbsolute(UnalignedU16 { lo: b1, hi: b2 })
    } else if b0 == 0xAE {
        Inst::LdxAbsolute(UnalignedU16 { lo: b1, hi: b2 })
    } else if b0 == 0xAF {
        Inst::LAXAbsolute(UnalignedU16 { lo: b1, hi: b2 })
    } else if b0 == 0xB0 {
        Inst::Bcs(b1 as i8)
    } else if b0 == 0xB1 {
        Inst::LdaIndirectY(b1)
    } else if b0 == 0xB2 {
        Inst::NOP16
    } else if b0 == 0xB3 {
        Inst::LAXIndirectY(b1)
    } else if b0 == 0xB4 {
        Inst::LdyZeroPageX(b1)
    } else if b0 == 0xB5 {
        Inst::LdaZeroPageX(b1)
    } else if b0 == 0xB6 {
        Inst::LdxZeroPageY(b1)
    } else if b0 == 0xB7 {
        Inst::LAXZeroPageY(b1)
    } else if b0 == 0xB8 {
        Inst::Clv
    } else if b0 == 0xB9 {
        Inst::LdaAbsoluteY(UnalignedU16 { lo: b1, hi: b2 })
    } else if b0 == 0xBA {
        Inst::Tsx
    } else if b0 == 0xBB {
        Inst::LASAbsoluteY(UnalignedU16 { lo: b1, hi: b2 })
    } else if b0 == 0xBC {
        Inst::LdyAbsoluteX(UnalignedU16 { lo: b1, hi: b2 })
    } else if b0 == 0xBD {
        Inst::LdaAbsoluteX(UnalignedU16 { lo: b1, hi: b2 })
    } else if b0 == 0xBE {
        Inst::LdxAbsoluteY(UnalignedU16 { lo: b1, hi: b2 })
    } else if b0 == 0xBF {
        Inst::LAXAbsoluteY(UnalignedU16 { lo: b1, hi: b2 })
    } else if b0 == 0xC0 {
        Inst::CpyImmediate(b1)
    } else if b0 == 0xC1 {
        Inst::CmpIndirectX(b1)
    } else if b0 == 0xC2 {
        Inst::NOP17
    } else if b0 == 0xC3 {
        Inst::DCPIndirectX(b1)
    } else if b0 == 0xC4 {
        Inst::CpyZeroPage(b1)
    } else if b0 == 0xC5 {
        Inst::CmpZeroPage(b1)
    } else if b0 == 0xC6 {
        Inst::DecZeroPage(b1)
    } else if b0 == 0xC7 {
        Inst::DCPZeroPage(b1)
    } else if b0 == 0xC8 {
        Inst::Iny
    } else if b0 == 0xC9 {
        Inst::CmpImmediate(b1)
    } else if b0 == 0xCA {
        Inst::Dex
    } else if b0 == 0xCB {
        Inst::AxsImmediate(b1)
    } else if b0 == 0xCC {
        Inst::CpyAbsolute(UnalignedU16 { lo: b1, hi: b2 })
    } else if b0 == 0xCD {
        Inst::CmpAbsolute(UnalignedU16 { lo: b1, hi: b2 })
    } else if b0 == 0xCE {
        Inst::DecAbsolute(UnalignedU16 { lo: b1, hi: b2 })
    } else if b0 == 0xCF {
        Inst::DCPAbsolute(UnalignedU16 { lo: b1, hi: b2 })
    } else if b0 == 0xD0 {
        Inst::Bne(b1 as i8)
    } else if b0 == 0xD1 {
        Inst::CmpIndirectY(b1)
    } else if b0 == 0xD2 {
        Inst::NOP18
    } else if b0 == 0xD3 {
        Inst::DCPIndirectY(b1)
    } else if b0 == 0xD4 {
        Inst::NOPZeroPageX5(b1)
    } else if b0 == 0xD5 {
        Inst::CmpZeroPageX(b1)
    } else if b0 == 0xD6 {
        Inst::DecZeroPageX(b1)
    } else if b0 == 0xD7 {
        Inst::DCPZeroPageX(b1)
    } else if b0 == 0xD8 {
        Inst::Cld
    } else if b0 == 0xD9 {
        Inst::CmpAbsoluteY(UnalignedU16 { lo: b1, hi: b2 })
    } else if b0 == 0xDA {
        Inst::NOP19
    } else if b0 == 0xDB {
        Inst::DCPAbsoluteY(UnalignedU16 { lo: b1, hi: b2 })
    } else if b0 == 0xDC {
        Inst::NOPAbsoluteX5(UnalignedU16 { lo: b1, hi: b2 })
    } else if b0 == 0xDD {
        Inst::CmpAbsoluteX(UnalignedU16 { lo: b1, hi: b2 })
    } else if b0 == 0xDE {
        Inst::DecAbsoluteX(UnalignedU16 { lo: b1, hi: b2 })
    } else if b0 == 0xDF {
        Inst::DCPAbsoluteX(UnalignedU16 { lo: b1, hi: b2 })
    } else if b0 == 0xE0 {
        Inst::CpxImmediate(b1)
    } else if b0 == 0xE1 {
        Inst::SbcIndirectX(b1)
    } else if b0 == 0xE2 {
        Inst::NOP20
    } else if b0 == 0xE3 {
        Inst::ISCIndirectX(b1)
    } else if b0 == 0xE4 {
        Inst::CpxZeroPage(b1)
    } else if b0 == 0xE5 {
        Inst::SbcZeroPage(b1)
    } else if b0 == 0xE6 {
        Inst::IncZeroPage(b1)
    } else if b0 == 0xE7 {
        Inst::ISCZeroPage(b1)
    } else if b0 == 0xE8 {
        Inst::Inx
    } else if b0 == 0xE9 {
        Inst::SbcImmediate(b1)
    } else if b0 == 0xEA {
        Inst::NOPImmediate3(b1)
    } else if b0 == 0xEB {
        Inst::SbcImmediate2(b1)
    } else if b0 == 0xEC {
        Inst::CpxAbsolute(UnalignedU16 { lo: b1, hi: b2 })
    } else if b0 == 0xED {
        Inst::SbcAbsolute(UnalignedU16 { lo: b1, hi: b2 })
    } else if b0 == 0xEE {
        Inst::IncAbsolute(UnalignedU16 { lo: b1, hi: b2 })
    } else if b0 == 0xEF {
        Inst::ISCAbsolute(UnalignedU16 { lo: b1, hi: b2 })
    } else if b0 == 0xF0 {
        Inst::Beq(b1 as i8)
    } else if b0 == 0xF1 {
        Inst::SbcIndirectY(b1)
    } else if b0 == 0xF2 {
        Inst::NOP21
    } else if b0 == 0xF3 {
        Inst::ISCIndirectY(b1)
    } else if b0 == 0xF4 {
        Inst::NOPZeroPageX6(b1)
    } else if b0 == 0xF5 {
        Inst::SbcZeroPageX(b1)
    } else if b0 == 0xF6 {
        Inst::IncZeroPageX(b1)
    } else if b0 == 0xF7 {
        Inst::ISCZeroPageX(b1)
    } else if b0 == 0xF8 {
        Inst::Sed
    } else if b0 == 0xF9 {
        Inst::SbcAbsoluteY(UnalignedU16 { lo: b1, hi: b2 })
    } else if b0 == 0xFA {
        Inst::NOP22
    } else if b0 == 0xFB {
        Inst::ISCAbsoluteY(UnalignedU16 { lo: b1, hi: b2 })
    } else if b0 == 0xFC {
        Inst::NOPAbsoluteX6(UnalignedU16 { lo: b1, hi: b2 })
    } else if b0 == 0xFD {
        Inst::SbcAbsoluteX(UnalignedU16 { lo: b1, hi: b2 })
    } else if b0 == 0xFE {
        Inst::IncAbsoluteX(UnalignedU16 { lo: b1, hi: b2 })
    } else {
        Inst::ISCAbsoluteX(UnalignedU16 { lo: b1, hi: b2 })
    }
}

/// Decode a three-byte window whose first byte is the opcode. The decoder
/// is total: every one of the 256 opcode bytes yields an instruction, and
/// the instruction's encoding agrees with the bytes it was decoded from
/// over its whole reported length.
#[verifier::rlimit(100)]
pub fn parse_instruction(code: [u8; 3]) -> (r: Inst)
    ensures
        r == decode_spec(code[0], code[1], code[2]),
        opcode_of(r) == code[0],
        spec_len(r) == 2 ==> operand_bytes(operand_of(r)) =~= seq![code[1]],
        spec_len(r) == 3 ==> operand_bytes(operand_of(r)) =~= seq![code[1], code[2]],
{
    proof {
        lemma_u16_of_bytes();
        assert(forall|b: u8| ((#[trigger] (b as i8)) as u8) == b) by (bit_vector);
    }
    match code[0] {
        0x00 => Inst::Brk,
        0x01 => Inst::OraIndirectX(code[1]),
        0x02 => Inst::Nop2,
        0x03 => Inst::SLOIndirectX(code[1]),
        0x04 => Inst::NOPZeroPage(code[1]),
        0x05 => Inst::OraZeroPage(code[1]),
        0x06 => Inst::AslZeroPage(code[1]),
        0x07 => Inst::SLOZeroPage(code[1]),
        0x08 => Inst::Php,
        0x09 => Inst::OraImmediate(code[1]),
        0x0A => Inst::AslAccumulator,
        0x0B => Inst::AncImmediate(code[1]),
        0x0C => Inst::NOPAbsolute(UnalignedU16 { lo: code[1], hi: code[2] }),
        0x0D => Inst::OraAbsolute(UnalignedU16 { lo: code[1], hi: code[2] }),
        0x0E => Inst::AslAbsolute(UnalignedU16 { lo: code[1], hi: code[2] }),
        0x0F => Inst::SLOAbsolute(UnalignedU16 { lo: code[1], hi: code[2] }),
        0x10 => Inst::Bpl(code[1] as i8),
        0x11 => Inst::OraIndirectY(code[1]),
        0x12 => Inst::NOP3,
        0x13 => Inst::SLOIndirectY(code[1]),
        0x14 => Inst::NOPZeroPageX(code[1]),
        0x15 => Inst::OraZeroPageX(code[1]),
        0x16 => Inst::AslZeroPageX(code[1]),
        0x17 => Inst::SLOZeroPageX(code[1]),
        0x18 => Inst::Clc,
        0x19 => Inst::OraAbsoluteY(UnalignedU16 { lo: code[1], hi: code[2] }),
        0x1A => Inst::NOP4,
        0x1B => Inst::SLOAbsoluteY(UnalignedU16 { lo: code[1], hi: code[2] }),
        0x1C => Inst::NOPAbsoluteX(UnalignedU16 { lo: code[1], hi: code[2] }),
        0x1D => Inst::OraAbsoluteX(UnalignedU16 { lo: code[1], hi: code[2] }),
        0x1E => Inst::AslAbsoluteX(UnalignedU16 { lo: code[1], hi: code[2] }),
        0x1F => Inst::SLOAbsoluteX(UnalignedU16 { lo: code[1], hi: code[2] }),
        0x20 => Inst::Jsr(UnalignedU16 { lo: code[1], hi: code[2] }),
        0x21 => Inst::AndIndirectX(code[1]),
        0x22 => Inst::NOP5,
        0x23 => Inst::RLAIndirectX(code[1]),
        0x24 => Inst::BitZeroPage(code[1]),
        0x25 => Inst::AndZeroPage(code[1]),
        0x26 => Inst::RolZeroPage(code[1]),
        0x27 => Inst::RLAZeroPage(code[1]),
        0x28 => Inst::Plp,
        0x29 => Inst::AndImmediate(code[1]),
        0x2A => Inst::RolAccumulator,
        0x2B => Inst::AncImmediate2(code[1]),
        0x2C => Inst::BitAbsolute(UnalignedU16 { lo: code[1], hi: code[2] }),
        0x2D => Inst::AndAbsolute(UnalignedU16 { lo: code[1], hi: code[2] }),
        0x2E => Inst::RolAbsolute(UnalignedU16 { lo: code[1], hi: code[2] }),
        0x2F => Inst::RLAAbsolute(UnalignedU16 { lo: code[1], hi: code[2] }),
        0x30 => Inst::Bmi(code[1] as i8),
        0x31 => Inst::AndIndirectY(code[1]),
        0x32 => Inst::NOP6,
        0x33 => Inst::RLAIndirectY(code[1]),
        0x34 => Inst::NOPZeroPageX2(code[1]),
        0x35 => Inst::AndZeroPageX(code[1]),
        0x36 => Inst::RolZeroPageX(code[1]),
        0x37 => Inst::RLAZeroPageX(code[1]),
        0x38 => Inst::Sec,
        0x39 => Inst::AndAbsoluteY(UnalignedU16 { lo: code[1], hi: code[2] }),
        0x3A => Inst::NOP7,
        0x3B => Inst::RLAAbsoluteY(UnalignedU16 { lo: code[1], hi: code[2] }),
        0x3C => Inst::NOPAbsoluteX2(UnalignedU16 { lo: code[1], hi: code[2] }),
        0x3D => Inst::AndAbsoluteX(UnalignedU16 { lo: code[1], hi: code[2] }),
        0x3E => Inst::RolAbsoluteX(UnalignedU16 { lo: code[1], hi: code[2] }),
        0x3F => Inst::RLAAbsoluteX(UnalignedU16 { lo: code[1], hi: code[2] }),
        0x40 => Inst::Rti,
        0x41 => Inst::EorIndirectX(code[1]),
        0x42 => Inst::NOP8,
        0x43 => Inst::SREIndirectX(code[1]),
        0x44 => Inst::NOPZeroPage3(code[1]),
        0x45 => Inst::EorZeroPage(code[1]),
        0x46 => Inst::LsrZeroPage(code[1]),
        0x47 => Inst::SREZeroPage(code[1]),
        0x48 => Inst::Pha,
        0x49 => Inst::EorImmediate(code[1]),
        0x4A => Inst::LsrAccumulator,
        0x4B => Inst::AlrImmediate(code[1]),
        0x4C => Inst::JmpAbsolute(UnalignedU16 { lo: code[1], hi: code[2] }),
        0x4D => Inst::EorAbsolute(UnalignedU16 { lo: code[1], hi: code[2] }),
        0x4E => Inst::LsrAbsolute(UnalignedU16 { lo: code[1], hi: code[2] }),
        0x4F => Inst::SREAbsolute(UnalignedU16 { lo: code[1], hi: code[2] }),
        0x50 => Inst::Bvc(code[1] as i8),
        0x51 => Inst::EorIndirectY(code[1]),
        0x52 => Inst::NOP9,
        0x53 => Inst::SREIndirectY(code[1]),
        0x54 => Inst::NOPZeroPageX3(code[1]),
        0x55 => Inst::EorZeroPageX(code[1]),
        0x56 => Inst::LsrZeroPageX(code[1]),
        0x57 => Inst::SREZeroPageX(code[1]),
        0x58 => Inst::Cli,
        0x59 => Inst::EorAbsoluteY(UnalignedU16 { lo: code[1], hi: code[2] }),
        0x5A => Inst::NOP10,
        0x5B => Inst::SREAbsoluteY(UnalignedU16 { lo: code[1], hi: code[2] }),
        0x5C => Inst::NOPAbsoluteX3(UnalignedU16 { lo: code[1], hi: code[2] }),
        0x5D => Inst::EorAbsoluteX(UnalignedU16 { lo: code[1], hi: code[2] }),
        0x5E => Inst::LsrAbsoluteX(UnalignedU16 { lo: code[1], hi: code[2] }),
        0x5F => Inst::SREAbsoluteX(UnalignedU16 { lo: code[1], hi: code[2] }),
        0x60 => Inst::Rts,
        0x61 => Inst::AdcIndirectX(code[1]),
        0x62 => Inst::NOP11,
        0x63 => Inst::RRAIndirectX(code[1]),
        0x64 => Inst::NOPZeroPage4(code[1]),
        0x65 => Inst::AdcZeroPage(code[1]),
        0x66 => Inst::RorZeroPage(code[1]),
        0x67 => Inst::RRAZeroPage(code[1]),
        0x68 => Inst::Pla,
        0x69 => Inst::AdcImmediate(code[1]),
        0x6A => Inst::RorAccumulator,
        0x6B => Inst::ArrImmediate(code[1]),
        0x6C => Inst::JmpIndirect(UnalignedU16 { lo: code[1], hi: code[2] }),
        0x6D => Inst::AdcAbsolute(UnalignedU16 { lo: code[1], hi: code[2] }),
        0x6E => Inst::RorAbsolute(UnalignedU16 { lo: code[1], hi: code[2] }),
        0x6F => Inst::RRAAbsolute(UnalignedU16 { lo: code[1], hi: code[2] }),
        0x70 => Inst::Bvs(code[1] as i8),
        0x71 => Inst::AdcIndirectY(code[1]),
        0x72 => Inst::NOP12,
        0x73 => Inst::RRAIndirectY(code[1]),
        0x74 => Inst::NOPZeroPageX4(code[1]),
        0x75 => Inst::AdcZeroPageX(code[1]),
        0x76 => Inst::RorZeroPageX(code[1]),
        0x77 => Inst::RRAZeroPageX(code[1]),
        0x78 => Inst::Sei,
        0x79 => Inst::AdcAbsoluteY(UnalignedU16 { lo: code[1], hi: code[2] }),
        0x7A => Inst::NOP13,
        0x7B => Inst::RRAAbsoluteY(UnalignedU16 { lo: code[1], hi: code[2] }),
        0x7C => Inst::NOPAbsoluteX4(UnalignedU16 { lo: code[1], hi: code[2] }),
        0x7D => Inst::AdcAbsoluteX(UnalignedU16 { lo: code[1], hi: code[2] }),
        0x7E => Inst::RorAbsoluteX(UnalignedU16 { lo: code[1], hi: code[2] }),
        0x7F => Inst::RRAAbsoluteX(UnalignedU16 { lo: code[1], hi: code[2] }),
        0x80 => Inst::NOPImmediate(code[1]),
        0x81 => Inst::StaIndirectX(code[1]),
        0x82 => Inst::NOP14,
        0x83 => Inst::SAXIndirectX(code[1]),
        0x84 => Inst::StyZeroPage(code[1]),
        0x85 => Inst::StaZeroPage(code[1]),
        0x86 => Inst::StxZeroPage(code[1]),
        0x87 => Inst::SAXZeroPage(code[1]),
        0x88 => Inst::Dey,
        0x89 => Inst::NOPImmediate2(code[1]),
        0x8A => Inst::Txa,
        0x8B => Inst::XAAImmediate(code[1]),
        0x8C => Inst::StyAbsolute(UnalignedU16 { lo: code[1], hi: code[2] }),
        0x8D => Inst::StaAbsolute(UnalignedU16 { lo: code[1], hi: code[2] }),
        0x8E => Inst::StxAbsolute(UnalignedU16 { lo: code[1], hi: code[2] }),
        0x8F => Inst::SAXAbsolute(UnalignedU16 { lo: code[1], hi: code[2] }),
        0x90 => Inst::Bcc(code[1] as i8),
        0x91 => Inst::StaIndirectY(code[1]),
        0x92 => Inst::NOP15,
        0x93 => Inst::AhxIndirectY(code[1]),
        0x94 => Inst::StyZeroPageX(code[1]),
        0x95 => Inst::StaZeroPageX(code[1]),
        0x96 => Inst::StxZeroPageY(code[1]),
        0x97 => Inst::SAXZeroPageY(code[1]),
        0x98 => Inst::Tya,
        0x99 => Inst::StaAbsoluteY(UnalignedU16 { lo: code[1], hi: code[2] }),
        0x9A => Inst::Txs,
        0x9B => Inst::TASAbsoluteY(UnalignedU16 { lo: code[1], hi: code[2] }),
        0x9C => Inst::SHYAbsoluteX(UnalignedU16 { lo: code[1], hi: code[2] }),
        0x9D => Inst::StaAbsoluteX(UnalignedU16 { lo: code[1], hi: code[2] }),
        0x9E => Inst::SHXAbsoluteY(UnalignedU16 { lo: code[1], hi: code[2] }),
        0x9F => Inst::AhxAbsoluteY(UnalignedU16 { lo: code[1], hi: code[2] }),
        0xA0 => Inst::LdyImmediate(code[1]),
        0xA1 => Inst::LdaIndirectX(code[1]),
        0xA2 => Inst::LdxImmediate(code[1]),
        0xA3 => Inst::LAXIndirectX(code[1]),
        0xA4 => Inst::LdyZeroPage(code[1]),
        0xA5 => Inst::LdaZeroPage(code[1]),
        0xA6 => Inst::LdxZeroPage(code[1]),
        0xA7 => Inst::LAXZeroPage(code[1]),
        0xA8 => Inst::Tay,
        0xA9 => Inst::LdaImmediate(code[1]),
        0xAA => Inst::Tax,
        0xAB => Inst::LAXImmediate(code[1]),
        0xAC => Inst::LdyAbsolute(UnalignedU16 { lo: code[1], hi: code[2] }),
        0xAD => Inst::LdaAbsolute(UnalignedU16 { lo: code[1], hi: code[2] }),
        0xAE => Inst::LdxAbsolute(UnalignedU16 { lo: code[1], hi: code[2] }),
        0xAF => Inst::LAXAbsolute(UnalignedU16 { lo: code[1], hi: code[2] }),
        0xB0 => Inst::Bcs(code[1] as i8),
        0xB1 => Inst::LdaIndirectY(code[1]),
        0xB2 => Inst::NOP16,
        0xB3 => Inst::LAXIndirectY(code[1]),
        0xB4 => Inst::LdyZeroPageX(code[1]),
        0xB5 => Inst::LdaZeroPageX(code[1]),
        0xB6 => Inst::LdxZeroPageY(code[1]),
        0xB7 => Inst::LAXZeroPageY(code[1]),
        0xB8 => Inst::Clv,
        0xB9 => Inst::LdaAbsoluteY(UnalignedU16 { lo: code[1], hi: code[2] }),
        0xBA => Inst::Tsx,
        0xBB => Inst::LASAbsoluteY(UnalignedU16 { lo: code[1], hi: code[2] }),
        0xBC => Inst::LdyAbsoluteX(UnalignedU16 { lo: code[1], hi: code[2] }),
        0xBD => Inst::LdaAbsoluteX(UnalignedU16 { lo: code[1], hi: code[2] }),
        0xBE => Inst::LdxAbsoluteY(UnalignedU16 { lo: code[1], hi: code[2] }),
        0xBF => Inst::LAXAbsoluteY(UnalignedU16 { lo: code[1], hi: code[2] }),
        0xC0 => Inst::CpyImmediate(code[1]),
        0xC1 => Inst::CmpIndirectX(code[1]),
        0xC2 => Inst::NOP17,
        0xC3 => Inst::DCPIndirectX(code[1]),
        0xC4 => Inst::CpyZeroPage(code[1]),
        0xC5 => Inst::CmpZeroPage(code[1]),
        0xC6 => Inst::DecZeroPage(code[1]),
        0xC7 => Inst::DCPZeroPage(code[1]),
        0xC8 => Inst::Iny,
        0xC9 => Inst::CmpImmediate(code[1]),
        0xCA => Inst::Dex,
        0xCB => Inst::AxsImmediate(code[1]),
        0xCC => Inst::CpyAbsolute(UnalignedU16 { lo: code[1], hi: code[2] }),
        0xCD => Inst::CmpAbsolute(UnalignedU16 { lo: code[1], hi: code[2] }),
        0xCE => Inst::DecAbsolute(UnalignedU16 { lo: code[1], hi: code[2] }),
        0xCF => Inst::DCPAbsolute(UnalignedU16 { lo: code[1], hi: code[2] }),
        0xD0 => Inst::Bne(code[1] as i8),
        0xD1 => Inst::CmpIndirectY(code[1]),
        0xD2 => Inst::NOP18,
        0xD3 => Inst::DCPIndirectY(code[1]),
        0xD4 => Inst::NOPZeroPageX5(code[1]),
        0xD5 => Inst::CmpZeroPageX(code[1]),
        0xD6 => Inst::DecZeroPageX(code[1]),
        0xD7 => Inst::DCPZeroPageX(code[1]),
        0xD8 => Inst::Cld,
        0xD9 => Inst::CmpAbsoluteY(UnalignedU16 { lo: code[1], hi: code[2] }),
        0xDA => Inst::NOP19,
        0xDB => Inst::DCPAbsoluteY(UnalignedU16 { lo: code[1], hi: code[2] }),
        0xDC => Inst::NOPAbsoluteX5(UnalignedU16 { lo: code[1], hi: code[2] }),
        0xDD => Inst::CmpAbsoluteX(UnalignedU16 { lo: code[1], hi: code[2] }),
        0xDE => Inst::DecAbsoluteX(UnalignedU16 { lo: code[1], hi: code[2] }),
        0xDF => Inst::DCPAbsoluteX(UnalignedU16 { lo: code[1], hi: code[2] }),
        0xE0 => Inst::CpxImmediate(code[1]),
        0xE1 => Inst::SbcIndirectX(code[1]),
        0xE2 => Inst::NOP20,
        0xE3 => Inst::ISCIndirectX(code[1]),
        0xE4 => Inst::CpxZeroPage(code[1]),
        0xE5 => Inst::SbcZeroPage(code[1]),
        0xE6 => Inst::IncZeroPage(code[1]),
        0xE7 => Inst::ISCZeroPage(code[1]),
        0xE8 => Inst::Inx,
        0xE9 => Inst::SbcImmediate(code[1]),
        0xEA => Inst::NOPImmediate3(code[1]),
        0xEB => Inst::SbcImmediate2(code[1]),
        0xEC => Inst::CpxAbsolute(UnalignedU16 { lo: code[1], hi: code[2] }),
        0xED => Inst::SbcAbsolute(UnalignedU16 { lo: code[1], hi: code[2] }),
        0xEE => Inst::IncAbsolute(UnalignedU16 { lo: code[1], hi: code[2] }),
        0xEF => Inst::ISCAbsolute(UnalignedU16 { lo: code[1], hi: code[2] }),
        0xF0 => Inst::Beq(code[1] as i8),
        0xF1 => Inst::SbcIndirectY(code[1]),
        0xF2 => Inst::NOP21,
        0xF3 => Inst::ISCIndirectY(code[1]),
        0xF4 => Inst::NOPZeroPageX6(code[1]),
        0xF5 => Inst::SbcZeroPageX(code[1]),
        0xF6 => Inst::IncZeroPageX(code[1]),
        0xF7 => Inst::ISCZeroPageX(code[1]),
        0xF8 => Inst::Sed,
        0xF9 => Inst::SbcAbsoluteY(UnalignedU16 { lo: code[1], hi: code[2] }),
        0xFA => Inst::NOP22,
        0xFB => Inst::ISCAbsoluteY(UnalignedU16 { lo: code[1], hi: code[2] }),
        0xFC => Inst::NOPAbsoluteX6(UnalignedU16 { lo: code[1], hi: code[2] }),
        0xFD => Inst::SbcAbsoluteX(UnalignedU16 { lo: code[1], hi: code[2] }),
        0xFE => Inst::IncAbsoluteX(UnalignedU16 { lo: code[1], hi: code[2] }),
        0xFF => Inst::ISCAbsoluteX(UnalignedU16 { lo: code[1], hi: code[2] }),
    }
}

/// The reported length of an instruction equals the size of its byte
/// encoding: skipping `len` bytes from one instruction reaches the next.
pub proof fn lemma_len_agreement(i: Inst)
    ensures
        encode_spec(i).len() == spec_len(i),
{
    match operand_of(i) {
        Operand::Implied | Operand::Accumulator => {
            assert(operand_bytes(operand_of(i)).len() == 0);
        }
        Operand::Imm(_) | Operand::Zp(_) | Operand::ZpX(_) | Operand::ZpY(_)
            | Operand::IndX(_) | Operand::IndY(_) | Operand::Rel(_) => {
            assert(operand_bytes(operand_of(i)).len() == 1);
        }
        Operand::Abs(_) | Operand::AbsX(_) | Operand::AbsY(_) | Operand::Ind(_) => {
            assert(operand_bytes(operand_of(i)).len() == 2);
        }
    }
}

} // verus!
