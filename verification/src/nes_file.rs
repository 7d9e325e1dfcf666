//! Cartridge mappers: ownership of the cartridge ROM/RAM banks and the
//! bank-select registers, and the translation of CPU-visible addresses into
//! concrete bytes under the current banking state.

use vstd::prelude::*;

use crate::buf::{copy_range, zero_vec};

verus! {

/// Why a cartridge image was rejected at load time.
#[derive(Copy, Clone, Debug, PartialEq, Eq, Structural)]
pub enum NesFileError {
    /// The buffer is shorter than a header or does not begin with the
    /// four magic bytes.
    MissingHeader,
    /// The header announces a trainer section, which no in-scope mapper
    /// carries.
    TrainerPresent,
    /// The bank-switching family requires exactly sixteen 16KB program
    /// units.
    WrongPrgRomCount,
    /// The buffer ends before the announced program data does.
    TruncatedPrgRom,
    /// The header names a mapper family outside the supported set.
    UnknownMapper(u8),
}

/// The two program-ROM window assignments of the bank-switching family.
/// Only the first is modeled; the mirrored assignment is a documented but
/// unimplemented branch, and reads under it fail loudly.
#[derive(Copy, Clone, Debug, PartialEq, Eq, Structural)]
pub enum Mmc3PrgMode {
    Mode0,
    Mode1,
}

impl Default for Mmc3PrgMode {
    /// The power-on window assignment.
    fn default() -> (r: Self)
        ensures
            r == Mmc3PrgMode::Mode0,
    {
        Mmc3PrgMode::Mode0
    }
}

/// The raw bank-select register file of the bank-switching family: one
/// even/odd register pair per 8KB window of the upper address space.
#[allow(non_snake_case)]
#[derive(Copy, Clone, Debug, PartialEq, Eq, Structural)]
pub struct Mmc3Registers {
    pub h8000: u8,
    pub h8001: u8,
    pub hA000: u8,
    pub hA001: u8,
    pub hC000: u8,
    pub hC001: u8,
    pub hE000: u8,
    pub hE001: u8,
}

impl Default for Mmc3Registers {
    /// All registers clear, as at power-on.
    fn default() -> (r: Self)
        ensures
            r == (Mmc3Registers {
                h8000: 0,
                h8001: 0,
                hA000: 0,
                hA001: 0,
                hC000: 0,
                hC001: 0,
                hE000: 0,
                hE001: 0,
            }),
    {
        Mmc3Registers {
            h8000: 0,
            h8001: 0,
            hA000: 0,
            hA001: 0,
            hC000: 0,
            hC001: 0,
            hE000: 0,
            hE001: 0,
        }
    }
}

/// A cartridge and its banking rules. The bank-switching family owns
/// thirty-two 8KB program sub-banks and swaps two windows under register
/// control; the fixed families own one mirrored or one flat program ROM
/// plus battery RAM.
#[derive(Debug, Clone)]
pub enum Mapper {
    MMC3 {
        prg_banks: Vec<u8>,
        chr_2k_banks: Vec<u8>,
        chr_1k_banks: Vec<u8>,
        prg_roms: Vec<Vec<u8>>,
        prg_mode: Mmc3PrgMode,
        registers: Mmc3Registers,
    },
    MMC4,
    NROM256 { ram: Vec<u8>, rom: Vec<u8> },
    NROM128 { ram: Vec<u8>, rom: Vec<u8> },
}

/// The mathematical shape of a mapper: the same variants over sequences.
#[verifier::ext_equal]
pub enum MapperV {
    MMC3 {
        prg_banks: Seq<u8>,
        chr_2k_banks: Seq<u8>,
        chr_1k_banks: Seq<u8>,
        prg_roms: Seq<Seq<u8>>,
        prg_mode: Mmc3PrgMode,
        registers: Mmc3Registers,
    },
    MMC4,
    NROM256 { ram: Seq<u8>, rom: Seq<u8> },
    NROM128 { ram: Seq<u8>, rom: Seq<u8> },
}

impl View for Mapper {
    type V = MapperV;

    open spec fn view(&self) -> MapperV {
        match self {
            Mapper::MMC3 { prg_banks, chr_2k_banks, chr_1k_banks, prg_roms, prg_mode, registers } => MapperV::MMC3 {
                prg_banks: prg_banks@,
                chr_2k_banks: chr_2k_banks@,
                chr_1k_banks: chr_1k_banks@,
                prg_roms: prg_roms@.map_values(|b: Vec<u8>| b@),
                prg_mode: *prg_mode,
                registers: *registers,
            },
            Mapper::MMC4 => MapperV::MMC4,
            Mapper::NROM256 { ram, rom } => MapperV::NROM256 { ram: ram@, rom: rom@ },
            Mapper::NROM128 { ram, rom } => MapperV::NROM128 { ram: ram@, rom: rom@ },
        }
    }
}

/// Well-formedness of a mapper: every bank has its hardware size and the
/// committed bank indices stay inside the thirty-two sub-banks.
pub open spec fn mapper_wf(m: MapperV) -> bool {
    match m {
        MapperV::MMC3 { prg_banks, chr_2k_banks, chr_1k_banks, prg_roms, .. } => {
            &&& prg_banks.len() == 2
            &&& chr_2k_banks.len() == 2
            &&& chr_1k_banks.len() == 4
            &&& prg_roms.len() == 32
            &&& (forall|k: int| 0 <= k < 32 ==> (#[trigger] prg_roms[k]).len() == 8192)
            &&& prg_banks[0] < 32
            &&& prg_banks[1] < 32
        },
        MapperV::MMC4 => true,
        MapperV::NROM256 { ram, rom } => ram.len() == 8192 && rom.len() == 32768,
        MapperV::NROM128 { ram, rom } => ram.len() == 8192 && rom.len() == 16384,
    }
}

/// What a CPU-visible read of the cartridge returns: a pure function of
/// the address and the current banking state. `None` marks an address the
/// mapper does not serve: anything below 0x4020, the unbanked gap below
/// 0x6000 or 0x8000, and every read under an unimplemented family or
/// window assignment.
pub open spec fn mapper_read_spec(m: MapperV, adr: u16) -> Option<u8> {
    if adr < 0x4020 {
        None
    } else {
        match m {
            MapperV::MMC3 { prg_banks, prg_roms, prg_mode, .. } => {
                if prg_mode is Mode1 {
                    None
                } else if 0x8000 <= adr && adr < 0xA000 {
                    Some(prg_roms[prg_banks[0] as int][adr - 0x8000])
                } else if 0xA000 <= adr && adr < 0xC000 {
                    Some(prg_roms[prg_banks[1] as int][adr - 0xA000])
                } else if 0xC000 <= adr && adr < 0xE000 {
                    Some(prg_roms[30][adr - 0xC000])
                } else if 0xE000 <= adr {
                    Some(prg_roms[31][adr - 0xE000])
                } else {
                    None
                }
            },
            MapperV::MMC4 => None,
            MapperV::NROM128 { ram, rom } => {
                if 0x6000 <= adr && adr < 0x8000 {
                    Some(ram[adr - 0x6000])
                } else if 0x8000 <= adr {
                    Some(rom[(adr % 0x4000) as int])
                } else {
                    None
                }
            },
            MapperV::NROM256 { ram, rom } => {
                if 0x6000 <= adr && adr < 0x8000 {
                    Some(ram[adr - 0x6000])
                } else if 0x8000 <= adr {
                    Some(rom[adr - 0x8000])
                } else {
                    None
                }
            },
        }
    }
}

/// What a CPU-visible write does to the cartridge: battery RAM stores for
/// the fixed families; for the bank-switching family an even address in a
/// register window latches the bank-select target and the odd address of
/// the first window commits the selected bank index. Returns the
/// acknowledgement and the mapper afterwards; `None` leaves it unchanged.
pub open spec fn mapper_write_spec(m: MapperV, adr: u16, val: u8) -> (Option<()>, MapperV) {
    match m {
        MapperV::MMC3 { prg_banks, chr_2k_banks, chr_1k_banks, prg_roms, prg_mode, registers } => {
            if adr < 0x8000 {
                (None, m)
            } else if adr < 0xA000 {
                if adr % 2 == 0 {
                    (
                        Some(()),
                        MapperV::MMC3 {
                            prg_banks,
                            chr_2k_banks,
                            chr_1k_banks,
                            prg_roms,
                            prg_mode: if val & 0x40 == 0x40 {
                                Mmc3PrgMode::Mode1
                            } else {
                                Mmc3PrgMode::Mode0
                            },
                            registers: Mmc3Registers { h8000: val, ..registers },
                        },
                    )
                } else {
                    let sel = registers.h8000 & 7;
                    let regs = Mmc3Registers { h8001: val, ..registers };
                    if sel < 2 {
                        (
                            Some(()),
                            MapperV::MMC3 {
                                prg_banks,
                                chr_2k_banks: chr_2k_banks.update(sel as int, val),
                                chr_1k_banks,
                                prg_roms,
                                prg_mode,
                                registers: regs,
                            },
                        )
                    } else if sel < 6 {
                        (
                            Some(()),
                            MapperV::MMC3 {
                                prg_banks,
                                chr_2k_banks,
                                chr_1k_banks: chr_1k_banks.update(sel - 2, val),
                                prg_roms,
                                prg_mode,
                                registers: regs,
                            },
                        )
                    } else {
                        (
                            Some(()),
                            MapperV::MMC3 {
                                prg_banks: prg_banks.update(sel - 6, val & 0x1F),
                                chr_2k_banks,
                                chr_1k_banks,
                                prg_roms,
                                prg_mode,
                                registers: regs,
                            },
                        )
                    }
                }
            } else if adr < 0xC000 {
                let regs = if adr % 2 == 0 {
                    Mmc3Registers { hA000: val, ..registers }
                } else {
                    Mmc3Registers { hA001: val, ..registers }
                };
                (
                    Some(()),
                    MapperV::MMC3 {
                        prg_banks,
                        chr_2k_banks,
                        chr_1k_banks,
                        prg_roms,
                        prg_mode,
                        registers: regs,
                    },
                )
            } else if adr < 0xE000 {
                let regs = if adr % 2 == 0 {
                    Mmc3Registers { hC000: val, ..registers }
                } else {
                    Mmc3Registers { hC001: val, ..registers }
                };
                (
                    Some(()),
                    MapperV::MMC3 {
                        prg_banks,
                        chr_2k_banks,
                        chr_1k_banks,
                        prg_roms,
                        prg_mode,
                        registers: regs,
                    },
                )
            } else {
                let regs = if adr % 2 == 0 {
                    Mmc3Registers { hE000: val, ..registers }
                } else {
                    Mmc3Registers { hE001: val, ..registers }
                };
                (
                    Some(()),
                    MapperV::MMC3 {
                        prg_banks,
                        chr_2k_banks,
                        chr_1k_banks,
                        prg_roms,
                        prg_mode,
                        registers: regs,
                    },
                )
            }
        },
        MapperV::MMC4 => (None, m),
        MapperV::NROM128 { ram, rom } => {
            if 0x6000 <= adr && adr < 0x8000 {
                (Some(()), MapperV::NROM128 { ram: ram.update(adr - 0x6000, val), rom })
            } else {
                (None, m)
            }
        },
        MapperV::NROM256 { ram, rom } => {
            if 0x6000 <= adr && adr < 0x8000 {
                (Some(()), MapperV::NROM256 { ram: ram.update(adr - 0x6000, val), rom })
            } else {
                (None, m)
            }
        },
    }
}

impl Mapper {
    /// Well-formedness of this mapper's banks and registers.
    pub open spec fn wf(&self) -> bool {
        mapper_wf(self@)
    }

    /// Read the byte a CPU-visible address maps to under the current
    /// banking state. Returns `None` exactly where the address is not
    /// served, as `mapper_read_spec` lays out.
    pub fn get_cpu(&self, adr: u16) -> (r: Option<u8>)
        requires
            self.wf(),
        ensures
            r == mapper_read_spec(self@, adr),
    {
        if adr < 0x4020 {
            return None;
        }
        match self {
            Mapper::MMC3 { prg_banks, prg_roms, prg_mode, .. } => {
                if matches!(prg_mode, Mmc3PrgMode::Mode1) {
                    None
                } else if 0x8000 <= adr && adr < 0xA000 {
                    Some(prg_roms[prg_banks[0] as usize][(adr - 0x8000) as usize])
                } else if 0xA000 <= adr && adr < 0xC000 {
                    Some(prg_roms[prg_banks[1] as usize][(adr - 0xA000) as usize])
                } else if 0xC000 <= adr && adr < 0xE000 {
                    Some(prg_roms[30][(adr - 0xC000) as usize])
                } else if 0xE000 <= adr {
                    Some(prg_roms[31][(adr - 0xE000) as usize])
                } else {
                    None
                }
            },
            Mapper::MMC4 => None,
            Mapper::NROM128 { ram, rom } => {
                if 0x6000 <= adr && adr < 0x8000 {
                    Some(ram[(adr - 0x6000) as usize])
                } else if 0x8000 <= adr {
                    Some(rom[(adr % 0x4000) as usize])
                } else {
                    None
                }
            },
            Mapper::NROM256 { ram, rom } => {
                if 0x6000 <= adr && adr < 0x8000 {
                    Some(ram[(adr - 0x6000) as usize])
                } else if 0x8000 <= adr {
                    Some(rom[(adr - 0x8000) as usize])
                } else {
                    None
                }
            },
        }
    }

    /// Apply a CPU-visible write under the current banking state, as
    /// `mapper_write_spec` lays out. Well-formedness is preserved.
    pub fn set_cpu(&mut self, adr: u16, val: u8) -> (r: Option<()>)
        requires
            old(self).wf(),
        ensures
            r == mapper_write_spec(old(self)@, adr, val).0,
            final(self)@ == mapper_write_spec(old(self)@, adr, val).1,
            final(self).wf(),
    {
        let ghost target = mapper_write_spec(old(self)@, adr, val).1;
        match self {
            Mapper::MMC3 { prg_banks, chr_2k_banks, chr_1k_banks, prg_roms, prg_mode, registers } => {
                if adr < 0x8000 {
                    proof {
                        assert(self@ =~~= target);
                    }
                    None
                } else if adr < 0xA000 {
                    if adr % 2 == 0 {
                        registers.h8000 = val;
                        *prg_mode = if val & 0x40 == 0x40 {
                            Mmc3PrgMode::Mode1
                        } else {
                            Mmc3PrgMode::Mode0
                        };
                    } else {
                        let h = registers.h8000;
                        let sel = h & 7;
                        proof {
                            assert(h & 7 < 8) by (bit_vector);
                        }
                        registers.h8001 = val;
                        if sel < 2 {
                            chr_2k_banks.set(sel as usize, val);
                        } else if sel < 6 {
                            chr_1k_banks.set((sel - 2) as usize, val);
                        } else {
                            proof {
                                assert(val & 0x1F < 32) by (bit_vector);
                            }
                            prg_banks.set((sel - 6) as usize, val & 0x1F);
                        }
                    }
                    proof {
                        assert(self@ =~~= target);
                    }
                    Some(())
                } else if adr < 0xC000 {
                    if adr % 2 == 0 {
                        registers.hA000 = val;
                    } else {
                        registers.hA001 = val;
                    }
                    proof {
                        assert(self@ =~~= target);
                    }
                    Some(())
                } else if adr < 0xE000 {
                    if adr % 2 == 0 {
                        registers.hC000 = val;
                    } else {
                        registers.hC001 = val;
                    }
                    proof {
                        assert(self@ =~~= target);
                    }
                    Some(())
                } else {
                    if adr % 2 == 0 {
                        registers.hE000 = val;
                    } else {
                        registers.hE001 = val;
                    }
                    proof {
                        assert(self@ =~~= target);
                    }
                    Some(())
                }
            },
            Mapper::MMC4 => {
                proof {
                    assert(self@ =~~= target);
                }
                None
            },
            Mapper::NROM128 { ram, rom } => {
                if 0x6000 <= adr && adr < 0x8000 {
                    ram.set((adr - 0x6000) as usize, val);
                    proof {
                        assert(self@ =~~= target);
                    }
                    Some(())
                } else {
                    proof {
                        assert(self@ =~~= target);
                    }
                    None
                }
            },
            Mapper::NROM256 { ram, rom } => {
                if 0x6000 <= adr && adr < 0x8000 {
                    ram.set((adr - 0x6000) as usize, val);
                    proof {
                        assert(self@ =~~= target);
                    }
                    Some(())
                } else {
                    proof {
                        assert(self@ =~~= target);
                    }
                    None
                }
            },
        }
    }

    /// PPU-visible reads are not modeled by any in-scope mapper family;
    /// every request is refused.
    pub fn get_ppu(&self, _adr: u16) -> (r: Option<()>)
        ensures
            r is None,
    {
        None
    }

    /// PPU-visible writes are not modeled by any in-scope mapper family;
    /// every request is refused.
    pub fn set_ppu(&mut self, _adr: u16, _val: u8) -> (r: Option<()>)
        ensures
            r is None,
            *final(self) == *old(self),
    {
        None
    }
}

/// Whether a byte buffer begins with a full sixteen-byte header carrying
/// the cartridge-image magic tag.
pub open spec fn header_ok(b: Seq<u8>) -> bool {
    b.len() >= 16 && b[0] == 0x4E && b[1] == 0x45 && b[2] == 0x53 && b[3] == 0x1A
}

/// The mapper family number: the high nibbles of the two header flag bytes.
pub open spec fn header_mapper_number(b: Seq<u8>) -> u8 {
    (b[7] & 0xF0) | (b[6] >> 4)
}

/// The all-zero bank-select register file.
pub open spec fn registers_zero() -> Mmc3Registers {
    Mmc3Registers { h8000: 0, h8001: 0, hA000: 0, hA001: 0, hC000: 0, hC001: 0, hE000: 0, hE001: 0 }
}

/// What loading a cartridge image yields: either the mapper the header
/// announces, populated from the program data that follows the header, or
/// the reason the image is rejected. Loading succeeds if and only if the
/// header is whole, carries no trainer, names a supported family, and the
/// buffer holds the announced amount of program data.
pub open spec fn parse_ines_spec(b: Seq<u8>) -> Result<MapperV, NesFileError> {
    if !header_ok(b) {
        Err(NesFileError::MissingHeader)
    } else if b[6] & 0x04 == 0x04 {
        Err(NesFileError::TrainerPresent)
    } else {
        let n = header_mapper_number(b);
        if n == 4 || n == 118 || n == 119 {
            if b[4] != 16 {
                Err(NesFileError::WrongPrgRomCount)
            } else if b.len() < 262160 {
                Err(NesFileError::TruncatedPrgRom)
            } else {
                Ok(
                    MapperV::MMC3 {
                        prg_banks: seq![0u8, 0u8],
                        chr_2k_banks: seq![0u8, 0u8],
                        chr_1k_banks: seq![0u8, 0u8, 0u8, 0u8],
                        prg_roms: Seq::new(
                            32,
                            |k: int| b.subrange(16 + k * 8192, 16 + k * 8192 + 8192),
                        ),
                        prg_mode: Mmc3PrgMode::Mode0,
                        registers: registers_zero(),
                    },
                )
            }
        } else if n == 10 {
            Ok(MapperV::MMC4)
        } else if n == 0 && b[4] == 1 {
            if b.len() < 16400 {
                Err(NesFileError::TruncatedPrgRom)
            } else {
                Ok(
                    MapperV::NROM128 {
                        ram: Seq::new(8192, |k: int| 0u8),
                        rom: b.subrange(16, 16400),
                    },
                )
            }
        } else if n == 0 && b[4] == 2 {
            if b.len() < 32784 {
                Err(NesFileError::TruncatedPrgRom)
            } else {
                Ok(
                    MapperV::NROM256 {
                        ram: Seq::new(8192, |k: int| 0u8),
                        rom: b.subrange(16, 32784),
                    },
                )
            }
        } else {
            Err(NesFileError::UnknownMapper(n))
        }
    }
}

impl Mapper {
    /// Load a cartridge image: check the header, pick the mapper family it
    /// names, and populate the family's banks from the program data. The
    /// result is exactly what `parse_ines_spec` lays out, and a loaded
    /// mapper is well-formed.
    pub fn parse_ines(buffer: Vec<u8>) -> (r: Result<Mapper, NesFileError>)
        ensures
            match (r, parse_ines_spec(buffer@)) {
                (Ok(m), Ok(mv)) => m@ == mv && m.wf(),
                (Err(e), Err(e2)) => e == e2,
                _ => false,
            },
    {
        if buffer.len() < 16 {
            return Err(NesFileError::MissingHeader);
        }
        if !(buffer[0] == 0x4E && buffer[1] == 0x45 && buffer[2] == 0x53 && buffer[3] == 0x1A) {
            return Err(NesFileError::MissingHeader);
        }
        let prg_size = buffer[4];
        let flags_6 = buffer[6];
        let flags_7 = buffer[7];
        if flags_6 & 0x04 == 0x04 {
            return Err(NesFileError::TrainerPresent);
        }
        let mapper_type = (flags_7 & 0xF0) | (flags_6 >> 4);
        if mapper_type == 4 || mapper_type == 118 || mapper_type == 119 {
            if prg_size != 16 {
                return Err(NesFileError::WrongPrgRomCount);
            }
            if buffer.len() < 262160 {
                return Err(NesFileError::TruncatedPrgRom);
            }
            let mut prg_roms: Vec<Vec<u8>> = Vec::new();
            let mut k: usize = 0;
            while k < 32
                invariant
                    k <= 32,
                    buffer@.len() >= 262160,
                    prg_roms@.len() == k,
                    forall|i: int|
                        0 <= i < k ==> (#[trigger] prg_roms@[i])@ == buffer@.subrange(
                            16 + i * 8192,
                            16 + i * 8192 + 8192,
                        ),
                decreases 32 - k,
            {
                let bank = copy_range(&buffer, 16 + k * 8192, 8192);
                prg_roms.push(bank);
                k += 1;
            }
            let m = Mapper::MMC3 {
                prg_banks: zero_vec(2),
                chr_2k_banks: zero_vec(2),
                chr_1k_banks: zero_vec(4),
                prg_roms,
                prg_mode: Mmc3PrgMode::Mode0,
                registers: Mmc3Registers::default(),
            };
            proof {
                let mv = parse_ines_spec(buffer@)->Ok_0;
                assert(m@ =~~= mv);
            }
            Ok(m)
        } else if mapper_type == 10 {
            Ok(Mapper::MMC4)
        } else if mapper_type == 0 && prg_size == 1 {
            if buffer.len() < 16400 {
                return Err(NesFileError::TruncatedPrgRom);
            }
            let m = Mapper::NROM128 { ram: zero_vec(8192), rom: copy_range(&buffer, 16, 16384) };
            proof {
                assert(m@ =~~= parse_ines_spec(buffer@)->Ok_0);
            }
            Ok(m)
        } else if mapper_type == 0 && prg_size == 2 {
            if buffer.len() < 32784 {
                return Err(NesFileError::TruncatedPrgRom);
            }
            let m = Mapper::NROM256 { ram: zero_vec(8192), rom: copy_range(&buffer, 16, 32768) };
            proof {
                assert(m@ =~~= parse_ines_spec(buffer@)->Ok_0);
            }
            Ok(m)
        } else {
            Err(NesFileError::UnknownMapper(mapper_type))
        }
    }
}

/// Committing a new bank index through the bank-select register pair
/// redirects reads in the first swappable window to that bank and leaves
/// the two permanently fixed windows untouched.
pub proof fn lemma_bank_switch(m: MapperV, b: u8, adr: u16)
    requires
        mapper_wf(m),
        m is MMC3,
        m->MMC3_prg_mode == Mmc3PrgMode::Mode0,
    ensures
        ({
            let latched = mapper_write_spec(m, 0x8000, 0x06).1;
            let committed = mapper_write_spec(latched, 0x8001, b).1;
            &&& mapper_wf(committed)
            &&& (0x8000 <= adr && adr < 0xA000 ==> mapper_read_spec(committed, adr) == Some(
                m->MMC3_prg_roms[(b & 0x1F) as int][adr - 0x8000],
            ))
            &&& (0xC000 <= adr ==> mapper_read_spec(committed, adr) == mapper_read_spec(m, adr))
        }),
{
    assert(0x06u8 & 0x40 != 0x40) by (bit_vector);
    assert(0x06u8 & 7 == 6) by (bit_vector);
    assert(b & 0x1F < 32) by (bit_vector);
}

} // verus!
