use nes_core::cpu::P;
use nes_core::inst::{parse_instruction, Inst, UnalignedU16};
use nes_core::interpret::{Fault, State};
use nes_core::nes_file::{Mapper, NesFileError};

/// A minimal one-unit fixed-mapping cartridge image: the program sits at
/// 0xC000 and the reset vector points at it.
fn nrom_cart(program: &[u8]) -> Vec<u8> {
    let mut buf = vec![0u8; 16 + 16384];
    buf[0] = 0x4E;
    buf[1] = 0x45;
    buf[2] = 0x53;
    buf[3] = 0x1A;
    buf[4] = 1;
    // Program at CPU 0xC000 = rom offset 0, since the 16KB unit mirrors.
    for (i, b) in program.iter().enumerate() {
        buf[16 + i] = *b;
    }
    // Reset vector at 0xFFFC -> rom offset 0x3FFC.
    buf[16 + 0x3FFC] = 0x00;
    buf[16 + 0x3FFD] = 0xC0;
    buf
}

fn machine(program: &[u8]) -> State {
    let rom = Mapper::parse_ines(nrom_cart(program)).unwrap();
    State::new(rom).unwrap()
}

#[test]
fn decoder_total_over_all_opcodes() {
    for b0 in 0..=255u8 {
        let inst = parse_instruction([b0, 0x34, 0x12]);
        let len = inst.len();
        assert!((1..=3).contains(&len));
        let enc = inst.encode();
        assert_eq!(enc.len(), len as usize);
        assert_eq!(enc[0], b0);
        assert_eq!(inst.opcode(), b0);
        if len >= 2 {
            assert_eq!(enc[1], 0x34);
        }
        if len == 3 {
            assert_eq!(enc[2], 0x12);
        }
    }
}

#[test]
fn decode_known_instructions() {
    assert_eq!(parse_instruction([0x78, 0, 0]), Inst::Sei);
    assert_eq!(parse_instruction([0xD8, 0, 0]), Inst::Cld);
    assert_eq!(parse_instruction([0xA9, 0x07, 0]), Inst::LdaImmediate(0x07));
    assert_eq!(
        parse_instruction([0x8D, 0x01, 0x20]),
        Inst::StaAbsolute(UnalignedU16::from_u16(0x2001))
    );
    assert_eq!(parse_instruction([0x10, 0xFB, 0]), Inst::Bpl(-5));
    assert!(Inst::Bpl(-5).ends_bb());
    assert!(!Inst::Sei.ends_bb());
}

#[test]
fn length_matches_pc_deltas() {
    // SEI; CLD; LDA #$00; STA $0200; JMP $C000
    let mut st = machine(&[0x78, 0xD8, 0xA9, 0x00, 0x8D, 0x00, 0x02, 0x4C, 0x00, 0xC0]);
    let mut pc = st.cpu.pc;
    assert_eq!(pc, 0xC000);
    for _ in 0..5 {
        let inst = st.next_inst().unwrap();
        let len = inst.len();
        st.next().unwrap();
        if !inst.ends_bb() {
            assert_eq!(st.cpu.pc, pc.wrapping_add(len as u16));
        }
        pc = st.cpu.pc;
    }
    assert_eq!(st.cpu.pc, 0xC000);
}

#[test]
fn flag_roundtrip_all_bytes() {
    for v in 0..=255u8 {
        let p = P::from_bits(v);
        assert_eq!(p.to_push_bits(), v | 0x30);
    }
}

#[test]
fn flag_roundtrip_through_stack() {
    // LDA #$C3; PHA; PLP; PHP; PLA -- push a flag byte, pop it into the
    // flags, push the flags, and read the byte back.
    let mut st = machine(&[0xA9, 0xC3, 0x48, 0x28, 0x08, 0x68]);
    for _ in 0..6 {
        st.next().unwrap();
    }
    assert_eq!(st.cpu.a, 0xC3 | 0x30);
}

#[test]
fn adc_flags() {
    // LDA #$50; ADC #$50 -- signed overflow, no carry out.
    let mut st = machine(&[0xA9, 0x50, 0x69, 0x50]);
    st.next().unwrap();
    st.next().unwrap();
    assert_eq!(st.cpu.a, 0xA0);
    assert!(st.cpu.p.v);
    assert!(!st.cpu.p.c);
    assert!(st.cpu.p.n);
    // LDA #$FF; ADC #$02 -- carry out, no signed overflow.
    let mut st = machine(&[0xA9, 0xFF, 0x69, 0x02]);
    st.next().unwrap();
    st.next().unwrap();
    assert_eq!(st.cpu.a, 0x01);
    assert!(st.cpu.p.c);
    assert!(!st.cpu.p.v);
}

#[test]
fn ppu_timing_wraparound() {
    let mut st = machine(&[0xEA]);
    // Enable vblank signalling through the control register.
    st.set_mem(0x2000, 0x80).unwrap();
    assert_eq!(st.ppu.scanline, 0);
    assert_eq!(st.ppu.dot, 0);
    let frame0 = st.ppu.frame;
    let mut seen_set = false;
    let mut origin_hits = 0u32;
    for k in 0..(341 * 262) {
        st.step_ppu();
        if st.ppu.scanline == 241 && st.ppu.dot == 1 {
            // The step performed at (241, 0) has just finished.
            assert!(st.ppu.status.vblank);
            seen_set = true;
        }
        if k + 1 < 341 * 262 {
            assert!(!(st.ppu.scanline == 0 && st.ppu.dot == 0));
            origin_hits += 1;
        }
    }
    assert!(seen_set);
    assert_eq!(st.ppu.scanline, 0);
    assert_eq!(st.ppu.dot, 0);
    assert_eq!(st.ppu.frame, frame0 + 1);
    assert_eq!(origin_hits, 341 * 262 - 1);
    // The forced-clear transition: one more step from the origin clears
    // any vblank bit still set.
    st.step_ppu();
    assert!(!st.ppu.status.vblank);
}

fn mmc3_cart() -> Vec<u8> {
    let mut buf = vec![0u8; 16 + 16 * 16384];
    buf[0] = 0x4E;
    buf[1] = 0x45;
    buf[2] = 0x53;
    buf[3] = 0x1A;
    buf[4] = 16;
    buf[6] = 0x40; // mapper family 4
    for k in 0..32 {
        for j in 0..8192 {
            buf[16 + k * 8192 + j] = k as u8;
        }
    }
    buf
}

#[test]
fn mapper_bank_translation() {
    let mut m = Mapper::parse_ines(mmc3_cart()).unwrap();
    // Fresh state: both swappable windows sit on bank 0, the two fixed
    // windows on the last two banks.
    assert_eq!(m.get_cpu(0x8000), Some(0));
    assert_eq!(m.get_cpu(0x8000), Some(0));
    assert_eq!(m.get_cpu(0xA000), Some(0));
    assert_eq!(m.get_cpu(0xC000), Some(30));
    assert_eq!(m.get_cpu(0xFFFF), Some(31));
    // Select bank register 6 and commit bank 5.
    m.set_cpu(0x8000, 0x06).unwrap();
    m.set_cpu(0x8001, 5).unwrap();
    assert_eq!(m.get_cpu(0x8000), Some(5));
    assert_eq!(m.get_cpu(0x9FFF), Some(5));
    // The second window and the fixed windows are untouched.
    assert_eq!(m.get_cpu(0xA000), Some(0));
    assert_eq!(m.get_cpu(0xC000), Some(30));
    assert_eq!(m.get_cpu(0xE000), Some(31));
    // Bank indices wrap inside the 32 sub-banks.
    m.set_cpu(0x8001, 0x21).unwrap();
    assert_eq!(m.get_cpu(0x8000), Some(1));
}

#[test]
fn reread_ram_vs_status() {
    let mut st = machine(&[0xEA]);
    st.set_mem(0x0123, 0x55).unwrap();
    assert_eq!(st.mem(0x0123).unwrap(), 0x55);
    assert_eq!(st.mem(0x0123).unwrap(), 0x55);
    // Mirrored RAM: the same cell appears every 2KB.
    assert_eq!(st.mem(0x0923).unwrap(), 0x55);
    // Status register: the first read observes vblank, the second does not.
    st.set_mem(0x2000, 0x80).unwrap();
    for _ in 0..(342 * 242) {
        st.step_ppu();
    }
    let first = st.mem(0x2002).unwrap();
    assert_eq!(first & 0x80, 0x80);
    let second = st.mem(0x2002).unwrap();
    assert_eq!(second & 0x80, 0);
}

#[test]
fn trace_scenario() {
    // The boot shape of a real cartridge: disable interrupts, clear
    // decimal mode (set beforehand to watch it drop), load zero.
    let mut st = machine(&[0x78, 0xF8, 0xD8, 0xA9, 0x00, 0x8D, 0x01, 0x20]);
    assert_eq!(st.next_inst().unwrap(), Inst::Sei);
    assert_eq!(st.cpu.pc, 0xC000);
    st.next().unwrap();
    assert!(st.cpu.p.i);
    assert_eq!(st.next_inst().unwrap(), Inst::Sed);
    st.next().unwrap();
    assert!(st.cpu.p.d);
    assert_eq!(st.next_inst().unwrap(), Inst::Cld);
    st.next().unwrap();
    assert!(!st.cpu.p.d);
    assert_eq!(st.next_inst().unwrap(), Inst::LdaImmediate(0));
    st.next().unwrap();
    assert_eq!(st.cpu.a, 0);
    assert!(st.cpu.p.z);
    assert_eq!(
        st.next_inst().unwrap(),
        Inst::StaAbsolute(UnalignedU16::from_u16(0x2001))
    );
    st.next().unwrap();
    assert_eq!(st.cpu.pc, 0xC008);
    assert_eq!(st.cpu.s, 0xFD);
}

#[test]
fn parse_errors() {
    assert!(matches!(
        Mapper::parse_ines(vec![1, 2, 3]),
        Err(NesFileError::MissingHeader)
    ));
    let mut bad_magic = nrom_cart(&[]);
    bad_magic[0] = 0x4D;
    assert!(matches!(
        Mapper::parse_ines(bad_magic),
        Err(NesFileError::MissingHeader)
    ));
    let mut trainer = nrom_cart(&[]);
    trainer[6] |= 0x04;
    assert!(matches!(
        Mapper::parse_ines(trainer),
        Err(NesFileError::TrainerPresent)
    ));
    let mut wrong_count = mmc3_cart();
    wrong_count[4] = 8;
    assert!(matches!(
        Mapper::parse_ines(wrong_count),
        Err(NesFileError::WrongPrgRomCount)
    ));
    let mut truncated = nrom_cart(&[]);
    truncated.truncate(1000);
    assert!(matches!(
        Mapper::parse_ines(truncated),
        Err(NesFileError::TruncatedPrgRom)
    ));
    let mut unknown = nrom_cart(&[]);
    unknown[7] = 0x30;
    assert!(matches!(
        Mapper::parse_ines(unknown),
        Err(NesFileError::UnknownMapper(0x30))
    ));
}

#[test]
fn fault_variants() {
    let mut st = machine(&[0xEA]);
    assert_eq!(st.mem(0x4000), Err(Fault::ApuUnimplemented));
    assert_eq!(st.set_mem(0x4017, 1), Err(Fault::ApuUnimplemented));
    // The unbanked gap below the battery RAM of the fixed mapper.
    assert_eq!(st.mem(0x4020), Err(Fault::RomUnmapped));
    // An undocumented instruction stops the machine loudly, with the
    // program counter untouched.
    let mut st2 = machine(&[0x0B, 0x00]);
    assert_eq!(st2.next(), Err(Fault::UnofficialInstruction));
    assert_eq!(st2.cpu.pc, 0xC000);
}

#[test]
fn oam_port_write_and_step() {
    let mut st = machine(&[0xEA]);
    // Fill one sprite record through the OAM address/data ports and take
    // a visible-region step over it.
    // Sprite 3: y=0, tile=0, attr=palette 1, x=0.
    st.set_mem(0x2003, 12).unwrap(); // sprite 3, byte 0
    st.set_mem(0x2004, 0).unwrap(); // y
    st.set_mem(0x2004, 0).unwrap(); // tile
    st.set_mem(0x2004, 0x01).unwrap(); // attributes: palette 1
    st.set_mem(0x2004, 0).unwrap(); // x
    st.step_ppu();
    assert_eq!(st.ppu.dot, 1);
    assert_eq!(st.ppu.scanline, 0);
}

#[test]
fn stack_wraps_inside_its_page() {
    // JSR pushes two bytes; run it with the stack pointer at 0.
    let mut st = machine(&[0xA2, 0x00, 0x9A, 0x20, 0x00, 0xC0]);
    st.next().unwrap(); // LDX #0
    st.next().unwrap(); // TXS
    assert_eq!(st.cpu.s, 0);
    st.next().unwrap(); // JSR $C000
    assert_eq!(st.cpu.s, 0xFE);
    assert_eq!(st.cpu.pc, 0xC000);
    assert_eq!(st.mem(0x0100).unwrap(), 0xC0);
    assert_eq!(st.mem(0x01FF).unwrap(), 0x05);
}
