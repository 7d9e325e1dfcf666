//! The instruction evaluator: the documented effect of every official
//! instruction on the machine, as one spec-level transition function and
//! the verified interpreter that implements it. Operand fetches go through
//! the bus, so PPU read side effects are honored; stack traffic moves one
//! byte at a time through the fixed stack page.

use vstd::prelude::*;

use crate::cpu::{p_from_bits, p_push_bits, Cpu, P};
use crate::inst::{op_of, operand_of, spec_len, Inst, Op, Operand};
use crate::interpret::{read_spec, state_wf, write_spec, Fault, State, StateV};

verus! {

/// Whether a mnemonic has a modeled effect. The undocumented mnemonics
/// decode but stop the machine loudly instead of guessing.
pub open spec fn is_official(op: Op) -> bool {
    match op {
        Op::Ahx | Op::Alr | Op::Anc | Op::Arr | Op::Axs | Op::Dcp | Op::Isc | Op::Las | Op::Lax
            | Op::NopU | Op::Rla | Op::Rra | Op::Sax | Op::SbcU | Op::Shx | Op::Shy | Op::Slo
            | Op::Sre | Op::Tas | Op::Xaa => false,
        _ => true,
    }
}

/// Zero and negative recomputed from a result byte.
pub open spec fn spec_nz(p: P, v: u8) -> P {
    P { z: v == 0, n: v & 0x80 == 0x80, ..p }
}

/// Add with carry: binary two's-complement addition of the operand and
/// the carry into the accumulator, setting carry on unsigned overflow
/// and overflow on signed overflow.
pub open spec fn spec_adc(c: Cpu, v: u8) -> Cpu {
    let sum = c.a + v + (if c.p.c { 1int } else { 0int });
    let r = (sum % 256) as u8;
    Cpu {
        a: r,
        p: P {
            c: sum > 255,
            v: ((c.a ^ r) & (v ^ r) & 0x80) == 0x80,
            ..spec_nz(c.p, r)
        },
        ..c
    }
}

/// A register compared against an operand: carry means no borrow.
pub open spec fn spec_cmp(p: P, reg: u8, v: u8) -> P {
    let t = reg.wrapping_sub(v);
    P { c: reg >= v, ..spec_nz(p, t) }
}

/// The accumulator update and flags of each read-class mnemonic.
pub open spec fn read_op_cpu(op: Op, c: Cpu, v: u8) -> Cpu {
    match op {
        Op::Adc => spec_adc(c, v),
        Op::Sbc => spec_adc(c, v ^ 0xFF),
        Op::And => Cpu { a: c.a & v, p: spec_nz(c.p, c.a & v), ..c },
        Op::Ora => Cpu { a: c.a | v, p: spec_nz(c.p, c.a | v), ..c },
        Op::Eor => Cpu { a: c.a ^ v, p: spec_nz(c.p, c.a ^ v), ..c },
        Op::Lda => Cpu { a: v, p: spec_nz(c.p, v), ..c },
        Op::Ldx => Cpu { x: v, p: spec_nz(c.p, v), ..c },
        Op::Ldy => Cpu { y: v, p: spec_nz(c.p, v), ..c },
        Op::Cmp => Cpu { p: spec_cmp(c.p, c.a, v), ..c },
        Op::Cpx => Cpu { p: spec_cmp(c.p, c.x, v), ..c },
        Op::Cpy => Cpu { p: spec_cmp(c.p, c.y, v), ..c },
        Op::Bit => Cpu {
            p: P {
                z: c.a & v == 0,
                n: v & 0x80 == 0x80,
                v: v & 0x40 == 0x40,
                ..c.p
            },
            ..c
        },
        _ => c,
    }
}

/// The result byte and new flags of each read-modify-write mnemonic.
pub open spec fn rmw_op(op: Op, p: P, v: u8) -> (u8, P) {
    match op {
        Op::Asl => (v << 1, P { c: v & 0x80 == 0x80, ..spec_nz(p, v << 1) }),
        Op::Lsr => (v >> 1, P { c: v & 0x01 == 0x01, ..spec_nz(p, v >> 1) }),
        Op::Rol => {
            let r = (v << 1) | (if p.c { 1u8 } else { 0u8 });
            (r, P { c: v & 0x80 == 0x80, ..spec_nz(p, r) })
        },
        Op::Ror => {
            let r = (v >> 1) | (if p.c { 0x80u8 } else { 0u8 });
            (r, P { c: v & 0x01 == 0x01, ..spec_nz(p, r) })
        },
        Op::Dec => (v.wrapping_sub(1), spec_nz(p, v.wrapping_sub(1))),
        _ => (v.wrapping_add(1), spec_nz(p, v.wrapping_add(1))),
    }
}

/// The register file after each implied (single-byte, register-only)
/// mnemonic.
pub open spec fn implied_cpu(op: Op, c: Cpu) -> Cpu {
    match op {
        Op::Clc => Cpu { p: P { c: false, ..c.p }, ..c },
        Op::Cld => Cpu { p: P { d: false, ..c.p }, ..c },
        Op::Cli => Cpu { p: P { i: false, ..c.p }, ..c },
        Op::Clv => Cpu { p: P { v: false, ..c.p }, ..c },
        Op::Sec => Cpu { p: P { c: true, ..c.p }, ..c },
        Op::Sed => Cpu { p: P { d: true, ..c.p }, ..c },
        Op::Sei => Cpu { p: P { i: true, ..c.p }, ..c },
        Op::Dex => Cpu { x: c.x.wrapping_sub(1), p: spec_nz(c.p, c.x.wrapping_sub(1)), ..c },
        Op::Dey => Cpu { y: c.y.wrapping_sub(1), p: spec_nz(c.p, c.y.wrapping_sub(1)), ..c },
        Op::Inx => Cpu { x: c.x.wrapping_add(1), p: spec_nz(c.p, c.x.wrapping_add(1)), ..c },
        Op::Iny => Cpu { y: c.y.wrapping_add(1), p: spec_nz(c.p, c.y.wrapping_add(1)), ..c },
        Op::Tax => Cpu { x: c.a, p: spec_nz(c.p, c.a), ..c },
        Op::Tay => Cpu { y: c.a, p: spec_nz(c.p, c.a), ..c },
        Op::Tsx => Cpu { x: c.s, p: spec_nz(c.p, c.s), ..c },
        Op::Txa => Cpu { a: c.x, p: spec_nz(c.p, c.x), ..c },
        Op::Txs => Cpu { s: c.x, ..c },
        Op::Tya => Cpu { a: c.y, p: spec_nz(c.p, c.y), ..c },
        _ => c,
    }
}

/// Whether a branch mnemonic takes its branch under the current flags.
pub open spec fn branch_taken(op: Op, p: P) -> bool {
    match op {
        Op::Bcc => !p.c,
        Op::Bcs => p.c,
        Op::Beq => p.z,
        Op::Bne => !p.z,
        Op::Bmi => p.n,
        Op::Bpl => !p.n,
        Op::Bvc => !p.v,
        _ => p.v,
    }
}

/// One byte pushed: stored at the stack pointer's slot of the fixed page
/// at 0x0100, the pointer then stepped down with wraparound inside the
/// page.
pub open spec fn push_spec(s: StateV, v: u8) -> StateV {
    let s1 = write_spec(s, (0x0100 + s.cpu.s) as u16, v).1;
    StateV { cpu: Cpu { s: s.cpu.s.wrapping_sub(1), ..s1.cpu }, ..s1 }
}

/// One byte popped: the pointer stepped up with wraparound inside the
/// page, then the byte read through the bus from its slot.
pub open spec fn pop_spec(s: StateV) -> (u8, StateV) {
    let sp = s.cpu.s.wrapping_add(1);
    let rd = read_spec(s, (0x0100 + sp) as u16);
    (rd.0->Ok_0, StateV { cpu: Cpu { s: sp, ..rd.1.cpu }, ..rd.1 })
}

/// The effective address of an addressing mode, with the bus reads the
/// pointer modes perform. Zero-page pointers stay inside the zero page
/// with wraparound; the indirect jump pointer reproduces the documented
/// page-boundary behavior of the hardware: the high pointer byte is
/// fetched from the start of the same page.
pub open spec fn resolve_spec(s: StateV, o: Operand) -> (Result<u16, Fault>, StateV) {
    match o {
        Operand::Zp(z) => (Ok(z as u16), s),
        Operand::ZpX(z) => (Ok(z.wrapping_add(s.cpu.x) as u16), s),
        Operand::ZpY(z) => (Ok(z.wrapping_add(s.cpu.y) as u16), s),
        Operand::Abs(a) => (Ok(a), s),
        Operand::AbsX(a) => (Ok(a.wrapping_add(s.cpu.x as u16)), s),
        Operand::AbsY(a) => (Ok(a.wrapping_add(s.cpu.y as u16)), s),
        Operand::IndX(z) => {
            let p = z.wrapping_add(s.cpu.x);
            let lo = read_spec(s, p as u16);
            let hi = read_spec(lo.1, p.wrapping_add(1) as u16);
            (Ok(((hi.0->Ok_0 as u16) << 8) | (lo.0->Ok_0 as u16)), hi.1)
        },
        Operand::IndY(z) => {
            let lo = read_spec(s, z as u16);
            let hi = read_spec(lo.1, z.wrapping_add(1) as u16);
            let base = ((hi.0->Ok_0 as u16) << 8) | (lo.0->Ok_0 as u16);
            (Ok(base.wrapping_add(s.cpu.y as u16)), hi.1)
        },
        Operand::Ind(a) => {
            let lo = read_spec(s, a);
            let hi_adr = (a & 0xFF00) | (a.wrapping_add(1) & 0x00FF);
            let hi = read_spec(lo.1, hi_adr);
            match (lo.0, hi.0) {
                (Ok(l), Ok(h)) => (Ok(((h as u16) << 8) | (l as u16)), hi.1),
                (Err(e), _) => (Err(e), lo.1),
                (_, Err(e)) => (Err(e), hi.1),
            }
        },
        _ => (Ok(0), s),
    }
}

/// The operand byte of a read-class instruction, with the bus effects of
/// fetching it: immediate operands come from the instruction itself, the
/// accumulator mode reads the accumulator, every other mode resolves its
/// address and reads through the bus.
pub open spec fn operand_value_spec(s: StateV, o: Operand) -> (Result<u8, Fault>, StateV) {
    match o {
        Operand::Imm(v) => (Ok(v), s),
        Operand::Accumulator => (Ok(s.cpu.a), s),
        _ => {
            let ra = resolve_spec(s, o);
            match ra.0 {
                Err(e) => (Err(e), ra.1),
                Ok(adr) => read_spec(ra.1, adr),
            }
        },
    }
}

/// The full documented effect of one instruction on the machine: operand
/// fetches and stack traffic through the bus, register and flag updates
/// per mnemonic, the program counter stepped past the instruction or
/// redirected by control flow. An undocumented mnemonic, or a bus fault
/// during any fetch or store, stops the machine with the state the
/// faulting access left behind and no register change.
pub open spec fn eval_spec(s: StateV, i: Inst) -> (Result<(), Fault>, StateV) {
    let op = op_of(i);
    let o = operand_of(i);
    let l = spec_len(i) as u16;
    if !is_official(op) {
        (Err(Fault::UnofficialInstruction), s)
    } else {
        match op {
            Op::Adc | Op::Sbc | Op::And | Op::Ora | Op::Eor | Op::Lda | Op::Ldx | Op::Ldy
                | Op::Cmp | Op::Cpx | Op::Cpy | Op::Bit => {
                let rv = operand_value_spec(s, o);
                match rv.0 {
                    Err(e) => (Err(e), rv.1),
                    Ok(v) => (
                        Ok(()),
                        StateV {
                            cpu: Cpu {
                                pc: s.cpu.pc.wrapping_add(l),
                                ..read_op_cpu(op, rv.1.cpu, v)
                            },
                            ..rv.1
                        },
                    ),
                }
            },
            Op::Sta | Op::Stx | Op::Sty => {
                let ra = resolve_spec(s, o);
                match ra.0 {
                    Err(e) => (Err(e), ra.1),
                    Ok(adr) => {
                        let v = if op is Sta {
                            s.cpu.a
                        } else if op is Stx {
                            s.cpu.x
                        } else {
                            s.cpu.y
                        };
                        let wr = write_spec(ra.1, adr, v);
                        match wr.0 {
                            Err(e) => (Err(e), ra.1),
                            Ok(_) => (
                                Ok(()),
                                StateV {
                                    cpu: Cpu { pc: s.cpu.pc.wrapping_add(l), ..wr.1.cpu },
                                    ..wr.1
                                },
                            ),
                        }
                    },
                }
            },
            Op::Asl | Op::Lsr | Op::Rol | Op::Ror | Op::Dec | Op::Inc => {
                if o is Accumulator {
                    let rp = rmw_op(op, s.cpu.p, s.cpu.a);
                    (
                        Ok(()),
                        StateV {
                            cpu: Cpu { a: rp.0, p: rp.1, pc: s.cpu.pc.wrapping_add(l), ..s.cpu },
                            ..s
                        },
                    )
                } else {
                    let ra = resolve_spec(s, o);
                    match ra.0 {
                        Err(e) => (Err(e), ra.1),
                        Ok(adr) => {
                            let rd = read_spec(ra.1, adr);
                            match rd.0 {
                                Err(e) => (Err(e), ra.1),
                                Ok(v) => {
                                    let rp = rmw_op(op, rd.1.cpu.p, v);
                                    let wr = write_spec(rd.1, adr, rp.0);
                                    match wr.0 {
                                        Err(e) => (Err(e), rd.1),
                                        Ok(_) => (
                                            Ok(()),
                                            StateV {
                                                cpu: Cpu {
                                                    p: rp.1,
                                                    pc: s.cpu.pc.wrapping_add(l),
                                                    ..wr.1.cpu
                                                },
                                                ..wr.1
                                            },
                                        ),
                                    }
                                },
                            }
                        },
                    }
                }
            },
            Op::Bcc | Op::Bcs | Op::Beq | Op::Bne | Op::Bmi | Op::Bpl | Op::Bvc | Op::Bvs => {
                let off = match o {
                    Operand::Rel(d) => d,
                    _ => 0,
                };
                let target = if branch_taken(op, s.cpu.p) {
                    s.cpu.pc.wrapping_add(l).wrapping_add(off as u16)
                } else {
                    s.cpu.pc.wrapping_add(l)
                };
                (Ok(()), StateV { cpu: Cpu { pc: target, ..s.cpu }, ..s })
            },
            Op::Jmp => {
                if o is Abs {
                    let target = match o {
                        Operand::Abs(a) => a,
                        _ => 0,
                    };
                    (Ok(()), StateV { cpu: Cpu { pc: target, ..s.cpu }, ..s })
                } else {
                    let ra = resolve_spec(s, o);
                    match ra.0 {
                        Err(e) => (Err(e), ra.1),
                        Ok(adr) => (Ok(()), StateV { cpu: Cpu { pc: adr, ..ra.1.cpu }, ..ra.1 }),
                    }
                }
            },
            Op::Jsr => {
                let ret = s.cpu.pc.wrapping_add(2);
                let s1 = push_spec(s, (ret >> 8) as u8);
                let s2 = push_spec(s1, (ret & 0xFF) as u8);
                let target = match o {
                    Operand::Abs(a) => a,
                    _ => 0,
                };
                (Ok(()), StateV { cpu: Cpu { pc: target, ..s2.cpu }, ..s2 })
            },
            Op::Rts => {
                let lo = pop_spec(s);
                let hi = pop_spec(lo.1);
                let ret = (((hi.0 as u16) << 8) | (lo.0 as u16)).wrapping_add(1);
                (Ok(()), StateV { cpu: Cpu { pc: ret, ..hi.1.cpu }, ..hi.1 })
            },
            Op::Rti => {
                let fl = pop_spec(s);
                let lo = pop_spec(fl.1);
                let hi = pop_spec(lo.1);
                let ret = ((hi.0 as u16) << 8) | (lo.0 as u16);
                (
                    Ok(()),
                    StateV { cpu: Cpu { p: p_from_bits(fl.0), pc: ret, ..hi.1.cpu }, ..hi.1 },
                )
            },
            Op::Brk => {
                let ret = s.cpu.pc.wrapping_add(2);
                let s1 = push_spec(s, (ret >> 8) as u8);
                let s2 = push_spec(s1, (ret & 0xFF) as u8);
                let s3 = push_spec(s2, p_push_bits(s2.cpu.p));
                let lo = read_spec(s3, 0xFFFE);
                match lo.0 {
                    Err(e) => (Err(e), s3),
                    Ok(l8) => {
                        let hi = read_spec(lo.1, 0xFFFF);
                        match hi.0 {
                            Err(e) => (Err(e), lo.1),
                            Ok(h8) => (
                                Ok(()),
                                StateV {
                                    cpu: Cpu {
                                        p: P { i: true, ..hi.1.cpu.p },
                                        pc: ((h8 as u16) << 8) | (l8 as u16),
                                        ..hi.1.cpu
                                    },
                                    ..hi.1
                                },
                            ),
                        }
                    },
                }
            },
            Op::Pha => {
                let s1 = push_spec(s, s.cpu.a);
                (Ok(()), StateV { cpu: Cpu { pc: s.cpu.pc.wrapping_add(l), ..s1.cpu }, ..s1 })
            },
            Op::Php => {
                let s1 = push_spec(s, p_push_bits(s.cpu.p));
                (Ok(()), StateV { cpu: Cpu { pc: s.cpu.pc.wrapping_add(l), ..s1.cpu }, ..s1 })
            },
            Op::Pla => {
                let rd = pop_spec(s);
                (
                    Ok(()),
                    StateV {
                        cpu: Cpu {
                            a: rd.0,
                            p: spec_nz(rd.1.cpu.p, rd.0),
                            pc: s.cpu.pc.wrapping_add(l),
                            ..rd.1.cpu
                        },
                        ..rd.1
                    },
                )
            },
            Op::Plp => {
                let rd = pop_spec(s);
                (
                    Ok(()),
                    StateV {
                        cpu: Cpu {
                            p: p_from_bits(rd.0),
                            pc: s.cpu.pc.wrapping_add(l),
                            ..rd.1.cpu
                        },
                        ..rd.1
                    },
                )
            },
            _ => {
                // The remaining official mnemonics are register-only.
                (
                    Ok(()),
                    StateV {
                        cpu: Cpu { pc: s.cpu.pc.wrapping_add(l), ..implied_cpu(op, s.cpu) },
                        ..s
                    },
                )
            },
        }
    }
}

/// Whether a mnemonic has a modeled effect.
pub fn official_op(op: Op) -> (r: bool)
    ensures
        r == is_official(op),
{
    match op {
        Op::Ahx | Op::Alr | Op::Anc | Op::Arr | Op::Axs | Op::Dcp | Op::Isc | Op::Las | Op::Lax
            | Op::NopU | Op::Rla | Op::Rra | Op::Sax | Op::SbcU | Op::Shx | Op::Shy | Op::Slo
            | Op::Sre | Op::Tas | Op::Xaa => false,
        _ => true,
    }
}


impl State {
    /// Push one byte onto the stack page.
    fn push8(&mut self, v: u8)
        requires
            old(self).wf(),
        ensures
            final(self)@ == push_spec(old(self)@, v),
            final(self).wf(),
    {
        let ghost s0 = self@;
        let sp = self.cpu.s;
        let r = self.set_mem(0x0100 + sp as u16, v);
        self.cpu.s = sp.wrapping_sub(1);
        proof {
            assert(self@ =~= push_spec(s0, v));
        }
    }

    /// Pop one byte off the stack page.
    fn pop8(&mut self) -> (r: u8)
        requires
            old(self).wf(),
        ensures
            r == pop_spec(old(self)@).0,
            final(self)@ == pop_spec(old(self)@).1,
            final(self).wf(),
    {
        let ghost s0 = self@;
        let sp = self.cpu.s.wrapping_add(1);
        let v = match self.mem(0x0100 + sp as u16) {
            Ok(v) => v,
            Err(_) => 0,
        };
        self.cpu.s = sp;
        proof {
            assert(self@ =~= pop_spec(s0).1);
        }
        v
    }

    /// the bus reads the pointer modes require.
    fn resolve(&mut self, o: Operand) -> (r: Result<u16, Fault>)
        requires
            old(self).wf(),
        ensures
            r == resolve_spec(old(self)@, o).0,
            final(self)@ == resolve_spec(old(self)@, o).1,
            final(self).wf(),
    {
        let ghost s0 = self@;
        match o {
            Operand::Zp(z) => Ok(z as u16),
            Operand::ZpX(z) => Ok(z.wrapping_add(self.cpu.x) as u16),
            Operand::ZpY(z) => Ok(z.wrapping_add(self.cpu.y) as u16),
            Operand::Abs(a) => Ok(a),
            Operand::AbsX(a) => Ok(a.wrapping_add(self.cpu.x as u16)),
            Operand::AbsY(a) => Ok(a.wrapping_add(self.cpu.y as u16)),
            Operand::IndX(z) => {
                let p = z.wrapping_add(self.cpu.x);
                let lo = match self.mem(p as u16) {
                    Ok(v) => v,
                    Err(_) => 0,
                };
                let hi = match self.mem(p.wrapping_add(1) as u16) {
                    Ok(v) => v,
                    Err(_) => 0,
                };
                Ok(((hi as u16) << 8) | (lo as u16))
            },
            Operand::IndY(z) => {
                let lo = match self.mem(z as u16) {
                    Ok(v) => v,
                    Err(_) => 0,
                };
                let hi = match self.mem(z.wrapping_add(1) as u16) {
                    Ok(v) => v,
                    Err(_) => 0,
                };
                let base = ((hi as u16) << 8) | (lo as u16);
                Ok(base.wrapping_add(self.cpu.y as u16))
            },
            Operand::Ind(a) => {
                let lo = match self.mem(a) {
                    Ok(v) => v,
                    Err(e) => {
                        return Err(e);
                    },
                };
                let hi_adr = (a & 0xFF00) | (a.wrapping_add(1) & 0x00FF);
                let hi = match self.mem(hi_adr) {
                    Ok(v) => v,
                    Err(e) => {
                        return Err(e);
                    },
                };
                Ok(((hi as u16) << 8) | (lo as u16))
            },
            _ => Ok(0),
        }
    }

    /// Fetch the operand byte of a read-class instruction through the bus.
    fn operand_value(&mut self, o: Operand) -> (r: Result<u8, Fault>)
        requires
            old(self).wf(),
        ensures
            r == operand_value_spec(old(self)@, o).0,
            final(self)@ == operand_value_spec(old(self)@, o).1,
            final(self).wf(),
    {
        match o {
            Operand::Imm(v) => Ok(v),
            Operand::Accumulator => Ok(self.cpu.a),
            _ => {
                let adr = match self.resolve(o) {
                    Ok(a) => a,
                    Err(e) => {
                        return Err(e);
                    },
                };
                self.mem(adr)
            },
        }
    }

    /// The accumulator and flag update of a read-class mnemonic, as a
    /// pure step on the register file.
    fn read_op_step(op: Op, c: Cpu, v: u8) -> (r: Cpu)
        ensures
            r == read_op_cpu(op, c, v),
    {
        match op {
            Op::Adc => State::adc_step(c, v),
            Op::Sbc => State::adc_step(c, v ^ 0xFF),
            Op::And => Cpu {
                a: c.a & v,
                p: P { z: c.a & v == 0, n: (c.a & v) & 0x80 == 0x80, ..c.p },
                ..c
            },
            Op::Ora => Cpu {
                a: c.a | v,
                p: P { z: c.a | v == 0, n: (c.a | v) & 0x80 == 0x80, ..c.p },
                ..c
            },
            Op::Eor => Cpu {
                a: c.a ^ v,
                p: P { z: c.a ^ v == 0, n: (c.a ^ v) & 0x80 == 0x80, ..c.p },
                ..c
            },
            Op::Lda => Cpu { a: v, p: P { z: v == 0, n: v & 0x80 == 0x80, ..c.p }, ..c },
            Op::Ldx => Cpu { x: v, p: P { z: v == 0, n: v & 0x80 == 0x80, ..c.p }, ..c },
            Op::Ldy => Cpu { y: v, p: P { z: v == 0, n: v & 0x80 == 0x80, ..c.p }, ..c },
            Op::Cmp => Cpu { p: State::cmp_step(c.p, c.a, v), ..c },
            Op::Cpx => Cpu { p: State::cmp_step(c.p, c.x, v), ..c },
            Op::Cpy => Cpu { p: State::cmp_step(c.p, c.y, v), ..c },
            Op::Bit => Cpu {
                p: P { z: c.a & v == 0, n: v & 0x80 == 0x80, v: v & 0x40 == 0x40, ..c.p },
                ..c
            },
            _ => c,
        }
    }

    /// Binary add with carry on the register file.
    fn adc_step(c: Cpu, v: u8) -> (r: Cpu)
        ensures
            r == spec_adc(c, v),
    {
        let carry: u16 = if c.p.c {
            1
        } else {
            0
        };
        let sum: u16 = c.a as u16 + v as u16 + carry;
        let res = (sum % 256) as u8;
        Cpu {
            a: res,
            p: P {
                c: sum > 255,
                v: ((c.a ^ res) & (v ^ res) & 0x80) == 0x80,
                z: res == 0,
                n: res & 0x80 == 0x80,
                ..c.p
            },
            ..c
        }
    }

    /// A comparison's flag update.
    fn cmp_step(p: P, reg: u8, v: u8) -> (r: P)
        ensures
            r == spec_cmp(p, reg, v),
    {
        let t = reg.wrapping_sub(v);
        P { c: reg >= v, z: t == 0, n: t & 0x80 == 0x80, ..p }
    }

    /// The shifted or stepped byte of a read-modify-write mnemonic, with
    /// its new flags, as a pure step.
    fn rmw_step(op: Op, p: P, v: u8) -> (r: (u8, P))
        ensures
            r == rmw_op(op, p, v),
    {
        match op {
            Op::Asl => (
                v << 1,
                P { c: v & 0x80 == 0x80, z: v << 1 == 0, n: (v << 1) & 0x80 == 0x80, ..p },
            ),
            Op::Lsr => (
                v >> 1,
                P { c: v & 0x01 == 0x01, z: v >> 1 == 0, n: (v >> 1) & 0x80 == 0x80, ..p },
            ),
            Op::Rol => {
                let r = (v << 1) | (if p.c {
                    1u8
                } else {
                    0u8
                });
                (r, P { c: v & 0x80 == 0x80, z: r == 0, n: r & 0x80 == 0x80, ..p })
            },
            Op::Ror => {
                let r = (v >> 1) | (if p.c {
                    0x80u8
                } else {
                    0u8
                });
                (r, P { c: v & 0x01 == 0x01, z: r == 0, n: r & 0x80 == 0x80, ..p })
            },
            Op::Dec => {
                let r = v.wrapping_sub(1);
                (r, P { z: r == 0, n: r & 0x80 == 0x80, ..p })
            },
            _ => {
                let r = v.wrapping_add(1);
                (r, P { z: r == 0, n: r & 0x80 == 0x80, ..p })
            },
        }
    }

    /// or step the byte, write it back, update the flags.
    #[verifier::rlimit(100)]
    #[verifier::spinoff_prover]
    fn exec_rmw(&mut self, op: Op, o: Operand, l: u8, Ghost(i): Ghost<Inst>, Ghost(s0): Ghost<
        StateV,
    >) -> (r: Result<(), Fault>)
        requires
            old(self).wf(),
            old(self)@ == s0,
            op == op_of(i),
            o == operand_of(i),
            l == spec_len(i),
            is_official(op),
            op is Asl || op is Lsr || op is Rol || op is Ror || op is Dec || op is Inc,
        ensures
            r == eval_spec(s0, i).0,
            final(self)@ == eval_spec(s0, i).1,
            final(self).wf(),
    {
        if matches!(o, Operand::Accumulator) {
            let (nv, np) = State::rmw_step(op, self.cpu.p, self.cpu.a);
            self.cpu.a = nv;
            self.cpu.p = np;
            self.cpu.pc = self.cpu.pc.wrapping_add(l as u16);
            proof {
                assert(self@ =~= eval_spec(s0, i).1);
            }
            Ok(())
        } else {
            let adr = match self.resolve(o) {
                Ok(a) => a,
                Err(e) => {
                    return Err(e);
                },
            };
            let v = match self.mem(adr) {
                Ok(v) => v,
                Err(e) => {
                    return Err(e);
                },
            };
            let (nv, np) = State::rmw_step(op, self.cpu.p, v);
            match self.set_mem(adr, nv) {
                Ok(_) => {},
                Err(e) => {
                    return Err(e);
                },
            };
            self.cpu.p = np;
            self.cpu.pc = self.cpu.pc.wrapping_add(l as u16);
            proof {
                assert(self@ =~= eval_spec(s0, i).1);
            }
            Ok(())
        }
    }

    /// Perform the software-interrupt instruction: push the return
    /// address and the flags, set interrupt-disable, and vector through
    /// the bytes at the top of the address space.
    #[verifier::rlimit(100)]
    #[verifier::spinoff_prover]
    fn exec_brk(&mut self, Ghost(i): Ghost<Inst>, Ghost(s0): Ghost<StateV>) -> (r: Result<
        (),
        Fault,
    >)
        requires
            old(self).wf(),
            old(self)@ == s0,
            op_of(i) is Brk,
        ensures
            r == eval_spec(s0, i).0,
            final(self)@ == eval_spec(s0, i).1,
            final(self).wf(),
    {
        let ret = self.cpu.pc.wrapping_add(2);
        self.push8((ret >> 8) as u8);
        self.push8((ret & 0xFF) as u8);
        let b = self.cpu.p.to_push_bits();
        self.push8(b);
        let lo = match self.mem(0xFFFE) {
            Ok(v) => v,
            Err(e) => {
                return Err(e);
            },
        };
        let hi = match self.mem(0xFFFF) {
            Ok(v) => v,
            Err(e) => {
                return Err(e);
            },
        };
        self.cpu.p.i = true;
        self.cpu.pc = ((hi as u16) << 8) | (lo as u16);
        proof {
            assert(self@ =~= eval_spec(s0, i).1);
        }
        Ok(())
    }

    /// Perform a read-class mnemonic: fetch the operand through the bus
    /// and apply the register and flag update.
    #[verifier::rlimit(60)]
    #[verifier::spinoff_prover]
    fn exec_read_class(&mut self, op: Op, o: Operand, l: u8, Ghost(i): Ghost<Inst>, Ghost(
        s0,
    ): Ghost<StateV>) -> (r: Result<(), Fault>)
        requires
            old(self).wf(),
            old(self)@ == s0,
            op == op_of(i),
            o == operand_of(i),
            l == spec_len(i),
            op is Adc || op is Sbc || op is And || op is Ora || op is Eor || op is Lda
                || op is Ldx || op is Ldy || op is Cmp || op is Cpx || op is Cpy || op is Bit,
        ensures
            r == eval_spec(s0, i).0,
            final(self)@ == eval_spec(s0, i).1,
            final(self).wf(),
    {
        let v = match self.operand_value(o) {
            Ok(v) => v,
            Err(e) => {
                return Err(e);
            },
        };
        self.cpu = State::read_op_step(op, self.cpu, v);
        self.cpu.pc = self.cpu.pc.wrapping_add(l as u16);
        proof {
            assert(self@ =~= eval_spec(s0, i).1);
        }
        Ok(())
    }

    /// Perform a store mnemonic: resolve the address and write the
    /// register through the bus.
    #[verifier::rlimit(60)]
    #[verifier::spinoff_prover]
    fn exec_store(&mut self, op: Op, o: Operand, l: u8, Ghost(i): Ghost<Inst>, Ghost(s0): Ghost<
        StateV,
    >) -> (r: Result<(), Fault>)
        requires
            old(self).wf(),
            old(self)@ == s0,
            op == op_of(i),
            o == operand_of(i),
            l == spec_len(i),
            op is Sta || op is Stx || op is Sty,
        ensures
            r == eval_spec(s0, i).0,
            final(self)@ == eval_spec(s0, i).1,
            final(self).wf(),
    {
        let v = match op {
            Op::Sta => self.cpu.a,
            Op::Stx => self.cpu.x,
            _ => self.cpu.y,
        };
        let adr = match self.resolve(o) {
            Ok(a) => a,
            Err(e) => {
                return Err(e);
            },
        };
        match self.set_mem(adr, v) {
            Ok(_) => {},
            Err(e) => {
                return Err(e);
            },
        };
        self.cpu.pc = self.cpu.pc.wrapping_add(l as u16);
        proof {
            assert(self@ =~= eval_spec(s0, i).1);
        }
        Ok(())
    }

    /// Perform a branch: test the flag and either step past the
    /// instruction or add the signed offset to the following address.
    #[verifier::rlimit(60)]
    #[verifier::spinoff_prover]
    fn exec_branch(&mut self, op: Op, o: Operand, l: u8, Ghost(i): Ghost<Inst>, Ghost(s0): Ghost<
        StateV,
    >)
        requires
            old(self).wf(),
            old(self)@ == s0,
            op == op_of(i),
            o == operand_of(i),
            l == spec_len(i),
            op is Bcc || op is Bcs || op is Beq || op is Bne || op is Bmi || op is Bpl
                || op is Bvc || op is Bvs,
        ensures
            Ok::<(), Fault>(()) == eval_spec(s0, i).0,
            final(self)@ == eval_spec(s0, i).1,
            final(self).wf(),
    {
        let taken = match op {
            Op::Bcc => !self.cpu.p.c,
            Op::Bcs => self.cpu.p.c,
            Op::Beq => self.cpu.p.z,
            Op::Bne => !self.cpu.p.z,
            Op::Bmi => self.cpu.p.n,
            Op::Bpl => !self.cpu.p.n,
            Op::Bvc => !self.cpu.p.v,
            _ => self.cpu.p.v,
        };
        let off = match o {
            Operand::Rel(d) => d,
            _ => 0,
        };
        let base = self.cpu.pc.wrapping_add(l as u16);
        self.cpu.pc = if taken {
            base.wrapping_add(off as u16)
        } else {
            base
        };
        proof {
            assert(self@ =~= eval_spec(s0, i).1);
        }
    }

    /// Perform a jump: direct to the absolute target, or through the
    /// pointer with the hardware's page-boundary fetch.
    #[verifier::rlimit(60)]
    #[verifier::spinoff_prover]
    fn exec_jmp(&mut self, o: Operand, Ghost(i): Ghost<Inst>, Ghost(s0): Ghost<StateV>) -> (r:
        Result<(), Fault>)
        requires
            old(self).wf(),
            old(self)@ == s0,
            op_of(i) is Jmp,
            o == operand_of(i),
        ensures
            r == eval_spec(s0, i).0,
            final(self)@ == eval_spec(s0, i).1,
            final(self).wf(),
    {
        match o {
            Operand::Abs(a) => {
                self.cpu.pc = a;
                proof {
                    assert(self@ =~= eval_spec(s0, i).1);
                }
                Ok(())
            },
            _ => {
                let adr = match self.resolve(o) {
                    Ok(a) => a,
                    Err(e) => {
                        return Err(e);
                    },
                };
                self.cpu.pc = adr;
                proof {
                    assert(self@ =~= eval_spec(s0, i).1);
                }
                Ok(())
            },
        }
    }

    /// Perform the subroutine call: push the address of the call's last
    /// byte high-then-low and redirect to the target.
    #[verifier::rlimit(60)]
    #[verifier::spinoff_prover]
    fn exec_jsr(&mut self, o: Operand, Ghost(i): Ghost<Inst>, Ghost(s0): Ghost<StateV>)
        requires
            old(self).wf(),
            old(self)@ == s0,
            op_of(i) is Jsr,
            o == operand_of(i),
        ensures
            Ok::<(), Fault>(()) == eval_spec(s0, i).0,
            final(self)@ == eval_spec(s0, i).1,
            final(self).wf(),
    {
        let ret = self.cpu.pc.wrapping_add(2);
        self.push8((ret >> 8) as u8);
        self.push8((ret & 0xFF) as u8);
        let target = match o {
            Operand::Abs(a) => a,
            _ => 0,
        };
        self.cpu.pc = target;
        proof {
            assert(self@ =~= eval_spec(s0, i).1);
        }
    }

    /// Perform the subroutine return: pop the return address low-then-
    /// high and continue one past it.
    #[verifier::rlimit(60)]
    #[verifier::spinoff_prover]
    fn exec_rts(&mut self, Ghost(i): Ghost<Inst>, Ghost(s0): Ghost<StateV>)
        requires
            old(self).wf(),
            old(self)@ == s0,
            op_of(i) is Rts,
        ensures
            Ok::<(), Fault>(()) == eval_spec(s0, i).0,
            final(self)@ == eval_spec(s0, i).1,
            final(self).wf(),
    {
        let lo = self.pop8();
        let hi = self.pop8();
        self.cpu.pc = (((hi as u16) << 8) | (lo as u16)).wrapping_add(1);
        proof {
            assert(self@ =~= eval_spec(s0, i).1);
        }
    }

    /// Perform the interrupt return: pop the flags, then the return
    /// address low-then-high.
    #[verifier::rlimit(60)]
    #[verifier::spinoff_prover]
    fn exec_rti(&mut self, Ghost(i): Ghost<Inst>, Ghost(s0): Ghost<StateV>)
        requires
            old(self).wf(),
            old(self)@ == s0,
            op_of(i) is Rti,
        ensures
            Ok::<(), Fault>(()) == eval_spec(s0, i).0,
            final(self)@ == eval_spec(s0, i).1,
            final(self).wf(),
    {
        let fl = self.pop8();
        let lo = self.pop8();
        let hi = self.pop8();
        self.cpu.p = P::from_bits(fl);
        self.cpu.pc = ((hi as u16) << 8) | (lo as u16);
        proof {
            assert(self@ =~= eval_spec(s0, i).1);
        }
    }

    /// Perform a stack push or pop of the accumulator or the flags.
    #[verifier::rlimit(60)]
    #[verifier::spinoff_prover]
    fn exec_stack_op(&mut self, op: Op, l: u8, Ghost(i): Ghost<Inst>, Ghost(s0): Ghost<StateV>)
        requires
            old(self).wf(),
            old(self)@ == s0,
            op == op_of(i),
            l == spec_len(i),
            op is Pha || op is Php || op is Pla || op is Plp,
        ensures
            Ok::<(), Fault>(()) == eval_spec(s0, i).0,
            final(self)@ == eval_spec(s0, i).1,
            final(self).wf(),
    {
        match op {
            Op::Pha => {
                let a = self.cpu.a;
                self.push8(a);
            },
            Op::Php => {
                let b = self.cpu.p.to_push_bits();
                self.push8(b);
            },
            Op::Pla => {
                let v = self.pop8();
                self.cpu.a = v;
                self.cpu.p.z = v == 0;
                self.cpu.p.n = v & 0x80 == 0x80;
            },
            _ => {
                let v = self.pop8();
                self.cpu.p = P::from_bits(v);
            },
        }
        self.cpu.pc = self.cpu.pc.wrapping_add(l as u16);
        proof {
            assert(self@ =~= eval_spec(s0, i).1);
        }
    }

    /// The register file after an implied register-only mnemonic.
    fn implied_cpu_step(op: Op, c: Cpu) -> (r: Cpu)
        ensures
            r == implied_cpu(op, c),
    {
        match op {
            Op::Clc => Cpu { p: P { c: false, ..c.p }, ..c },
            Op::Cld => Cpu { p: P { d: false, ..c.p }, ..c },
            Op::Cli => Cpu { p: P { i: false, ..c.p }, ..c },
            Op::Clv => Cpu { p: P { v: false, ..c.p }, ..c },
            Op::Sec => Cpu { p: P { c: true, ..c.p }, ..c },
            Op::Sed => Cpu { p: P { d: true, ..c.p }, ..c },
            Op::Sei => Cpu { p: P { i: true, ..c.p }, ..c },
            Op::Dex => Cpu {
                x: c.x.wrapping_sub(1),
                p: P {
                    z: c.x.wrapping_sub(1) == 0,
                    n: c.x.wrapping_sub(1) & 0x80 == 0x80,
                    ..c.p
                },
                ..c
            },
            Op::Dey => Cpu {
                y: c.y.wrapping_sub(1),
                p: P {
                    z: c.y.wrapping_sub(1) == 0,
                    n: c.y.wrapping_sub(1) & 0x80 == 0x80,
                    ..c.p
                },
                ..c
            },
            Op::Inx => Cpu {
                x: c.x.wrapping_add(1),
                p: P {
                    z: c.x.wrapping_add(1) == 0,
                    n: c.x.wrapping_add(1) & 0x80 == 0x80,
                    ..c.p
                },
                ..c
            },
            Op::Iny => Cpu {
                y: c.y.wrapping_add(1),
                p: P {
                    z: c.y.wrapping_add(1) == 0,
                    n: c.y.wrapping_add(1) & 0x80 == 0x80,
                    ..c.p
                },
                ..c
            },
            Op::Tax => Cpu { x: c.a, p: P { z: c.a == 0, n: c.a & 0x80 == 0x80, ..c.p }, ..c },
            Op::Tay => Cpu { y: c.a, p: P { z: c.a == 0, n: c.a & 0x80 == 0x80, ..c.p }, ..c },
            Op::Tsx => Cpu { x: c.s, p: P { z: c.s == 0, n: c.s & 0x80 == 0x80, ..c.p }, ..c },
            Op::Txa => Cpu { a: c.x, p: P { z: c.x == 0, n: c.x & 0x80 == 0x80, ..c.p }, ..c },
            Op::Txs => Cpu { s: c.x, ..c },
            Op::Tya => Cpu { a: c.y, p: P { z: c.y == 0, n: c.y & 0x80 == 0x80, ..c.p }, ..c },
            _ => c,
        }
    }

    /// Perform an implied register-only mnemonic and step the program
    /// counter.
    #[verifier::rlimit(60)]
    #[verifier::spinoff_prover]
    fn exec_implied(&mut self, op: Op, l: u8, Ghost(i): Ghost<Inst>, Ghost(s0): Ghost<StateV>)
        requires
            old(self).wf(),
            old(self)@ == s0,
            op == op_of(i),
            l == spec_len(i),
            is_official(op),
            !(op is Adc || op is Sbc || op is And || op is Ora || op is Eor || op is Lda
                || op is Ldx || op is Ldy || op is Cmp || op is Cpx || op is Cpy || op is Bit
                || op is Sta || op is Stx || op is Sty || op is Asl || op is Lsr || op is Rol
                || op is Ror || op is Dec || op is Inc || op is Bcc || op is Bcs || op is Beq
                || op is Bne || op is Bmi || op is Bpl || op is Bvc || op is Bvs || op is Jmp
                || op is Jsr || op is Rts || op is Rti || op is Brk || op is Pha || op is Php
                || op is Pla || op is Plp),
        ensures
            Ok::<(), Fault>(()) == eval_spec(s0, i).0,
            final(self)@ == eval_spec(s0, i).1,
            final(self).wf(),
    {
        let c = State::implied_cpu_step(op, self.cpu);
        self.cpu = c;
        self.cpu.pc = self.cpu.pc.wrapping_add(l as u16);
        proof {
            assert(self@ =~= eval_spec(s0, i).1);
        }
    }
}

impl Inst {
    /// Perform this instruction's full documented effect on the machine,
    /// exactly as `eval_spec` lays it out: operand fetch through the bus,
    /// register and flag update, store or read-modify-write write-back,
    /// and program-counter advancement or redirection. An undocumented
    /// instruction or a bus fault stops the machine loudly.
    #[verifier::rlimit(60)]
    #[verifier::spinoff_prover]
    pub fn evaluate(&self, state: &mut State) -> (r: Result<(), Fault>)
        requires
            old(state).wf(),
        ensures
            r == eval_spec(old(state)@, *self).0,
            final(state)@ == eval_spec(old(state)@, *self).1,
            final(state).wf(),
    {
        let ghost s0 = state@;
        let (op, o) = self.classify();
        let l = self.len();
        if !official_op(op) {
            return Err(Fault::UnofficialInstruction);
        }
        match op {
            Op::Adc | Op::Sbc | Op::And | Op::Ora | Op::Eor | Op::Lda | Op::Ldx | Op::Ldy
                | Op::Cmp | Op::Cpx | Op::Cpy | Op::Bit => state.exec_read_class(
                op,
                o,
                l,
                Ghost(*self),
                Ghost(s0),
            ),
            Op::Sta | Op::Stx | Op::Sty => state.exec_store(op, o, l, Ghost(*self), Ghost(s0)),
            Op::Asl | Op::Lsr | Op::Rol | Op::Ror | Op::Dec | Op::Inc => state.exec_rmw(
                op,
                o,
                l,
                Ghost(*self),
                Ghost(s0),
            ),
            Op::Bcc | Op::Bcs | Op::Beq | Op::Bne | Op::Bmi | Op::Bpl | Op::Bvc | Op::Bvs => {
                state.exec_branch(op, o, l, Ghost(*self), Ghost(s0));
                Ok(())
            },
            Op::Jmp => state.exec_jmp(o, Ghost(*self), Ghost(s0)),
            Op::Jsr => {
                state.exec_jsr(o, Ghost(*self), Ghost(s0));
                Ok(())
            },
            Op::Rts => {
                state.exec_rts(Ghost(*self), Ghost(s0));
                Ok(())
            },
            Op::Rti => {
                state.exec_rti(Ghost(*self), Ghost(s0));
                Ok(())
            },
            Op::Brk => state.exec_brk(Ghost(*self), Ghost(s0)),
            Op::Pha | Op::Php | Op::Pla | Op::Plp => {
                state.exec_stack_op(op, l, Ghost(*self), Ghost(s0));
                Ok(())
            },
            _ => {
                state.exec_implied(op, l, Ghost(*self), Ghost(s0));
                Ok(())
            },
        }
    }
}

} // verus!
