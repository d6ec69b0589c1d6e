//! The 8080 CPU core: register file, memory, fetch-decode-execute,
//! interrupts and cycle accounting.
//!
//! The whole machine state is mirrored by the ghost [`CpuView`], and a
//! single instruction is specified by [`step_spec`], a mathematical
//! interpreter over that view. The executable interpreter is proved to
//! agree with it instruction by instruction.

use vstd::prelude::*;

use crate::flags::{pack_flags, unpack_flags, Flags};
use crate::machine::{input_spec, output_spec, SpaceInvadersIO};

verus! {

/// Two 8-bit registers addressable together as one 16-bit value,
/// high byte first.
#[derive(Clone, Copy, Debug, PartialEq, Eq, Structural)]
pub struct RegisterPair {
    pub hi: u8,
    pub lo: u8,
}

impl RegisterPair {
    pub fn new() -> (r: Self)
        ensures
            r.hi == 0 && r.lo == 0,
    {
        RegisterPair { hi: 0, lo: 0 }
    }

    /// The pair as a 16-bit word, most significant byte first.
    pub open spec fn word(self) -> u16 {
        (self.hi * 256 + self.lo) as u16
    }

    pub fn both(&self) -> (r: u16)
        ensures
            r == self.word(),
    {
        self.hi as u16 * 256 + self.lo as u16
    }

    /// Most significant byte.
    pub fn msb(&self) -> (r: u8)
        ensures
            r == self.hi,
    {
        self.hi
    }

    /// Least significant byte.
    pub fn lsb(&self) -> (r: u8)
        ensures
            r == self.lo,
    {
        self.lo
    }

    pub fn set_both(&mut self, v: u16)
        ensures
            final(self).hi == v / 256 && final(self).lo == v % 256,
            final(self).word() == v,
    {
        self.hi = (v / 256) as u8;
        self.lo = (v % 256) as u8;
    }

    pub fn set_msb(&mut self, v: u8)
        ensures
            *final(self) == (RegisterPair { hi: v, lo: old(self).lo }),
    {
        self.hi = v;
    }

    pub fn set_lsb(&mut self, v: u8)
        ensures
            *final(self) == (RegisterPair { hi: old(self).hi, lo: v }),
    {
        self.lo = v;
    }
}

/// A condition on which the emulation cannot continue: a write into the
/// ROM region, an opcode outside the implemented set, the HLT
/// instruction, or a read or write on an undefined I/O port. The state
/// of the machine is left at the offending instruction so that a host
/// can report the program counter and opcode.
#[derive(Clone, Copy, Debug, PartialEq, Eq, Structural)]
pub enum Trap {
    /// A store aimed at an address below 0x2000.
    RomWrite(u16),
    /// An opcode outside the implemented set.
    Unimplemented(u8),
    /// An input on a port other than 1, 2 or 3.
    InputPort(u8),
    /// An output on a port other than 2, 3, 4, 5 or 6.
    OutputPort(u8),
}

/// Size of the address space: 16 KiB, of which the low 8 KiB are ROM.
pub const MEMORY_SIZE: usize = 0x4000;

/// A 16-bit value reduced into the address space.
pub open spec fn mem_index(a: u16) -> int {
    a as int % 0x4000
}

/// Whether a store at this address would land in the write-protected
/// ROM region.
pub open spec fn is_rom(a: u16) -> bool {
    mem_index(a) < 0x2000
}

/// The byte read at an address, modulo the memory size.
pub open spec fn rd(m: Seq<u8>, a: u16) -> u8 {
    m[mem_index(a)]
}

/// The memory after a store, modulo the memory size.
pub open spec fn wr(m: Seq<u8>, a: u16, v: u8) -> Seq<u8> {
    m.update(mem_index(a), v)
}

/// 16-bit wrap-around of an arbitrary integer.
pub open spec fn wrap16(x: int) -> u16 {
    (x % 0x10000) as u16
}

/// The 16-bit word read little-endian at an address: low byte at `a`,
/// high byte at `a + 1`.
pub open spec fn rd16(m: Seq<u8>, a: u16) -> u16 {
    (rd(m, wrap16(a + 1)) * 256 + rd(m, a)) as u16
}

/// The memory after a little-endian 16-bit store.
pub open spec fn wr16(m: Seq<u8>, a: u16, v: u16) -> Seq<u8> {
    wr(wr(m, a, (v % 256) as u8), wrap16(a + 1), (v / 256) as u8)
}

/// The number of 1-bits in the binary form of a byte.
pub open spec fn ones(x: u8) -> nat
    decreases x,
{
    if x == 0 {
        0
    } else {
        (x % 2 + ones((x / 2) as u8)) as nat
    }
}

/// The parity flag value for a result byte: set when the number of
/// 1-bits is even.
pub open spec fn even_ones(x: u8) -> bool {
    ones(x) % 2 == 0
}

/// The mathematical image of the CPU: registers, memory, flags and
/// bookkeeping, free of any representation choice.
#[verifier::ext_equal]
pub ghost struct CpuView {
    pub a: u8,
    pub b: u8,
    pub c: u8,
    pub d: u8,
    pub e: u8,
    pub h: u8,
    pub l: u8,
    pub sp: u16,
    pub pc: u16,
    pub mem: Seq<u8>,
    pub flags: Flags,
    pub interrupts_enabled: bool,
    pub halted: bool,
    pub cycle_debt: u64,
}

impl CpuView {
    /// The memory always spans the full address space.
    pub open spec fn wf(self) -> bool {
        self.mem.len() == 0x4000
    }

    pub open spec fn bc(self) -> u16 {
        (self.b * 256 + self.c) as u16
    }

    pub open spec fn de(self) -> u16 {
        (self.d * 256 + self.e) as u16
    }

    pub open spec fn hl(self) -> u16 {
        (self.h * 256 + self.l) as u16
    }

    /// A paired with the packed flags, as pushed for PUSH PSW.
    pub open spec fn af(self) -> u16 {
        (self.a * 256 + pack_flags(self.flags)) as u16
    }

    /// The byte addressed by HL: the pseudo-register M.
    pub open spec fn m(self) -> u8 {
        rd(self.mem, self.hl())
    }

    /// The view after advancing the program counter by an instruction
    /// length.
    pub open spec fn adv(self, len: int) -> CpuView {
        CpuView { pc: wrap16(self.pc + len), ..self }
    }
}

/// A general register named by its 3-bit code: B, C, D, E, H, L, M, A.
/// Code 6 is the pseudo-register M, the byte at (HL).
pub open spec fn get_r(s: CpuView, r: u8) -> u8 {
    if r == 0 {
        s.b
    } else if r == 1 {
        s.c
    } else if r == 2 {
        s.d
    } else if r == 3 {
        s.e
    } else if r == 4 {
        s.h
    } else if r == 5 {
        s.l
    } else if r == 6 {
        s.m()
    } else {
        s.a
    }
}

/// The view after a store into the register named by a 3-bit code.
/// For code 6 the byte goes to memory at (HL); the caller is in charge
/// of the ROM check.
pub open spec fn set_r(s: CpuView, r: u8, v: u8) -> CpuView {
    if r == 0 {
        CpuView { b: v, ..s }
    } else if r == 1 {
        CpuView { c: v, ..s }
    } else if r == 2 {
        CpuView { d: v, ..s }
    } else if r == 3 {
        CpuView { e: v, ..s }
    } else if r == 4 {
        CpuView { h: v, ..s }
    } else if r == 5 {
        CpuView { l: v, ..s }
    } else if r == 6 {
        CpuView { mem: wr(s.mem, s.hl(), v), ..s }
    } else {
        CpuView { a: v, ..s }
    }
}

/// A register pair named by its 2-bit code: BC, DE, HL, SP.
pub open spec fn get_rp(s: CpuView, rp: u8) -> u16 {
    if rp == 0 {
        s.bc()
    } else if rp == 1 {
        s.de()
    } else if rp == 2 {
        s.hl()
    } else {
        s.sp
    }
}

/// The view after a 16-bit load into the register pair named by a
/// 2-bit code.
pub open spec fn set_rp(s: CpuView, rp: u8, v: u16) -> CpuView {
    if rp == 0 {
        CpuView { b: (v / 256) as u8, c: (v % 256) as u8, ..s }
    } else if rp == 1 {
        CpuView { d: (v / 256) as u8, e: (v % 256) as u8, ..s }
    } else if rp == 2 {
        CpuView { h: (v / 256) as u8, l: (v % 256) as u8, ..s }
    } else {
        CpuView { sp: v, ..s }
    }
}

/// A branch condition named by its 3-bit code:
/// NZ, Z, NC, C, PO, PE, P, M.
pub open spec fn cond(s: CpuView, cc: u8) -> bool {
    if cc == 0 {
        !s.flags.zero
    } else if cc == 1 {
        s.flags.zero
    } else if cc == 2 {
        !s.flags.carry
    } else if cc == 3 {
        s.flags.carry
    } else if cc == 4 {
        !s.flags.even_parity
    } else if cc == 5 {
        s.flags.even_parity
    } else if cc == 6 {
        !s.flags.sign_negative
    } else {
        s.flags.sign_negative
    }
}

/// Zero, sign and parity drawn from a result byte. Carry and auxiliary
/// carry keep the values handed in.
pub open spec fn zsp(f: Flags, r: u8) -> Flags {
    Flags {
        zero: r == 0,
        sign_negative: r >= 0x80,
        even_parity: even_ones(r),
        carry: f.carry,
        aux_carry: f.aux_carry,
    }
}

/// ADD and ADI: A plus an operand, computed in 16 bits; zero, sign and
/// parity from the low byte, carry from the overflow out of bit 7.
pub open spec fn spec_add(s: CpuView, v: u8) -> CpuView {
    let sum = s.a + v;
    let r = (sum % 256) as u8;
    CpuView {
        a: r,
        flags: Flags {
            zero: r == 0,
            sign_negative: r >= 0x80,
            even_parity: even_ones(r),
            carry: sum > 255,
            aux_carry: s.flags.aux_carry,
        },
        ..s
    }
}

/// The flag effect shared by the logical group: zero, sign and parity
/// from the result, carry cleared.
pub open spec fn spec_logic(s: CpuView, r: u8) -> CpuView {
    CpuView {
        a: r,
        flags: Flags {
            zero: r == 0,
            sign_negative: r >= 0x80,
            even_parity: even_ones(r),
            carry: false,
            aux_carry: s.flags.aux_carry,
        },
        ..s
    }
}

/// CMP and CPI: flags from A minus an operand, wrapping; carry set
/// exactly when A is below the operand as unsigned; A untouched.
pub open spec fn spec_cmp(s: CpuView, v: u8) -> CpuView {
    let r = ((s.a - v + 256) % 256) as u8;
    CpuView {
        flags: Flags {
            zero: r == 0,
            sign_negative: r >= 0x80,
            even_parity: even_ones(r),
            carry: s.a < v,
            aux_carry: s.flags.aux_carry,
        },
        ..s
    }
}

/// DAD: HL plus a 16-bit operand; only the carry flag changes, set from
/// the overflow out of bit 15.
pub open spec fn spec_dad(s: CpuView, v: u16) -> CpuView {
    let sum = s.hl() + v;
    let w = wrap16(sum);
    CpuView {
        h: (w / 256) as u8,
        l: (w % 256) as u8,
        flags: Flags { carry: sum > 0xffff, ..s.flags },
        ..s
    }
}

/// The view after a push: the word stored little-endian at SP-2 and
/// SP-1, SP lowered by two. The caller is in charge of the ROM check.
pub open spec fn spec_push(s: CpuView, v: u16) -> CpuView {
    CpuView { sp: wrap16(s.sp - 2), mem: wr16(s.mem, wrap16(s.sp - 2), v), ..s }
}

/// Whether a push from this state would land in ROM.
pub open spec fn push_hits_rom(s: CpuView) -> bool {
    is_rom(wrap16(s.sp - 2)) || is_rom(wrap16(s.sp - 1))
}

/// The word a pop reads: the 16-bit value little-endian at SP.
pub open spec fn spec_popped(s: CpuView) -> u16 {
    rd16(s.mem, s.sp)
}

/// The view after a pop: SP raised by two.
pub open spec fn spec_pop(s: CpuView) -> CpuView {
    CpuView { sp: wrap16(s.sp + 2), ..s }
}

/// The address a push from this state would first hit inside ROM.
pub open spec fn push_rom_addr(s: CpuView) -> u16 {
    if is_rom(wrap16(s.sp - 2)) {
        wrap16(s.sp - 2)
    } else {
        wrap16(s.sp - 1)
    }
}

/// The outcome of one instruction: either the machine proceeds to a new
/// state having spent a number of cycles, or it stops on a fatal trap
/// with the state untouched.
pub ghost enum StepSpec {
    Next { cpu: CpuView, io: SpaceInvadersIO, cycles: u64 },
    Stop { trap: Trap },
}

/// One instruction of the opcode quadrant below 0x40: the NOP
/// encodings, LXI, DAD, STAX/LDAX, STA/LDA, INX, INR, DCR, MVI, the
/// rotates and the flag instructions.
#[verifier::opaque]
pub open spec fn step_spec_low(s: CpuView, io: SpaceInvadersIO, op: u8) -> StepSpec {
    let row = op / 8;
    let col = op % 8;
    if col == 0 {
        // The eight NOP encodings.
        StepSpec::Next { cpu: s.adv(1), io, cycles: 4 }
    } else if col == 1 {
        if row % 2 == 0 {
            // LXI rp, d16
            let rp = (op / 16) as u8;
            StepSpec::Next {
                cpu: set_rp(s, rp, rd16(s.mem, wrap16(s.pc + 1))).adv(3),
                io,
                cycles: 10,
            }
        } else {
            // DAD rp
            let rp = (op / 16) as u8;
            StepSpec::Next { cpu: spec_dad(s, get_rp(s, rp)).adv(1), io, cycles: 10 }
        }
    } else if col == 2 {
        if op == 0x02 || op == 0x12 {
            // STAX B / STAX D
            let a16 = if op == 0x02 {
                s.bc()
            } else {
                s.de()
            };
            if is_rom(a16) {
                StepSpec::Stop { trap: Trap::RomWrite(a16) }
            } else {
                StepSpec::Next {
                    cpu: CpuView { mem: wr(s.mem, a16, s.a), ..s }.adv(1),
                    io,
                    cycles: 7,
                }
            }
        } else if op == 0x0a || op == 0x1a {
            // LDAX B / LDAX D
            let a16 = if op == 0x0a {
                s.bc()
            } else {
                s.de()
            };
            StepSpec::Next { cpu: CpuView { a: rd(s.mem, a16), ..s }.adv(1), io, cycles: 7 }
        } else if op == 0x32 {
            // STA a16
            let a16 = rd16(s.mem, wrap16(s.pc + 1));
            if is_rom(a16) {
                StepSpec::Stop { trap: Trap::RomWrite(a16) }
            } else {
                StepSpec::Next {
                    cpu: CpuView { mem: wr(s.mem, a16, s.a), ..s }.adv(3),
                    io,
                    cycles: 13,
                }
            }
        } else if op == 0x3a {
            // LDA a16
            let a16 = rd16(s.mem, wrap16(s.pc + 1));
            StepSpec::Next { cpu: CpuView { a: rd(s.mem, a16), ..s }.adv(3), io, cycles: 13 }
        } else {
            // SHLD / LHLD are outside the implemented set.
            StepSpec::Stop { trap: Trap::Unimplemented(op) }
        }
    } else if col == 3 {
        if row % 2 == 0 {
            // INX rp
            let rp = (op / 16) as u8;
            StepSpec::Next {
                cpu: set_rp(s, rp, wrap16(get_rp(s, rp) + 1)).adv(1),
                io,
                cycles: 5,
            }
        } else {
            // DCX is outside the implemented set.
            StepSpec::Stop { trap: Trap::Unimplemented(op) }
        }
    } else if col == 4 {
        // INR r: zero, sign and parity from the result, carry preserved.
        let r = row as u8;
        let v = ((get_r(s, r) + 1) % 256) as u8;
        if r == 6 && is_rom(s.hl()) {
            StepSpec::Stop { trap: Trap::RomWrite(s.hl()) }
        } else {
            StepSpec::Next {
                cpu: CpuView { flags: zsp(s.flags, v), ..set_r(s, r, v) }.adv(1),
                io,
                cycles: if r == 6 {
                    10
                } else {
                    5
                },
            }
        }
    } else if col == 5 {
        // DCR r: zero, sign and parity from the result, carry preserved.
        let r = row as u8;
        let v = ((get_r(s, r) + 255) % 256) as u8;
        if r == 6 && is_rom(s.hl()) {
            StepSpec::Stop { trap: Trap::RomWrite(s.hl()) }
        } else {
            StepSpec::Next {
                cpu: CpuView { flags: zsp(s.flags, v), ..set_r(s, r, v) }.adv(1),
                io,
                cycles: if r == 6 {
                    10
                } else {
                    5
                },
            }
        }
    } else if col == 6 {
        // MVI r, d8
        let r = row as u8;
        let v = rd(s.mem, wrap16(s.pc + 1));
        if r == 6 && is_rom(s.hl()) {
            StepSpec::Stop { trap: Trap::RomWrite(s.hl()) }
        } else {
            StepSpec::Next {
                cpu: set_r(s, r, v).adv(2),
                io,
                cycles: if r == 6 {
                    10
                } else {
                    7
                },
            }
        }
    } else {
        // col == 7: rotates and flag instructions.
        if row == 0 {
            // RLC: bit 7 into the carry and into bit 0.
            let a2 = (s.a % 128 * 2 + s.a / 128) as u8;
            StepSpec::Next {
                cpu: CpuView {
                    a: a2,
                    flags: Flags { carry: s.a >= 0x80, ..s.flags },
                    ..s
                }.adv(1),
                io,
                cycles: 4,
            }
        } else if row == 1 {
            // RRC: bit 0 into the carry and into bit 7.
            let a2 = (s.a / 2 + s.a % 2 * 128) as u8;
            StepSpec::Next {
                cpu: CpuView {
                    a: a2,
                    flags: Flags { carry: s.a % 2 == 1, ..s.flags },
                    ..s
                }.adv(1),
                io,
                cycles: 4,
            }
        } else if row == 2 {
            // RAL: rotate left through the carry.
            let a2 = (s.a % 128 * 2 + if s.flags.carry {
                1int
            } else {
                0int
            }) as u8;
            StepSpec::Next {
                cpu: CpuView {
                    a: a2,
                    flags: Flags { carry: s.a >= 0x80, ..s.flags },
                    ..s
                }.adv(1),
                io,
                cycles: 4,
            }
        } else if row == 3 {
            // RAR: rotate right through the carry.
            let a2 = (s.a / 2 + if s.flags.carry {
                128int
            } else {
                0int
            }) as u8;
            StepSpec::Next {
                cpu: CpuView {
                    a: a2,
                    flags: Flags { carry: s.a % 2 == 1, ..s.flags },
                    ..s
                }.adv(1),
                io,
                cycles: 4,
            }
        } else if row == 5 {
            // CMA: complement A, no flag change.
            StepSpec::Next { cpu: CpuView { a: !s.a, ..s }.adv(1), io, cycles: 4 }
        } else if row == 6 {
            // STC
            StepSpec::Next {
                cpu: CpuView { flags: Flags { carry: true, ..s.flags }, ..s }.adv(1),
                io,
                cycles: 4,
            }
        } else if row == 7 {
            // CMC
            StepSpec::Next {
                cpu: CpuView {
                    flags: Flags { carry: !s.flags.carry, ..s.flags },
                    ..s
                }.adv(1),
                io,
                cycles: 4,
            }
        } else {
            // DAA is outside the implemented set.
            StepSpec::Stop { trap: Trap::Unimplemented(op) }
        }
    }
}

/// One instruction of the opcode quadrant at 0xC0 and above: the
/// branches, calls, returns, stack operations, immediates and the
/// interrupt and I/O instructions.
#[verifier::opaque]
pub open spec fn step_spec_high(s: CpuView, io: SpaceInvadersIO, op: u8) -> StepSpec {
    let row = (op / 8 % 8) as u8;
    let col = op % 8;
    if col == 0 {
        // Rcc: return when the condition holds, else fall through.
        if cond(s, row) {
            StepSpec::Next {
                cpu: CpuView { pc: spec_popped(s), ..spec_pop(s) },
                io,
                cycles: 11,
            }
        } else {
            StepSpec::Next { cpu: s.adv(1), io, cycles: 5 }
        }
    } else if col == 1 {
        if row % 2 == 0 {
            // POP rp; rp 3 is the PSW pair (A, packed flags).
            let rp = row / 2;
            let v = spec_popped(s);
            if rp == 3 {
                StepSpec::Next {
                    cpu: CpuView {
                        a: (v / 256) as u8,
                        flags: unpack_flags((v % 256) as u8),
                        ..spec_pop(s)
                    }.adv(1),
                    io,
                    cycles: 10,
                }
            } else {
                StepSpec::Next { cpu: set_rp(spec_pop(s), rp, v).adv(1), io, cycles: 10 }
            }
        } else if row == 1 {
            // RET
            StepSpec::Next {
                cpu: CpuView { pc: spec_popped(s), ..spec_pop(s) },
                io,
                cycles: 10,
            }
        } else {
            // PCHL / SPHL and the alternative RET are outside the set.
            StepSpec::Stop { trap: Trap::Unimplemented(op) }
        }
    } else if col == 2 {
        // Jcc a16: ten cycles whether or not the branch is taken.
        let target = rd16(s.mem, wrap16(s.pc + 1));
        if cond(s, row) {
            StepSpec::Next { cpu: CpuView { pc: target, ..s }, io, cycles: 10 }
        } else {
            StepSpec::Next { cpu: s.adv(3), io, cycles: 10 }
        }
    } else if col == 3 {
        if row == 0 {
            // JMP a16
            let target = rd16(s.mem, wrap16(s.pc + 1));
            StepSpec::Next { cpu: CpuView { pc: target, ..s }, io, cycles: 10 }
        } else if row == 2 {
            // OUT d8
            let port = rd(s.mem, wrap16(s.pc + 1));
            match output_spec(io, port, s.a) {
                Ok(io2) => StepSpec::Next { cpu: s.adv(2), io: io2, cycles: 10 },
                Err(t) => StepSpec::Stop { trap: t },
            }
        } else if row == 3 {
            // IN d8
            let port = rd(s.mem, wrap16(s.pc + 1));
            match input_spec(io, port) {
                Ok(v) => StepSpec::Next { cpu: CpuView { a: v, ..s }.adv(2), io, cycles: 10 },
                Err(t) => StepSpec::Stop { trap: t },
            }
        } else if row == 5 {
            // XCHG: swap DE with HL.
            StepSpec::Next {
                cpu: CpuView { d: s.h, e: s.l, h: s.d, l: s.e, ..s }.adv(1),
                io,
                cycles: 5,
            }
        } else if row == 6 {
            // DI
            StepSpec::Next {
                cpu: CpuView { interrupts_enabled: false, ..s }.adv(1),
                io,
                cycles: 4,
            }
        } else if row == 7 {
            // EI
            StepSpec::Next {
                cpu: CpuView { interrupts_enabled: true, ..s }.adv(1),
                io,
                cycles: 4,
            }
        } else {
            // XTHL and the alternative JMP are outside the set.
            StepSpec::Stop { trap: Trap::Unimplemented(op) }
        }
    } else if col == 5 {
        if row % 2 == 0 {
            // PUSH rp; rp 3 is the PSW pair.
            let rp = row / 2;
            let v = if rp == 3 {
                s.af()
            } else {
                get_rp(s, rp)
            };
            if push_hits_rom(s) {
                StepSpec::Stop { trap: Trap::RomWrite(push_rom_addr(s)) }
            } else {
                StepSpec::Next { cpu: spec_push(s, v).adv(1), io, cycles: 11 }
            }
        } else if row == 1 {
            // CALL a16: push the return address, then jump.
            let target = rd16(s.mem, wrap16(s.pc + 1));
            if push_hits_rom(s) {
                StepSpec::Stop { trap: Trap::RomWrite(push_rom_addr(s)) }
            } else {
                StepSpec::Next {
                    cpu: CpuView { pc: target, ..spec_push(s, wrap16(s.pc + 3)) },
                    io,
                    cycles: 17,
                }
            }
        } else {
            // The alternative CALL encodings are outside the set.
            StepSpec::Stop { trap: Trap::Unimplemented(op) }
        }
    } else if col == 6 {
        // Immediate arithmetic and logic.
        let d8 = rd(s.mem, wrap16(s.pc + 1));
        if row == 0 {
            // ADI d8
            StepSpec::Next { cpu: spec_add(s, d8).adv(2), io, cycles: 7 }
        } else if row == 4 {
            // ANI d8
            StepSpec::Next { cpu: spec_logic(s, s.a & d8).adv(2), io, cycles: 7 }
        } else if row == 7 {
            // CPI d8
            StepSpec::Next { cpu: spec_cmp(s, d8).adv(2), io, cycles: 7 }
        } else {
            // ACI, SUI, SBI, XRI and ORI are outside the set.
            StepSpec::Stop { trap: Trap::Unimplemented(op) }
        }
    } else {
        // col == 4: the conditional calls; col == 7: RST. Outside the set.
        StepSpec::Stop { trap: Trap::Unimplemented(op) }
    }
}

/// One instruction, specified over the mathematical state: fetch the
/// byte at PC, perform the instruction's effect, advance PC by the
/// instruction length unless the instruction took control, and count
/// the cycles the opcode table prescribes.
#[verifier::opaque]
pub open spec fn step_spec(s: CpuView, io: SpaceInvadersIO) -> StepSpec {
    let op = rd(s.mem, s.pc);
    if op < 0x40 {
        step_spec_low(s, io, op)
    } else if op == 0x76 {
        // HLT: the machine enters its terminal halted state.
        StepSpec::Next { cpu: CpuView { halted: true, ..s.adv(1) }, io, cycles: 7 }
    } else if op < 0x80 {
        // MOV r, r'
        let ddd = (op / 8 % 8) as u8;
        let sss = op % 8;
        let v = get_r(s, sss);
        if ddd == 6 {
            if is_rom(s.hl()) {
                StepSpec::Stop { trap: Trap::RomWrite(s.hl()) }
            } else {
                StepSpec::Next { cpu: set_r(s, 6, v).adv(1), io, cycles: 7 }
            }
        } else {
            StepSpec::Next {
                cpu: set_r(s, ddd, v).adv(1),
                io,
                cycles: if sss == 6 {
                    7
                } else {
                    5
                },
            }
        }
    } else if op < 0xc0 {
        // The register arithmetic and logic block.
        let f = op / 8 % 8;
        let sss = op % 8;
        let v = get_r(s, sss);
        let cyc: u64 = if sss == 6 {
            7
        } else {
            4
        };
        if f == 0 {
            StepSpec::Next { cpu: spec_add(s, v).adv(1), io, cycles: cyc }
        } else if f == 4 {
            StepSpec::Next { cpu: spec_logic(s, s.a & v).adv(1), io, cycles: cyc }
        } else if f == 5 {
            StepSpec::Next { cpu: spec_logic(s, s.a ^ v).adv(1), io, cycles: cyc }
        } else if f == 6 {
            StepSpec::Next { cpu: spec_logic(s, s.a | v).adv(1), io, cycles: cyc }
        } else if f == 7 {
            StepSpec::Next { cpu: spec_cmp(s, v).adv(1), io, cycles: cyc }
        } else {
            // ADC, SUB and SBB are outside the implemented set.
            StepSpec::Stop { trap: Trap::Unimplemented(op) }
        }
    } else {
        step_spec_high(s, io, op)
    }
}

/// Whether the machine goes from one state to another in exactly `n`
/// instructions, following [`step_spec`] at every one of them, their
/// cycle counts summing to `cycles`.
pub open spec fn reaches(
    s0: CpuView,
    io0: SpaceInvadersIO,
    s1: CpuView,
    io1: SpaceInvadersIO,
    cycles: u64,
    n: nat,
) -> bool
    decreases n,
{
    if n == 0 {
        s0 == s1 && io0 == io1 && cycles == 0
    } else {
        match step_spec(s0, io0) {
            StepSpec::Next { cpu, io, cycles: c } => c <= cycles && reaches(
                cpu,
                io,
                s1,
                io1,
                (cycles - c) as u64,
                (n - 1) as nat,
            ),
            StepSpec::Stop { .. } => false,
        }
    }
}

/// A run extends by one more instruction at its end.
pub proof fn lemma_reaches_step(
    s0: CpuView,
    io0: SpaceInvadersIO,
    s1: CpuView,
    io1: SpaceInvadersIO,
    cycles: u64,
    n: nat,
    s2: CpuView,
    io2: SpaceInvadersIO,
    c: u64,
)
    requires
        reaches(s0, io0, s1, io1, cycles, n),
        step_spec(s1, io1) == (StepSpec::Next { cpu: s2, io: io2, cycles: c }),
        cycles + c <= u64::MAX,
    ensures
        reaches(s0, io0, s2, io2, (cycles + c) as u64, n + 1),
    decreases n,
{
    if n == 0 {
        assert(reaches(s2, io2, s2, io2, 0, 0));
    } else {
        match step_spec(s0, io0) {
            StepSpec::Next { cpu, io, cycles: c0 } => {
                lemma_reaches_step(
                    cpu,
                    io,
                    s1,
                    io1,
                    (cycles - c0) as u64,
                    (n - 1) as nat,
                    s2,
                    io2,
                    c,
                );
            },
            StepSpec::Stop { .. } => {
                assert(false);
            },
        }
    }
}

/// Whether the machine goes from one state to another by some run of
/// instructions whose cycle counts sum to `cycles`.
pub open spec fn stepped_to(
    s0: CpuView,
    io0: SpaceInvadersIO,
    s1: CpuView,
    io1: SpaceInvadersIO,
    cycles: u64,
) -> bool {
    exists|n: nat| reaches(s0, io0, s1, io1, cycles, n)
}

/// The executable CPU: register file, 16 KiB of memory, flags, the
/// interrupt-enable bit, the halted bit, and the unspent-cycle debt
/// carried across real-time steps.
pub struct State8080 {
    a: u8,
    bc: RegisterPair,
    de: RegisterPair,
    hl: RegisterPair,
    sp: u16,
    pc: u16,
    memory: Vec<u8>,
    flags: Flags,
    interrupts_enabled: bool,
    halted: bool,
    cycle_debt: u64,
}

impl View for State8080 {
    type V = CpuView;

    closed spec fn view(&self) -> CpuView {
        CpuView {
            a: self.a,
            b: self.bc.hi,
            c: self.bc.lo,
            d: self.de.hi,
            e: self.de.lo,
            h: self.hl.hi,
            l: self.hl.lo,
            sp: self.sp,
            pc: self.pc,
            mem: self.memory@,
            flags: self.flags,
            interrupts_enabled: self.interrupts_enabled,
            halted: self.halted,
            cycle_debt: self.cycle_debt,
        }
    }
}

/// 16-bit addition with wrap-around.
pub(crate) fn wrap_add16(a: u16, b: u16) -> (r: u16)
    ensures
        r == wrap16(a + b),
{
    ((a as u32 + b as u32) % 0x10000) as u16
}

/// 16-bit subtraction with wrap-around.
fn wrap_sub16(a: u16, b: u16) -> (r: u16)
    ensures
        r == wrap16(a - b),
{
    let r = ((a as u32 + 0x10000 - b as u32) % 0x10000) as u16;
    proof {
        vstd::arithmetic::div_mod::lemma_mod_add_multiples_vanish(a - b, 0x10000);
    }
    r
}

impl State8080 {
    // The state invariant: the memory vector always spans the whole
    // address space. Established by the constructor, preserved by
    // every operation.

    /// The machine state at construction from a ROM image: the image
    /// copied in at address zero, the rest of memory cleared,
    /// registers and flags zeroed, interrupts disabled, SP and PC
    /// zero, no cycle debt.
    pub open spec fn initial_view(rom: Seq<u8>) -> CpuView {
        CpuView {
            a: 0,
            b: 0,
            c: 0,
            d: 0,
            e: 0,
            h: 0,
            l: 0,
            sp: 0,
            pc: 0,
            mem: Seq::new(0x4000, |i: int| if i < rom.len() { rom[i] } else { 0u8 }),
            flags: Flags {
                zero: false,
                sign_negative: false,
                even_parity: false,
                carry: false,
                aux_carry: false,
            },
            interrupts_enabled: false,
            halted: false,
            cycle_debt: 0,
        }
    }

    /// Creates a machine with the ROM image copied in at address zero,
    /// the rest of memory cleared, registers and flags zeroed,
    /// interrupts disabled, SP and PC zero.
    pub fn new(rom: &[u8]) -> (r: Self)
        requires
            rom@.len() <= 0x2000,
        ensures
            r@.wf(),
            r@ == Self::initial_view(rom@),
    {
        let mut memory: Vec<u8> = Vec::new();
        let mut i: usize = 0;
        while i < rom.len()
            invariant
                i <= rom@.len(),
                memory@ =~= rom@.subrange(0, i as int),
            decreases rom@.len() - i,
        {
            memory.push(rom[i]);
            i = i + 1;
        }
        while memory.len() < MEMORY_SIZE
            invariant
                rom@.len() <= memory@.len() <= 0x4000,
                memory@.subrange(0, rom@.len() as int) =~= rom@,
                forall|j: int| rom@.len() <= j < memory@.len() ==> memory@[j] == 0u8,
            decreases MEMORY_SIZE - memory@.len(),
        {
            memory.push(0);
        }
        let r = State8080 {
            a: 0,
            bc: RegisterPair::new(),
            de: RegisterPair::new(),
            hl: RegisterPair::new(),
            sp: 0,
            pc: 0,
            memory,
            flags: Flags::cleared(),
            interrupts_enabled: false,
            halted: false,
            cycle_debt: 0,
        };
        proof {
            assert(r@.mem =~= Seq::new(
                0x4000,
                |i: int| if i < rom@.len() { rom@[i] } else { 0u8 },
            ));
        }
        r
    }

    // Register and state accessors.

    pub fn a(&self) -> (r: u8)
        ensures
            r == self@.a,
    {
        self.a
    }

    pub fn b(&self) -> (r: u8)
        ensures
            r == self@.b,
    {
        self.bc.msb()
    }

    pub fn c(&self) -> (r: u8)
        ensures
            r == self@.c,
    {
        self.bc.lsb()
    }

    pub fn d(&self) -> (r: u8)
        ensures
            r == self@.d,
    {
        self.de.msb()
    }

    pub fn e(&self) -> (r: u8)
        ensures
            r == self@.e,
    {
        self.de.lsb()
    }

    pub fn h(&self) -> (r: u8)
        ensures
            r == self@.h,
    {
        self.hl.msb()
    }

    pub fn l(&self) -> (r: u8)
        ensures
            r == self@.l,
    {
        self.hl.lsb()
    }

    pub fn bc(&self) -> (r: u16)
        ensures
            r == self@.bc(),
    {
        self.bc.both()
    }

    pub fn de(&self) -> (r: u16)
        ensures
            r == self@.de(),
    {
        self.de.both()
    }

    pub fn hl(&self) -> (r: u16)
        ensures
            r == self@.hl(),
    {
        self.hl.both()
    }

    /// A paired with the packed flag byte, as pushed for PUSH PSW.
    pub fn af(&self) -> (r: u16)
        ensures
            r == self@.af(),
    {
        self.a as u16 * 256 + self.flags.psw() as u16
    }

    /// The pseudo-register M: the byte at (HL).
    pub fn m(&self) -> (r: u8)
        requires
            self@.wf(),
        ensures
            r == self@.m(),
    {
        let hl = self.hl.both();
        self.read_byte(hl)
    }

    pub fn pc(&self) -> (r: u16)
        ensures
            r == self@.pc,
    {
        self.pc
    }

    pub fn sp(&self) -> (r: u16)
        ensures
            r == self@.sp,
    {
        self.sp
    }

    /// Presets the stack pointer, as a loader would before the program
    /// takes over with LXI SP.
    pub fn set_sp(&mut self, v: u16)
        ensures
            final(self)@ == (CpuView { sp: v, ..old(self)@ }),
    {
        self.sp = v;
    }

    pub fn flags(&self) -> (r: Flags)
        ensures
            r == self@.flags,
    {
        self.flags
    }

    pub fn interrupts_enabled(&self) -> (r: bool)
        ensures
            r == self@.interrupts_enabled,
    {
        self.interrupts_enabled
    }

    /// Whether the machine has executed HLT and reached its terminal
    /// state.
    pub fn halted(&self) -> (r: bool)
        ensures
            r == self@.halted,
    {
        self.halted
    }

    pub fn cycle_debt(&self) -> (r: u64)
        ensures
            r == self@.cycle_debt,
    {
        self.cycle_debt
    }

    /// A read-only view of the whole memory.
    pub fn memory(&self) -> (r: &[u8])
        ensures
            r@ == self@.mem,
    {
        self.memory.as_slice()
    }

    // Memory access. Every address is reduced modulo the memory size;
    // stores below 0x2000 are refused.

    /// Reads the byte at an address.
    pub fn read_byte(&self, address: u16) -> (r: u8)
        requires
            self@.wf(),
        ensures
            r == rd(self@.mem, address),
    {
        self.memory[(address as usize) % 0x4000]
    }

    /// Reads the 16-bit word little-endian at an address.
    pub fn read_bytes(&self, address: u16) -> (r: u16)
        requires
            self@.wf(),
        ensures
            r == rd16(self@.mem, address),
    {
        let lo = self.read_byte(address);
        let hi = self.read_byte(wrap_add16(address, 1));
        hi as u16 * 256 + lo as u16
    }

    /// Reads the byte following the current instruction.
    pub fn read_byte_immediate(&self) -> (r: u8)
        requires
            self@.wf(),
        ensures
            r == rd(self@.mem, wrap16(self@.pc + 1)),
    {
        self.read_byte(wrap_add16(self.pc, 1))
    }

    /// Reads the 16-bit word following the current instruction.
    pub fn read_bytes_immediate(&self) -> (r: u16)
        requires
            self@.wf(),
        ensures
            r == rd16(self@.mem, wrap16(self@.pc + 1)),
    {
        self.read_bytes(wrap_add16(self.pc, 1))
    }

    /// Stores a byte, or refuses the store when the address lands in
    /// the ROM region.
    pub fn write_byte(&mut self, address: u16, value: u8) -> (r: Result<(), Trap>)
        requires
            old(self)@.wf(),
        ensures
            final(self)@.wf(),
            match r {
                Ok(()) => !is_rom(address) && final(self)@ == (CpuView {
                    mem: wr(old(self)@.mem, address, value),
                    ..old(self)@
                }),
                Err(t) => is_rom(address) && t == Trap::RomWrite(address) && final(self)@ == old(
                    self,
                )@,
            },
    {
        let idx: usize = (address as usize) % 0x4000;
        if idx < 0x2000 {
            Err(Trap::RomWrite(address))
        } else {
            self.memory[idx] = value;
            Ok(())
        }
    }

    /// Stores a 16-bit word little-endian, or refuses the store when
    /// either byte would land in the ROM region.
    pub fn write_bytes(&mut self, address: u16, value: u16) -> (r: Result<(), Trap>)
        requires
            old(self)@.wf(),
        ensures
            final(self)@.wf(),
            match r {
                Ok(()) => !is_rom(address) && !is_rom(wrap16(address + 1)) && final(self)@
                    == (CpuView { mem: wr16(old(self)@.mem, address, value), ..old(self)@ }),
                Err(t) => (is_rom(address) || is_rom(wrap16(address + 1))) && t == Trap::RomWrite(
                    if is_rom(address) {
                        address
                    } else {
                        wrap16(address + 1)
                    },
                ) && final(self)@ == old(self)@,
            },
    {
        let second = wrap_add16(address, 1);
        if (address as usize) % 0x4000 < 0x2000 {
            Err(Trap::RomWrite(address))
        } else if (second as usize) % 0x4000 < 0x2000 {
            Err(Trap::RomWrite(second))
        } else {
            let _ = self.write_byte(address, (value % 256) as u8);
            let _ = self.write_byte(second, (value / 256) as u8);
            Ok(())
        }
    }

    // Control transfer and the stack.

    /// Advances PC by an instruction length.
    fn advance(&mut self, len: u16)
        ensures
            final(self)@ == old(self)@.adv(len as int),
    {
        self.pc = wrap_add16(self.pc, len);
    }

    /// Pops the 16-bit word at SP and raises SP by two.
    pub fn pop(&mut self) -> (r: u16)
        requires
            old(self)@.wf(),
        ensures
            final(self)@.wf(),
            r == spec_popped(old(self)@),
            final(self)@ == spec_pop(old(self)@),
    {
        let value = self.read_bytes(self.sp);
        self.sp = wrap_add16(self.sp, 2);
        value
    }

    /// Stores a word at SP-2 and SP-1 and lowers SP by two, or refuses
    /// when the store would land in ROM.
    pub fn push(&mut self, value: u16) -> (r: Result<(), Trap>)
        requires
            old(self)@.wf(),
        ensures
            final(self)@.wf(),
            match r {
                Ok(()) => !push_hits_rom(old(self)@) && final(self)@ == spec_push(
                    old(self)@,
                    value,
                ),
                Err(t) => push_hits_rom(old(self)@) && t == Trap::RomWrite(
                    push_rom_addr(old(self)@),
                ) && final(self)@ == old(self)@,
            },
    {
        let dst = wrap_sub16(self.sp, 2);
        proof {
            assert(wrap16(wrap16(old(self)@.sp - 2) + 1) == wrap16(old(self)@.sp - 1)) by {
                vstd::arithmetic::div_mod::lemma_mod_add_multiples_vanish(
                    old(self)@.sp - 2,
                    0x10000,
                );
                vstd::arithmetic::div_mod::lemma_mod_add_multiples_vanish(
                    old(self)@.sp - 1,
                    0x10000,
                );
            }
        }
        match self.write_bytes(dst, value) {
            Ok(()) => {
                self.sp = dst;
                Ok(())
            },
            Err(t) => Err(t),
        }
    }

    // The arithmetic and logic unit.

    /// Whether a byte has an even number of 1-bits.
    pub fn parity(x: u8) -> (r: bool)
        ensures
            r == even_ones(x),
    {
        let mut v: u8 = x;
        let mut acc: u8 = 0;
        while v != 0
            invariant
                acc <= 1,
                (ones(x) % 2 == 0) <==> ((ones(v) + acc) % 2 == 0),
            decreases v,
        {
            acc = (acc + v % 2) % 2;
            v = v / 2;
        }
        acc == 0
    }

    /// Sets zero, sign and parity from a result byte; carry untouched.
    fn set_zsp(&mut self, value: u8)
        ensures
            final(self)@ == (CpuView { flags: zsp(old(self)@.flags, value), ..old(self)@ }),
    {
        self.flags.zero = value == 0;
        self.flags.sign_negative = value >= 0x80;
        self.flags.even_parity = Self::parity(value);
    }

    /// Adds an operand into A, setting flags as the ADD group asks.
    fn add(&mut self, operand: u8)
        ensures
            final(self)@ == spec_add(old(self)@, operand),
    {
        let sum: u16 = self.a as u16 + operand as u16;
        let r = (sum % 256) as u8;
        self.flags.zero = r == 0;
        self.flags.sign_negative = r >= 0x80;
        self.flags.carry = sum > 255;
        self.flags.even_parity = Self::parity(r);
        self.a = r;
    }

    /// Sets A and the logical-group flags from a result byte.
    fn logic_result(&mut self, r: u8)
        ensures
            final(self)@ == spec_logic(old(self)@, r),
    {
        self.flags.zero = r == 0;
        self.flags.sign_negative = r >= 0x80;
        self.flags.carry = false;
        self.flags.even_parity = Self::parity(r);
        self.a = r;
    }

    /// Bitwise AND of A with an operand.
    fn and(&mut self, operand: u8)
        ensures
            final(self)@ == spec_logic(old(self)@, old(self)@.a & operand),
    {
        let r = self.a & operand;
        self.logic_result(r);
    }

    /// Bitwise OR of A with an operand.
    fn or(&mut self, operand: u8)
        ensures
            final(self)@ == spec_logic(old(self)@, old(self)@.a | operand),
    {
        let r = self.a | operand;
        self.logic_result(r);
    }

    /// Bitwise XOR of A with an operand.
    fn xor(&mut self, operand: u8)
        ensures
            final(self)@ == spec_logic(old(self)@, old(self)@.a ^ operand),
    {
        let r = self.a ^ operand;
        self.logic_result(r);
    }

    /// Compares A with an operand: flags from the wrapping difference,
    /// carry set exactly when A is below the operand; A untouched.
    fn cmp(&mut self, operand: u8)
        ensures
            final(self)@ == spec_cmp(old(self)@, operand),
    {
        let r = ((self.a as u16 + 256 - operand as u16) % 256) as u8;
        self.flags.zero = r == 0;
        self.flags.sign_negative = r >= 0x80;
        self.flags.carry = self.a < operand;
        self.flags.even_parity = Self::parity(r);
    }

    /// Adds a 16-bit operand into HL; only the carry flag changes.
    fn dad(&mut self, operand: u16)
        ensures
            final(self)@ == spec_dad(old(self)@, operand),
    {
        let sum: u32 = self.hl.both() as u32 + operand as u32;
        let w = (sum % 0x10000) as u16;
        self.flags.carry = sum > 0xffff;
        self.hl.set_both(w);
    }

    /// Sets A and the flags from a popped PSW word.
    fn set_af(&mut self, value: u16)
        ensures
            final(self)@ == (CpuView {
                a: (value / 256) as u8,
                flags: unpack_flags((value % 256) as u8),
                ..old(self)@
            }),
    {
        self.flags.set_psw((value % 256) as u8);
        self.a = (value / 256) as u8;
    }

    // Register selection by 3-bit code.

    /// Reads the general register named by a 3-bit code; code 6 reads
    /// the byte at (HL).
    fn reg(&self, r: u8) -> (v: u8)
        requires
            self@.wf(),
            r < 8,
        ensures
            v == get_r(self@, r),
    {
        if r == 0 {
            self.bc.msb()
        } else if r == 1 {
            self.bc.lsb()
        } else if r == 2 {
            self.de.msb()
        } else if r == 3 {
            self.de.lsb()
        } else if r == 4 {
            self.hl.msb()
        } else if r == 5 {
            self.hl.lsb()
        } else if r == 6 {
            self.m()
        } else {
            self.a
        }
    }

    /// Writes the general register named by a 3-bit code; code 6
    /// stores at (HL), refusing ROM addresses.
    fn set_reg(&mut self, r: u8, v: u8) -> (res: Result<(), Trap>)
        requires
            old(self)@.wf(),
            r < 8,
        ensures
            final(self)@.wf(),
            match res {
                Ok(()) => !(r == 6 && is_rom(old(self)@.hl())) && final(self)@ == set_r(
                    old(self)@,
                    r,
                    v,
                ),
                Err(t) => r == 6 && is_rom(old(self)@.hl()) && t == Trap::RomWrite(
                    old(self)@.hl(),
                ) && final(self)@ == old(self)@,
            },
    {
        if r == 0 {
            self.bc.set_msb(v);
            Ok(())
        } else if r == 1 {
            self.bc.set_lsb(v);
            Ok(())
        } else if r == 2 {
            self.de.set_msb(v);
            Ok(())
        } else if r == 3 {
            self.de.set_lsb(v);
            Ok(())
        } else if r == 4 {
            self.hl.set_msb(v);
            Ok(())
        } else if r == 5 {
            self.hl.set_lsb(v);
            Ok(())
        } else if r == 6 {
            let hl = self.hl.both();
            self.write_byte(hl, v)
        } else {
            self.a = v;
            Ok(())
        }
    }

    /// Reads the register pair named by a 2-bit code.
    fn pair(&self, rp: u8) -> (v: u16)
        requires
            rp < 4,
        ensures
            v == get_rp(self@, rp),
    {
        if rp == 0 {
            self.bc.both()
        } else if rp == 1 {
            self.de.both()
        } else if rp == 2 {
            self.hl.both()
        } else {
            self.sp
        }
    }

    /// Writes the register pair named by a 2-bit code.
    fn set_pair(&mut self, rp: u8, v: u16)
        requires
            rp < 4,
        ensures
            final(self)@ == set_rp(old(self)@, rp, v),
    {
        if rp == 0 {
            self.bc.set_both(v);
        } else if rp == 1 {
            self.de.set_both(v);
        } else if rp == 2 {
            self.hl.set_both(v);
        } else {
            self.sp = v;
        }
    }

    // Fetch-decode-execute.

    /// Executes one instruction of the quadrant below 0x40.
    fn emulate_low(&mut self, op: u8, io: Ghost<SpaceInvadersIO>) -> (r: Result<u64, Trap>)
        requires
            old(self)@.wf(),
            op == rd(old(self)@.mem, old(self)@.pc),
            op < 0x40,
        ensures
            final(self)@.wf(),
            final(self)@.cycle_debt == old(self)@.cycle_debt,
            match r {
                Ok(c) => step_spec_low(old(self)@, io@, op) == (StepSpec::Next {
                    cpu: final(self)@,
                    io: io@,
                    cycles: c,
                }) && 4 <= c <= 17,
                Err(t) => step_spec_low(old(self)@, io@, op) == (StepSpec::Stop { trap: t })
                    && final(self)@ == old(self)@,
            },
    {
        if op % 8 < 4 {
            self.emulate_low_a(op, io)
        } else if op % 8 < 6 {
            self.emulate_low_b(op, io)
        } else {
            self.emulate_low_c(op, io)
        }
    }

    /// The transfer half of the low quadrant: the NOP encodings, LXI,
    /// DAD, STAX, LDAX, STA, LDA and INX.
    #[verifier::spinoff_prover]
    fn emulate_low_a(&mut self, op: u8, io: Ghost<SpaceInvadersIO>) -> (r: Result<u64, Trap>)
        requires
            old(self)@.wf(),
            op == rd(old(self)@.mem, old(self)@.pc),
            op < 0x40,
            op % 8 < 4,
        ensures
            final(self)@.wf(),
            final(self)@.cycle_debt == old(self)@.cycle_debt,
            match r {
                Ok(c) => step_spec_low(old(self)@, io@, op) == (StepSpec::Next {
                    cpu: final(self)@,
                    io: io@,
                    cycles: c,
                }) && 4 <= c <= 17,
                Err(t) => step_spec_low(old(self)@, io@, op) == (StepSpec::Stop { trap: t })
                    && final(self)@ == old(self)@,
            },
    {
        proof {
            reveal(step_spec_low);
        }
        let row = op / 8;
        let col = op % 8;
        if col == 0 {
            // NOP
            self.advance(1);
            Ok(4)
        } else if col == 1 {
            let rp = op / 16;
            if row % 2 == 0 {
                // LXI rp, d16
                let v = self.read_bytes_immediate();
                self.set_pair(rp, v);
                self.advance(3);
                Ok(10)
            } else {
                // DAD rp
                let v = self.pair(rp);
                self.dad(v);
                self.advance(1);
                Ok(10)
            }
        } else if col == 2 {
            if op == 0x02 || op == 0x12 {
                // STAX
                let a16 = if op == 0x02 {
                    self.bc.both()
                } else {
                    self.de.both()
                };
                let a = self.a;
                match self.write_byte(a16, a) {
                    Ok(()) => {
                        self.advance(1);
                        Ok(7)
                    },
                    Err(t) => Err(t),
                }
            } else if op == 0x0a || op == 0x1a {
                // LDAX
                let a16 = if op == 0x0a {
                    self.bc.both()
                } else {
                    self.de.both()
                };
                self.a = self.read_byte(a16);
                self.advance(1);
                Ok(7)
            } else if op == 0x32 {
                // STA a16
                let a16 = self.read_bytes_immediate();
                let a = self.a;
                match self.write_byte(a16, a) {
                    Ok(()) => {
                        self.advance(3);
                        Ok(13)
                    },
                    Err(t) => Err(t),
                }
            } else if op == 0x3a {
                // LDA a16
                let a16 = self.read_bytes_immediate();
                self.a = self.read_byte(a16);
                self.advance(3);
                Ok(13)
            } else {
                Err(Trap::Unimplemented(op))
            }
        } else if col == 3 {
            if row % 2 == 0 {
                // INX rp
                let rp = op / 16;
                let v = self.pair(rp);
                let v2 = wrap_add16(v, 1);
                self.set_pair(rp, v2);
                self.advance(1);
                Ok(5)
            } else {
                Err(Trap::Unimplemented(op))
            }
        } else {
            Err(Trap::Unimplemented(op))
        }
    }

    /// The increment and decrement rows of the low quadrant: INR and
    /// DCR.
    #[verifier::rlimit(100)]
    #[verifier::spinoff_prover]
    fn emulate_low_b(&mut self, op: u8, io: Ghost<SpaceInvadersIO>) -> (r: Result<u64, Trap>)
        requires
            old(self)@.wf(),
            op == rd(old(self)@.mem, old(self)@.pc),
            op < 0x40,
            4 <= op % 8 < 6,
        ensures
            final(self)@.wf(),
            final(self)@.cycle_debt == old(self)@.cycle_debt,
            match r {
                Ok(c) => step_spec_low(old(self)@, io@, op) == (StepSpec::Next {
                    cpu: final(self)@,
                    io: io@,
                    cycles: c,
                }) && 4 <= c <= 17,
                Err(t) => step_spec_low(old(self)@, io@, op) == (StepSpec::Stop { trap: t })
                    && final(self)@ == old(self)@,
            },
    {
        proof {
            reveal(step_spec_low);
        }
        let row = op / 8;
        let col = op % 8;
        if col == 4 {
            // INR r
            let v0 = self.reg(row);
            let v = ((v0 as u16 + 1) % 256) as u8;
            match self.set_reg(row, v) {
                Ok(()) => {
                    self.set_zsp(v);
                    self.advance(1);
                    Ok(
                        if row == 6 {
                            10
                        } else {
                            5
                        },
                    )
                },
                Err(t) => Err(t),
            }
        } else if col == 5 {
            // DCR r
            let v0 = self.reg(row);
            let v = ((v0 as u16 + 255) % 256) as u8;
            match self.set_reg(row, v) {
                Ok(()) => {
                    self.set_zsp(v);
                    self.advance(1);
                    Ok(
                        if row == 6 {
                            10
                        } else {
                            5
                        },
                    )
                },
                Err(t) => Err(t),
            }
        } else {
            Err(Trap::Unimplemented(op))
        }
    }

    /// The immediate-load and rotate rows of the low quadrant: MVI,
    /// the rotates and the flag instructions.
    #[verifier::rlimit(100)]
    #[verifier::spinoff_prover]
    fn emulate_low_c(&mut self, op: u8, io: Ghost<SpaceInvadersIO>) -> (r: Result<u64, Trap>)
        requires
            old(self)@.wf(),
            op == rd(old(self)@.mem, old(self)@.pc),
            op < 0x40,
            op % 8 >= 6,
        ensures
            final(self)@.wf(),
            final(self)@.cycle_debt == old(self)@.cycle_debt,
            match r {
                Ok(c) => step_spec_low(old(self)@, io@, op) == (StepSpec::Next {
                    cpu: final(self)@,
                    io: io@,
                    cycles: c,
                }) && 4 <= c <= 17,
                Err(t) => step_spec_low(old(self)@, io@, op) == (StepSpec::Stop { trap: t })
                    && final(self)@ == old(self)@,
            },
    {
        proof {
            reveal(step_spec_low);
        }
        let row = op / 8;
        let col = op % 8;
        if col == 6 {
            // MVI r, d8
            let v = self.read_byte_immediate();
            match self.set_reg(row, v) {
                Ok(()) => {
                    self.advance(2);
                    Ok(
                        if row == 6 {
                            10
                        } else {
                            7
                        },
                    )
                },
                Err(t) => Err(t),
            }
        } else {
            if row == 0 {
                // RLC
                let a0 = self.a;
                self.a = a0 % 128 * 2 + a0 / 128;
                self.flags.carry = a0 >= 0x80;
                self.advance(1);
                Ok(4)
            } else if row == 1 {
                // RRC
                let a0 = self.a;
                self.a = a0 / 2 + a0 % 2 * 128;
                self.flags.carry = a0 % 2 == 1;
                self.advance(1);
                Ok(4)
            } else if row == 2 {
                // RAL
                let a0 = self.a;
                let cy: u8 = if self.flags.carry {
                    1
                } else {
                    0
                };
                self.a = a0 % 128 * 2 + cy;
                self.flags.carry = a0 >= 0x80;
                self.advance(1);
                Ok(4)
            } else if row == 3 {
                // RAR
                let a0 = self.a;
                let cy: u8 = if self.flags.carry {
                    128
                } else {
                    0
                };
                self.a = a0 / 2 + cy;
                self.flags.carry = a0 % 2 == 1;
                self.advance(1);
                Ok(4)
            } else if row == 5 {
                // CMA
                self.a = !self.a;
                self.advance(1);
                Ok(4)
            } else if row == 6 {
                // STC
                self.flags.carry = true;
                self.advance(1);
                Ok(4)
            } else if row == 7 {
                // CMC
                self.flags.carry = !self.flags.carry;
                self.advance(1);
                Ok(4)
            } else {
                Err(Trap::Unimplemented(op))
            }
        }
    }

    /// Executes one instruction of the quadrant at 0xC0 and above.
    fn emulate_high(&mut self, io: &mut SpaceInvadersIO, op: u8) -> (r: Result<u64, Trap>)
        requires
            old(self)@.wf(),
            op == rd(old(self)@.mem, old(self)@.pc),
            op >= 0xc0,
            crate::machine::io_wf(*old(io)),
        ensures
            final(self)@.wf(),
            crate::machine::io_wf(*final(io)),
            final(self)@.cycle_debt == old(self)@.cycle_debt,
            match r {
                Ok(c) => step_spec_high(old(self)@, *old(io), op) == (StepSpec::Next {
                    cpu: final(self)@,
                    io: *final(io),
                    cycles: c,
                }) && 4 <= c <= 17,
                Err(t) => step_spec_high(old(self)@, *old(io), op) == (StepSpec::Stop { trap: t })
                    && final(self)@ == old(self)@ && *final(io) == *old(io),
            },
    {
        proof {
            reveal(step_spec_high);
        }
        let row = op / 8 % 8;
        let col = op % 8;
        if col == 0 {
            // Rcc
            if self.cond_met(row) {
                let v = self.pop();
                self.pc = v;
                Ok(11)
            } else {
                self.advance(1);
                Ok(5)
            }
        } else if col == 1 {
            if row % 2 == 0 {
                // POP rp
                let rp = row / 2;
                let v = self.pop();
                if rp == 3 {
                    self.set_af(v);
                } else {
                    self.set_pair(rp, v);
                }
                self.advance(1);
                Ok(10)
            } else if row == 1 {
                // RET
                let v = self.pop();
                self.pc = v;
                Ok(10)
            } else {
                Err(Trap::Unimplemented(op))
            }
        } else if col == 2 {
            // Jcc a16
            let target = self.read_bytes_immediate();
            if self.cond_met(row) {
                self.pc = target;
                Ok(10)
            } else {
                self.advance(3);
                Ok(10)
            }
        } else if col == 3 {
            if row == 0 {
                // JMP a16
                let target = self.read_bytes_immediate();
                self.pc = target;
                Ok(10)
            } else if row == 2 {
                // OUT d8
                let port = self.read_byte_immediate();
                let a = self.a;
                match io.output(port, a) {
                    Ok(()) => {
                        self.advance(2);
                        Ok(10)
                    },
                    Err(t) => Err(t),
                }
            } else if row == 3 {
                // IN d8
                let port = self.read_byte_immediate();
                match io.input(port) {
                    Ok(v) => {
                        self.a = v;
                        self.advance(2);
                        Ok(10)
                    },
                    Err(t) => Err(t),
                }
            } else if row == 5 {
                // XCHG
                let d = self.de.msb();
                let e = self.de.lsb();
                let h = self.hl.msb();
                let l = self.hl.lsb();
                self.de.set_msb(h);
                self.de.set_lsb(l);
                self.hl.set_msb(d);
                self.hl.set_lsb(e);
                self.advance(1);
                Ok(5)
            } else if row == 6 {
                // DI
                self.interrupts_enabled = false;
                self.advance(1);
                Ok(4)
            } else if row == 7 {
                // EI
                self.interrupts_enabled = true;
                self.advance(1);
                Ok(4)
            } else {
                Err(Trap::Unimplemented(op))
            }
        } else if col == 5 {
            if row % 2 == 0 {
                // PUSH rp
                let rp = row / 2;
                let v = if rp == 3 {
                    self.af()
                } else {
                    self.pair(rp)
                };
                match self.push(v) {
                    Ok(()) => {
                        self.advance(1);
                        Ok(11)
                    },
                    Err(t) => Err(t),
                }
            } else if row == 1 {
                // CALL a16
                let target = self.read_bytes_immediate();
                let ret = wrap_add16(self.pc, 3);
                match self.push(ret) {
                    Ok(()) => {
                        self.pc = target;
                        Ok(17)
                    },
                    Err(t) => Err(t),
                }
            } else {
                Err(Trap::Unimplemented(op))
            }
        } else if col == 6 {
            let d8 = self.read_byte_immediate();
            if row == 0 {
                // ADI d8
                self.add(d8);
                self.advance(2);
                Ok(7)
            } else if row == 4 {
                // ANI d8
                self.and(d8);
                self.advance(2);
                Ok(7)
            } else if row == 7 {
                // CPI d8
                self.cmp(d8);
                self.advance(2);
                Ok(7)
            } else {
                Err(Trap::Unimplemented(op))
            }
        } else {
            Err(Trap::Unimplemented(op))
        }
    }

    /// Executes the next instruction: fetches the byte at PC, performs
    /// its effect, advances PC by the instruction length unless the
    /// instruction took control, and returns the cycles spent, exactly
    /// as [`step_spec`] lays down. On a trap the state and the I/O shim
    /// are left untouched, with PC still at the offending instruction.
    pub fn emulate(&mut self, io: &mut SpaceInvadersIO) -> (r: Result<u64, Trap>)
        requires
            old(self)@.wf(),
            !old(self)@.halted,
            crate::machine::io_wf(*old(io)),
        ensures
            final(self)@.wf(),
            crate::machine::io_wf(*final(io)),
            final(self)@.cycle_debt == old(self)@.cycle_debt,
            match r {
                Ok(c) => step_spec(old(self)@, *old(io)) == (StepSpec::Next {
                    cpu: final(self)@,
                    io: *final(io),
                    cycles: c,
                }) && 4 <= c <= 17,
                Err(t) => step_spec(old(self)@, *old(io)) == (StepSpec::Stop { trap: t })
                    && final(self)@ == old(self)@ && *final(io) == *old(io),
            },
    {
        proof {
            reveal(step_spec);
        }
        let op = self.read_byte(self.pc);
        if op < 0x40 {
            self.emulate_low(op, Ghost(*io))
        } else if op == 0x76 {
            // HLT: enter the terminal halted state.
            self.halted = true;
            self.advance(1);
            Ok(7)
        } else if op < 0x80 {
            // MOV r, r'
            let ddd = op / 8 % 8;
            let sss = op % 8;
            let v = self.reg(sss);
            match self.set_reg(ddd, v) {
                Ok(()) => {
                    self.advance(1);
                    Ok(
                        if ddd == 6 || sss == 6 {
                            7
                        } else {
                            5
                        },
                    )
                },
                Err(t) => Err(t),
            }
        } else if op < 0xc0 {
            // The register arithmetic and logic block.
            let f = op / 8 % 8;
            let sss = op % 8;
            let v = self.reg(sss);
            let cyc: u64 = if sss == 6 {
                7
            } else {
                4
            };
            if f == 0 {
                self.add(v);
                self.advance(1);
                Ok(cyc)
            } else if f == 4 {
                self.and(v);
                self.advance(1);
                Ok(cyc)
            } else if f == 5 {
                self.xor(v);
                self.advance(1);
                Ok(cyc)
            } else if f == 6 {
                self.or(v);
                self.advance(1);
                Ok(cyc)
            } else if f == 7 {
                self.cmp(v);
                self.advance(1);
                Ok(cyc)
            } else {
                Err(Trap::Unimplemented(op))
            }
        } else {
            self.emulate_high(io, op)
        }
    }

    /// Raises interrupt number `n`. When interrupts are enabled this
    /// pushes the current PC, jumps to `8 * n` and clears the
    /// interrupt-enable bit, all atomically; when they are disabled it
    /// is a no-op. The push can hit ROM only if the program left SP
    /// there; that store is refused like any other.
    pub fn interrupt(&mut self, interrupt_num: u16) -> (r: Result<(), Trap>)
        requires
            old(self)@.wf(),
            interrupt_num < 0x2000,
        ensures
            final(self)@.wf(),
            !old(self)@.interrupts_enabled ==> r == Ok::<(), Trap>(()) && final(self)@ == old(
                self,
            )@,
            old(self)@.interrupts_enabled && !push_hits_rom(old(self)@) ==> r == Ok::<(), Trap>(())
                && final(self)@ == (CpuView {
                pc: (8 * interrupt_num) as u16,
                interrupts_enabled: false,
                ..spec_push(old(self)@, old(self)@.pc)
            }),
            old(self)@.interrupts_enabled && push_hits_rom(old(self)@) ==> r == Err::<(), Trap>(
                Trap::RomWrite(push_rom_addr(old(self)@)),
            ) && final(self)@ == old(self)@,
    {
        if self.interrupts_enabled {
            let pc = self.pc;
            match self.push(pc) {
                Ok(()) => {
                    self.pc = 8 * interrupt_num;
                    self.interrupts_enabled = false;
                    Ok(())
                },
                Err(t) => Err(t),
            }
        } else {
            Ok(())
        }
    }

    /// The cycle budget a real-time step owes: twice the elapsed
    /// microseconds (the 2 MHz clock), less the cycles overspent by
    /// the previous step. Debt beyond the whole budget is carried,
    /// never forgiven.
    pub open spec fn step_budget(debt: u64, dt_micros: u64) -> int {
        if 2 * dt_micros >= debt {
            2 * dt_micros - debt
        } else {
            0
        }
    }

    /// Runs the machine for `dt_micros` microseconds of simulated time
    /// at 2 MHz: executes instructions until the cycles spent reach
    /// the budget, stores the overshoot as the new cycle debt, and
    /// returns the cycles spent. The overshoot never exceeds one
    /// instruction's worth, so the long-term rate converges on two
    /// cycles per microsecond. Stops early if the program halts; on a
    /// trap the state is left at the offending instruction.
    #[verifier::rlimit(100)]
    #[verifier::spinoff_prover]
    pub fn step(&mut self, dt_micros: u64, io: &mut SpaceInvadersIO) -> (r: Result<u64, Trap>)
        requires
            old(self)@.wf(),
            crate::machine::io_wf(*old(io)),
            dt_micros < 0x4000_0000_0000_0000,
        ensures
            final(self)@.wf(),
            crate::machine::io_wf(*final(io)),
            match r {
                Ok(spent) => {
                    &&& (!final(self)@.halted ==> spent + old(self)@.cycle_debt == 2 * dt_micros
                        + final(self)@.cycle_debt
                        && (final(self)@.cycle_debt <= 16
                        || final(self)@.cycle_debt <= old(self)@.cycle_debt))
                    &&& (final(self)@.halted ==> spent <= Self::step_budget(
                        old(self)@.cycle_debt,
                        dt_micros,
                    ) + 16 && final(self)@.cycle_debt == 0)
                    &&& (old(self)@.halted ==> spent == 0 && final(self)@ == (CpuView {
                        cycle_debt: 0,
                        ..old(self)@
                    }))
                    &&& stepped_to(
                        old(self)@,
                        *old(io),
                        (CpuView { cycle_debt: old(self)@.cycle_debt, ..final(self)@ }),
                        *final(io),
                        spent,
                    )
                },
                Err(t) => step_spec(final(self)@, *final(io)) == (StepSpec::Stop { trap: t })
                    && !final(self)@.halted && final(self)@.cycle_debt == old(self)@.cycle_debt
                    && (exists|cyc: u64|
                    #[trigger] stepped_to(old(self)@, *old(io), final(self)@, *final(io), cyc)),
            },
    {
        let twice: u64 = 2 * dt_micros;
        let budget: u64 = if twice >= self.cycle_debt {
            twice - self.cycle_debt
        } else {
            0
        };
        let mut spent: u64 = 0;
        proof {
            assert(reaches(self@, *io, self@, *io, 0, 0));
        }
        while spent < budget && !self.halted
            invariant
                self@.wf(),
                crate::machine::io_wf(*io),
                budget == Self::step_budget(old(self)@.cycle_debt, dt_micros),
                budget <= 0x8000_0000_0000_0000,
                spent <= budget + 16,
                budget == 0 ==> spent == 0,
                self@.cycle_debt == old(self)@.cycle_debt,
                old(self)@.halted ==> spent == 0 && self@ == old(self)@,
                exists|n: nat| #[trigger] reaches(old(self)@, *old(io), self@, *io, spent, n),
            decreases budget + 16 - spent,
        {
            let ghost pre_cpu = self@;
            let ghost pre_io = *io;
            let ghost pre_spent = spent;
            match self.emulate(io) {
                Ok(c) => {
                    proof {
                        let n = choose|n: nat|
                            reaches(old(self)@, *old(io), pre_cpu, pre_io, pre_spent, n);
                        lemma_reaches_step(
                            old(self)@,
                            *old(io),
                            pre_cpu,
                            pre_io,
                            pre_spent,
                            n,
                            self@,
                            *io,
                            c,
                        );
                    }
                    spent = spent + c;
                },
                Err(t) => {
                    proof {
                        let n = choose|n: nat|
                            reaches(old(self)@, *old(io), pre_cpu, pre_io, pre_spent, n);
                        assert(reaches(old(self)@, *old(io), self@, *io, pre_spent, n));
                        assert(stepped_to(old(self)@, *old(io), self@, *io, pre_spent));
                    }
                    return Err(t);
                },
            }
        }
        let ghost end_cpu = self@;
        let ghost wn = choose|n: nat| reaches(old(self)@, *old(io), self@, *io, spent, n);
        if self.halted {
            self.cycle_debt = 0;
        } else if twice >= self.cycle_debt {
            self.cycle_debt = spent - budget;
        } else {
            // The whole step was swallowed by debt: carry the rest.
            self.cycle_debt = self.cycle_debt - twice;
        }
        proof {
            assert(end_cpu == (CpuView { cycle_debt: old(self)@.cycle_debt, ..self@ }));
            assert(reaches(old(self)@, *old(io), end_cpu, *io, spent, wn));
            assert(stepped_to(old(self)@, *old(io), end_cpu, *io, spent));
        }
        Ok(spent)
    }

    /// Evaluates the branch condition named by a 3-bit code.
    fn cond_met(&self, cc: u8) -> (r: bool)
        requires
            cc < 8,
        ensures
            r == cond(self@, cc),
    {
        if cc == 0 {
            !self.flags.zero
        } else if cc == 1 {
            self.flags.zero
        } else if cc == 2 {
            !self.flags.carry
        } else if cc == 3 {
            self.flags.carry
        } else if cc == 4 {
            !self.flags.even_parity
        } else if cc == 5 {
            self.flags.even_parity
        } else if cc == 6 {
            !self.flags.sign_negative
        } else {
            self.flags.sign_negative
        }
    }
}

} // verus!
