//! Laws of the instruction set that relate several operations: the
//! stack inverses, the call/return round trip, the branch costs, the
//! ROM write protection and the cycle-rate accounting.

use vstd::prelude::*;

use crate::i8080::{
    cond, get_r, get_rp, is_rom, mem_index, push_hits_rom, push_rom_addr, rd, rd16, set_rp,
    spec_add, spec_cmp, spec_logic, step_spec, wr16, wrap16, CpuView, StepSpec, Trap,
};
use crate::i8080::{even_ones, spec_push};
use crate::machine::SpaceInvadersIO;

verus! {

/// Register-pair aliasing: a 16-bit load into a pair leaves its high
/// byte in the first-named register, its low byte in the second, and
/// the pair reads back as the whole word. So after LXI B the B
/// register holds the high byte, C the low byte, and BC the word, and
/// likewise for DE and HL.
pub proof fn lemma_register_pair_aliasing(s: CpuView, rp: u8, v: u16)
    requires
        rp < 3,
    ensures
        get_rp(set_rp(s, rp, v), rp) == v,
        get_r(set_rp(s, rp, v), (2 * rp) as u8) == v / 256,
        get_r(set_rp(s, rp, v), (2 * rp + 1) as u8) == v % 256,
{
    assert(256 * (v / 256) + v % 256 == v) by {
        vstd::arithmetic::div_mod::lemma_fundamental_div_mod(v as int, 256);
    }
}

/// The parity flag law: every arithmetic and logical result sets P
/// exactly when the number of 1-bits in the result byte is even. The
/// compare instructions set it from the difference they compute.
pub proof fn lemma_parity_flag(s: CpuView, v: u8)
    ensures
        spec_add(s, v).flags.even_parity == even_ones(spec_add(s, v).a),
        spec_logic(s, v).flags.even_parity == even_ones(v),
        spec_cmp(s, v).flags.even_parity == even_ones((((s.a - v + 256) % 256) as u8)),
{
}

/// Reading a word back from where it was just stored gives the word:
/// the two bytes of a 16-bit store land little-endian at consecutive
/// addresses.
pub proof fn lemma_rd16_wr16(m: Seq<u8>, a: u16, v: u16)
    requires
        m.len() == 0x4000,
    ensures
        rd16(wr16(m, a, v), a) == v,
{
    vstd::arithmetic::div_mod::lemma_mod_mod(a + 1, 0x4000, 4);
    assert(mem_index(wrap16(a + 1)) == (a + 1) % 0x4000);
    assert(mem_index(a) != mem_index(wrap16(a + 1)));
    vstd::arithmetic::div_mod::lemma_fundamental_div_mod(v as int, 256);
}

/// Reducing into the address space commutes with the 16-bit wrap, the
/// memory size being a divisor of the wrap modulus.
proof fn lemma_wrap_index(x: int)
    ensures
        mem_index(wrap16(x)) == (x % 0x10000) % 0x4000,
        wrap16(x + 0x10000) == wrap16(x),
{
    vstd::arithmetic::div_mod::lemma_mod_add_multiples_vanish(x, 0x10000);
}

/// One PUSH instruction, characterized against the spec interpreter.
proof fn lemma_step_push(s: CpuView, io: SpaceInvadersIO, rp: u8)
    requires
        s.wf(),
        !s.halted,
        rp < 4,
        rd(s.mem, s.pc) == 0xc5 + 16 * rp,
        !push_hits_rom(s),
    ensures
        step_spec(s, io) == (StepSpec::Next {
            cpu: spec_push(
                s,
                if rp == 3 {
                    s.af()
                } else {
                    get_rp(s, rp)
                },
            ).adv(1),
            io,
            cycles: 11u64,
        }),
{
    reveal(step_spec);
    reveal(crate::i8080::step_spec_high);
    let op = rd(s.mem, s.pc);
    assert(op >= 0xc0 && op % 8 == 5 && (op / 8 % 8) % 2 == 0 && op / 8 % 8 / 2 == rp);
}

/// One POP instruction, characterized against the spec interpreter.
proof fn lemma_step_pop(s: CpuView, io: SpaceInvadersIO, rp: u8)
    requires
        s.wf(),
        !s.halted,
        rp < 4,
        rd(s.mem, s.pc) == 0xc1 + 16 * rp,
    ensures
        rp < 3 ==> step_spec(s, io) == (StepSpec::Next {
            cpu: set_rp(crate::i8080::spec_pop(s), rp, crate::i8080::spec_popped(s)).adv(1),
            io,
            cycles: 10u64,
        }),
        rp == 3 ==> step_spec(s, io) == (StepSpec::Next {
            cpu: (CpuView {
                a: (crate::i8080::spec_popped(s) / 256) as u8,
                flags: crate::flags::unpack_flags((crate::i8080::spec_popped(s) % 256) as u8),
                ..crate::i8080::spec_pop(s)
            }).adv(1),
            io,
            cycles: 10u64,
        }),
{
    reveal(step_spec);
    reveal(crate::i8080::step_spec_high);
    let op = rd(s.mem, s.pc);
    assert(op >= 0xc0 && op % 8 == 1 && (op / 8 % 8) % 2 == 0 && op / 8 % 8 / 2 == rp);
}

/// One CALL instruction, characterized against the spec interpreter.
proof fn lemma_step_call(s: CpuView, io: SpaceInvadersIO)
    requires
        s.wf(),
        !s.halted,
        rd(s.mem, s.pc) == 0xcd,
        !push_hits_rom(s),
    ensures
        step_spec(s, io) == (StepSpec::Next {
            cpu: CpuView {
                pc: rd16(s.mem, wrap16(s.pc + 1)),
                ..spec_push(s, wrap16(s.pc + 3))
            },
            io,
            cycles: 17u64,
        }),
{
    reveal(step_spec);
    reveal(crate::i8080::step_spec_high);
    let op = rd(s.mem, s.pc);
    assert(op >= 0xc0 && op % 8 == 5 && op / 8 % 8 == 1);
}

/// One RET instruction, characterized against the spec interpreter.
proof fn lemma_step_ret(s: CpuView, io: SpaceInvadersIO)
    requires
        s.wf(),
        !s.halted,
        rd(s.mem, s.pc) == 0xc9,
    ensures
        step_spec(s, io) == (StepSpec::Next {
            cpu: CpuView { pc: crate::i8080::spec_popped(s), ..crate::i8080::spec_pop(s) },
            io,
            cycles: 10u64,
        }),
{
    reveal(step_spec);
    reveal(crate::i8080::step_spec_high);
    let op = rd(s.mem, s.pc);
    assert(op >= 0xc0 && op % 8 == 1 && op / 8 % 8 == 1);
}

/// Push/pop inverse: a PUSH of a register pair followed by the
/// matching POP leaves the pair and SP unchanged and overwrites only
/// the two bytes below the old SP, which afterwards hold the pair
/// little-endian. Code rp 3 is the PSW pair: A with the packed flags,
/// both of which also survive the round trip.
#[verifier::rlimit(100)]
#[verifier::spinoff_prover]
pub proof fn lemma_push_pop_inverse(s: CpuView, io: SpaceInvadersIO, rp: u8)
    requires
        s.wf(),
        !s.halted,
        rp < 4,
        rd(s.mem, s.pc) == 0xc5 + 16 * rp,
        rd(s.mem, wrap16(s.pc + 1)) == 0xc1 + 16 * rp,
        !push_hits_rom(s),
        mem_index(wrap16(s.sp - 2)) != mem_index(wrap16(s.pc + 1)),
        mem_index(wrap16(s.sp - 1)) != mem_index(wrap16(s.pc + 1)),
    ensures
        ({
            let v = if rp == 3 {
                s.af()
            } else {
                get_rp(s, rp)
            };
            let r1 = step_spec(s, io);
            &&& r1 is Next
            &&& r1->Next_cycles == 11
            &&& {
                let s1 = r1->Next_cpu;
                let r2 = step_spec(s1, io);
                &&& s1.sp == wrap16(s.sp - 2)
                &&& rd(s1.mem, wrap16(s.sp - 2)) == v % 256
                &&& rd(s1.mem, wrap16(s.sp - 1)) == v / 256
                &&& r2 is Next
                &&& r2->Next_cycles == 10
                &&& {
                    let s2 = r2->Next_cpu;
                    &&& s2.sp == s.sp
                    &&& (rp < 3 ==> get_rp(s2, rp) == v)
                    &&& (rp == 3 ==> s2.a == s.a && s2.flags == s.flags)
                    &&& s2.pc == wrap16(s.pc + 2)
                }
            }
        }),
{
    let v = if rp == 3 {
        s.af()
    } else {
        get_rp(s, rp)
    };
    lemma_step_push(s, io, rp);
    let r1 = step_spec(s, io);
    let s1 = r1->Next_cpu;
    assert(s1 == spec_push(s, v).adv(1));
    lemma_wrap_index(s.sp - 1);
    lemma_wrap_index(s.sp - 2);
    assert(wrap16(wrap16(s.sp - 2) + 1) == wrap16(s.sp - 1)) by {
        vstd::arithmetic::div_mod::lemma_mod_add_multiples_vanish(s.sp - 2, 0x10000);
        vstd::arithmetic::div_mod::lemma_mod_add_multiples_vanish(s.sp - 1, 0x10000);
    }
    lemma_rd16_wr16(s.mem, wrap16(s.sp - 2), v);
    assert(rd(s1.mem, s1.pc) == 0xc1 + 16 * rp) by {
        vstd::arithmetic::div_mod::lemma_mod_mod(s.pc + 1, 0x4000, 4);
    }
    lemma_step_pop(s1, io, rp);
    assert(crate::i8080::spec_popped(s1) == v);
    assert(wrap16(wrap16(s.sp - 2) + 2) == s.sp) by {
        vstd::arithmetic::div_mod::lemma_mod_add_multiples_vanish(s.sp as int, 0x10000);
    }
    if rp == 3 {
        let r2 = step_spec(s1, io);
        let s2 = r2->Next_cpu;
        assert(s2.a == (v / 256) as u8 && s2.flags == crate::flags::unpack_flags(
            (v % 256) as u8,
        ));
        assert(v / 256 == s.a && v % 256 == crate::flags::pack_flags(s.flags)) by {
            vstd::arithmetic::div_mod::lemma_fundamental_div_mod(v as int, 256);
        }
        crate::flags::lemma_flags_unpack_pack(s.flags);
    } else {
        assert(get_rp(set_rp(crate::i8080::spec_pop(s1), rp, v), rp) == v) by {
            vstd::arithmetic::div_mod::lemma_fundamental_div_mod(v as int, 256);
        }
    }
    assert(wrap16(wrap16(s.pc + 1) + 1) == wrap16(s.pc + 2)) by {
        vstd::arithmetic::div_mod::lemma_mod_add_multiples_vanish(s.pc + 1, 0x10000);
        vstd::arithmetic::div_mod::lemma_mod_add_multiples_vanish(s.pc + 2, 0x10000);
    }
}

/// Call/return round trip: a CALL whose target holds RET comes back
/// with PC at the instruction after the CALL and SP unchanged, the
/// return address having passed over the stack.
#[verifier::rlimit(100)]
#[verifier::spinoff_prover]
pub proof fn lemma_call_ret_round_trip(s: CpuView, io: SpaceInvadersIO)
    requires
        s.wf(),
        !s.halted,
        rd(s.mem, s.pc) == 0xcd,
        !push_hits_rom(s),
        rd(s.mem, rd16(s.mem, wrap16(s.pc + 1))) == 0xc9,
        mem_index(wrap16(s.sp - 2)) != mem_index(rd16(s.mem, wrap16(s.pc + 1))),
        mem_index(wrap16(s.sp - 1)) != mem_index(rd16(s.mem, wrap16(s.pc + 1))),
    ensures
        ({
            let target = rd16(s.mem, wrap16(s.pc + 1));
            let r1 = step_spec(s, io);
            &&& r1 is Next
            &&& r1->Next_cycles == 17
            &&& {
                let s1 = r1->Next_cpu;
                let r2 = step_spec(s1, io);
                &&& s1.pc == target
                &&& s1.sp == wrap16(s.sp - 2)
                &&& r2 is Next
                &&& r2->Next_cycles == 10
                &&& {
                    let s2 = r2->Next_cpu;
                    &&& s2.pc == wrap16(s.pc + 3)
                    &&& s2.sp == s.sp
                }
            }
        }),
{
    let target = rd16(s.mem, wrap16(s.pc + 1));
    lemma_step_call(s, io);
    let r1 = step_spec(s, io);
    let s1 = r1->Next_cpu;
    assert(s1.mem == wr16(s.mem, wrap16(s.sp - 2), wrap16(s.pc + 3)));
    assert(wrap16(wrap16(s.sp - 2) + 1) == wrap16(s.sp - 1)) by {
        vstd::arithmetic::div_mod::lemma_mod_add_multiples_vanish(s.sp - 2, 0x10000);
        vstd::arithmetic::div_mod::lemma_mod_add_multiples_vanish(s.sp - 1, 0x10000);
    }
    assert(rd(s1.mem, s1.pc) == 0xc9);
    lemma_step_ret(s1, io);
    lemma_rd16_wr16(s.mem, wrap16(s.sp - 2), wrap16(s.pc + 3));
    assert(crate::i8080::spec_popped(s1) == wrap16(s.pc + 3));
    assert(wrap16(wrap16(s.sp - 2) + 2) == s.sp) by {
        vstd::arithmetic::div_mod::lemma_mod_add_multiples_vanish(s.sp as int, 0x10000);
    }
}

/// Branch cost discrimination for the conditional jumps: every Jcc
/// spends ten cycles whether or not it is taken; taken it lands on the
/// target address, not taken it falls through to the next instruction.
pub proof fn lemma_jcc_cost(s: CpuView, io: SpaceInvadersIO, cc: u8)
    requires
        s.wf(),
        !s.halted,
        cc < 8,
        rd(s.mem, s.pc) == 0xc2 + 8 * cc,
    ensures
        step_spec(s, io) is Next,
        step_spec(s, io)->Next_cycles == 10,
        cond(s, cc) ==> step_spec(s, io)->Next_cpu.pc == rd16(s.mem, wrap16(s.pc + 1)),
        !cond(s, cc) ==> step_spec(s, io)->Next_cpu.pc == wrap16(s.pc + 3),
{
    reveal(step_spec);
    reveal(crate::i8080::step_spec_high);
    let op = rd(s.mem, s.pc);
    assert(op >= 0xc0 && op % 8 == 2 && op / 8 % 8 == cc);
}

/// Branch cost discrimination for the conditional returns: a taken
/// Rcc spends eleven cycles and pops the return address; one not
/// taken spends five and falls through.
pub proof fn lemma_rcc_cost(s: CpuView, io: SpaceInvadersIO, cc: u8)
    requires
        s.wf(),
        !s.halted,
        cc < 8,
        rd(s.mem, s.pc) == 0xc0 + 8 * cc,
    ensures
        step_spec(s, io) is Next,
        cond(s, cc) ==> step_spec(s, io)->Next_cycles == 11 && step_spec(s, io)->Next_cpu.pc
            == rd16(s.mem, s.sp),
        !cond(s, cc) ==> step_spec(s, io)->Next_cycles == 5 && step_spec(s, io)->Next_cpu.pc
            == wrap16(s.pc + 1),
{
    reveal(step_spec);
    reveal(crate::i8080::step_spec_high);
    let op = rd(s.mem, s.pc);
    assert(op >= 0xc0 && op % 8 == 0 && op / 8 % 8 == cc);
}

/// ROM protection: every store aimed below 0x2000 stops the machine
/// with a write trap naming the address — STA, the stores through HL
/// (MOV M,r and MVI M), the stores through BC and DE (STAX), and the
/// stack stores of PUSH and CALL.
pub proof fn lemma_rom_protection(s: CpuView, io: SpaceInvadersIO)
    requires
        s.wf(),
        !s.halted,
    ensures
        rd(s.mem, s.pc) == 0x32 && is_rom(rd16(s.mem, wrap16(s.pc + 1))) ==> step_spec(s, io)
            == (StepSpec::Stop { trap: Trap::RomWrite(rd16(s.mem, wrap16(s.pc + 1))) }),
        0x70 <= rd(s.mem, s.pc) < 0x78 && rd(s.mem, s.pc) != 0x76 && is_rom(s.hl()) ==> step_spec(
            s,
            io,
        ) == (StepSpec::Stop { trap: Trap::RomWrite(s.hl()) }),
        rd(s.mem, s.pc) == 0x36 && is_rom(s.hl()) ==> step_spec(s, io) == (StepSpec::Stop {
            trap: Trap::RomWrite(s.hl()),
        }),
        rd(s.mem, s.pc) == 0x02 && is_rom(s.bc()) ==> step_spec(s, io) == (StepSpec::Stop {
            trap: Trap::RomWrite(s.bc()),
        }),
        rd(s.mem, s.pc) == 0x12 && is_rom(s.de()) ==> step_spec(s, io) == (StepSpec::Stop {
            trap: Trap::RomWrite(s.de()),
        }),
        (rd(s.mem, s.pc) == 0xc5 || rd(s.mem, s.pc) == 0xd5 || rd(s.mem, s.pc) == 0xe5 || rd(
            s.mem,
            s.pc,
        ) == 0xf5 || rd(s.mem, s.pc) == 0xcd) && push_hits_rom(s) ==> step_spec(s, io)
            == (StepSpec::Stop { trap: Trap::RomWrite(push_rom_addr(s)) }),
{
    reveal(step_spec);
    reveal(crate::i8080::step_spec_low);
    reveal(crate::i8080::step_spec_high);
}

/// Cycle-rate convergence: consecutive real-time steps telescope.
/// Each step spends exactly its budget plus the debt it leaves, and
/// the budget is twice the elapsed microseconds less the debt carried
/// in; so across two steps the cycles spent add up to twice the total
/// time, corrected only by the debts at the two ends, each of which
/// stays below one instruction's cost.
pub proof fn lemma_cycle_rate(
    d0: u64,
    dt1: u64,
    g1: u64,
    s1: u64,
    dt2: u64,
    g2: u64,
    s2: u64,
)
    requires
        s1 + d0 == 2 * dt1 + g1,
        s2 + g1 == 2 * dt2 + g2,
    ensures
        s1 + s2 == 2 * (dt1 + dt2) - d0 + g2,
{
}

} // verus!
