use invaders::i8080::{State8080, Trap};
use invaders::machine::SpaceInvadersIO;

fn run(state: &mut State8080, io: &mut SpaceInvadersIO, n: usize) -> u64 {
    let mut cycles: u64 = 0;
    for _ in 0..n {
        cycles += state.emulate(io).expect("instruction should execute");
    }
    cycles
}

#[test]
fn register_pair_aliasing_lxi_b() {
    // LXI B, 0xABCD; HLT
    let mut state = State8080::new(&[0x01, 0xcd, 0xab, 0x76]);
    let mut io = SpaceInvadersIO::new();
    run(&mut state, &mut io, 1);
    assert_eq!(state.b(), 0xab);
    assert_eq!(state.c(), 0xcd);
    assert_eq!(state.bc(), 0xabcd);
}

#[test]
fn register_pair_aliasing_lxi_d_and_h() {
    let mut state = State8080::new(&[0x11, 0x34, 0x12, 0x21, 0x78, 0x56]);
    let mut io = SpaceInvadersIO::new();
    run(&mut state, &mut io, 2);
    assert_eq!(state.d(), 0x12);
    assert_eq!(state.e(), 0x34);
    assert_eq!(state.de(), 0x1234);
    assert_eq!(state.h(), 0x56);
    assert_eq!(state.l(), 0x78);
    assert_eq!(state.hl(), 0x5678);
}

#[test]
fn add_scenario_sets_flags_and_cycles() {
    // MVI A, 7; MVI B, 3; ADD B; HLT
    let mut state = State8080::new(&[0x3e, 0x07, 0x06, 0x03, 0x80, 0x76]);
    let mut io = SpaceInvadersIO::new();
    let cycles = run(&mut state, &mut io, 4);
    assert!(state.halted());
    assert_eq!(state.a(), 0x0a);
    let f = state.flags();
    assert!(!f.zero);
    assert!(!f.sign_negative);
    assert!(f.even_parity, "0x0a has two 1-bits, so parity is even");
    assert!(!f.carry);
    assert_eq!(cycles, 7 + 7 + 4 + 7);
}

#[test]
fn adi_overflow_scenario() {
    // MVI A, 0xFF; ADI 1; HLT
    let mut state = State8080::new(&[0x3e, 0xff, 0xc6, 0x01, 0x76]);
    let mut io = SpaceInvadersIO::new();
    run(&mut state, &mut io, 3);
    assert!(state.halted());
    assert_eq!(state.a(), 0x00);
    let f = state.flags();
    assert!(f.zero);
    assert!(!f.sign_negative);
    assert!(f.even_parity);
    assert!(f.carry);
}

#[test]
fn jmp_scenario() {
    // JMP $0004; HLT at 0x0003 never reached; NOP at 0x0004.
    let mut state = State8080::new(&[0xc3, 0x04, 0x00, 0x76, 0x00]);
    let mut io = SpaceInvadersIO::new();
    run(&mut state, &mut io, 1);
    assert_eq!(state.pc(), 4);
}

#[test]
fn call_ret_round_trip() {
    // CALL $0006; ...; RET at 0x0006, SP preset to 0x2400.
    let mut state = State8080::new(&[0xcd, 0x06, 0x00, 0x00, 0x00, 0x00, 0xc9]);
    state.set_sp(0x2400);
    let mut io = SpaceInvadersIO::new();
    let c1 = run(&mut state, &mut io, 1);
    assert_eq!(c1, 17);
    assert_eq!(state.pc(), 0x0006);
    let c2 = run(&mut state, &mut io, 1);
    assert_eq!(c2, 10);
    assert_eq!(state.pc(), 3);
    assert_eq!(state.sp(), 0x2400);
    assert_eq!(state.memory()[0x23fe], 0x03);
    assert_eq!(state.memory()[0x23ff], 0x00);
}

#[test]
fn push_pop_inverse() {
    // LXI SP, 0x2400; LXI B, 0xBEEF; PUSH B; POP B
    let mut state = State8080::new(&[0x31, 0x00, 0x24, 0x01, 0xef, 0xbe, 0xc5, 0xc1]);
    let mut io = SpaceInvadersIO::new();
    run(&mut state, &mut io, 2);
    let c_push = run(&mut state, &mut io, 1);
    assert_eq!(c_push, 11);
    assert_eq!(state.sp(), 0x23fe);
    let c_pop = run(&mut state, &mut io, 1);
    assert_eq!(c_pop, 10);
    assert_eq!(state.bc(), 0xbeef);
    assert_eq!(state.sp(), 0x2400);
    assert_eq!(state.memory()[0x23fe], 0xef);
    assert_eq!(state.memory()[0x23ff], 0xbe);
}

#[test]
fn push_pop_psw_restores_a_and_flags() {
    // LXI SP, 0x2400; MVI A, 0xFF; ADI 1 (sets Z and CY); PUSH AF;
    // MVI A, 0x55; POP AF
    let mut state = State8080::new(&[
        0x31, 0x00, 0x24, 0x3e, 0xff, 0xc6, 0x01, 0xf5, 0x3e, 0x55, 0xf1,
    ]);
    let mut io = SpaceInvadersIO::new();
    run(&mut state, &mut io, 4);
    let flags_before = state.flags();
    run(&mut state, &mut io, 2);
    assert_eq!(state.a(), 0x00);
    assert_eq!(state.flags(), flags_before);
    assert_eq!(state.sp(), 0x2400);
}

// Runs `POP AF` to load the packed flags, then one conditional jump,
// returning (cycles, pc) after the jump.
fn jcc_case(cc: u8, psw: u8) -> (u64, u16) {
    let op = 0xc2 + 8 * cc;
    let mut state = State8080::new(&[0xf1, op, 0x00, 0x30]);
    state.set_sp(0x2400);
    state.write_byte(0x2400, psw).unwrap();
    state.write_byte(0x2401, 0x00).unwrap();
    let mut io = SpaceInvadersIO::new();
    run(&mut state, &mut io, 1);
    let cycles = run(&mut state, &mut io, 1);
    (cycles, state.pc())
}

#[test]
fn branch_cost_discrimination_jcc() {
    // With the packed flags all clear, NZ/NC/PO/P are taken; with all
    // five set, Z/C/PE/M are taken. Either way a Jcc costs 10 cycles.
    for cc in 0..8u8 {
        for &psw in &[0x00u8, 0xd5u8] {
            let (cycles, pc) = jcc_case(cc, psw);
            assert_eq!(cycles, 10, "Jcc always costs 10 cycles");
            let flag_set = psw == 0xd5;
            let taken = if cc % 2 == 0 { !flag_set } else { flag_set };
            if taken {
                assert_eq!(pc, 0x3000, "cc={} psw={:02x}", cc, psw);
            } else {
                assert_eq!(pc, 4, "cc={} psw={:02x}", cc, psw);
            }
        }
    }
}

#[test]
fn branch_cost_discrimination_rcc() {
    // A taken conditional return costs 11 cycles, one not taken 5.
    for cc in 0..8u8 {
        for &psw in &[0x00u8, 0xd5u8] {
            let op = 0xc0 + 8 * cc;
            let mut state = State8080::new(&[0xf1, op]);
            state.set_sp(0x2400);
            state.write_byte(0x2400, psw).unwrap();
            state.write_byte(0x2401, 0x00).unwrap();
            state.write_byte(0x2402, 0x00).unwrap();
            state.write_byte(0x2403, 0x30).unwrap();
            let mut io = SpaceInvadersIO::new();
            run(&mut state, &mut io, 1);
            let cycles = run(&mut state, &mut io, 1);
            let flag_set = psw == 0xd5;
            let taken = if cc % 2 == 0 { !flag_set } else { flag_set };
            if taken {
                assert_eq!(cycles, 11);
                assert_eq!(state.pc(), 0x3000);
                assert_eq!(state.sp(), 0x2404);
            } else {
                assert_eq!(cycles, 5);
                assert_eq!(state.pc(), 2);
            }
        }
    }
}

#[test]
fn rom_protection_sta() {
    // STA $1000
    let mut state = State8080::new(&[0x32, 0x00, 0x10]);
    let mut io = SpaceInvadersIO::new();
    assert_eq!(state.emulate(&mut io), Err(Trap::RomWrite(0x1000)));
    assert_eq!(state.pc(), 0, "a trap leaves the state untouched");
}

#[test]
fn rom_protection_mov_m_and_mvi_m() {
    // LXI H, 0x1FFF; MOV M,A
    let mut state = State8080::new(&[0x21, 0xff, 0x1f, 0x77]);
    let mut io = SpaceInvadersIO::new();
    run(&mut state, &mut io, 1);
    assert_eq!(state.emulate(&mut io), Err(Trap::RomWrite(0x1fff)));
    // LXI H, 0x0000; MVI M, 5
    let mut state = State8080::new(&[0x21, 0x00, 0x00, 0x36, 0x05]);
    let mut io = SpaceInvadersIO::new();
    run(&mut state, &mut io, 1);
    assert_eq!(state.emulate(&mut io), Err(Trap::RomWrite(0x0000)));
}

#[test]
fn rom_protection_stax_push_call() {
    // LXI B, 0x0100; STAX B
    let mut state = State8080::new(&[0x01, 0x00, 0x01, 0x02]);
    let mut io = SpaceInvadersIO::new();
    run(&mut state, &mut io, 1);
    assert_eq!(state.emulate(&mut io), Err(Trap::RomWrite(0x0100)));
    // LXI SP, 0x1002; PUSH D: both stack bytes fall below 0x2000.
    let mut state = State8080::new(&[0x31, 0x02, 0x10, 0xd5]);
    let mut io = SpaceInvadersIO::new();
    run(&mut state, &mut io, 1);
    assert_eq!(state.emulate(&mut io), Err(Trap::RomWrite(0x1000)));
    // LXI SP, 0x1002; CALL $0006
    let mut state = State8080::new(&[0x31, 0x02, 0x10, 0xcd, 0x06, 0x00]);
    let mut io = SpaceInvadersIO::new();
    run(&mut state, &mut io, 1);
    assert_eq!(state.emulate(&mut io), Err(Trap::RomWrite(0x1000)));
}

#[test]
fn ram_and_vram_writes_pass() {
    let mut state = State8080::new(&[]);
    assert_eq!(state.write_byte(0x2000, 0xaa), Ok(()));
    assert_eq!(state.write_byte(0x3fff, 0xbb), Ok(()));
    assert_eq!(state.memory()[0x2000], 0xaa);
    assert_eq!(state.memory()[0x3fff], 0xbb);
    assert_eq!(state.write_byte(0x1fff, 0x01), Err(Trap::RomWrite(0x1fff)));
}

#[test]
fn unimplemented_opcode_traps() {
    // 0x88 is ADC B, outside the implemented set.
    let mut state = State8080::new(&[0x88]);
    let mut io = SpaceInvadersIO::new();
    assert_eq!(state.emulate(&mut io), Err(Trap::Unimplemented(0x88)));
}

#[test]
fn interrupt_gate() {
    // EI; NOP; NOP...
    let mut state = State8080::new(&[0xfb, 0x00, 0x00]);
    state.set_sp(0x2400);
    let mut io = SpaceInvadersIO::new();

    // Disabled at power-on: an interrupt is a no-op.
    assert_eq!(state.interrupt(2), Ok(()));
    assert_eq!(state.pc(), 0);
    assert!(!state.interrupts_enabled());

    run(&mut state, &mut io, 1);
    assert!(state.interrupts_enabled());

    // Enabled: push PC, jump to 8 * n, disable.
    assert_eq!(state.interrupt(2), Ok(()));
    assert_eq!(state.pc(), 16);
    assert!(!state.interrupts_enabled());
    assert_eq!(state.sp(), 0x23fe);
    assert_eq!(state.memory()[0x23fe], 0x01);
    assert_eq!(state.memory()[0x23ff], 0x00);

    // Disabled again: the next interrupt is ignored.
    assert_eq!(state.interrupt(1), Ok(()));
    assert_eq!(state.pc(), 16);
}

#[test]
fn interrupt_push_into_rom_traps() {
    // EI with SP left at 0x1002: servicing would store into ROM.
    let mut state = State8080::new(&[0xfb]);
    state.set_sp(0x1002);
    let mut io = SpaceInvadersIO::new();
    run(&mut state, &mut io, 1);
    assert_eq!(state.interrupt(1), Err(Trap::RomWrite(0x1000)));
    assert_eq!(state.pc(), 1, "a refused interrupt changes nothing");
    assert!(state.interrupts_enabled());
}

#[test]
fn inr_dcr_preserve_carry() {
    // STC; INR B; DCR B
    let mut state = State8080::new(&[0x37, 0x04, 0x05]);
    let mut io = SpaceInvadersIO::new();
    run(&mut state, &mut io, 2);
    assert!(state.flags().carry, "INR must not touch the carry");
    run(&mut state, &mut io, 1);
    assert!(state.flags().carry, "DCR must not touch the carry");
    assert!(state.flags().zero, "B went back to zero");
}

#[test]
fn rotate_instructions() {
    // MVI A, 0x81; RLC
    let mut state = State8080::new(&[0x3e, 0x81, 0x07]);
    let mut io = SpaceInvadersIO::new();
    run(&mut state, &mut io, 2);
    assert_eq!(state.a(), 0x03);
    assert!(state.flags().carry);

    // MVI A, 0x01; RRC
    let mut state = State8080::new(&[0x3e, 0x01, 0x0f]);
    let mut io = SpaceInvadersIO::new();
    run(&mut state, &mut io, 2);
    assert_eq!(state.a(), 0x80);
    assert!(state.flags().carry);

    // MVI A, 0x80; STC; RAL: bit 7 to carry, old carry to bit 0.
    let mut state = State8080::new(&[0x3e, 0x80, 0x37, 0x17]);
    let mut io = SpaceInvadersIO::new();
    run(&mut state, &mut io, 3);
    assert_eq!(state.a(), 0x01);
    assert!(state.flags().carry);

    // MVI A, 0x01; STC; RAR: bit 0 to carry, old carry to bit 7.
    let mut state = State8080::new(&[0x3e, 0x01, 0x37, 0x1f]);
    let mut io = SpaceInvadersIO::new();
    run(&mut state, &mut io, 3);
    assert_eq!(state.a(), 0x80);
    assert!(state.flags().carry);
}

#[test]
fn dad_sets_only_carry() {
    // LXI H, 0xFFFF; LXI B, 0x0001; STC; CMC (carry clear); DAD B
    let mut state = State8080::new(&[0x21, 0xff, 0xff, 0x01, 0x01, 0x00, 0x09]);
    let mut io = SpaceInvadersIO::new();
    run(&mut state, &mut io, 2);
    let c = run(&mut state, &mut io, 1);
    assert_eq!(c, 10);
    assert_eq!(state.hl(), 0x0000);
    assert!(state.flags().carry);
    assert!(!state.flags().zero, "DAD leaves the other flags alone");
}

#[test]
fn cmp_and_cpi() {
    // MVI A, 5; CPI 6: A below the operand sets the carry.
    let mut state = State8080::new(&[0x3e, 0x05, 0xfe, 0x06]);
    let mut io = SpaceInvadersIO::new();
    run(&mut state, &mut io, 2);
    assert!(state.flags().carry);
    assert!(!state.flags().zero);
    assert_eq!(state.a(), 5, "compare leaves A alone");

    // MVI A, 5; MVI B, 5; CMP B
    let mut state = State8080::new(&[0x3e, 0x05, 0x06, 0x05, 0xb8]);
    let mut io = SpaceInvadersIO::new();
    run(&mut state, &mut io, 3);
    assert!(state.flags().zero);
    assert!(!state.flags().carry);
}

#[test]
fn logical_group() {
    // MVI A, 0x0F; ANI 0x3C
    let mut state = State8080::new(&[0x3e, 0x0f, 0xe6, 0x3c]);
    let mut io = SpaceInvadersIO::new();
    run(&mut state, &mut io, 2);
    assert_eq!(state.a(), 0x0c);
    assert!(!state.flags().carry, "logical operations clear the carry");

    // MVI A, 0xF0; MVI B, 0x0F; ORA B
    let mut state = State8080::new(&[0x3e, 0xf0, 0x06, 0x0f, 0xb0]);
    let mut io = SpaceInvadersIO::new();
    run(&mut state, &mut io, 3);
    assert_eq!(state.a(), 0xff);
    assert!(state.flags().sign_negative);

    // MVI A, 0xAA; XRA A: anything XOR itself is zero.
    let mut state = State8080::new(&[0x3e, 0xaa, 0xaf]);
    let mut io = SpaceInvadersIO::new();
    run(&mut state, &mut io, 2);
    assert_eq!(state.a(), 0);
    assert!(state.flags().zero);

    // MVI A, 0x0F; CMA
    let mut state = State8080::new(&[0x3e, 0x0f, 0x2f]);
    let mut io = SpaceInvadersIO::new();
    run(&mut state, &mut io, 2);
    assert_eq!(state.a(), 0xf0);
}

#[test]
fn inr_dcr_through_memory() {
    // LXI H, 0x2050; MVI M, 0xFF; INR M; INR M; DCR M
    let mut state = State8080::new(&[0x21, 0x50, 0x20, 0x36, 0xff, 0x34, 0x34, 0x35]);
    let mut io = SpaceInvadersIO::new();
    run(&mut state, &mut io, 2);
    let c = run(&mut state, &mut io, 1);
    assert_eq!(c, 10, "INR M costs ten cycles");
    assert_eq!(state.m(), 0x00);
    assert!(state.flags().zero);
    run(&mut state, &mut io, 1);
    assert_eq!(state.m(), 0x01);
    let c = run(&mut state, &mut io, 1);
    assert_eq!(c, 10, "DCR M costs ten cycles");
    assert_eq!(state.memory()[0x2050], 0x00);
    assert!(state.flags().zero);
}

#[test]
fn alternative_nop_encodings() {
    let mut state = State8080::new(&[0x08, 0x10, 0x18, 0x20, 0x28, 0x30, 0x38]);
    let mut io = SpaceInvadersIO::new();
    let cycles = run(&mut state, &mut io, 7);
    assert_eq!(cycles, 7 * 4);
    assert_eq!(state.pc(), 7);
    assert_eq!(state.a(), 0);
}

#[test]
fn unimplemented_families_trap() {
    for &op in &[
        0x27u8, // DAA
        0x22,   // SHLD
        0x2a,   // LHLD
        0x0b,   // DCX B
        0x90,   // SUB B
        0x98,   // SBB B
        0x8f,   // ADC A
        0xc4,   // CNZ
        0xe3,   // XTHL
        0xe9,   // PCHL
        0xf9,   // SPHL
        0xd6,   // SUI
        0xee,   // XRI
        0xf6,   // ORI
        0xc7,   // RST 0
    ] {
        let mut state = State8080::new(&[op]);
        let mut io = SpaceInvadersIO::new();
        assert_eq!(state.emulate(&mut io), Err(Trap::Unimplemented(op)), "op = {:02x}", op);
    }
}

#[test]
fn xchg_swaps_de_hl() {
    let mut state = State8080::new(&[0x11, 0x34, 0x12, 0x21, 0x78, 0x56, 0xeb]);
    let mut io = SpaceInvadersIO::new();
    run(&mut state, &mut io, 3);
    assert_eq!(state.de(), 0x5678);
    assert_eq!(state.hl(), 0x1234);
}

#[test]
fn mov_through_memory() {
    // LXI H, 0x2100; MVI M, 0x42; MOV A,M
    let mut state = State8080::new(&[0x21, 0x00, 0x21, 0x36, 0x42, 0x7e]);
    let mut io = SpaceInvadersIO::new();
    run(&mut state, &mut io, 3);
    assert_eq!(state.a(), 0x42);
    assert_eq!(state.m(), 0x42);
    assert_eq!(state.memory()[0x2100], 0x42);
}

#[test]
fn lda_sta_and_ldax() {
    // MVI A, 0x99; STA $2345; MVI A, 0; LDA $2345
    let mut state = State8080::new(&[
        0x3e, 0x99, 0x32, 0x45, 0x23, 0x3e, 0x00, 0x3a, 0x45, 0x23,
    ]);
    let mut io = SpaceInvadersIO::new();
    let c = run(&mut state, &mut io, 4);
    assert_eq!(state.a(), 0x99);
    assert_eq!(c, 7 + 13 + 7 + 13);
}

#[test]
fn inx_wraps() {
    // LXI B, 0xFFFF; INX B
    let mut state = State8080::new(&[0x01, 0xff, 0xff, 0x03]);
    let mut io = SpaceInvadersIO::new();
    run(&mut state, &mut io, 2);
    assert_eq!(state.bc(), 0x0000);
}

#[test]
fn halt_is_terminal_for_step() {
    let mut state = State8080::new(&[0x76]);
    let mut io = SpaceInvadersIO::new();
    let spent = state.step(100, &mut io).unwrap();
    assert_eq!(spent, 7);
    assert!(state.halted());
    let again = state.step(100, &mut io).unwrap();
    assert_eq!(again, 0, "a halted machine spends nothing");
}
