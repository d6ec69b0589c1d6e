use invaders::flags::Flags;
use invaders::i8080::{State8080, Trap};
use invaders::machine::{
    decode_screen, InputSnapshot, SpaceInvaders, SpaceInvadersIO, PIXEL_OFF, PIXEL_ON,
};

#[test]
fn packed_flag_round_trip() {
    // pack(unpack(b)) == b & 0b1101_0101 for every byte.
    for b in 0..=255u8 {
        let mut f = Flags::cleared();
        f.set_psw(b);
        assert_eq!(f.psw(), b & 0b1101_0101, "b = {:02x}", b);
    }
}

#[test]
fn unpack_pack_restores_flags() {
    let f = Flags {
        zero: true,
        sign_negative: false,
        even_parity: true,
        carry: true,
        aux_carry: false,
    };
    let mut g = Flags::cleared();
    g.set_psw(f.psw());
    assert_eq!(g, f);
}

#[test]
fn parity_counts_one_bits() {
    assert!(State8080::parity(0x00), "zero 1-bits is even");
    assert!(!State8080::parity(0x01));
    assert!(State8080::parity(0x0a), "two 1-bits");
    assert!(!State8080::parity(0x07), "three 1-bits");
    assert!(State8080::parity(0xff), "eight 1-bits");
    for r in 0..=255u8 {
        assert_eq!(State8080::parity(r), r.count_ones() % 2 == 0, "r = {:02x}", r);
    }
}

#[test]
fn shift_register_window() {
    // OUT 4, 0xAA; OUT 4, 0xBB; OUT 2, 4; IN 3 reads the window over
    // 0xBBAA shifted left by 4.
    let mut io = SpaceInvadersIO::new();
    io.output(4, 0xaa).unwrap();
    io.output(4, 0xbb).unwrap();
    io.output(2, 4).unwrap();
    assert_eq!(io.input(3), Ok(0xba));
}

#[test]
fn shift_register_zero_amount() {
    let mut io = SpaceInvadersIO::new();
    io.output(4, 0xcd).unwrap();
    assert_eq!(io.input(3), Ok(0xcd), "with no shift, port 3 reads the high byte");
}

#[test]
fn input_ports_and_traps() {
    let io = SpaceInvadersIO::new();
    assert_eq!(io.input(1), Ok(0b0001_0000), "port 1 powers on with its pull-up set");
    assert_eq!(io.input(2), Ok(0));
    assert_eq!(io.input(0), Err(Trap::InputPort(0)));
    assert_eq!(io.input(7), Err(Trap::InputPort(7)));
}

#[test]
fn output_ports_and_traps() {
    let mut io = SpaceInvadersIO::new();
    assert_eq!(io.output(3, 0x12), Ok(()), "sound ports are accepted silently");
    assert_eq!(io.output(5, 0x34), Ok(()));
    assert_eq!(io.output(6, 0x56), Ok(()));
    assert_eq!(io.output(0, 0x00), Err(Trap::OutputPort(0)));
    assert_eq!(io.output(7, 0x00), Err(Trap::OutputPort(7)));
}

#[test]
fn in_out_through_the_cpu() {
    // MVI A, 0xAB; OUT 4; OUT 4 again with 0xCD; MVI A, 2; OUT 2;
    // IN 3
    let mut state = State8080::new(&[
        0x3e, 0xab, 0xd3, 0x04, 0x3e, 0xcd, 0xd3, 0x04, 0x3e, 0x02, 0xd3, 0x02, 0xdb, 0x03,
    ]);
    let mut io = SpaceInvadersIO::new();
    for _ in 0..7 {
        state.emulate(&mut io).unwrap();
    }
    // Window over 0xCDAB shifted left by 2: upper 8 bits of 0x36AC...
    let expected = ((0xcdabu16 >> 6) & 0xff) as u8;
    assert_eq!(state.a(), expected);
}

#[test]
fn cpu_in_bad_port_traps() {
    let mut state = State8080::new(&[0xdb, 0x00]);
    let mut io = SpaceInvadersIO::new();
    assert_eq!(state.emulate(&mut io), Err(Trap::InputPort(0)));
}

#[test]
fn update_input_sets_mapped_bits() {
    let mut io = SpaceInvadersIO::new();
    io.update_input(InputSnapshot {
        coin: true,
        p2_start: false,
        p1_start: true,
        p1_fire: false,
        p1_left: true,
        p1_right: false,
        p2_fire: true,
        p2_left: false,
        p2_right: true,
    });
    // bit0 coin, bit2 P1 start, bit3 always one, bit5 P1 left.
    assert_eq!(io.input(1), Ok(0b0010_1101));
    // bit4 P2 fire, bit6 P2 right.
    assert_eq!(io.input(2), Ok(0b0101_0000));
    // Releasing everything leaves only the wired-high bit.
    io.update_input(InputSnapshot {
        coin: false,
        p2_start: false,
        p1_start: false,
        p1_fire: false,
        p1_left: false,
        p1_right: false,
        p2_fire: false,
        p2_left: false,
        p2_right: false,
    });
    assert_eq!(io.input(1), Ok(0b0000_1000));
    assert_eq!(io.input(2), Ok(0));
}

#[test]
fn vram_single_pixel() {
    // Setting only the lowest bit of the first VRAM byte lights
    // exactly the pixel at x = 0, y = 255.
    let mut state = State8080::new(&[]);
    state.write_byte(0x2400, 0x01).unwrap();
    let screen = decode_screen(state.memory());
    assert_eq!(screen.len(), 224 * 256);
    for x in 0..224usize {
        for y in 0..256usize {
            let expected = if x == 0 && y == 255 { PIXEL_ON } else { PIXEL_OFF };
            assert_eq!(screen[x + 224 * y], expected, "x={} y={}", x, y);
        }
    }
}

#[test]
fn vram_rotation() {
    // Bit 7 of VRAM byte 1 is linear pixel 15: x = 0, y = 240.
    let mut state = State8080::new(&[]);
    state.write_byte(0x2401, 0x80).unwrap();
    let screen = decode_screen(state.memory());
    assert_eq!(screen[0 + 224 * 240], PIXEL_ON);
    // The first byte of the second VRAM column is linear pixel 256:
    // x = 1, y = 255.
    let mut state = State8080::new(&[]);
    state.write_byte(0x2400 + 32, 0x01).unwrap();
    let screen = decode_screen(state.memory());
    assert_eq!(screen[1 + 224 * 255], PIXEL_ON);
    assert_eq!(screen[0 + 224 * 255], PIXEL_OFF);
}

#[test]
fn facade_screen_and_size() {
    let machine = SpaceInvaders::new();
    assert_eq!(machine.width(), 224);
    assert_eq!(machine.height(), 256);
    let screen = machine.screen();
    assert_eq!(screen.len(), 224 * 256);
    assert!(screen.iter().all(|&p| p == PIXEL_OFF), "an empty machine shows a dark screen");
}

#[test]
fn facade_runs_a_program() {
    // MVI A, 7; MVI B, 3; ADD B; HLT
    let mut machine = SpaceInvaders::from_rom(&[0x3e, 0x07, 0x06, 0x03, 0x80, 0x76]);
    let spent = machine.step(1000).unwrap();
    assert_eq!(spent, 25);
    assert!(machine.state().halted());
    assert_eq!(machine.state().a(), 0x0a);
    assert_eq!(machine.cycles(), 25);
}

#[test]
fn facade_interrupt_and_input() {
    // EI, then NOPs. With SP at zero the pushed return address wraps
    // into the top of VRAM, which is writable.
    let mut machine = SpaceInvaders::from_rom(&[0xfb, 0x00, 0x00, 0x00]);
    machine.step(2).unwrap();
    machine.interrupt(1).unwrap();
    assert_eq!(machine.state().pc(), 8);
    assert!(!machine.state().interrupts_enabled());
    machine.update_input(InputSnapshot {
        coin: true,
        p2_start: false,
        p1_start: false,
        p1_fire: false,
        p1_left: false,
        p1_right: false,
        p2_fire: false,
        p2_left: false,
        p2_right: false,
    });
    assert_eq!(machine.io_state().port1 & 1, 1);
}

#[test]
fn cycle_rate_convergence() {
    // An endless loop: JMP $0000. Over many steps the cycles spent
    // stay within one instruction's cost of twice the microseconds.
    let mut state = State8080::new(&[0xc3, 0x00, 0x00]);
    let mut io = SpaceInvadersIO::new();
    let mut total: u64 = 0;
    let mut micros: u64 = 0;
    for dt in [100u64, 7, 1000, 3, 16667, 1, 500].iter().cycle().take(70) {
        total += state.step(*dt, &mut io).unwrap();
        micros += dt;
    }
    let owed = 2 * micros;
    assert!(total >= owed, "the budget is always spent");
    assert!(total - owed <= 16, "the overshoot stays below one instruction's cost");
    assert_eq!(total - owed, state.cycle_debt());
}
