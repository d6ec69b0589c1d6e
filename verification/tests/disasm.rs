use invaders::disasm::dec_u64;
use invaders::i8080::State8080;
use invaders::machine::SpaceInvaders;

#[test]
fn plain_mnemonics() {
    let state = State8080::new(&[0x00, 0x07, 0x2f, 0x37, 0xc9, 0xeb, 0x76, 0xfb]);
    assert_eq!(state.op_name(0), "NOP");
    assert_eq!(state.op_name(1), "RLC");
    assert_eq!(state.op_name(2), "CMA");
    assert_eq!(state.op_name(3), "STC");
    assert_eq!(state.op_name(4), "RET");
    assert_eq!(state.op_name(5), "XCHG");
    assert_eq!(state.op_name(6), "HLT");
    assert_eq!(state.op_name(7), "EI");
}

#[test]
fn mov_and_alu_mnemonics() {
    let state = State8080::new(&[0x41, 0x77, 0x7e, 0x80, 0xa7, 0xbe, 0x96]);
    assert_eq!(state.op_name(0), "MOV B,C");
    assert_eq!(state.op_name(1), "MOV M,A");
    assert_eq!(state.op_name(2), "MOV A,M");
    assert_eq!(state.op_name(3), "ADD B");
    assert_eq!(state.op_name(4), "ANA A");
    assert_eq!(state.op_name(5), "CMP M");
    assert_eq!(state.op_name(6), "SUB M");
}

#[test]
fn formatted_mnemonics() {
    let state = State8080::new(&[0xc3, 0x32, 0x1a, 0x06, 0x07, 0x01, 0xcd, 0xab]);
    assert_eq!(state.op_name(0), "JMP $1a32");
    assert_eq!(state.op_name(3), "MVI B, $07");
    assert_eq!(state.op_name(5), "LXI B, $abcd");
}

#[test]
fn unknown_opcode() {
    let state = State8080::new(&[0xfd, 0x08]);
    assert_eq!(state.op_name(0), "Unknown opcode: fd");
    assert_eq!(state.op_name(1), "NOP", "0x08 is an alternative NOP encoding");
}

#[test]
fn next_opcode_follows_pc() {
    let mut state = State8080::new(&[0x00, 0xdb, 0x01]);
    let mut io = invaders::machine::SpaceInvadersIO::new();
    assert_eq!(state.next_opcode(), "NOP");
    state.emulate(&mut io).unwrap();
    assert_eq!(state.next_opcode(), "IN $01");
}

#[test]
fn decimal_formatting() {
    assert_eq!(dec_u64(0), "0");
    assert_eq!(dec_u64(7), "7");
    assert_eq!(dec_u64(25), "25");
    assert_eq!(dec_u64(2_000_000), "2000000");
    assert_eq!(dec_u64(u64::MAX), "18446744073709551615");
}

#[test]
fn debug_text_lines() {
    // MVI A, 7; MVI B, 3; ADD B; HLT
    let mut machine = SpaceInvaders::from_rom(&[0x3e, 0x07, 0x06, 0x03, 0x80, 0x76]);
    let lines = machine.debug_text();
    assert_eq!(lines.len(), 6);
    assert_eq!(lines[0], "Cycles: 0");
    assert_eq!(lines[1], "Seconds: 0");
    assert_eq!(lines[2], "MVI A, $07");
    assert_eq!(lines[3], "AF: 0000 BC: 0000");
    assert_eq!(lines[4], "DE: 0000 HL: 0000");
    assert_eq!(lines[5], "PC: 0000 SP: 0000");
    machine.step(1000).unwrap();
    let lines = machine.debug_text();
    assert_eq!(lines[0], "Cycles: 25");
    assert_eq!(lines[2], "NOP", "PC has moved past the HLT");
    assert_eq!(lines[3], "AF: 0a04 BC: 0300");
    assert_eq!(lines[5], "PC: 0006 SP: 0000");
}
