//! The disassembler: opcode to printable mnemonic, for the debug
//! overlay. Pure: it reads at most the opcode byte and the two bytes
//! after it, and never mutates state.

use vstd::prelude::*;
use vstd::string::*;

use crate::i8080::{rd, rd16, wrap16, State8080};

verus! {

/// The character for one hexadecimal digit value.
pub open spec fn hex_char(d: int) -> char {
    if d == 0 {
        '0'
    } else if d == 1 {
        '1'
    } else if d == 2 {
        '2'
    } else if d == 3 {
        '3'
    } else if d == 4 {
        '4'
    } else if d == 5 {
        '5'
    } else if d == 6 {
        '6'
    } else if d == 7 {
        '7'
    } else if d == 8 {
        '8'
    } else if d == 9 {
        '9'
    } else if d == 10 {
        'a'
    } else if d == 11 {
        'b'
    } else if d == 12 {
        'c'
    } else if d == 13 {
        'd'
    } else if d == 14 {
        'e'
    } else {
        'f'
    }
}

/// A byte as two lowercase hex digits.
pub open spec fn hex2(b: u8) -> Seq<char> {
    seq![hex_char(b as int / 16), hex_char(b as int % 16)]
}

/// A 16-bit word as four lowercase hex digits.
pub open spec fn hex4(w: u16) -> Seq<char> {
    hex2((w / 256) as u8) + hex2((w % 256) as u8)
}

/// A number in decimal, most significant digit first.
pub open spec fn dec_of(n: u64) -> Seq<char>
    decreases n,
{
    if n < 10 {
        seq![hex_char(n as int)]
    } else {
        dec_of(n / 10) + seq![hex_char(n as int % 10)]
    }
}

/// The one-character string for a hex digit value.
fn hex_digit_str(d: u8) -> (r: &'static str)
    requires
        d < 16,
    ensures
        r@ == seq![hex_char(d as int)],
{
    let r: &'static str = if d == 0 {
        "0"
    } else if d == 1 {
        "1"
    } else if d == 2 {
        "2"
    } else if d == 3 {
        "3"
    } else if d == 4 {
        "4"
    } else if d == 5 {
        "5"
    } else if d == 6 {
        "6"
    } else if d == 7 {
        "7"
    } else if d == 8 {
        "8"
    } else if d == 9 {
        "9"
    } else if d == 10 {
        "a"
    } else if d == 11 {
        "b"
    } else if d == 12 {
        "c"
    } else if d == 13 {
        "d"
    } else if d == 14 {
        "e"
    } else {
        "f"
    };
    proof {
        reveal_strlit("0");
        reveal_strlit("1");
        reveal_strlit("2");
        reveal_strlit("3");
        reveal_strlit("4");
        reveal_strlit("5");
        reveal_strlit("6");
        reveal_strlit("7");
        reveal_strlit("8");
        reveal_strlit("9");
        reveal_strlit("a");
        reveal_strlit("b");
        reveal_strlit("c");
        reveal_strlit("d");
        reveal_strlit("e");
        reveal_strlit("f");
        assert(r@ =~= seq![hex_char(d as int)]);
    }
    r
}

/// Appends a byte as two hex digits.
pub(crate) fn push_hex2(t: &mut String, b: u8)
    ensures
        final(t)@ == old(t)@ + hex2(b),
{
    t.append(hex_digit_str(b / 16));
    t.append(hex_digit_str(b % 16));
    proof {
        assert(final(t)@ =~= old(t)@ + hex2(b));
    }
}

/// Appends a word as four hex digits.
pub(crate) fn push_hex4(t: &mut String, w: u16)
    ensures
        final(t)@ == old(t)@ + hex4(w),
{
    push_hex2(t, (w / 256) as u8);
    push_hex2(t, (w % 256) as u8);
    proof {
        assert(final(t)@ =~= old(t)@ + hex4(w));
    }
}

/// A number in decimal.
pub fn dec_u64(n: u64) -> (r: String)
    ensures
        r@ == dec_of(n),
    decreases n,
{
    if n < 10 {
        hex_digit_str(n as u8).to_owned()
    } else {
        let mut t = dec_u64(n / 10);
        t.append(hex_digit_str((n % 10) as u8));
        t
    }
}

/// The register name for a 3-bit code, M for code 6.
pub open spec fn reg_name(r: u8) -> Seq<char> {
    if r == 0 {
        "B"@
    } else if r == 1 {
        "C"@
    } else if r == 2 {
        "D"@
    } else if r == 3 {
        "E"@
    } else if r == 4 {
        "H"@
    } else if r == 5 {
        "L"@
    } else if r == 6 {
        "M"@
    } else {
        "A"@
    }
}

/// The register name for a 3-bit code.
fn reg_name_str(r: u8) -> (s: &'static str)
    ensures
        s@ == reg_name(r),
{
    if r == 0 {
        "B"
    } else if r == 1 {
        "C"
    } else if r == 2 {
        "D"
    } else if r == 3 {
        "E"
    } else if r == 4 {
        "H"
    } else if r == 5 {
        "L"
    } else if r == 6 {
        "M"
    } else {
        "A"
    }
}

/// The mnemonic of the register ALU block, with its trailing space.
pub open spec fn alu_name(f: u8) -> Seq<char> {
    if f == 0 {
        "ADD "@
    } else if f == 1 {
        "ADC "@
    } else if f == 2 {
        "SUB "@
    } else if f == 3 {
        "SBB "@
    } else if f == 4 {
        "ANA "@
    } else if f == 5 {
        "XRA "@
    } else if f == 6 {
        "ORA "@
    } else {
        "CMP "@
    }
}

/// The mnemonic of the register ALU block.
fn alu_name_str(f: u8) -> (s: &'static str)
    ensures
        s@ == alu_name(f),
{
    if f == 0 {
        "ADD "
    } else if f == 1 {
        "ADC "
    } else if f == 2 {
        "SUB "
    } else if f == 3 {
        "SBB "
    } else if f == 4 {
        "ANA "
    } else if f == 5 {
        "XRA "
    } else if f == 6 {
        "ORA "
    } else {
        "CMP "
    }
}

/// The MOV quadrant: HLT, else MOV dst,src by register codes.
pub open spec fn opname_mov(op: u8) -> Seq<char> {
    if op == 0x76 {
        "HLT"@
    } else {
        "MOV "@ + reg_name((op / 8 % 8) as u8) + ","@ + reg_name(op % 8)
    }
}

/// The register ALU quadrant: the group mnemonic and the operand.
pub open spec fn opname_alu(op: u8) -> Seq<char> {
    alu_name((op / 8 % 8) as u8) + reg_name(op % 8)
}


#[verifier::opaque]
pub open spec fn opname_low(m: Seq<u8>, addr: u16, op: u8) -> Seq<char> {
    if op == 0x00 {
        "NOP"@
    } else if op == 0x01 {
        "LXI B, $"@ + hex4(rd16(m, wrap16(addr + 1)))
    } else if op == 0x02 {
        "STAX B"@
    } else if op == 0x03 {
        "INX B"@
    } else if op == 0x04 {
        "INR B"@
    } else if op == 0x05 {
        "DCR B"@
    } else if op == 0x06 {
        "MVI B, $"@ + hex2(rd(m, wrap16(addr + 1)))
    } else if op == 0x07 {
        "RLC"@
    } else if op == 0x08 {
        "NOP"@
    } else if op == 0x09 {
        "DAD B"@
    } else if op == 0x0a {
        "LDAX B"@
    } else if op == 0x0b {
        "DCX B"@
    } else if op == 0x0c {
        "INR C"@
    } else if op == 0x0d {
        "DCR C"@
    } else if op == 0x0e {
        "MVI C, $"@ + hex2(rd(m, wrap16(addr + 1)))
    } else if op == 0x0f {
        "RRC"@
    } else if op == 0x10 {
        "NOP"@
    } else if op == 0x11 {
        "LXI D, $"@ + hex4(rd16(m, wrap16(addr + 1)))
    } else if op == 0x12 {
        "STAX D"@
    } else if op == 0x13 {
        "INX D"@
    } else if op == 0x14 {
        "INR D"@
    } else if op == 0x15 {
        "DCR D"@
    } else if op == 0x16 {
        "MVI D, $"@ + hex2(rd(m, wrap16(addr + 1)))
    } else if op == 0x17 {
        "RAL"@
    } else if op == 0x18 {
        "NOP"@
    } else if op == 0x19 {
        "DAD D"@
    } else if op == 0x1a {
        "LDAX D"@
    } else if op == 0x1b {
        "DCX D"@
    } else if op == 0x1c {
        "INR E"@
    } else if op == 0x1d {
        "DCR E"@
    } else if op == 0x1e {
        "MVI E, $"@ + hex2(rd(m, wrap16(addr + 1)))
    } else if op == 0x1f {
        "RAR"@
    } else if op == 0x20 {
        "NOP"@
    } else if op == 0x21 {
        "LXI H, $"@ + hex4(rd16(m, wrap16(addr + 1)))
    } else if op == 0x22 {
        "SHLD $"@ + hex4(rd16(m, wrap16(addr + 1)))
    } else if op == 0x23 {
        "INX H"@
    } else if op == 0x24 {
        "INR H"@
    } else if op == 0x25 {
        "DCR H"@
    } else if op == 0x26 {
        "MVI H, $"@ + hex2(rd(m, wrap16(addr + 1)))
    } else if op == 0x27 {
        "DAA"@
    } else if op == 0x28 {
        "NOP"@
    } else if op == 0x29 {
        "DAD H"@
    } else if op == 0x2a {
        "LHLD $"@ + hex4(rd16(m, wrap16(addr + 1)))
    } else if op == 0x2b {
        "DCX H"@
    } else if op == 0x2c {
        "INR L"@
    } else if op == 0x2d {
        "DCR L"@
    } else if op == 0x2e {
        "MVI L, $"@ + hex2(rd(m, wrap16(addr + 1)))
    } else if op == 0x2f {
        "CMA"@
    } else if op == 0x30 {
        "NOP"@
    } else if op == 0x31 {
        "LXI SP, $"@ + hex4(rd16(m, wrap16(addr + 1)))
    } else if op == 0x32 {
        "STA $"@ + hex4(rd16(m, wrap16(addr + 1)))
    } else if op == 0x33 {
        "INX SP"@
    } else if op == 0x34 {
        "INR M"@
    } else if op == 0x35 {
        "DCR M"@
    } else if op == 0x36 {
        "MVI M, $"@ + hex2(rd(m, wrap16(addr + 1)))
    } else if op == 0x37 {
        "STC"@
    } else if op == 0x38 {
        "NOP"@
    } else if op == 0x39 {
        "DAD SP"@
    } else if op == 0x3a {
        "LDA $"@ + hex4(rd16(m, wrap16(addr + 1)))
    } else if op == 0x3c {
        "INR A"@
    } else if op == 0x3d {
        "DCR A"@
    } else if op == 0x3e {
        "MVI A, $"@ + hex2(rd(m, wrap16(addr + 1)))
    } else if op == 0x3f {
        "CMC"@
    } else {
        "Unknown opcode: "@ + hex2(op)
    }
}

#[verifier::opaque]
pub open spec fn opname_high(m: Seq<u8>, addr: u16, op: u8) -> Seq<char> {
    if op == 0xc0 {
        "RNZ"@
    } else if op == 0xc1 {
        "POP B"@
    } else if op == 0xc2 {
        "JNZ $"@ + hex4(rd16(m, wrap16(addr + 1)))
    } else if op == 0xc3 {
        "JMP $"@ + hex4(rd16(m, wrap16(addr + 1)))
    } else if op == 0xc4 {
        "CNZ $"@ + hex4(rd16(m, wrap16(addr + 1)))
    } else if op == 0xc5 {
        "PUSH B"@
    } else if op == 0xc6 {
        "ADI $"@ + hex2(rd(m, wrap16(addr + 1)))
    } else if op == 0xc8 {
        "RZ"@
    } else if op == 0xc9 {
        "RET"@
    } else if op == 0xca {
        "JZ $"@ + hex4(rd16(m, wrap16(addr + 1)))
    } else if op == 0xcc {
        "CZ $"@ + hex4(rd16(m, wrap16(addr + 1)))
    } else if op == 0xcd {
        "CALL $"@ + hex4(rd16(m, wrap16(addr + 1)))
    } else if op == 0xd0 {
        "RNC"@
    } else if op == 0xd1 {
        "POP D"@
    } else if op == 0xd2 {
        "JNC $"@ + hex4(rd16(m, wrap16(addr + 1)))
    } else if op == 0xd3 {
        "OUT $"@ + hex2(rd(m, wrap16(addr + 1)))
    } else if op == 0xd4 {
        "CNC $"@ + hex4(rd16(m, wrap16(addr + 1)))
    } else if op == 0xd5 {
        "PUSH D"@
    } else if op == 0xd6 {
        "SUI $"@ + hex2(rd(m, wrap16(addr + 1)))
    } else if op == 0xd8 {
        "RC"@
    } else if op == 0xda {
        "JC $"@ + hex4(rd16(m, wrap16(addr + 1)))
    } else if op == 0xdb {
        "IN $"@ + hex2(rd(m, wrap16(addr + 1)))
    } else if op == 0xdc {
        "CC $"@ + hex4(rd16(m, wrap16(addr + 1)))
    } else if op == 0xdd {
        "NOP"@
    } else if op == 0xde {
        "SBI D8"@
    } else if op == 0xe0 {
        "RPO"@
    } else if op == 0xe1 {
        "POP H"@
    } else if op == 0xe2 {
        "JPO $"@ + hex4(rd16(m, wrap16(addr + 1)))
    } else if op == 0xe3 {
        "XTHL"@
    } else if op == 0xe4 {
        "CPO $"@ + hex4(rd16(m, wrap16(addr + 1)))
    } else if op == 0xe5 {
        "PUSH H"@
    } else if op == 0xe6 {
        "ANI $"@ + hex2(rd(m, wrap16(addr + 1)))
    } else if op == 0xe9 {
        "PCHL"@
    } else if op == 0xea {
        "JPE $"@ + hex4(rd16(m, wrap16(addr + 1)))
    } else if op == 0xeb {
        "XCHG"@
    } else if op == 0xec {
        "CPE $"@ + hex4(rd16(m, wrap16(addr + 1)))
    } else if op == 0xee {
        "XRI $"@ + hex2(rd(m, wrap16(addr + 1)))
    } else if op == 0xf0 {
        "RP"@
    } else if op == 0xf1 {
        "POP AF"@
    } else if op == 0xf2 {
        "JP $"@ + hex4(rd16(m, wrap16(addr + 1)))
    } else if op == 0xf3 {
        "DI"@
    } else if op == 0xf5 {
        "PUSH AF"@
    } else if op == 0xf7 {
        "RST 6"@
    } else if op == 0xf8 {
        "RM"@
    } else if op == 0xfa {
        "JM $"@ + hex4(rd16(m, wrap16(addr + 1)))
    } else if op == 0xfb {
        "EI"@
    } else if op == 0xfc {
        "CM $"@ + hex4(rd16(m, wrap16(addr + 1)))
    } else if op == 0xfe {
        "CPI $"@ + hex2(rd(m, wrap16(addr + 1)))
    } else if op == 0xff {
        "RST 7"@
    } else {
        "Unknown opcode: "@ + hex2(op)
    }
}

/// The mnemonic of the instruction at an address, with any immediate
/// byte or 16-bit address formatted in; bytes outside the recognised
/// set name themselves. At most the two bytes after the opcode are
/// read.
pub open spec fn opname_spec(m: Seq<u8>, addr: u16) -> Seq<char> {
    let op = rd(m, addr);
    if op < 0x40 {
        opname_low(m, addr, op)
    } else if op < 0x80 {
        opname_mov(op)
    } else if op < 0xc0 {
        opname_alu(op)
    } else {
        opname_high(m, addr, op)
    }
}

impl State8080 {
    /// Returns the name of the instruction at the specified address in
    /// memory, as [`opname_spec`] lays down.
    pub fn op_name(&self, address: u16) -> (r: String)
        requires
            self@.wf(),
        ensures
            r@ == opname_spec(self@.mem, address),
    {
        let op = self.read_byte(address);
        if op < 0x40 {
            self.op_name_low(address, op)
        } else if op < 0x80 {
            if op == 0x76 {
                "HLT".to_owned()
            } else {
                let mut t = "MOV ".to_owned();
                t.append(reg_name_str(op / 8 % 8));
                t.append(",");
                t.append(reg_name_str(op % 8));
                t
            }
        } else if op < 0xc0 {
            let mut t = alu_name_str(op / 8 % 8).to_owned();
            t.append(reg_name_str(op % 8));
            t
        } else {
            self.op_name_high(address, op)
        }
    }

    /// The mnemonic of the next instruction to execute.
    pub fn next_opcode(&self) -> (r: String)
        requires
            self@.wf(),
        ensures
            r@ == opname_spec(self@.mem, self@.pc),
    {
        let pc = self.pc();
        self.op_name(pc)
    }


    #[verifier::rlimit(100)]
    #[verifier::spinoff_prover]
    fn op_name_low(&self, address: u16, op: u8) -> (r: String)
        requires
            self@.wf(),
            op == rd(self@.mem, address),
            op < 0x40,
        ensures
            r@ == opname_low(self@.mem, address, op),
    {
        proof {
            reveal(opname_low);
        }
        if op == 0x00 {
            "NOP".to_owned()
        } else if op == 0x01 {
            let mut t = "LXI B, $".to_owned();
            let v = self.read_bytes(crate::i8080::wrap_add16(address, 1));
            push_hex4(&mut t, v);
            t
        } else if op == 0x02 {
            "STAX B".to_owned()
        } else if op == 0x03 {
            "INX B".to_owned()
        } else if op == 0x04 {
            "INR B".to_owned()
        } else if op == 0x05 {
            "DCR B".to_owned()
        } else if op == 0x06 {
            let mut t = "MVI B, $".to_owned();
            let v = self.read_byte(crate::i8080::wrap_add16(address, 1));
            push_hex2(&mut t, v);
            t
        } else if op == 0x07 {
            "RLC".to_owned()
        } else if op == 0x08 {
            "NOP".to_owned()
        } else if op == 0x09 {
            "DAD B".to_owned()
        } else if op == 0x0a {
            "LDAX B".to_owned()
        } else if op == 0x0b {
            "DCX B".to_owned()
        } else if op == 0x0c {
            "INR C".to_owned()
        } else if op == 0x0d {
            "DCR C".to_owned()
        } else if op == 0x0e {
            let mut t = "MVI C, $".to_owned();
            let v = self.read_byte(crate::i8080::wrap_add16(address, 1));
            push_hex2(&mut t, v);
            t
        } else if op == 0x0f {
            "RRC".to_owned()
        } else if op == 0x10 {
            "NOP".to_owned()
        } else if op == 0x11 {
            let mut t = "LXI D, $".to_owned();
            let v = self.read_bytes(crate::i8080::wrap_add16(address, 1));
            push_hex4(&mut t, v);
            t
        } else if op == 0x12 {
            "STAX D".to_owned()
        } else if op == 0x13 {
            "INX D".to_owned()
        } else if op == 0x14 {
            "INR D".to_owned()
        } else if op == 0x15 {
            "DCR D".to_owned()
        } else if op == 0x16 {
            let mut t = "MVI D, $".to_owned();
            let v = self.read_byte(crate::i8080::wrap_add16(address, 1));
            push_hex2(&mut t, v);
            t
        } else if op == 0x17 {
            "RAL".to_owned()
        } else if op == 0x18 {
            "NOP".to_owned()
        } else if op == 0x19 {
            "DAD D".to_owned()
        } else if op == 0x1a {
            "LDAX D".to_owned()
        } else if op == 0x1b {
            "DCX D".to_owned()
        } else if op == 0x1c {
            "INR E".to_owned()
        } else if op == 0x1d {
            "DCR E".to_owned()
        } else if op == 0x1e {
            let mut t = "MVI E, $".to_owned();
            let v = self.read_byte(crate::i8080::wrap_add16(address, 1));
            push_hex2(&mut t, v);
            t
        } else if op == 0x1f {
            "RAR".to_owned()
        } else if op == 0x20 {
            "NOP".to_owned()
        } else if op == 0x21 {
            let mut t = "LXI H, $".to_owned();
            let v = self.read_bytes(crate::i8080::wrap_add16(address, 1));
            push_hex4(&mut t, v);
            t
        } else if op == 0x22 {
            let mut t = "SHLD $".to_owned();
            let v = self.read_bytes(crate::i8080::wrap_add16(address, 1));
            push_hex4(&mut t, v);
            t
        } else if op == 0x23 {
            "INX H".to_owned()
        } else if op == 0x24 {
            "INR H".to_owned()
        } else if op == 0x25 {
            "DCR H".to_owned()
        } else if op == 0x26 {
            let mut t = "MVI H, $".to_owned();
            let v = self.read_byte(crate::i8080::wrap_add16(address, 1));
            push_hex2(&mut t, v);
            t
        } else if op == 0x27 {
            "DAA".to_owned()
        } else if op == 0x28 {
            "NOP".to_owned()
        } else if op == 0x29 {
            "DAD H".to_owned()
        } else if op == 0x2a {
            let mut t = "LHLD $".to_owned();
            let v = self.read_bytes(crate::i8080::wrap_add16(address, 1));
            push_hex4(&mut t, v);
            t
        } else if op == 0x2b {
            "DCX H".to_owned()
        } else if op == 0x2c {
            "INR L".to_owned()
        } else if op == 0x2d {
            "DCR L".to_owned()
        } else if op == 0x2e {
            let mut t = "MVI L, $".to_owned();
            let v = self.read_byte(crate::i8080::wrap_add16(address, 1));
            push_hex2(&mut t, v);
            t
        } else if op == 0x2f {
            "CMA".to_owned()
        } else if op == 0x30 {
            "NOP".to_owned()
        } else if op == 0x31 {
            let mut t = "LXI SP, $".to_owned();
            let v = self.read_bytes(crate::i8080::wrap_add16(address, 1));
            push_hex4(&mut t, v);
            t
        } else if op == 0x32 {
            let mut t = "STA $".to_owned();
            let v = self.read_bytes(crate::i8080::wrap_add16(address, 1));
            push_hex4(&mut t, v);
            t
        } else if op == 0x33 {
            "INX SP".to_owned()
        } else if op == 0x34 {
            "INR M".to_owned()
        } else if op == 0x35 {
            "DCR M".to_owned()
        } else if op == 0x36 {
            let mut t = "MVI M, $".to_owned();
            let v = self.read_byte(crate::i8080::wrap_add16(address, 1));
            push_hex2(&mut t, v);
            t
        } else if op == 0x37 {
            "STC".to_owned()
        } else if op == 0x38 {
            "NOP".to_owned()
        } else if op == 0x39 {
            "DAD SP".to_owned()
        } else if op == 0x3a {
            let mut t = "LDA $".to_owned();
            let v = self.read_bytes(crate::i8080::wrap_add16(address, 1));
            push_hex4(&mut t, v);
            t
        } else if op == 0x3c {
            "INR A".to_owned()
        } else if op == 0x3d {
            "DCR A".to_owned()
        } else if op == 0x3e {
            let mut t = "MVI A, $".to_owned();
            let v = self.read_byte(crate::i8080::wrap_add16(address, 1));
            push_hex2(&mut t, v);
            t
        } else if op == 0x3f {
            "CMC".to_owned()
        } else {
            let mut t = "Unknown opcode: ".to_owned();
            push_hex2(&mut t, op);
            t
        }
    }

    #[verifier::rlimit(100)]
    #[verifier::spinoff_prover]
    fn op_name_high(&self, address: u16, op: u8) -> (r: String)
        requires
            self@.wf(),
            op == rd(self@.mem, address),
            op >= 0xc0,
        ensures
            r@ == opname_high(self@.mem, address, op),
    {
        proof {
            reveal(opname_high);
        }
        if op == 0xc0 {
            "RNZ".to_owned()
        } else if op == 0xc1 {
            "POP B".to_owned()
        } else if op == 0xc2 {
            let mut t = "JNZ $".to_owned();
            let v = self.read_bytes(crate::i8080::wrap_add16(address, 1));
            push_hex4(&mut t, v);
            t
        } else if op == 0xc3 {
            let mut t = "JMP $".to_owned();
            let v = self.read_bytes(crate::i8080::wrap_add16(address, 1));
            push_hex4(&mut t, v);
            t
        } else if op == 0xc4 {
            let mut t = "CNZ $".to_owned();
            let v = self.read_bytes(crate::i8080::wrap_add16(address, 1));
            push_hex4(&mut t, v);
            t
        } else if op == 0xc5 {
            "PUSH B".to_owned()
        } else if op == 0xc6 {
            let mut t = "ADI $".to_owned();
            let v = self.read_byte(crate::i8080::wrap_add16(address, 1));
            push_hex2(&mut t, v);
            t
        } else if op == 0xc8 {
            "RZ".to_owned()
        } else if op == 0xc9 {
            "RET".to_owned()
        } else if op == 0xca {
            let mut t = "JZ $".to_owned();
            let v = self.read_bytes(crate::i8080::wrap_add16(address, 1));
            push_hex4(&mut t, v);
            t
        } else if op == 0xcc {
            let mut t = "CZ $".to_owned();
            let v = self.read_bytes(crate::i8080::wrap_add16(address, 1));
            push_hex4(&mut t, v);
            t
        } else if op == 0xcd {
            let mut t = "CALL $".to_owned();
            let v = self.read_bytes(crate::i8080::wrap_add16(address, 1));
            push_hex4(&mut t, v);
            t
        } else if op == 0xd0 {
            "RNC".to_owned()
        } else if op == 0xd1 {
            "POP D".to_owned()
        } else if op == 0xd2 {
            let mut t = "JNC $".to_owned();
            let v = self.read_bytes(crate::i8080::wrap_add16(address, 1));
            push_hex4(&mut t, v);
            t
        } else if op == 0xd3 {
            let mut t = "OUT $".to_owned();
            let v = self.read_byte(crate::i8080::wrap_add16(address, 1));
            push_hex2(&mut t, v);
            t
        } else if op == 0xd4 {
            let mut t = "CNC $".to_owned();
            let v = self.read_bytes(crate::i8080::wrap_add16(address, 1));
            push_hex4(&mut t, v);
            t
        } else if op == 0xd5 {
            "PUSH D".to_owned()
        } else if op == 0xd6 {
            let mut t = "SUI $".to_owned();
            let v = self.read_byte(crate::i8080::wrap_add16(address, 1));
            push_hex2(&mut t, v);
            t
        } else if op == 0xd8 {
            "RC".to_owned()
        } else if op == 0xda {
            let mut t = "JC $".to_owned();
            let v = self.read_bytes(crate::i8080::wrap_add16(address, 1));
            push_hex4(&mut t, v);
            t
        } else if op == 0xdb {
            let mut t = "IN $".to_owned();
            let v = self.read_byte(crate::i8080::wrap_add16(address, 1));
            push_hex2(&mut t, v);
            t
        } else if op == 0xdc {
            let mut t = "CC $".to_owned();
            let v = self.read_bytes(crate::i8080::wrap_add16(address, 1));
            push_hex4(&mut t, v);
            t
        } else if op == 0xdd {
            "NOP".to_owned()
        } else if op == 0xde {
            "SBI D8".to_owned()
        } else if op == 0xe0 {
            "RPO".to_owned()
        } else if op == 0xe1 {
            "POP H".to_owned()
        } else if op == 0xe2 {
            let mut t = "JPO $".to_owned();
            let v = self.read_bytes(crate::i8080::wrap_add16(address, 1));
            push_hex4(&mut t, v);
            t
        } else if op == 0xe3 {
            "XTHL".to_owned()
        } else if op == 0xe4 {
            let mut t = "CPO $".to_owned();
            let v = self.read_bytes(crate::i8080::wrap_add16(address, 1));
            push_hex4(&mut t, v);
            t
        } else if op == 0xe5 {
            "PUSH H".to_owned()
        } else if op == 0xe6 {
            let mut t = "ANI $".to_owned();
            let v = self.read_byte(crate::i8080::wrap_add16(address, 1));
            push_hex2(&mut t, v);
            t
        } else if op == 0xe9 {
            "PCHL".to_owned()
        } else if op == 0xea {
            let mut t = "JPE $".to_owned();
            let v = self.read_bytes(crate::i8080::wrap_add16(address, 1));
            push_hex4(&mut t, v);
            t
        } else if op == 0xeb {
            "XCHG".to_owned()
        } else if op == 0xec {
            let mut t = "CPE $".to_owned();
            let v = self.read_bytes(crate::i8080::wrap_add16(address, 1));
            push_hex4(&mut t, v);
            t
        } else if op == 0xee {
            let mut t = "XRI $".to_owned();
            let v = self.read_byte(crate::i8080::wrap_add16(address, 1));
            push_hex2(&mut t, v);
            t
        } else if op == 0xf0 {
            "RP".to_owned()
        } else if op == 0xf1 {
            "POP AF".to_owned()
        } else if op == 0xf2 {
            let mut t = "JP $".to_owned();
            let v = self.read_bytes(crate::i8080::wrap_add16(address, 1));
            push_hex4(&mut t, v);
            t
        } else if op == 0xf3 {
            "DI".to_owned()
        } else if op == 0xf5 {
            "PUSH AF".to_owned()
        } else if op == 0xf7 {
            "RST 6".to_owned()
        } else if op == 0xf8 {
            "RM".to_owned()
        } else if op == 0xfa {
            let mut t = "JM $".to_owned();
            let v = self.read_bytes(crate::i8080::wrap_add16(address, 1));
            push_hex4(&mut t, v);
            t
        } else if op == 0xfb {
            "EI".to_owned()
        } else if op == 0xfc {
            let mut t = "CM $".to_owned();
            let v = self.read_bytes(crate::i8080::wrap_add16(address, 1));
            push_hex4(&mut t, v);
            t
        } else if op == 0xfe {
            let mut t = "CPI $".to_owned();
            let v = self.read_byte(crate::i8080::wrap_add16(address, 1));
            push_hex2(&mut t, v);
            t
        } else if op == 0xff {
            "RST 7".to_owned()
        } else {
            let mut t = "Unknown opcode: ".to_owned();
            push_hex2(&mut t, op);
            t
        }
    }
}

} // verus!
