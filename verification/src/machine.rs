//! The Space Invaders machine around the CPU: the hardware shift
//! register and input ports, the key-action snapshot, the video
//! decoder and the machine facade.

use vstd::prelude::*;

use crate::i8080::{
    push_hits_rom, push_rom_addr, spec_push, step_spec, CpuView, RegisterPair, State8080,
    StepSpec, Trap,
};

verus! {

/// One frame's worth of key-derived actions, as the host sees them.
/// The binding from physical key to action is the host's business; the
/// core only consumes this snapshot.
#[derive(Clone, Copy, Debug, PartialEq, Eq, Structural)]
pub struct InputSnapshot {
    pub coin: bool,
    pub p2_start: bool,
    pub p1_start: bool,
    pub p1_fire: bool,
    pub p1_left: bool,
    pub p1_right: bool,
    pub p2_fire: bool,
    pub p2_left: bool,
    pub p2_right: bool,
}

/// The machine-specific I/O hardware: a 16-bit shift register with its
/// 3-bit shift amount, and three input-port bytes whose initial values
/// encode the DIP-switch defaults.
pub struct SpaceInvadersIO {
    pub shift_register: RegisterPair,
    pub shift_amount: u8,
    pub port0: u8,
    pub port1: u8,
    pub port2: u8,
}

/// The shift amount always stays below 8, as the 3-bit hardware
/// register forces.
pub open spec fn io_wf(io: SpaceInvadersIO) -> bool {
    io.shift_amount < 8
}

/// What a read of an input port returns: port 1 and port 2 give their
/// bytes, port 3 gives the upper 8 bits of the shift register shifted
/// left by the shift amount; any other port is a fatal trap.
pub open spec fn input_spec(io: SpaceInvadersIO, port: u8) -> Result<u8, Trap> {
    if port == 1 {
        Ok(io.port1)
    } else if port == 2 {
        Ok(io.port2)
    } else if port == 3 {
        Ok((((io.shift_register.word() as u32) >> ((8 - io.shift_amount) as u32)) % 256) as u8)
    } else {
        Err(Trap::InputPort(port))
    }
}

/// What a write of an output port does: port 2 loads the shift amount,
/// port 4 slides the shift register window (low byte takes the old high
/// byte, high byte takes the new value), ports 3, 5 and 6 are accepted
/// with no effect; any other port is a fatal trap.
pub open spec fn output_spec(io: SpaceInvadersIO, port: u8, value: u8) -> Result<
    SpaceInvadersIO,
    Trap,
> {
    if port == 2 {
        Ok(SpaceInvadersIO { shift_amount: value % 8, ..io })
    } else if port == 4 {
        Ok(
            SpaceInvadersIO {
                shift_register: RegisterPair { hi: value, lo: io.shift_register.hi },
                ..io
            },
        )
    } else if port == 3 || port == 5 || port == 6 {
        Ok(io)
    } else {
        Err(Trap::OutputPort(port))
    }
}

impl SpaceInvadersIO {
    /// The power-on state: shift register and amount cleared, port 1
    /// with its bit-4 pull-up set, port 0 with its three high DIP bits
    /// set.
    pub fn new() -> (r: Self)
        ensures
            r.shift_register == (RegisterPair { hi: 0, lo: 0 }),
            r.shift_amount == 0,
            r.port0 == 0x70,
            r.port1 == 0x10,
            r.port2 == 0,
            io_wf(r),
    {
        SpaceInvadersIO {
            shift_register: RegisterPair::new(),
            shift_amount: 0,
            port0: 0x70,
            port1: 0x10,
            port2: 0,
        }
    }

    /// Reads an input port, as [`input_spec`] lays down.
    pub fn input(&self, port: u8) -> (r: Result<u8, Trap>)
        requires
            io_wf(*self),
        ensures
            r == input_spec(*self, port),
    {
        if port == 1 {
            Ok(self.port1)
        } else if port == 2 {
            Ok(self.port2)
        } else if port == 3 {
            let window: u32 = (self.shift_register.both() as u32) >> ((8 - self.shift_amount)
                as u32);
            Ok((window % 256) as u8)
        } else {
            Err(Trap::InputPort(port))
        }
    }

    /// Writes an output port, as [`output_spec`] lays down.
    pub fn output(&mut self, port: u8, value: u8) -> (r: Result<(), Trap>)
        requires
            io_wf(*old(self)),
        ensures
            match r {
                Ok(()) => output_spec(*old(self), port, value) == Ok::<SpaceInvadersIO, Trap>(
                    *final(self),
                ),
                Err(t) => output_spec(*old(self), port, value) == Err::<SpaceInvadersIO, Trap>(t)
                    && *final(self) == *old(self),
            },
            io_wf(*final(self)),
    {
        if port == 2 {
            self.shift_amount = value % 8;
            Ok(())
        } else if port == 4 {
            let hi = self.shift_register.msb();
            self.shift_register.set_lsb(hi);
            self.shift_register.set_msb(value);
            Ok(())
        } else if port == 3 || port == 5 || port == 6 {
            Ok(())
        } else {
            Err(Trap::OutputPort(port))
        }
    }

    /// Sets or clears one bit of a port byte.
    pub fn set_key(port: &mut u8, bit: u8, on: bool)
        requires
            bit < 8,
        ensures
            *final(port) == set_bit(*old(port), bit, on),
    {
        if on {
            *port = *port | (1u8 << bit);
        } else {
            *port = *port & !(1u8 << bit);
        }
    }

    /// Folds a key-action snapshot into the input ports, as
    /// [`update_input_spec`] lays down: each named action drives its
    /// bit of port 1 or port 2, and bit 3 of port 1 is wired high.
    pub fn update_input(&mut self, snapshot: InputSnapshot)
        ensures
            *final(self) == update_input_spec(*old(self), snapshot),
            io_wf(*old(self)) ==> io_wf(*final(self)),
    {
        Self::set_key(&mut self.port1, 0, snapshot.coin);
        Self::set_key(&mut self.port1, 1, snapshot.p2_start);
        Self::set_key(&mut self.port1, 2, snapshot.p1_start);
        Self::set_key(&mut self.port1, 3, true);
        Self::set_key(&mut self.port1, 4, snapshot.p1_fire);
        Self::set_key(&mut self.port1, 5, snapshot.p1_left);
        Self::set_key(&mut self.port1, 6, snapshot.p1_right);
        Self::set_key(&mut self.port2, 4, snapshot.p2_fire);
        Self::set_key(&mut self.port2, 5, snapshot.p2_left);
        Self::set_key(&mut self.port2, 6, snapshot.p2_right);
    }
}

/// A byte with one bit set or cleared.
pub open spec fn set_bit(b: u8, bit: u8, on: bool) -> u8 {
    if on {
        b | (1u8 << bit)
    } else {
        b & !(1u8 << bit)
    }
}

/// The input ports after a key-action snapshot is folded in: the
/// machine's wiring of actions to port bits. Coin, P2 start, P1 start
/// and the always-high bit drive bits 0 to 3 of port 1; P1 fire, left
/// and right drive bits 4 to 6 of port 1; P2 fire, left and right
/// drive bits 4 to 6 of port 2. Port 0 and the shift hardware are
/// untouched.
pub open spec fn update_input_spec(io: SpaceInvadersIO, s: InputSnapshot) -> SpaceInvadersIO {
    SpaceInvadersIO {
        port1: set_bit(
            set_bit(
                set_bit(
                    set_bit(
                        set_bit(
                            set_bit(set_bit(io.port1, 0, s.coin), 1, s.p2_start),
                            2,
                            s.p1_start,
                        ),
                        3,
                        true,
                    ),
                    4,
                    s.p1_fire,
                ),
                5,
                s.p1_left,
            ),
            6,
            s.p1_right,
        ),
        port2: set_bit(
            set_bit(set_bit(io.port2, 4, s.p2_fire), 5, s.p2_left),
            6,
            s.p2_right,
        ),
        ..io
    }
}

// The video decoder.

/// Width of the rotated display in pixels.
pub const SCREEN_WIDTH: usize = 224;

/// Height of the rotated display in pixels.
pub const SCREEN_HEIGHT: usize = 256;

/// Index of the display pixel (x, y) in the row-major pixel buffer.
pub open spec fn pixel_index(x: int, y: int) -> int {
    x + 224 * y
}

/// Whether the display pixel at (x, y) is lit. The display is rotated
/// a quarter turn counter-clockwise relative to VRAM: linear VRAM bit
/// `p` lands at `x = p / 256`, `y = 255 - p % 256`, so the pixel at
/// (x, y) reads bit `(255 - y) % 8` of the VRAM byte at
/// `0x2400 + 32 * x + (255 - y) / 8`.
pub open spec fn vram_pixel(mem: Seq<u8>, x: int, y: int) -> bool {
    let q = 255 - y;
    let byte = mem[0x2400 + 32 * x + q / 8];
    (byte >> ((q % 8) as u8)) & 1 == 1
}

/// The display formulation of [`vram_pixel`] agrees with the linear
/// one: bit `bit` of the VRAM byte at offset `i` is the linear pixel
/// `p = 8 * i + bit`, which lands at display coordinates `x = p / 256`
/// and `y = 255 - p % 256`.
pub proof fn lemma_vram_rotation(mem: Seq<u8>, i: int, bit: int)
    requires
        0 <= i < 7168,
        0 <= bit < 8,
    ensures
        ({
            let p = 8 * i + bit;
            vram_pixel(mem, p / 256, 255 - p % 256) == ((mem[0x2400 + i] >> (bit as u8)) & 1
                == 1)
        }),
{
    let p = 8 * i + bit;
    vstd::arithmetic::div_mod::lemma_fundamental_div_mod_converse(p, 8, i, bit);
    vstd::arithmetic::div_mod::lemma_mod_mod(p, 8, 32);
    assert((p % 256) % 8 == bit);
    vstd::arithmetic::div_mod::lemma_fundamental_div_mod(p, 256);
    let q256 = p / 256;
    vstd::arithmetic::div_mod::lemma_hoist_over_denominator(p % 256, 32 * q256, 8);
    assert(32 * q256 * 8 == 256 * q256) by (nonlinear_arith);
    assert(32 * q256 + (p % 256) / 8 == i);
}

/// Colour of a lit pixel: opaque white.
pub const PIXEL_ON: u32 = 0xffffffff;

/// Colour of a dark pixel: opaque black.
pub const PIXEL_OFF: u32 = 0xff000000;

/// Projects the 7168-byte VRAM region of a memory image into the
/// rotated 224 by 256 pixel buffer: every lit bit becomes an opaque
/// white pixel, every clear bit an opaque black one. Pure: the memory
/// is only read.
pub fn decode_screen(mem: &[u8]) -> (r: Vec<u32>)
    requires
        mem@.len() == 0x4000,
    ensures
        r@.len() == 224 * 256,
        forall|x: int, y: int|
            0 <= x < 224 && 0 <= y < 256 ==> r@[#[trigger] pixel_index(x, y)] == (if vram_pixel(
                mem@,
                x,
                y,
            ) {
                PIXEL_ON
            } else {
                PIXEL_OFF
            }),
{
    let mut buffer: Vec<u32> = Vec::new();
    while buffer.len() < 224 * 256
        invariant
            buffer@.len() <= 224 * 256,
            forall|i: int| 0 <= i < buffer@.len() ==> buffer@[i] == PIXEL_OFF,
        decreases 224 * 256 - buffer@.len(),
    {
        buffer.push(PIXEL_OFF);
    }
    let mut x: usize = 0;
    while x < 224
        invariant
            mem@.len() == 0x4000,
            buffer@.len() == 224 * 256,
            x <= 224,
            forall|xx: int, yy: int|
                0 <= xx < 224 && 0 <= yy < 256 ==> buffer@[#[trigger] pixel_index(xx, yy)] == (
                if xx < x && vram_pixel(mem@, xx, yy) {
                    PIXEL_ON
                } else {
                    PIXEL_OFF
                }),
        decreases 224 - x,
    {
        let mut q: usize = 0;
        while q < 256
            invariant
                mem@.len() == 0x4000,
                buffer@.len() == 224 * 256,
                x < 224,
                q <= 256,
                forall|xx: int, yy: int|
                    0 <= xx < 224 && 0 <= yy < 256 ==> buffer@[#[trigger] pixel_index(xx, yy)]
                        == (if (xx < x || (xx == x && 255 - yy < q)) && vram_pixel(mem@, xx, yy) {
                        PIXEL_ON
                    } else {
                        PIXEL_OFF
                    }),
            decreases 256 - q,
        {
            let byte: u8 = mem[0x2400 + 32 * x + q / 8];
            let bit: u8 = (q % 8) as u8;
            let on: bool = (byte >> bit) & 1 == 1;
            let y: usize = 255 - q;
            proof {
                assert(vram_pixel(mem@, x as int, y as int) == on);
            }
            if on {
                proof {
                    assert(x + 224 * y == pixel_index(x as int, y as int));
                }
                buffer[x + 224 * y] = PIXEL_ON;
            }
            proof {
                assert forall|xx: int, yy: int|
                    0 <= xx < 224 && 0 <= yy < 256 implies buffer@[#[trigger] pixel_index(xx, yy)]
                    == (if (xx < x || (xx == x && 255 - yy < q + 1)) && vram_pixel(mem@, xx, yy) {
                    PIXEL_ON
                } else {
                    PIXEL_OFF
                }) by {
                    if xx != x as int || yy != y as int {
                        assert(pixel_index(xx, yy) != pixel_index(x as int, y as int));
                    }
                }
            }
            q = q + 1;
        }
        x = x + 1;
    }
    buffer
}

// The machine facade.

/// The whole arcade machine: the CPU with its memory, the I/O shim,
/// and a running cycle total. The host drives it with a roughly 60 Hz
/// schedule of two half-frame steps, each followed by the matching
/// screen interrupt, and reads the decoded framebuffer in between.
pub struct SpaceInvaders {
    state: State8080,
    io_state: SpaceInvadersIO,
    cycles: u64,
}

impl SpaceInvaders {
    /// The CPU as the contracts see it.
    pub closed spec fn cpu(self) -> CpuView {
        self.state@
    }

    /// The I/O shim as the contracts see it.
    pub closed spec fn io(self) -> SpaceInvadersIO {
        self.io_state
    }

    /// The running total of cycles spent, saturating at the top of
    /// its range.
    pub closed spec fn cycles_spec(self) -> u64 {
        self.cycles
    }

    /// The machine's internal consistency: the CPU memory spans the
    /// address space and the shift amount stays in range.
    pub closed spec fn wf(self) -> bool {
        self.state@.wf() && io_wf(self.io_state)
    }

    /// A machine with no program: all of memory cleared.
    pub fn new() -> (r: Self)
        ensures
            r.wf(),
            r.cpu() == State8080::initial_view(Seq::<u8>::empty()),
            r.io() == spec_io_new(),
            r.cycles_spec() == 0,
    {
        let rom: Vec<u8> = Vec::new();
        Self::from_rom(rom.as_slice())
    }

    /// A machine with a ROM image of at most 8 KiB copied in at
    /// address zero, everything else at its power-on value.
    pub fn from_rom(rom: &[u8]) -> (r: Self)
        requires
            rom@.len() <= 0x2000,
        ensures
            r.wf(),
            r.cpu() == State8080::initial_view(rom@),
            r.io() == spec_io_new(),
            r.cycles_spec() == 0,
    {
        SpaceInvaders { state: State8080::new(rom), io_state: SpaceInvadersIO::new(), cycles: 0 }
    }

    /// Read access to the CPU for inspection and debugging.
    pub fn state(&self) -> (r: &State8080)
        ensures
            r@ == self.cpu(),
    {
        &self.state
    }

    /// Read access to the I/O shim.
    pub fn io_state(&self) -> (r: &SpaceInvadersIO)
        ensures
            *r == self.io(),
    {
        &self.io_state
    }

    /// The cycles spent so far, saturating at the top of the range.
    pub fn cycles(&self) -> (r: u64)
        ensures
            r == self.cycles_spec(),
    {
        self.cycles
    }

    /// Width of the decoded display.
    pub fn width(&self) -> (r: usize)
        ensures
            r == 224,
    {
        SCREEN_WIDTH
    }

    /// Height of the decoded display.
    pub fn height(&self) -> (r: usize)
        ensures
            r == 256,
    {
        SCREEN_HEIGHT
    }

    /// Runs the machine for `dt_micros` microseconds of simulated time
    /// and adds the cycles spent into the running total, with the same
    /// budget accounting as [`State8080::step`].
    #[verifier::rlimit(100)]
    #[verifier::spinoff_prover]
    pub fn step(&mut self, dt_micros: u64) -> (r: Result<u64, Trap>)
        requires
            old(self).wf(),
            dt_micros < 0x4000_0000_0000_0000,
        ensures
            final(self).wf(),
            match r {
                Ok(spent) => {
                    &&& (!final(self).cpu().halted ==> spent + old(self).cpu().cycle_debt == 2
                        * dt_micros + final(self).cpu().cycle_debt
                        && (final(self).cpu().cycle_debt <= 16
                        || final(self).cpu().cycle_debt <= old(self).cpu().cycle_debt))
                    &&& (final(self).cpu().halted ==> spent <= State8080::step_budget(
                        old(self).cpu().cycle_debt,
                        dt_micros,
                    ) + 16 && final(self).cpu().cycle_debt == 0)
                    &&& (old(self).cpu().halted ==> spent == 0)
                    &&& crate::i8080::stepped_to(
                        old(self).cpu(),
                        old(self).io(),
                        (CpuView { cycle_debt: old(self).cpu().cycle_debt, ..final(self).cpu() }),
                        final(self).io(),
                        spent,
                    )
                    &&& final(self).cycles_spec() == (if old(self).cycles_spec() + spent
                        <= u64::MAX {
                        old(self).cycles_spec() + spent
                    } else {
                        u64::MAX as int
                    })
                },
                Err(t) => step_spec(final(self).cpu(), final(self).io()) == (StepSpec::Stop {
                    trap: t,
                }) && final(self).cycles_spec() == old(self).cycles_spec(),
            },
    {
        match self.state.step(dt_micros, &mut self.io_state) {
            Ok(spent) => {
                self.cycles = if self.cycles <= u64::MAX - spent {
                    self.cycles + spent
                } else {
                    u64::MAX
                };
                Ok(spent)
            },
            Err(t) => Err(t),
        }
    }

    /// Raises interrupt `n` on the CPU: serviced only while interrupts
    /// are enabled, and servicing atomically disables them.
    pub fn interrupt(&mut self, interrupt_num: u16) -> (r: Result<(), Trap>)
        requires
            old(self).wf(),
            interrupt_num < 0x2000,
        ensures
            final(self).wf(),
            final(self).io() == old(self).io(),
            final(self).cycles_spec() == old(self).cycles_spec(),
            !old(self).cpu().interrupts_enabled ==> r == Ok::<(), Trap>(()) && final(self).cpu()
                == old(self).cpu(),
            old(self).cpu().interrupts_enabled && !push_hits_rom(old(self).cpu()) ==> r == Ok::<
                (),
                Trap,
            >(()) && final(self).cpu() == (CpuView {
                pc: (8 * interrupt_num) as u16,
                interrupts_enabled: false,
                ..spec_push(old(self).cpu(), old(self).cpu().pc)
            }),
            old(self).cpu().interrupts_enabled && push_hits_rom(old(self).cpu()) ==> r == Err::<
                (),
                Trap,
            >(Trap::RomWrite(push_rom_addr(old(self).cpu()))) && final(self).cpu() == old(
                self,
            ).cpu(),
    {
        self.state.interrupt(interrupt_num)
    }

    /// Folds a key-action snapshot into the input ports.
    pub fn update_input(&mut self, snapshot: InputSnapshot)
        requires
            old(self).wf(),
        ensures
            final(self).wf(),
            final(self).io() == update_input_spec(old(self).io(), snapshot),
            final(self).cpu() == old(self).cpu(),
            final(self).cycles_spec() == old(self).cycles_spec(),
    {
        self.io_state.update_input(snapshot);
    }

    /// A small debug dump for the host's overlay: the cycle total,
    /// the derived seconds at the 2 MHz clock, the next instruction's
    /// mnemonic, and the register file in hex.
    pub fn debug_text(&self) -> (r: Vec<String>)
        requires
            self.wf(),
        ensures
            r@.len() == 6,
            r@[0]@ == "Cycles: "@ + crate::disasm::dec_of(self.cycles_spec()),
            r@[1]@ == "Seconds: "@ + crate::disasm::dec_of((self.cycles_spec() / 2_000_000)
                as u64),
            r@[2]@ == crate::disasm::opname_spec(self.cpu().mem, self.cpu().pc),
            r@[3]@ == "AF: "@ + crate::disasm::hex4(self.cpu().af()) + " BC: "@
                + crate::disasm::hex4(self.cpu().bc()),
            r@[4]@ == "DE: "@ + crate::disasm::hex4(self.cpu().de()) + " HL: "@
                + crate::disasm::hex4(self.cpu().hl()),
            r@[5]@ == "PC: "@ + crate::disasm::hex4(self.cpu().pc) + " SP: "@
                + crate::disasm::hex4(self.cpu().sp),
    {
        let mut lines: Vec<String> = Vec::new();
        let mut l0 = "Cycles: ".to_owned();
        let c = crate::disasm::dec_u64(self.cycles);
        l0.append(c.as_str());
        lines.push(l0);
        let mut l1 = "Seconds: ".to_owned();
        let secs = crate::disasm::dec_u64(self.cycles / 2_000_000);
        l1.append(secs.as_str());
        lines.push(l1);
        lines.push(self.state.next_opcode());
        let mut l3 = "AF: ".to_owned();
        crate::disasm::push_hex4(&mut l3, self.state.af());
        l3.append(" BC: ");
        crate::disasm::push_hex4(&mut l3, self.state.bc());
        lines.push(l3);
        let mut l4 = "DE: ".to_owned();
        crate::disasm::push_hex4(&mut l4, self.state.de());
        l4.append(" HL: ");
        crate::disasm::push_hex4(&mut l4, self.state.hl());
        lines.push(l4);
        let mut l5 = "PC: ".to_owned();
        crate::disasm::push_hex4(&mut l5, self.state.pc());
        l5.append(" SP: ");
        crate::disasm::push_hex4(&mut l5, self.state.sp());
        lines.push(l5);
        lines
    }

    /// The decoded framebuffer: 224 by 256 pixels, white where the
    /// VRAM bit is lit, black where it is clear.
    pub fn screen(&self) -> (r: Vec<u32>)
        requires
            self.wf(),
        ensures
            r@.len() == 224 * 256,
            forall|x: int, y: int|
                0 <= x < 224 && 0 <= y < 256 ==> r@[#[trigger] pixel_index(x, y)] == (if
                vram_pixel(self.cpu().mem, x, y) {
                    PIXEL_ON
                } else {
                    PIXEL_OFF
                }),
    {
        decode_screen(self.state.memory())
    }
}

/// The I/O shim's power-on state.
pub open spec fn spec_io_new() -> SpaceInvadersIO {
    SpaceInvadersIO {
        shift_register: RegisterPair { hi: 0, lo: 0 },
        shift_amount: 0,
        port0: 0x70,
        port1: 0x10,
        port2: 0,
    }
}

} // verus!
