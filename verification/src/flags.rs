//! The five condition flags of the 8080 and their packed byte form.

use vstd::prelude::*;

verus! {

/// Condition flags. The auxiliary carry is carried along for the packed
/// form but is never set by the arithmetic of this core.
#[derive(Clone, Copy, Debug, PartialEq, Eq, Structural)]
pub struct Flags {
    pub zero: bool,
    pub sign_negative: bool,
    pub even_parity: bool,
    pub carry: bool,
    pub aux_carry: bool,
}

/// Packed byte layout of the flags: CY at bit 0, P at bit 2, AC at bit 4,
/// Z at bit 6, S at bit 7; bits 1, 3 and 5 read as zero.
pub open spec fn pack_flags(f: Flags) -> u8 {
    ((if f.carry {
        0x01u8
    } else {
        0u8
    }) + (if f.even_parity {
        0x04u8
    } else {
        0u8
    }) + (if f.aux_carry {
        0x10u8
    } else {
        0u8
    }) + (if f.zero {
        0x40u8
    } else {
        0u8
    }) + (if f.sign_negative {
        0x80u8
    } else {
        0u8
    })) as u8
}

/// Each flag read back from its bit of the packed byte; bits 1, 3 and 5
/// are ignored.
pub open spec fn unpack_flags(b: u8) -> Flags {
    Flags {
        carry: b & 0x01 != 0,
        even_parity: b & 0x04 != 0,
        aux_carry: b & 0x10 != 0,
        zero: b & 0x40 != 0,
        sign_negative: b & 0x80 != 0,
    }
}

impl Flags {
    /// All five flags cleared.
    pub fn cleared() -> (r: Flags)
        ensures
            r == (Flags {
                zero: false,
                sign_negative: false,
                even_parity: false,
                carry: false,
                aux_carry: false,
            }),
    {
        Flags { zero: false, sign_negative: false, even_parity: false, carry: false, aux_carry: false }
    }

    /// Returns the flags as a single packed byte.
    pub fn psw(&self) -> (r: u8)
        ensures
            r == pack_flags(*self),
    {
        let mut psw: u8 = 0;
        if self.carry {
            psw = psw + 0x01;
        }
        if self.even_parity {
            psw = psw + 0x04;
        }
        if self.aux_carry {
            psw = psw + 0x10;
        }
        if self.zero {
            psw = psw + 0x40;
        }
        if self.sign_negative {
            psw = psw + 0x80;
        }
        psw
    }

    /// Sets the flags from a packed byte.
    pub fn set_psw(&mut self, psw: u8)
        ensures
            *final(self) == unpack_flags(psw),
    {
        self.carry = psw & 0x01 != 0;
        self.even_parity = psw & 0x04 != 0;
        self.aux_carry = psw & 0x10 != 0;
        self.zero = psw & 0x40 != 0;
        self.sign_negative = psw & 0x80 != 0;
    }
}

/// Packing the flags read from a byte gives back that byte with the three
/// undefined bits cleared.
pub proof fn lemma_flags_pack_unpack(b: u8)
    ensures
        pack_flags(unpack_flags(b)) == b & 0xd5,
{
    assert(((if b & 0x01 != 0 {
        0x01u8
    } else {
        0u8
    }) + (if b & 0x04 != 0 {
        0x04u8
    } else {
        0u8
    }) + (if b & 0x10 != 0 {
        0x10u8
    } else {
        0u8
    }) + (if b & 0x40 != 0 {
        0x40u8
    } else {
        0u8
    }) + (if b & 0x80 != 0 {
        0x80u8
    } else {
        0u8
    })) as u8 == b & 0xd5) by (bit_vector);
}

/// Unpacking a packed flag byte restores every flag: no information is
/// lost in the packed form.
pub proof fn lemma_flags_unpack_pack(f: Flags)
    ensures
        unpack_flags(pack_flags(f)) == f,
{
    let b = pack_flags(f);
    let cy = f.carry;
    let pa = f.even_parity;
    let ac = f.aux_carry;
    let ze = f.zero;
    let si = f.sign_negative;
    assert((b & 0x01 != 0) == cy && (b & 0x04 != 0) == pa && (b & 0x10 != 0) == ac && (b & 0x40
        != 0) == ze && (b & 0x80 != 0) == si) by (bit_vector)
        requires
            b == ((if cy {
                0x01u8
            } else {
                0u8
            }) + (if pa {
                0x04u8
            } else {
                0u8
            }) + (if ac {
                0x10u8
            } else {
                0u8
            }) + (if ze {
                0x40u8
            } else {
                0u8
            }) + (if si {
                0x80u8
            } else {
                0u8
            })) as u8,
    ;
}

} // verus!
