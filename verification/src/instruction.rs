//! The instruction decoder: one 16-bit word split into its operand fields.

use vstd::prelude::*;

verus! {

/// The operand fields of one instruction word.
#[derive(Clone, Copy, Debug, PartialEq, Eq, Structural)]
pub struct Instruction {
    /// Top four bits: the instruction family.
    pub c: u8,
    /// Second nibble: a register index.
    pub x: u8,
    /// Third nibble: a register index.
    pub y: u8,
    /// Low four bits: the sub-opcode, or a sprite height.
    pub d: u8,
    /// Low twelve bits: an address.
    pub nnn: u16,
    /// Low byte: an immediate value.
    pub kk: u8,
}

/// The fields of `word`, stated by division: `word` is
/// `c * 4096 + x * 256 + y * 16 + d`, `nnn` is what follows `c` and `kk` what
/// follows `x`.
pub open spec fn decode_spec(word: u16) -> Instruction {
    Instruction {
        c: (word / 4096) as u8,
        x: ((word / 256) % 16) as u8,
        y: ((word / 16) % 16) as u8,
        d: (word % 16) as u8,
        nnn: word % 4096,
        kk: (word % 256) as u8,
    }
}

/// Splits an instruction word into its fields.
pub fn decode(word: u16) -> (ins: Instruction)
    ensures
        ins == decode_spec(word),
        ins.c < 16,
        ins.x < 16,
        ins.y < 16,
        ins.d < 16,
        ins.nnn < 4096,
{
    let c: u8 = ((word & 0xF000) >> 12) as u8;
    let x: u8 = ((word & 0x0F00) >> 8) as u8;
    let y: u8 = ((word & 0x00F0) >> 4) as u8;
    let d: u8 = (word & 0x000F) as u8;
    let nnn: u16 = word & 0x0FFF;
    let kk: u8 = (word & 0x00FF) as u8;
    assert((word & 0xF000) >> 12 == word / 4096 && word / 4096 < 16) by (bit_vector);
    assert((word & 0x0F00) >> 8 == (word / 256) % 16) by (bit_vector);
    assert((word & 0x00F0) >> 4 == (word / 16) % 16) by (bit_vector);
    assert(word & 0x000F == word % 16) by (bit_vector);
    assert(word & 0x0FFF == word % 4096) by (bit_vector);
    assert(word & 0x00FF == word % 256) by (bit_vector);
    Instruction { c, x, y, d, nnn, kk }
}

} // verus!
