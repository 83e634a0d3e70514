use vstd::prelude::*;

verus! {

/// The bit fields of one opcode byte under the `xxyyyzzz` layout:
/// `x` is bits 7..6, `y` is bits 5..3, `z` is bits 2..0, and `y` splits
/// further into `p` (its top two bits) and `q` (its bottom bit).
#[derive(Clone, Copy, Debug, PartialEq, Eq, Structural)]
pub struct OpcodeFields {
    pub x: u8,
    pub y: u8,
    pub z: u8,
    pub p: u8,
    pub q: u8,
}

/// What the decoder extracts from an opcode byte: a pure function of the
/// byte alone, so decoding the same byte always yields the same fields.
pub open spec fn spec_decode(opcode: u8) -> OpcodeFields {
    OpcodeFields {
        x: (opcode / 0x40) as u8,
        y: ((opcode / 8) % 8) as u8,
        z: (opcode % 8) as u8,
        p: (((opcode / 8) % 8) / 2) as u8,
        q: (((opcode / 8) % 8) % 2) as u8,
    }
}

/// Splits an opcode byte into its dispatch fields.
pub struct OpcodeDecoder;

impl OpcodeDecoder {
    /// Extract the `xxyyyzzz` bit fields from one opcode byte. The result is
    /// a function of the byte alone: no state, no failure mode.
    pub fn decode(opcode: u8) -> (fields: OpcodeFields)
        ensures
            fields == spec_decode(opcode),
    {
        let x: u8 = (opcode & 0b1100_0000) >> 6;
        let y: u8 = (opcode & 0b0011_1000) >> 3;
        let z: u8 = opcode & 0b0000_0111;
        let p: u8 = (y & 0b110) >> 1;
        let q: u8 = y & 0b001;
        proof {
            assert((opcode & 0b1100_0000) >> 6 == opcode / 0x40 && (opcode & 0b0011_1000) >> 3 == (
            opcode / 8) % 8 && opcode & 0b0000_0111 == opcode % 8 && (((opcode & 0b0011_1000) >> 3)
                & 0b110) >> 1 == ((opcode / 8) % 8) / 2 && ((opcode & 0b0011_1000) >> 3) & 0b001 == (
            (opcode / 8) % 8) % 2) by (bit_vector);
        }
        OpcodeFields { x, y, z, p, q }
    }
}

} // verus!
