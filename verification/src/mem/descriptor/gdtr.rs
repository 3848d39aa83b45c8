//! The global-descriptor-table register: the table's byte limit and its
//! virtual base address. The snapshot occupies a single permit slot, so at
//! most one live snapshot of the register exists per execution context.
//! The platform's load and store primitives move the register through a
//! ten-byte little-endian block; the codec between that block and the
//! typed buffer lives here, verified.

use vstd::prelude::*;

use crate::machine::Machine;

verus! {

/// The global-descriptor-table register.
pub struct GDTR;

/// A snapshot of the register: the table limit and the table's base
/// address.
#[derive(Debug)]
pub struct GdtrBuffer {
    /// The table's limit: together with the base address it bounds the
    /// table's last byte, and reaching past it faults.
    pub limit: u16,
    /// The table's starting byte address in virtual memory. Any address
    /// works; eight-byte alignment avoids misaligned-access penalties.
    pub base_addr: u64,
}

/// The limit a ten-byte register block holds: its first two bytes,
/// little-endian.
pub open spec fn spec_block_limit(s: Seq<u8>) -> int {
    s[0] + s[1] * 0x100
}

/// The base address a ten-byte register block holds: its last eight
/// bytes, little-endian.
pub open spec fn spec_block_base(s: Seq<u8>) -> int {
    s[2] + s[3] * 0x100 + s[4] * 0x1_0000 + s[5] * 0x100_0000 + s[6] * 0x1_0000_0000 + s[7]
        * 0x100_0000_0000 + s[8] * 0x1_0000_0000_0000 + s[9] * 0x100_0000_0000_0000
}

impl GDTR {
    /// Snapshot the register. Succeeds exactly when no other snapshot is
    /// live; the read is the platform's privileged table-register store to
    /// memory.
    pub fn buffer(m: &mut Machine) -> (r: Option<GdtrBuffer>)
        ensures
            r.is_some() <==> !old(m).gdtr_buffer_taken,
            r.is_some() ==> *final(m) == (Machine { gdtr_buffer_taken: true, ..*old(m) }),
            r.is_none() ==> *final(m) == *old(m),
            match r {
                Some(b) => b.limit == old(m).gdtr_limit && b.base_addr == old(m).gdtr_base,
                None => true,
            },
    {
        if m.gdtr_buffer_taken {
            return None;
        }
        m.gdtr_buffer_taken = true;
        Some(GdtrBuffer { limit: m.gdtr_limit, base_addr: m.gdtr_base })
    }
}

impl GdtrBuffer {
    /// Decode the register's ten-byte little-endian block, as the
    /// platform's table-register read leaves it in memory.
    pub fn from_bytes(bytes: &Vec<u8>) -> (b: GdtrBuffer)
        requires
            bytes@.len() == 10,
        ensures
            b.limit == spec_block_limit(bytes@),
            b.base_addr == spec_block_base(bytes@),
    {
        let limit: u16 = bytes[0] as u16 + bytes[1] as u16 * 0x100;
        let base_addr: u64 = bytes[2] as u64 + bytes[3] as u64 * 0x100 + bytes[4] as u64 * 0x1_0000
            + bytes[5] as u64 * 0x100_0000 + bytes[6] as u64 * 0x1_0000_0000 + bytes[7] as u64
            * 0x100_0000_0000 + bytes[8] as u64 * 0x1_0000_0000_0000 + bytes[9] as u64
            * 0x100_0000_0000_0000;
        GdtrBuffer { limit, base_addr }
    }

    /// Encode the buffer into the register's ten-byte little-endian
    /// block, ready for the platform's table-register load.
    pub fn to_bytes(&self) -> (bytes: Vec<u8>)
        ensures
            bytes@.len() == 10,
            spec_block_limit(bytes@) == self.limit,
            spec_block_base(bytes@) == self.base_addr,
    {
        let mut bytes: Vec<u8> = Vec::new();
        let l = self.limit;
        let b = self.base_addr;
        bytes.push((l % 0x100) as u8);
        bytes.push((l / 0x100) as u8);
        bytes.push((b % 0x100) as u8);
        bytes.push((b / 0x100 % 0x100) as u8);
        bytes.push((b / 0x1_0000 % 0x100) as u8);
        bytes.push((b / 0x100_0000 % 0x100) as u8);
        bytes.push((b / 0x1_0000_0000 % 0x100) as u8);
        bytes.push((b / 0x100_0000_0000 % 0x100) as u8);
        bytes.push((b / 0x1_0000_0000_0000 % 0x100) as u8);
        bytes.push((b / 0x100_0000_0000_0000) as u8);
        proof {
            assert(spec_block_limit(bytes@) == l % 0x100 + (l / 0x100) * 0x100);
            assert(l % 0x100 + (l / 0x100) * 0x100 == l) by (nonlinear_arith);
            assert(spec_block_base(bytes@) == b % 0x100 + (b / 0x100 % 0x100) * 0x100 + (b
                / 0x1_0000 % 0x100) * 0x1_0000 + (b / 0x100_0000 % 0x100) * 0x100_0000 + (b
                / 0x1_0000_0000 % 0x100) * 0x1_0000_0000 + (b / 0x100_0000_0000 % 0x100)
                * 0x100_0000_0000 + (b / 0x1_0000_0000_0000 % 0x100) * 0x1_0000_0000_0000 + (b
                / 0x100_0000_0000_0000) * 0x100_0000_0000_0000);
            lemma_base_bytes_reassemble(b);
        }
        bytes
    }

    /// Commit the snapshot to the register: the platform's privileged
    /// table-register load, legal only at the most privileged level.
    pub fn flush(&self, m: &mut Machine)
        ensures
            *final(m) == (Machine {
                gdtr_limit: self.limit,
                gdtr_base: self.base_addr,
                ..*old(m)
            }),
    {
        m.gdtr_limit = self.limit;
        m.gdtr_base = self.base_addr;
    }

    /// Give the snapshot up and return its permit to the machine's slot.
    pub fn release(self, m: &mut Machine)
        ensures
            *final(m) == (Machine { gdtr_buffer_taken: false, ..*old(m) }),
    {
        m.gdtr_buffer_taken = false;
    }
}

/// Splitting an address into its eight little-endian bytes and summing
/// them back is the identity.
proof fn lemma_base_bytes_reassemble(b: u64)
    ensures
        b % 0x100 + (b / 0x100 % 0x100) * 0x100 + (b / 0x1_0000 % 0x100) * 0x1_0000 + (b
            / 0x100_0000 % 0x100) * 0x100_0000 + (b / 0x1_0000_0000 % 0x100) * 0x1_0000_0000 + (b
            / 0x100_0000_0000 % 0x100) * 0x100_0000_0000 + (b / 0x1_0000_0000_0000 % 0x100)
            * 0x1_0000_0000_0000 + (b / 0x100_0000_0000_0000) * 0x100_0000_0000_0000 == b,
{
    assert(b % 0x100 + (b / 0x100 % 0x100) * 0x100 + (b / 0x1_0000 % 0x100) * 0x1_0000 + (b
        / 0x100_0000 % 0x100) * 0x100_0000 + (b / 0x1_0000_0000 % 0x100) * 0x1_0000_0000 + (b
        / 0x100_0000_0000 % 0x100) * 0x100_0000_0000 + (b / 0x1_0000_0000_0000 % 0x100)
        * 0x1_0000_0000_0000 + (b / 0x100_0000_0000_0000) * 0x100_0000_0000_0000 == b)
        by (bit_vector);
}

} // verus!
