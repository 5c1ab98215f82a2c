//! Little-endian integers in a run of bytes.
use vstd::prelude::*;
use vstd::bytes::{
    spec_u16_from_le_bytes, spec_u32_from_le_bytes, spec_u64_from_le_bytes, u16_from_le_bytes,
    u32_from_le_bytes, u64_from_le_bytes,
};
use vstd::slice::slice_subrange;
use crate::architecture::Architecture;

verus! {

/// The 16-bit integer whose bytes begin at `offset`.
pub open spec fn spec_u16_at(bytes: Seq<u8>, offset: int) -> u16 {
    spec_u16_from_le_bytes(bytes.subrange(offset, offset + 2))
}

/// The 32-bit integer whose bytes begin at `offset`.
pub open spec fn spec_u32_at(bytes: Seq<u8>, offset: int) -> u32 {
    spec_u32_from_le_bytes(bytes.subrange(offset, offset + 4))
}

/// The 64-bit integer whose bytes begin at `offset`.
pub open spec fn spec_u64_at(bytes: Seq<u8>, offset: int) -> u64 {
    spec_u64_from_le_bytes(bytes.subrange(offset, offset + 8))
}

/// The pointer of `arch` whose bytes begin at `offset`.
pub open spec fn spec_pointer_at(arch: Architecture, bytes: Seq<u8>, offset: int) -> u64 {
    match arch {
        Architecture::X86 => spec_u32_at(bytes, offset) as u64,
        Architecture::X64 => spec_u64_at(bytes, offset),
    }
}

pub fn u16_at(bytes: &[u8], offset: usize) -> (value: u16)
    requires
        offset + 2 <= bytes.len(),
    ensures
        value == spec_u16_at(bytes@, offset as int),
{
    u16_from_le_bytes(slice_subrange(bytes, offset, offset + 2))
}

pub fn u32_at(bytes: &[u8], offset: usize) -> (value: u32)
    requires
        offset + 4 <= bytes.len(),
    ensures
        value == spec_u32_at(bytes@, offset as int),
{
    u32_from_le_bytes(slice_subrange(bytes, offset, offset + 4))
}

pub fn u64_at(bytes: &[u8], offset: usize) -> (value: u64)
    requires
        offset + 8 <= bytes.len(),
    ensures
        value == spec_u64_at(bytes@, offset as int),
{
    u64_from_le_bytes(slice_subrange(bytes, offset, offset + 8))
}

pub fn pointer_at(arch: Architecture, bytes: &[u8], offset: usize) -> (value: u64)
    requires
        offset + arch.spec_pointer_width() <= bytes.len(),
    ensures
        value == spec_pointer_at(arch, bytes@, offset as int),
{
    match arch {
        Architecture::X86 => u32_at(bytes, offset) as u64,
        Architecture::X64 => u64_at(bytes, offset),
    }
}

} // verus!
