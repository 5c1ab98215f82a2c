//! The processor architectures that discovery tells apart.
use vstd::prelude::*;

verus! {

/// The architecture of the target: it fixes the width of a pointer, which
/// signatures a scan looks for, and where kernel space begins.
#[derive(Clone, Copy, Debug, PartialEq, Eq, Structural)]
pub enum Architecture {
    X86,
    X64,
}

impl Architecture {
    /// The number of bytes in a pointer.
    pub open spec fn spec_pointer_width(self) -> nat {
        match self {
            Architecture::X86 => 4,
            Architecture::X64 => 8,
        }
    }

    pub fn pointer_width(&self) -> (w: usize)
        ensures
            w == self.spec_pointer_width(),
    {
        match self {
            Architecture::X86 => 4,
            Architecture::X64 => 8,
        }
    }

    /// The lowest address of kernel space.
    pub open spec fn spec_kernel_floor(self) -> u64 {
        match self {
            Architecture::X86 => 0x8000_0000,
            Architecture::X64 => 0xffff_8000_0000_0000,
        }
    }

    /// The highest address there is.
    pub open spec fn spec_address_limit(self) -> u64 {
        match self {
            Architecture::X86 => 0xffff_ffff,
            Architecture::X64 => 0xffff_ffff_ffff_ffff,
        }
    }

    pub fn address_limit(&self) -> (limit: u64)
        ensures
            limit == self.spec_address_limit(),
    {
        match self {
            Architecture::X86 => 0xffff_ffff,
            Architecture::X64 => 0xffff_ffff_ffff_ffff,
        }
    }

    /// Whether `address` lies in kernel space.
    pub open spec fn spec_is_kernel_address(self, address: u64) -> bool {
        self.spec_kernel_floor() <= address <= self.spec_address_limit()
    }

    pub fn is_kernel_address(&self, address: u64) -> (r: bool)
        ensures
            r == self.spec_is_kernel_address(address),
    {
        match self {
            Architecture::X86 => 0x8000_0000 <= address && address <= 0xffff_ffff,
            Architecture::X64 => 0xffff_8000_0000_0000 <= address,
        }
    }
}

} // verus!
