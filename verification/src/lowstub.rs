//! The low stub scanner: finds the processor start block that the boot
//! loader left in the first megabyte of physical memory, and reads from it
//! the translation root of the kernel and an address inside the kernel.
use vstd::prelude::*;
use crate::architecture::Architecture;
use crate::bytes::{spec_u32_at, spec_u64_at, u32_at, u64_at};
use crate::error::{Error, ReadError, Stage};
use crate::memory::{MemoryAccess, MemoryView, PAGE_SIZE};
use crate::scan::{lemma_scan_exhausted, scan, scan_from, Probe};
use vstd::bytes::{
    lemma_auto_spec_u64_to_from_le_bytes, spec_u64_to_le_bytes_open, spec_u64_to_le_bytes_to_open,
};

verus! {

/// The number of pages probed for each architecture: every page of the
/// first megabyte but the one at address zero.
pub const LOW_STUB_PAGES: usize = 255;

/// The number of probes: the pages once as X64, then once as X86.
pub const LOW_STUB_PROBES: usize = 510;

/// A start block begins with a near jump and the word 6, followed by the
/// completion flag 1; the jump's distance is free.
pub const SIGNATURE_MASK: u64 = 0xffff_ffff_ffff_00ff;

pub const SIGNATURE: u64 = 0x0000_0001_0006_00e9;

/// Where an X64 start block holds the kernel's entry address.
pub const X64_ENTRY_OFFSET: usize = 0x70;

/// An X64 entry address lies in the top of kernel space, on a multiple of
/// four.
pub const X64_ENTRY_MASK: u64 = 0xffff_f800_0000_0003;

pub const X64_ENTRY_BITS: u64 = 0xffff_f800_0000_0000;

/// Where an X64 start block holds the translation root.
pub const X64_ROOT_OFFSET: usize = 0xa0;

/// An X64 translation root is the address of a page below one terabyte.
pub const X64_ROOT_MASK: u64 = 0xffff_ff00_0000_0fff;

/// Where an X86 start block holds the kernel's entry address.
pub const X86_ENTRY_OFFSET: usize = 0x6c;

/// An X86 entry address lies in the upper half of the address space, on a
/// multiple of four.
pub const X86_ENTRY_MASK: u32 = 0x8000_0003;

pub const X86_ENTRY_BITS: u32 = 0x8000_0000;

/// Where an X86 start block holds the translation root.
pub const X86_ROOT_OFFSET: usize = 0x98;

/// An X86 translation root is the address of a page.
pub const X86_ROOT_MASK: u32 = 0x0000_0fff;

/// What the low stub gives: the architecture, an address inside the kernel
/// to scan from, and the translation root of the kernel.
#[derive(Clone, Copy, Debug, PartialEq, Eq, Structural)]
pub struct KernelStubInfo {
    pub arch: Architecture,
    pub va: u64,
    pub dtb: u64,
}

/// The start block of `arch` that `page` holds, if its structure is that of
/// one.
pub open spec fn stub_in_page(arch: Architecture, page: Seq<u8>) -> Option<KernelStubInfo> {
    if page.len() != PAGE_SIZE || spec_u64_at(page, 0) & SIGNATURE_MASK != SIGNATURE {
        None
    } else {
        match arch {
            Architecture::X64 => {
                let va = spec_u64_at(page, X64_ENTRY_OFFSET as int);
                let dtb = spec_u64_at(page, X64_ROOT_OFFSET as int);
                if va & X64_ENTRY_MASK == X64_ENTRY_BITS && dtb & X64_ROOT_MASK == 0 && dtb != 0 {
                    Some(KernelStubInfo { arch, va, dtb })
                } else {
                    None
                }
            },
            Architecture::X86 => {
                let va = spec_u32_at(page, X86_ENTRY_OFFSET as int);
                let dtb = spec_u32_at(page, X86_ROOT_OFFSET as int);
                if va & X86_ENTRY_MASK == X86_ENTRY_BITS && dtb & X86_ROOT_MASK == 0 && dtb != 0 {
                    Some(KernelStubInfo { arch, va: va as u64, dtb: dtb as u64 })
                } else {
                    None
                }
            },
        }
    }
}

/// Reads a start block of `arch` from a page of physical memory.
pub fn parse_stub(arch: Architecture, page: &[u8]) -> (r: Option<KernelStubInfo>)
    ensures
        r == stub_in_page(arch, page@),
{
    if page.len() != PAGE_SIZE || u64_at(page, 0) & SIGNATURE_MASK != SIGNATURE {
        return None;
    }
    match arch {
        Architecture::X64 => {
            let va = u64_at(page, X64_ENTRY_OFFSET);
            let dtb = u64_at(page, X64_ROOT_OFFSET);
            if va & X64_ENTRY_MASK == X64_ENTRY_BITS && dtb & X64_ROOT_MASK == 0 && dtb != 0 {
                Some(KernelStubInfo { arch, va, dtb })
            } else {
                None
            }
        },
        Architecture::X86 => {
            let va = u32_at(page, X86_ENTRY_OFFSET);
            let dtb = u32_at(page, X86_ROOT_OFFSET);
            if va & X86_ENTRY_MASK == X86_ENTRY_BITS && dtb & X86_ROOT_MASK == 0 && dtb != 0 {
                Some(KernelStubInfo { arch, va: va as u64, dtb: dtb as u64 })
            } else {
                None
            }
        },
    }
}

/// The architecture that probe `index` looks for: the native width first.
pub open spec fn probe_architecture(index: int) -> Architecture {
    if index < LOW_STUB_PAGES {
        Architecture::X64
    } else {
        Architecture::X86
    }
}

/// The physical address of the page that probe `index` reads: for each
/// architecture the pages in rising order.
pub open spec fn probe_address(index: int) -> u64 {
    ((1 + index % (LOW_STUB_PAGES as int)) * PAGE_SIZE) as u64
}

/// What probe `index` gives. A page that cannot be read ends the scan. A
/// start block is accepted only where its root translates its entry
/// address; one whose root does not is rejected like a page without one.
pub open spec fn stub_probe(memory: MemoryView, index: int) -> Probe<KernelStubInfo> {
    match (memory.physical)(probe_address(index), PAGE_SIZE as nat) {
        Err(e) => Probe::Fail(Error::spec_from_read(e)),
        Ok(page) => match stub_in_page(probe_architecture(index), page) {
            None => Probe::Reject,
            Some(info) => match (memory.translated)(info.dtb, info.va, 1) {
                Ok(_) => Probe::Accept(info),
                Err(ReadError::Translation) => Probe::Reject,
                Err(ReadError::Io) => Probe::Fail(Error::IoError),
            },
        },
    }
}

/// The outcomes of all probes, in the order in which they are made.
pub open spec fn stub_probes(memory: MemoryView) -> Seq<Probe<KernelStubInfo>> {
    Seq::new(LOW_STUB_PROBES as nat, |index: int| stub_probe(memory, index))
}

/// The stub that a scan of `memory` finds.
pub open spec fn spec_find(memory: MemoryView) -> Result<KernelStubInfo, Error> {
    scan(stub_probes(memory), Stage::LowStub)
}

/// Scans low physical memory for the start block.
pub fn find<M: MemoryAccess>(mem: &mut M) -> (r: Result<KernelStubInfo, Error>)
    ensures
        final(mem).view() == old(mem).view(),
        r == spec_find(old(mem).view()),
        r matches Ok(info) ==> (old(mem).view().translated)(info.dtb, info.va, 1) is Ok,
{
    let ghost memory = mem.view();
    let ghost outcomes = stub_probes(memory);
    let mut index: usize = 0;
    while index < LOW_STUB_PROBES
        invariant
            index <= LOW_STUB_PROBES,
            mem.view() == memory,
            memory == old(mem).view(),
            outcomes == stub_probes(memory),
            scan_from(outcomes, index as int, Stage::LowStub) == spec_find(memory),
        decreases LOW_STUB_PROBES - index,
    {
        let arch = if index < LOW_STUB_PAGES {
            Architecture::X64
        } else {
            Architecture::X86
        };
        let address: u64 = ((1 + index % LOW_STUB_PAGES) * PAGE_SIZE) as u64;
        assert(outcomes[index as int] == stub_probe(memory, index as int));
        match mem.read_physical(address, PAGE_SIZE) {
            Err(e) => {
                return Err(Error::from_read(e));
            },
            Ok(page) => {
                match parse_stub(arch, page.as_slice()) {
                    None => {},
                    Some(info) => {
                        match mem.read_virtual(info.dtb, info.va, 1) {
                            Ok(_) => {
                                return Ok(info);
                            },
                            Err(ReadError::Translation) => {},
                            Err(ReadError::Io) => {
                                return Err(Error::IoError);
                            },
                        }
                    },
                }
            },
        }
        index += 1;
    }
    Err(Error::DiscoveryFailed(Stage::LowStub))
}

/// A page of zero bytes holds no start block.
pub proof fn lemma_zero_page_holds_no_stub(arch: Architecture, page: Seq<u8>)
    requires
        forall|i: int| 0 <= i < page.len() ==> page[i] == 0,
    ensures
        stub_in_page(arch, page) is None,
{
    if page.len() == PAGE_SIZE {
        lemma_auto_spec_u64_to_from_le_bytes();
        spec_u64_to_le_bytes_to_open(0);
        assert(0u64 & 0xff == 0 && (0u64 >> 8) & 0xff == 0 && (0u64 >> 16) & 0xff == 0 && (0u64
            >> 24) & 0xff == 0 && (0u64 >> 32) & 0xff == 0 && (0u64 >> 40) & 0xff == 0 && (0u64
            >> 48) & 0xff == 0 && (0u64 >> 56) & 0xff == 0) by (bit_vector);
        assert(page.subrange(0, 8) =~= spec_u64_to_le_bytes_open(0));
        assert(spec_u64_at(page, 0) == 0);
        assert(0u64 & SIGNATURE_MASK != SIGNATURE) by (bit_vector);
    }
}

/// Where every probed page can be read and none holds a start block, the
/// scan fails at this stage.
pub proof fn lemma_no_stub_fails(memory: MemoryView)
    requires
        forall|index: int|
            0 <= index < LOW_STUB_PROBES ==> match #[trigger] (memory.physical)(
                probe_address(index),
                PAGE_SIZE as nat,
            ) {
                Ok(page) => stub_in_page(probe_architecture(index), page) is None,
                Err(_) => false,
            },
    ensures
        spec_find(memory) == Err::<KernelStubInfo, Error>(Error::DiscoveryFailed(Stage::LowStub)),
{
    let outcomes = stub_probes(memory);
    assert forall|j: int| 0 <= j < outcomes.len() implies outcomes[j] is Reject by {
        assert((memory.physical)(probe_address(j), PAGE_SIZE as nat) is Ok);
    }
    lemma_scan_exhausted(outcomes, 0, Stage::LowStub);
}

} // verus!
