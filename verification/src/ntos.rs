//! The kernel image locator: finds the base of the kernel image by
//! scanning virtual memory around the stub's entry address for the header
//! of an executable image.
use vstd::prelude::*;
use crate::architecture::Architecture;
use crate::bytes::{spec_u16_at, spec_u32_at, u16_at, u32_at};
use crate::error::{Error, ReadError, Stage};
use crate::lowstub::KernelStubInfo;
use crate::memory::{MemoryAccess, MemoryView, PAGE_SIZE};
use crate::scan::{scan, scan_from, Probe};

verus! {

/// The number of pages probed in each direction: 32 MiB.
pub const WINDOW_PAGES: usize = 0x2000;

/// The number of probes: the window below the entry address, then the
/// window above it.
pub const WINDOW_PROBES: usize = 0x4000;

/// The mask that rounds an address down to its page.
pub const PAGE_MASK: u64 = 0xffff_ffff_ffff_f000;

/// The first two bytes of an image: "MZ".
pub const DOS_MAGIC: u16 = 0x5a4d;

/// Where the first header says where the second one begins.
pub const NT_POINTER_OFFSET: usize = 0x3c;

/// The least offset at which the second header can begin.
pub const NT_OFFSET_MIN: u32 = 0x40;

/// The number of bytes of the second header that are read.
pub const NT_HEADER_SPAN: u32 = 84;

/// The first four bytes of the second header: "PE", then two zero bytes.
pub const NT_SIGNATURE: u32 = 0x0000_4550;

pub const MACHINE_X64: u16 = 0x8664;

pub const MACHINE_X86: u16 = 0x014c;

pub const OPTIONAL_MAGIC_X64: u16 = 0x020b;

pub const OPTIONAL_MAGIC_X86: u16 = 0x010b;

/// The most sections that an image can have.
pub const MAX_SECTIONS: u16 = 96;

/// The largest image that is taken for a kernel: 64 MiB.
pub const MAX_IMAGE_SIZE: u32 = 0x0400_0000;

/// What the locator reads from an image's header.
#[derive(Clone, Copy, Debug, PartialEq, Eq, Structural)]
pub struct ImageHeader {
    /// When the image was linked, in seconds.
    pub timestamp: u32,
    /// The number of bytes that the loaded image takes.
    pub size_of_image: u32,
    /// The number of sections.
    pub sections: u16,
}

/// The machine word that an image for `arch` carries.
pub open spec fn spec_machine(arch: Architecture) -> u16 {
    match arch {
        Architecture::X86 => MACHINE_X86,
        Architecture::X64 => MACHINE_X64,
    }
}

/// The word that opens the optional header of an image for `arch`.
pub open spec fn spec_optional_magic(arch: Architecture) -> u16 {
    match arch {
        Architecture::X86 => OPTIONAL_MAGIC_X86,
        Architecture::X64 => OPTIONAL_MAGIC_X64,
    }
}

/// The header of an image for `arch` that begins with `page`, if the page
/// begins one: both signatures are in place, the second header lies in the
/// page, the machine and the optional header are those of `arch`, and the
/// number of sections and the size of the image are within bounds.
pub open spec fn header_in_page(arch: Architecture, page: Seq<u8>) -> Option<ImageHeader> {
    if page.len() != PAGE_SIZE || spec_u16_at(page, 0) != DOS_MAGIC {
        None
    } else {
        let nt = spec_u32_at(page, NT_POINTER_OFFSET as int);
        if nt < NT_OFFSET_MIN || nt + NT_HEADER_SPAN > PAGE_SIZE {
            None
        } else {
            let sections = spec_u16_at(page, nt + 6);
            let size_of_image = spec_u32_at(page, nt + 80);
            if spec_u32_at(page, nt as int) == NT_SIGNATURE && spec_u16_at(page, nt + 4)
                == spec_machine(arch) && spec_u16_at(page, nt + 24) == spec_optional_magic(arch)
                && 1 <= sections <= MAX_SECTIONS && PAGE_SIZE <= size_of_image
                <= MAX_IMAGE_SIZE {
                Some(
                    ImageHeader { timestamp: spec_u32_at(page, nt + 8), size_of_image, sections },
                )
            } else {
                None
            }
        }
    }
}

/// Reads the header of an image for `arch` from the page that the image
/// begins with.
pub fn parse_header(arch: Architecture, page: &[u8]) -> (r: Option<ImageHeader>)
    ensures
        r == header_in_page(arch, page@),
{
    if page.len() != PAGE_SIZE || u16_at(page, 0) != DOS_MAGIC {
        return None;
    }
    let nt32 = u32_at(page, NT_POINTER_OFFSET);
    if nt32 < NT_OFFSET_MIN || nt32 > PAGE_SIZE as u32 - NT_HEADER_SPAN {
        return None;
    }
    let nt = nt32 as usize;
    let machine = match arch {
        Architecture::X86 => MACHINE_X86,
        Architecture::X64 => MACHINE_X64,
    };
    let magic = match arch {
        Architecture::X86 => OPTIONAL_MAGIC_X86,
        Architecture::X64 => OPTIONAL_MAGIC_X64,
    };
    let sections = u16_at(page, nt + 6);
    let size_of_image = u32_at(page, nt + 80);
    if u32_at(page, nt) == NT_SIGNATURE && u16_at(page, nt + 4) == machine && u16_at(
        page,
        nt + 24,
    ) == magic && 1 <= sections && sections <= MAX_SECTIONS && PAGE_SIZE as u32 <= size_of_image
        && size_of_image <= MAX_IMAGE_SIZE {
        Some(ImageHeader { timestamp: u32_at(page, nt + 8), size_of_image, sections })
    } else {
        None
    }
}

/// The page that holds the stub's entry address.
pub open spec fn spec_seed_page(stub: KernelStubInfo) -> u64 {
    stub.va & PAGE_MASK
}

/// The address of the page that probe `index` reads: first the seed page
/// and the pages below it, nearest first, then the pages above it, nearest
/// first. A page that does not lie in the address space of the
/// architecture has no address.
pub open spec fn probe_page(stub: KernelStubInfo, index: int) -> Option<u64> {
    let seed = spec_seed_page(stub) as int;
    let address = if index < WINDOW_PAGES {
        seed - index * PAGE_SIZE
    } else {
        seed + (index - WINDOW_PAGES + 1) * PAGE_SIZE
    };
    if 0 <= address && address + PAGE_SIZE - 1 <= stub.arch.spec_address_limit() {
        Some(address as u64)
    } else {
        None
    }
}

/// What probe `index` gives. A page without translation is rejected like a
/// page that begins no image.
pub open spec fn image_probe(memory: MemoryView, stub: KernelStubInfo, index: int) -> Probe<u64> {
    match probe_page(stub, index) {
        None => Probe::Reject,
        Some(address) => match (memory.translated)(stub.dtb, address, PAGE_SIZE as nat) {
            Err(ReadError::Translation) => Probe::Reject,
            Err(ReadError::Io) => Probe::Fail(Error::IoError),
            Ok(page) => match header_in_page(stub.arch, page) {
                None => Probe::Reject,
                Some(_) => Probe::Accept(address),
            },
        },
    }
}

/// The outcomes of all probes, in the order in which they are made.
pub open spec fn image_probes(memory: MemoryView, stub: KernelStubInfo) -> Seq<Probe<u64>> {
    Seq::new(WINDOW_PROBES as nat, |index: int| image_probe(memory, stub, index))
}

/// The base of the kernel image that a scan of `memory` finds.
pub open spec fn spec_find(memory: MemoryView, stub: KernelStubInfo) -> Result<u64, Error> {
    scan(image_probes(memory, stub), Stage::KernelImage)
}

/// The address of the page that probe `index` reads.
fn page_of_probe(stub: &KernelStubInfo, index: usize) -> (r: Option<u64>)
    requires
        index < WINDOW_PROBES,
    ensures
        r == probe_page(*stub, index as int),
{
    let seed = stub.va & PAGE_MASK;
    let limit = stub.arch.address_limit();
    let reach: u64 = PAGE_SIZE as u64 - 1;
    if index < WINDOW_PAGES {
        let distance: u64 = index as u64 * PAGE_SIZE as u64;
        if seed >= distance && seed - distance <= limit - reach {
            Some(seed - distance)
        } else {
            None
        }
    } else {
        let distance: u64 = (index - WINDOW_PAGES + 1) as u64 * PAGE_SIZE as u64;
        if seed <= limit - reach && distance <= limit - reach - seed {
            Some(seed + distance)
        } else {
            None
        }
    }
}

/// Scans virtual memory around the stub's entry address for the kernel
/// image and returns its base.
pub fn find<M: MemoryAccess>(mem: &mut M, stub: &KernelStubInfo) -> (r: Result<u64, Error>)
    ensures
        final(mem).view() == old(mem).view(),
        r == spec_find(old(mem).view(), *stub),
{
    let ghost memory = mem.view();
    let ghost outcomes = image_probes(memory, *stub);
    let mut index: usize = 0;
    while index < WINDOW_PROBES
        invariant
            index <= WINDOW_PROBES,
            mem.view() == memory,
            memory == old(mem).view(),
            outcomes == image_probes(memory, *stub),
            scan_from(outcomes, index as int, Stage::KernelImage) == spec_find(memory, *stub),
        decreases WINDOW_PROBES - index,
    {
        assert(outcomes[index as int] == image_probe(memory, *stub, index as int));
        match page_of_probe(stub, index) {
            None => {},
            Some(address) => {
                match mem.read_virtual(stub.dtb, address, PAGE_SIZE) {
                    Err(ReadError::Translation) => {},
                    Err(ReadError::Io) => {
                        return Err(Error::IoError);
                    },
                    Ok(page) => {
                        if parse_header(stub.arch, page.as_slice()).is_some() {
                            return Ok(address);
                        }
                    },
                }
            },
        }
        index += 1;
    }
    Err(Error::DiscoveryFailed(Stage::KernelImage))
}

} // verus!
