//! The process anchor locator: finds the control block of the system
//! process in the kernel image, by what such a block holds in every build
//! and by the list that it is a member of.
use vstd::prelude::*;
use crate::architecture::Architecture;
use crate::bytes::{pointer_at, spec_pointer_at};
use crate::error::{Error, ReadError, Stage};
use crate::lowstub::KernelStubInfo;
use crate::memory::{MemoryAccess, MemoryView, PAGE_SIZE};
use crate::ntos::{header_in_page, parse_header};
use crate::scan::{decides, lemma_scan_success, scan, scan_from, Probe};

verus! {

/// The number of bytes that are read at each candidate.
pub const BLOCK_SPAN: usize = 0x800;

/// The distance from one candidate to the next.
pub const CANDIDATE_STEP: usize = 16;

/// The first byte of a process-control-block: the kind of kernel object.
pub const PROCESS_TAG: u8 = 0x03;

/// The length of the name field of a process-control-block.
pub const NAME_LENGTH: usize = 15;

/// Where a process-control-block holds its translation root.
pub open spec fn spec_root_offset(arch: Architecture) -> int {
    match arch {
        Architecture::X86 => 0x18,
        Architecture::X64 => 0x28,
    }
}

pub fn root_offset(arch: Architecture) -> (offset: usize)
    ensures
        offset == spec_root_offset(arch),
{
    match arch {
        Architecture::X86 => 0x18,
        Architecture::X64 => 0x28,
    }
}

/// Byte `index` of the name field of the system process: "System", then
/// zero bytes.
pub open spec fn spec_name_byte(index: int) -> u8 {
    if index == 0 {
        0x53
    } else if index == 1 {
        0x79
    } else if index == 2 {
        0x73
    } else if index == 3 {
        0x74
    } else if index == 4 {
        0x65
    } else if index == 5 {
        0x6d
    } else {
        0
    }
}

/// The name field of the system process.
pub open spec fn system_name() -> Seq<u8> {
    Seq::new(NAME_LENGTH as nat, |index: int| spec_name_byte(index))
}

/// Whether the name field of the system process stands at `offset`.
pub open spec fn name_at(block: Seq<u8>, offset: int) -> bool {
    0 <= offset && offset + NAME_LENGTH <= block.len() && block.subrange(
        offset,
        offset + NAME_LENGTH,
    ) == system_name()
}

/// Whether `block` holds what the control block of the system process
/// holds in every build: the tag of a process, the translation root of the
/// kernel in its place, and somewhere the name "System".
pub open spec fn spec_looks_like_system_process(stub: KernelStubInfo, block: Seq<u8>) -> bool {
    &&& block.len() == BLOCK_SPAN
    &&& block[0] == PROCESS_TAG
    &&& spec_pointer_at(stub.arch, block, spec_root_offset(stub.arch)) == stub.dtb
    &&& exists|offset: int| name_at(block, offset)
}

fn name_byte(index: usize) -> (b: u8)
    ensures
        b == spec_name_byte(index as int),
{
    if index == 0 {
        0x53
    } else if index == 1 {
        0x79
    } else if index == 2 {
        0x73
    } else if index == 3 {
        0x74
    } else if index == 4 {
        0x65
    } else if index == 5 {
        0x6d
    } else {
        0
    }
}

fn has_name_at(block: &[u8], offset: usize) -> (r: bool)
    requires
        offset + NAME_LENGTH <= block.len(),
    ensures
        r == name_at(block@, offset as int),
{
    let mut k: usize = 0;
    while k < NAME_LENGTH
        invariant
            k <= NAME_LENGTH,
            offset + NAME_LENGTH <= block.len(),
            forall|j: int| 0 <= j < k ==> block@[offset + j] == spec_name_byte(j),
        decreases NAME_LENGTH - k,
    {
        if block[offset + k] != name_byte(k) {
            assert(block@.subrange(offset as int, offset + NAME_LENGTH)[k as int]
                != system_name()[k as int]);
            return false;
        }
        k += 1;
    }
    assert(block@.subrange(offset as int, offset + NAME_LENGTH) =~= system_name());
    true
}

/// Whether the name "System" stands anywhere in `block`.
pub fn has_system_name(block: &[u8]) -> (r: bool)
    ensures
        r == exists|offset: int| name_at(block@, offset),
{
    if block.len() < NAME_LENGTH {
        return false;
    }
    let last = block.len() - NAME_LENGTH;
    let mut offset: usize = 0;
    while offset <= last
        invariant
            last + NAME_LENGTH == block.len(),
            offset <= last + 1,
            forall|j: int| 0 <= j < offset ==> !name_at(block@, j),
        decreases last + 1 - offset,
    {
        if has_name_at(block, offset) {
            return true;
        }
        offset += 1;
    }
    false
}

/// Whether `block` holds what the control block of the system process
/// holds in every build.
pub fn looks_like_system_process(stub: &KernelStubInfo, block: &[u8]) -> (r: bool)
    ensures
        r == spec_looks_like_system_process(*stub, block@),
{
    if block.len() != BLOCK_SPAN || block[0] != PROCESS_TAG {
        return false;
    }
    let root_offset = root_offset(stub.arch);
    pointer_at(stub.arch, block, root_offset) == stub.dtb && has_system_name(block)
}

/// Whether a list link can point to `address`: it lies in kernel space,
/// and so does the pair of pointers that begins there.
pub open spec fn spec_is_link_target(arch: Architecture, address: u64) -> bool {
    arch.spec_is_kernel_address(address) && address + 2 * arch.spec_pointer_width() - 1
        <= arch.spec_address_limit()
}

fn is_link_target(arch: Architecture, address: u64) -> (r: bool)
    ensures
        r == spec_is_link_target(arch, address),
{
    arch.is_kernel_address(address) && address <= arch.address_limit() - (2
        * arch.pointer_width() as u64 - 1)
}

/// The number of places in a block at which a pair of list pointers can
/// stand.
pub open spec fn spec_link_places(arch: Architecture) -> nat {
    (BLOCK_SPAN as nat / arch.spec_pointer_width() - 1) as nat
}

/// The pointer that a read of virtual memory at `address` gives.
pub open spec fn spec_read_pointer(memory: MemoryView, stub: KernelStubInfo, address: u64) -> Result<
    u64,
    ReadError,
> {
    match (memory.translated)(stub.dtb, address, stub.arch.spec_pointer_width()) {
        Ok(bytes) => Ok(spec_pointer_at(stub.arch, bytes, 0)),
        Err(e) => Err(e),
    }
}

/// Reads a pointer from virtual memory under the kernel's translation
/// root.
pub fn read_pointer<M: MemoryAccess>(mem: &mut M, stub: &KernelStubInfo, address: u64) -> (r:
    Result<u64, ReadError>)
    ensures
        final(mem).view() == old(mem).view(),
        r == spec_read_pointer(old(mem).view(), *stub, address),
{
    match mem.read_virtual(stub.dtb, address, stub.arch.pointer_width()) {
        Ok(bytes) => Ok(pointer_at(stub.arch, bytes.as_slice(), 0)),
        Err(e) => Err(e),
    }
}

/// Whether the pointer at `at` is `expected`. A pointer without
/// translation is not.
pub open spec fn points_to(memory: MemoryView, stub: KernelStubInfo, at: u64, expected: int) -> Probe<
    (),
> {
    match spec_read_pointer(memory, stub, at) {
        Err(ReadError::Translation) => Probe::Reject,
        Err(ReadError::Io) => Probe::Fail(Error::IoError),
        Ok(pointer) => if pointer == expected {
            Probe::Accept(())
        } else {
            Probe::Reject
        },
    }
}

/// Whether what lies at `at` begins like a process-control-block: with the
/// tag of a process.
pub open spec fn begins_process(memory: MemoryView, stub: KernelStubInfo, at: u64) -> Probe<()> {
    match (memory.translated)(stub.dtb, at, 1) {
        Err(ReadError::Translation) => Probe::Reject,
        Err(ReadError::Io) => Probe::Fail(Error::IoError),
        Ok(bytes) => if bytes.len() == 1 && bytes[0] == PROCESS_TAG {
            Probe::Accept(())
        } else {
            Probe::Reject
        },
    }
}

/// What looking for list links at place `place` of the block at `address`
/// gives. The pair of pointers there is taken for the links of a list of
/// processes where both lie in kernel space, the backward link of the
/// entry that the first points to leads back here, the forward link of the
/// entry that the second points to does so too, and both entries lie in
/// something that begins like a process-control-block, at the same place
/// in it as here. A pointer without translation rejects the place.
pub open spec fn link_probe(
    memory: MemoryView,
    stub: KernelStubInfo,
    address: u64,
    block: Seq<u8>,
    place: int,
) -> Probe<u64> {
    let width = stub.arch.spec_pointer_width() as int;
    let offset = place * width;
    let forward = spec_pointer_at(stub.arch, block, offset);
    let backward = spec_pointer_at(stub.arch, block, offset + width);
    if !spec_is_link_target(stub.arch, forward) || !spec_is_link_target(stub.arch, backward) {
        Probe::Reject
    } else {
        points_to(memory, stub, (forward + width) as u64, address + offset).followed_by(
            points_to(memory, stub, backward, address + offset),
        ).followed_by(begins_process(memory, stub, (forward - offset) as u64)).followed_by(
            begins_process(memory, stub, (backward - offset) as u64),
        ).followed_by(Probe::Accept(offset as u64))
    }
}

/// The outcomes of looking for list links at every place of a block, from
/// its beginning on.
pub open spec fn link_probes(
    memory: MemoryView,
    stub: KernelStubInfo,
    address: u64,
    block: Seq<u8>,
) -> Seq<Probe<u64>> {
    Seq::new(
        spec_link_places(stub.arch),
        |place: int| link_probe(memory, stub, address, block, place),
    )
}

/// The offset of the list links in the block at `address`: of the first
/// pair of pointers that is taken for links. A block of another size than
/// is read at a candidate holds none.
pub open spec fn spec_find_links(
    memory: MemoryView,
    stub: KernelStubInfo,
    address: u64,
    block: Seq<u8>,
) -> Result<u64, Error> {
    if block.len() != BLOCK_SPAN {
        Err(Error::DiscoveryFailed(Stage::ProcessAnchor))
    } else {
        scan(link_probes(memory, stub, address, block), Stage::ProcessAnchor)
    }
}

fn check_pointer<M: MemoryAccess>(
    mem: &mut M,
    stub: &KernelStubInfo,
    at: u64,
    expected: u128,
) -> (r: Probe<()>)
    ensures
        final(mem).view() == old(mem).view(),
        r == points_to(old(mem).view(), *stub, at, expected as int),
{
    match read_pointer(mem, stub, at) {
        Err(ReadError::Translation) => Probe::Reject,
        Err(ReadError::Io) => Probe::Fail(Error::IoError),
        Ok(pointer) => if pointer as u128 == expected {
            Probe::Accept(())
        } else {
            Probe::Reject
        },
    }
}

fn check_process<M: MemoryAccess>(mem: &mut M, stub: &KernelStubInfo, at: u64) -> (r: Probe<()>)
    ensures
        final(mem).view() == old(mem).view(),
        r == begins_process(old(mem).view(), *stub, at),
{
    match mem.read_virtual(stub.dtb, at, 1) {
        Err(ReadError::Translation) => Probe::Reject,
        Err(ReadError::Io) => Probe::Fail(Error::IoError),
        Ok(bytes) => if bytes[0] == PROCESS_TAG {
            Probe::Accept(())
        } else {
            Probe::Reject
        },
    }
}

fn probe_links<M: MemoryAccess>(
    mem: &mut M,
    stub: &KernelStubInfo,
    address: u64,
    block: &[u8],
    place: usize,
) -> (r: Probe<u64>)
    requires
        block.len() == BLOCK_SPAN,
        place < spec_link_places(stub.arch),
    ensures
        final(mem).view() == old(mem).view(),
        r == link_probe(old(mem).view(), *stub, address, block@, place as int),
{
    let width = stub.arch.pointer_width();
    assert(place * width + 2 * width <= BLOCK_SPAN) by {
        assert(BLOCK_SPAN as nat / 4 == 512 && BLOCK_SPAN as nat / 8 == 256);
        assert(width == 4 ==> place < 511);
        assert(width == 8 ==> place < 255);
    }
    let offset: usize = place * width;
    let forward = pointer_at(stub.arch, block, offset);
    let backward = pointer_at(stub.arch, block, offset + width);
    if !is_link_target(stub.arch, forward) || !is_link_target(stub.arch, backward) {
        return Probe::Reject;
    }
    let here: u128 = address as u128 + offset as u128;
    match check_pointer(mem, stub, forward + width as u64, here) {
        Probe::Accept(_) => {},
        Probe::Reject => {
            return Probe::Reject;
        },
        Probe::Fail(e) => {
            return Probe::Fail(e);
        },
    }
    match check_pointer(mem, stub, backward, here) {
        Probe::Accept(_) => {},
        Probe::Reject => {
            return Probe::Reject;
        },
        Probe::Fail(e) => {
            return Probe::Fail(e);
        },
    }
    match check_process(mem, stub, forward - offset as u64) {
        Probe::Accept(_) => {},
        Probe::Reject => {
            return Probe::Reject;
        },
        Probe::Fail(e) => {
            return Probe::Fail(e);
        },
    }
    match check_process(mem, stub, backward - offset as u64) {
        Probe::Accept(_) => Probe::Accept(offset as u64),
        Probe::Reject => Probe::Reject,
        Probe::Fail(e) => Probe::Fail(e),
    }
}

/// Looks in the block at `address` for the links of a list that the block
/// is a member of, and returns their offset.
pub fn find_links<M: MemoryAccess>(
    mem: &mut M,
    stub: &KernelStubInfo,
    address: u64,
    block: &[u8],
) -> (r: Result<u64, Error>)
    ensures
        final(mem).view() == old(mem).view(),
        r == spec_find_links(old(mem).view(), *stub, address, block@),
{
    if block.len() != BLOCK_SPAN {
        return Err(Error::DiscoveryFailed(Stage::ProcessAnchor));
    }
    let ghost memory = mem.view();
    let ghost outcomes = link_probes(memory, *stub, address, block@);
    let places: usize = BLOCK_SPAN / stub.arch.pointer_width() - 1;
    let mut place: usize = 0;
    while place < places
        invariant
            place <= places,
            places == spec_link_places(stub.arch),
            block.len() == BLOCK_SPAN,
            mem.view() == memory,
            memory == old(mem).view(),
            outcomes == link_probes(memory, *stub, address, block@),
            scan_from(outcomes, place as int, Stage::ProcessAnchor) == spec_find_links(
                memory,
                *stub,
                address,
                block@,
            ),
        decreases places - place,
    {
        assert(outcomes[place as int] == link_probe(memory, *stub, address, block@, place as int));
        match probe_links(mem, stub, address, block, place) {
            Probe::Accept(offset) => {
                return Ok(offset);
            },
            Probe::Fail(e) => {
                return Err(e);
            },
            Probe::Reject => {},
        }
        place += 1;
    }
    Err(Error::DiscoveryFailed(Stage::ProcessAnchor))
}

/// The address of candidate `index` in the image at `base`, where a block
/// that begins there lies in the address space of the architecture.
pub open spec fn candidate_address(stub: KernelStubInfo, base: u64, index: int) -> Option<u64> {
    let address = base + index * CANDIDATE_STEP;
    if address + BLOCK_SPAN - 1 <= stub.arch.spec_address_limit() {
        Some(address as u64)
    } else {
        None
    }
}

/// What probing candidate `index` gives. A candidate without translation
/// is rejected, and so is one that does not look like the system process
/// or that holds no links of a list.
pub open spec fn anchor_probe(
    memory: MemoryView,
    stub: KernelStubInfo,
    base: u64,
    index: int,
) -> Probe<u64> {
    match candidate_address(stub, base, index) {
        None => Probe::Reject,
        Some(address) => match (memory.translated)(stub.dtb, address, BLOCK_SPAN as nat) {
            Err(ReadError::Translation) => Probe::Reject,
            Err(ReadError::Io) => Probe::Fail(Error::IoError),
            Ok(block) => if !spec_looks_like_system_process(stub, block) {
                Probe::Reject
            } else {
                match spec_find_links(memory, stub, address, block) {
                    Ok(_) => Probe::Accept(address),
                    Err(Error::DiscoveryFailed(_)) => Probe::Reject,
                    Err(e) => Probe::Fail(e),
                }
            },
        },
    }
}

/// The outcomes of probing every candidate of an image of `size` bytes,
/// from its base on.
pub open spec fn anchor_probes(
    memory: MemoryView,
    stub: KernelStubInfo,
    base: u64,
    size: u32,
) -> Seq<Probe<u64>> {
    Seq::new(
        size as nat / (CANDIDATE_STEP as nat),
        |index: int| anchor_probe(memory, stub, base, index),
    )
}

/// The address of the system process that a scan of the kernel image at
/// `base` finds. An image whose header cannot be read as one holds no
/// candidate.
pub open spec fn spec_find(memory: MemoryView, stub: KernelStubInfo, base: u64) -> Result<
    u64,
    Error,
> {
    match (memory.translated)(stub.dtb, base, PAGE_SIZE as nat) {
        Err(ReadError::Io) => Err(Error::IoError),
        Err(ReadError::Translation) => Err(Error::DiscoveryFailed(Stage::ProcessAnchor)),
        Ok(page) => match header_in_page(stub.arch, page) {
            None => Err(Error::DiscoveryFailed(Stage::ProcessAnchor)),
            Some(header) => scan(
                anchor_probes(memory, stub, base, header.size_of_image),
                Stage::ProcessAnchor,
            ),
        },
    }
}

fn address_of_candidate(stub: &KernelStubInfo, base: u64, index: usize) -> (r: Option<u64>)
    requires
        index <= 0x0400_0000,
    ensures
        r == candidate_address(*stub, base, index as int),
{
    let limit = stub.arch.address_limit();
    let reach: u64 = BLOCK_SPAN as u64 - 1;
    assert(index * CANDIDATE_STEP <= 0x4000_0000) by (nonlinear_arith)
        requires
            index <= 0x0400_0000,
            CANDIDATE_STEP == 16,
    ;
    let distance: u64 = index as u64 * CANDIDATE_STEP as u64;
    if base <= limit - reach && distance <= limit - reach - base {
        Some(base + distance)
    } else {
        None
    }
}

/// Scans the kernel image at `base` for the control block of the system
/// process and returns its address.
pub fn find<M: MemoryAccess>(mem: &mut M, stub: &KernelStubInfo, base: u64) -> (r: Result<
    u64,
    Error,
>)
    ensures
        final(mem).view() == old(mem).view(),
        r == spec_find(old(mem).view(), *stub, base),
{
    let ghost memory = mem.view();
    let header = match mem.read_virtual(stub.dtb, base, PAGE_SIZE) {
        Err(ReadError::Io) => {
            return Err(Error::IoError);
        },
        Err(ReadError::Translation) => {
            return Err(Error::DiscoveryFailed(Stage::ProcessAnchor));
        },
        Ok(page) => match parse_header(stub.arch, page.as_slice()) {
            None => {
                return Err(Error::DiscoveryFailed(Stage::ProcessAnchor));
            },
            Some(header) => header,
        },
    };
    let ghost outcomes = anchor_probes(memory, *stub, base, header.size_of_image);
    let candidates: usize = header.size_of_image as usize / CANDIDATE_STEP;
    let mut index: usize = 0;
    while index < candidates
        invariant
            index <= candidates,
            candidates <= 0x0040_0000,
            candidates == header.size_of_image as nat / (CANDIDATE_STEP as nat),
            mem.view() == memory,
            memory == old(mem).view(),
            outcomes == anchor_probes(memory, *stub, base, header.size_of_image),
            scan_from(outcomes, index as int, Stage::ProcessAnchor) == spec_find(
                memory,
                *stub,
                base,
            ),
        decreases candidates - index,
    {
        assert(outcomes[index as int] == anchor_probe(memory, *stub, base, index as int));
        match address_of_candidate(stub, base, index) {
            None => {},
            Some(address) => {
                match mem.read_virtual(stub.dtb, address, BLOCK_SPAN) {
                    Err(ReadError::Translation) => {},
                    Err(ReadError::Io) => {
                        return Err(Error::IoError);
                    },
                    Ok(block) => {
                        if looks_like_system_process(stub, block.as_slice()) {
                            match find_links(mem, stub, address, block.as_slice()) {
                                Ok(_) => {
                                    return Ok(address);
                                },
                                Err(Error::DiscoveryFailed(_)) => {},
                                Err(e) => {
                                    return Err(e);
                                },
                            }
                        }
                    },
                }
            },
        }
        index += 1;
    }
    Err(Error::DiscoveryFailed(Stage::ProcessAnchor))
}

/// Whether the block at `address` is a member of a list of processes
/// through the links at `offset`: the entry after it points back to it, the
/// entry before it points on to it, and both lie in something that begins
/// like a process-control-block.
pub open spec fn is_linked(
    memory: MemoryView,
    stub: KernelStubInfo,
    address: u64,
    block: Seq<u8>,
    offset: u64,
) -> bool {
    let width = stub.arch.spec_pointer_width() as int;
    let forward = spec_pointer_at(stub.arch, block, offset as int);
    let backward = spec_pointer_at(stub.arch, block, offset + width);
    &&& spec_is_link_target(stub.arch, forward)
    &&& spec_is_link_target(stub.arch, backward)
    &&& spec_read_pointer(memory, stub, (forward + width) as u64) == Ok::<u64, ReadError>(
        (address + offset) as u64,
    )
    &&& spec_read_pointer(memory, stub, backward) == Ok::<u64, ReadError>(
        (address + offset) as u64,
    )
    &&& begins_process(memory, stub, (forward - offset) as u64) is Accept
    &&& begins_process(memory, stub, (backward - offset) as u64) is Accept
}

/// The process that the locator finds is a member of a list: it can be
/// read, it looks like the system process, and at some place in it stand
/// links that its neighbours answer.
pub proof fn lemma_anchor_is_list_member(memory: MemoryView, stub: KernelStubInfo, base: u64)
    requires
        spec_find(memory, stub, base) is Ok,
    ensures
        (memory.translated)(stub.dtb, spec_find(memory, stub, base)->Ok_0, BLOCK_SPAN as nat)
            matches Ok(block) && spec_looks_like_system_process(stub, block) && exists|
            offset: u64,
        |
            is_linked(memory, stub, spec_find(memory, stub, base)->Ok_0, block, offset),
{
    let anchor = spec_find(memory, stub, base)->Ok_0;
    let page = (memory.translated)(stub.dtb, base, PAGE_SIZE as nat)->Ok_0;
    let header = header_in_page(stub.arch, page)->Some_0;
    let outcomes = anchor_probes(memory, stub, base, header.size_of_image);
    lemma_scan_success(outcomes, Stage::ProcessAnchor, anchor);
    let index = choose|i: int| decides(outcomes, 0, i) && outcomes[i] == Probe::Accept(anchor);
    assert(anchor_probe(memory, stub, base, index) == Probe::Accept(anchor));
    let block = (memory.translated)(stub.dtb, anchor, BLOCK_SPAN as nat)->Ok_0;
    let offset = spec_find_links(memory, stub, anchor, block)->Ok_0;
    let places = link_probes(memory, stub, anchor, block);
    lemma_scan_success(places, Stage::ProcessAnchor, offset);
    let place = choose|i: int| decides(places, 0, i) && places[i] == Probe::Accept(offset);
    assert(link_probe(memory, stub, anchor, block, place) == Probe::Accept(offset));
    assert(is_linked(memory, stub, anchor, block, offset));
}

} // verus!
