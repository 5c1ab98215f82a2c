//! The process enumerator: walks the kernel's list of processes from the
//! system process on and describes each process that it passes.
use vstd::prelude::*;
use crate::error::Error;
use crate::lowstub::KernelStubInfo;
use crate::memory::{MemoryAccess, MemoryView};
use crate::symbols::{offset_of, LayoutView, SourceView};
use crate::sysproc::{read_pointer, spec_read_pointer};
use crate::win::{grown, lemma_grown_once, Windows};

verus! {

/// The most processes that a walk visits. A list that has not closed by
/// then is taken for damaged.
pub const MAX_PROCESSES: usize = 0x4000;

/// The distance from the thread-environment block of a thread to the one
/// that the compatibility subsystem keeps for it.
pub const COMPATIBILITY_DISTANCE: u64 = 0x2000;

/// The offsets that the walk goes by.
#[derive(Clone, Copy, Debug, PartialEq, Eq, Structural)]
pub struct ProcessOffsets {
    /// `_EPROCESS.ActiveProcessLinks`: the links of the list of processes.
    pub links: u64,
    /// `_EPROCESS.UniqueProcessId`
    pub pid: u64,
    /// `_EPROCESS.SectionBaseAddress`
    pub section_base: u64,
    /// `_EPROCESS.ThreadListHead`: the head of the list of threads.
    pub threads: u64,
    /// `_KPROCESS.DirectoryTableBase`
    pub dtb: u64,
    /// `_ETHREAD.ThreadListEntry`: the links of the list of threads.
    pub thread_entry: u64,
    /// `_KTHREAD.Teb`
    pub teb: u64,
    /// `_EPROCESS.WoW64Process`, in builds that have a compatibility
    /// subsystem.
    pub wow64: Option<u64>,
}

/// One process, as the kernel's structures describe it.
#[derive(Clone, Copy, Debug, PartialEq, Eq, Structural)]
pub struct ProcessDescriptor {
    /// The address of the process-control-block.
    pub address: u64,
    /// The process id.
    pub pid: u64,
    /// The translation root of the process.
    pub dtb: u64,
    /// The base of the image that the process runs.
    pub section_base: u64,
    /// The thread anchor: the list entry of the first thread.
    pub ethread: u64,
    /// The thread-environment block of the first thread.
    pub teb: Option<u64>,
    /// The thread-environment block that the compatibility subsystem
    /// keeps for the first thread.
    pub teb_wow64: Option<u64>,
    /// The process-environment block that the compatibility subsystem
    /// keeps for the process.
    pub peb_wow64: Option<u64>,
}

/// How a walk ended.
#[derive(Clone, Copy, Debug, PartialEq, Eq, Structural)]
pub enum WalkEnd {
    /// The list led back to the system process.
    Closed,
    /// A link could not be read or led nowhere: the processes up to there
    /// are returned.
    Torn,
    /// The walk visited `MAX_PROCESSES` processes without coming back to
    /// the system process.
    Bounded,
}

/// The processes that a walk passed, in the order of the kernel's list, and
/// how the walk ended.
#[derive(Debug, PartialEq, Eq)]
pub struct ProcessList {
    pub processes: Vec<ProcessDescriptor>,
    pub end: WalkEnd,
}

/// The offsets that the symbols give. Of the offsets that are missing, the
/// first in the order below decides the error.
pub open spec fn spec_process_offsets(symbols: Option<SourceView>) -> Result<ProcessOffsets, Error> {
    match offset_of(symbols, "_EPROCESS"@, "ActiveProcessLinks"@) {
        Err(e) => Err(e),
        Ok(links) => match offset_of(symbols, "_EPROCESS"@, "UniqueProcessId"@) {
            Err(e) => Err(e),
            Ok(pid) => match offset_of(symbols, "_EPROCESS"@, "SectionBaseAddress"@) {
                Err(e) => Err(e),
                Ok(section_base) => match offset_of(symbols, "_EPROCESS"@, "ThreadListHead"@) {
                    Err(e) => Err(e),
                    Ok(threads) => match offset_of(symbols, "_KPROCESS"@, "DirectoryTableBase"@) {
                        Err(e) => Err(e),
                        Ok(dtb) => match offset_of(symbols, "_ETHREAD"@, "ThreadListEntry"@) {
                            Err(e) => Err(e),
                            Ok(thread_entry) => match offset_of(symbols, "_KTHREAD"@, "Teb"@) {
                                Err(e) => Err(e),
                                Ok(teb) => Ok(
                                    ProcessOffsets {
                                        links,
                                        pid,
                                        section_base,
                                        threads,
                                        dtb,
                                        thread_entry,
                                        teb,
                                        wow64: match offset_of(
                                            symbols,
                                            "_EPROCESS"@,
                                            "WoW64Process"@,
                                        ) {
                                            Ok(wow64) => Some(wow64),
                                            Err(_) => None,
                                        },
                                    },
                                ),
                            },
                        },
                    },
                },
            },
        },
    }
}

/// The cache after the offsets have been resolved: grown by the layout of
/// each structure that was asked for before an offset was missing.
pub open spec fn spec_offsets_cache(cached: Seq<LayoutView>, symbols: Option<SourceView>) -> Seq<
    LayoutView,
> {
    let first = grown(cached, symbols, "_EPROCESS"@);
    if offset_of(symbols, "_EPROCESS"@, "ActiveProcessLinks"@) is Err || offset_of(
        symbols,
        "_EPROCESS"@,
        "UniqueProcessId"@,
    ) is Err || offset_of(symbols, "_EPROCESS"@, "SectionBaseAddress"@) is Err || offset_of(
        symbols,
        "_EPROCESS"@,
        "ThreadListHead"@,
    ) is Err {
        first
    } else {
        let second = grown(first, symbols, "_KPROCESS"@);
        if offset_of(symbols, "_KPROCESS"@, "DirectoryTableBase"@) is Err {
            second
        } else {
            let third = grown(second, symbols, "_ETHREAD"@);
            if offset_of(symbols, "_ETHREAD"@, "ThreadListEntry"@) is Err {
                third
            } else {
                grown(third, symbols, "_KTHREAD"@)
            }
        }
    }
}

/// The cache only grows while the offsets are resolved.
pub proof fn lemma_offsets_cache_grows(cached: Seq<LayoutView>, symbols: Option<SourceView>)
    ensures
        cached.is_prefix_of(spec_offsets_cache(cached, symbols)),
{
    let first = grown(cached, symbols, "_EPROCESS"@);
    let second = grown(first, symbols, "_KPROCESS"@);
    let third = grown(second, symbols, "_ETHREAD"@);
    lemma_grown_once(cached, symbols, "_EPROCESS"@);
    lemma_grown_once(first, symbols, "_KPROCESS"@);
    lemma_grown_once(second, symbols, "_ETHREAD"@);
    lemma_grown_once(third, symbols, "_KTHREAD"@);
}

/// Resolves the offsets that the walk goes by.
pub fn process_offsets(context: &mut Windows) -> (r: Result<ProcessOffsets, Error>)
    requires
        old(context).wf(),
    ensures
        final(context).wf(),
        final(context).same_kernel(old(context)),
        final(context).cached() == spec_offsets_cache(
            old(context).cached(),
            old(context).symbols(),
        ),
        r == spec_process_offsets(old(context).symbols()),
{
    proof {
        let symbols = context.symbols();
        let first = grown(context.cached(), symbols, "_EPROCESS"@);
        let second = grown(first, symbols, "_KPROCESS"@);
        let third = grown(second, symbols, "_ETHREAD"@);
        let fourth = grown(third, symbols, "_KTHREAD"@);
        lemma_grown_once(context.cached(), symbols, "_EPROCESS"@);
        lemma_grown_once(first, symbols, "_KPROCESS"@);
        lemma_grown_once(second, symbols, "_ETHREAD"@);
        lemma_grown_once(third, symbols, "_KTHREAD"@);
        lemma_kept(first, symbols, "_KPROCESS"@, "_EPROCESS"@);
        lemma_kept(second, symbols, "_ETHREAD"@, "_EPROCESS"@);
        lemma_kept(third, symbols, "_KTHREAD"@, "_EPROCESS"@);
        lemma_grown_once(fourth, symbols, "_EPROCESS"@);
        lemma_grown_once(first, symbols, "_EPROCESS"@);
    }
    let links = match context.resolve_offset("_EPROCESS", "ActiveProcessLinks") {
        Err(e) => {
            return Err(e);
        },
        Ok(offset) => offset,
    };
    let pid = match context.resolve_offset("_EPROCESS", "UniqueProcessId") {
        Err(e) => {
            return Err(e);
        },
        Ok(offset) => offset,
    };
    let section_base = match context.resolve_offset("_EPROCESS", "SectionBaseAddress") {
        Err(e) => {
            return Err(e);
        },
        Ok(offset) => offset,
    };
    let threads = match context.resolve_offset("_EPROCESS", "ThreadListHead") {
        Err(e) => {
            return Err(e);
        },
        Ok(offset) => offset,
    };
    let dtb = match context.resolve_offset("_KPROCESS", "DirectoryTableBase") {
        Err(e) => {
            return Err(e);
        },
        Ok(offset) => offset,
    };
    let thread_entry = match context.resolve_offset("_ETHREAD", "ThreadListEntry") {
        Err(e) => {
            return Err(e);
        },
        Ok(offset) => offset,
    };
    let teb = match context.resolve_offset("_KTHREAD", "Teb") {
        Err(e) => {
            return Err(e);
        },
        Ok(offset) => offset,
    };
    let wow64 = match context.resolve_offset("_EPROCESS", "WoW64Process") {
        Ok(offset) => Some(offset),
        Err(_) => None,
    };
    Ok(ProcessOffsets { links, pid, section_base, threads, dtb, thread_entry, teb, wow64 })
}

/// A cache that has grown by one layout and then by another does not grow
/// by the first again.
proof fn lemma_kept(
    cached: Seq<LayoutView>,
    symbols: Option<SourceView>,
    name: Seq<char>,
    earlier: Seq<char>,
)
    requires
        grown(cached, symbols, earlier) == cached,
    ensures
        grown(grown(cached, symbols, name), symbols, earlier) == grown(cached, symbols, name),
{
    let after = grown(cached, symbols, name);
    if crate::win::holds(cached, earlier) {
        let i = choose|i: int| 0 <= i < cached.len() && cached[i].name == earlier;
        assert(after[i].name == earlier);
    }
}

/// The pointer at `offset` in the structure at `base`, where it can be
/// read.
pub open spec fn spec_pointer_field(
    memory: MemoryView,
    stub: KernelStubInfo,
    base: u64,
    offset: u64,
) -> Option<u64> {
    if base + offset + stub.arch.spec_pointer_width() - 1 > u64::MAX {
        None
    } else {
        match spec_read_pointer(memory, stub, (base + offset) as u64) {
            Ok(pointer) => Some(pointer),
            Err(_) => None,
        }
    }
}

/// Reads the pointer at `offset` in the structure at `base`.
pub fn pointer_field<M: MemoryAccess>(
    mem: &mut M,
    stub: &KernelStubInfo,
    base: u64,
    offset: u64,
) -> (r: Option<u64>)
    ensures
        final(mem).view() == old(mem).view(),
        r == spec_pointer_field(old(mem).view(), *stub, base, offset),
{
    let width = stub.arch.pointer_width();
    if base as u128 + offset as u128 + width as u128 - 1 > u64::MAX as u128 {
        return None;
    }
    match read_pointer(mem, stub, base + offset) {
        Ok(pointer) => Some(pointer),
        Err(_) => None,
    }
}

/// The process that follows the one at `current` in the kernel's list:
/// where its forward link points, less the place of the links in a
/// process. There is none where the link cannot be read or points below
/// that place.
pub open spec fn spec_next(
    memory: MemoryView,
    stub: KernelStubInfo,
    offsets: ProcessOffsets,
    current: u64,
) -> Option<u64> {
    match spec_pointer_field(memory, stub, current, offsets.links) {
        None => None,
        Some(forward) => if forward >= offsets.links {
            Some((forward - offsets.links) as u64)
        } else {
            None
        },
    }
}

/// Follows the forward link of the process at `current`.
pub fn next_process<M: MemoryAccess>(
    mem: &mut M,
    stub: &KernelStubInfo,
    offsets: &ProcessOffsets,
    current: u64,
) -> (r: Option<u64>)
    ensures
        final(mem).view() == old(mem).view(),
        r == spec_next(old(mem).view(), *stub, *offsets, current),
{
    match pointer_field(mem, stub, current, offsets.links) {
        None => None,
        Some(forward) => if forward >= offsets.links {
            Some(forward - offsets.links)
        } else {
            None
        },
    }
}

/// The thread-environment block of the thread whose list entry is at
/// `ethread`. There is none where the process at `address` has no thread,
/// where the block cannot be read, or where the thread has none.
pub open spec fn spec_teb(
    memory: MemoryView,
    stub: KernelStubInfo,
    offsets: ProcessOffsets,
    address: u64,
    ethread: u64,
) -> Option<u64> {
    if ethread == address + offsets.threads || ethread < offsets.thread_entry {
        None
    } else {
        match spec_pointer_field(
            memory,
            stub,
            (ethread - offsets.thread_entry) as u64,
            offsets.teb,
        ) {
            Some(teb) => if teb != 0 {
                Some(teb)
            } else {
                None
            },
            None => None,
        }
    }
}

/// The pointer that tells whether the compatibility subsystem runs the
/// process at `address`: zero where it does not, and in builds without
/// one.
pub open spec fn spec_wow64(
    memory: MemoryView,
    stub: KernelStubInfo,
    offsets: ProcessOffsets,
    address: u64,
) -> Option<u64> {
    match offsets.wow64 {
        None => Some(0),
        Some(offset) => spec_pointer_field(memory, stub, address, offset),
    }
}

/// The description of the process at `address`, where all of it can be
/// read.
pub open spec fn spec_describe(
    memory: MemoryView,
    stub: KernelStubInfo,
    offsets: ProcessOffsets,
    address: u64,
) -> Option<ProcessDescriptor> {
    match (
        spec_pointer_field(memory, stub, address, offsets.pid),
        spec_pointer_field(memory, stub, address, offsets.dtb),
        spec_pointer_field(memory, stub, address, offsets.section_base),
        spec_pointer_field(memory, stub, address, offsets.threads),
        spec_wow64(memory, stub, offsets, address),
    ) {
        (Some(pid), Some(dtb), Some(section_base), Some(ethread), Some(wow64)) => {
            let teb = spec_teb(memory, stub, offsets, address, ethread);
            Some(
                ProcessDescriptor {
                    address,
                    pid,
                    dtb,
                    section_base,
                    ethread,
                    teb,
                    teb_wow64: match teb {
                        Some(t) => if wow64 != 0 && t + COMPATIBILITY_DISTANCE <= u64::MAX {
                            Some((t + COMPATIBILITY_DISTANCE) as u64)
                        } else {
                            None
                        },
                        None => None,
                    },
                    peb_wow64: if wow64 != 0 {
                        Some(wow64)
                    } else {
                        None
                    },
                },
            )
        },
        _ => None,
    }
}

/// Describes the process at `address`.
pub fn describe<M: MemoryAccess>(
    mem: &mut M,
    stub: &KernelStubInfo,
    offsets: &ProcessOffsets,
    address: u64,
) -> (r: Option<ProcessDescriptor>)
    ensures
        final(mem).view() == old(mem).view(),
        r == spec_describe(old(mem).view(), *stub, *offsets, address),
{
    let pid = pointer_field(mem, stub, address, offsets.pid);
    let dtb = pointer_field(mem, stub, address, offsets.dtb);
    let section_base = pointer_field(mem, stub, address, offsets.section_base);
    let threads = pointer_field(mem, stub, address, offsets.threads);
    let compatibility = match offsets.wow64 {
        None => Some(0),
        Some(offset) => pointer_field(mem, stub, address, offset),
    };
    match (pid, dtb, section_base, threads, compatibility) {
        (Some(pid), Some(dtb), Some(section_base), Some(ethread), Some(wow64)) => {
            let teb = if ethread as u128 == address as u128 + offsets.threads as u128 || ethread
                < offsets.thread_entry {
                None
            } else {
                match pointer_field(mem, stub, ethread - offsets.thread_entry, offsets.teb) {
                    Some(teb) => if teb != 0 {
                        Some(teb)
                    } else {
                        None
                    },
                    None => None,
                }
            };
            let teb_wow64 = match teb {
                Some(t) => if wow64 != 0 && t <= u64::MAX - COMPATIBILITY_DISTANCE {
                    Some(t + COMPATIBILITY_DISTANCE)
                } else {
                    None
                },
                None => None,
            };
            let peb_wow64 = if wow64 != 0 {
                Some(wow64)
            } else {
                None
            };
            Some(
                ProcessDescriptor {
                    address,
                    pid,
                    dtb,
                    section_base,
                    ethread,
                    teb,
                    teb_wow64,
                    peb_wow64,
                },
            )
        },
        _ => None,
    }
}

/// The process at `address` as a walk reports it: described, or left out
/// where it cannot be.
pub open spec fn spec_report(
    memory: MemoryView,
    stub: KernelStubInfo,
    offsets: ProcessOffsets,
    address: u64,
) -> Seq<ProcessDescriptor> {
    match spec_describe(memory, stub, offsets, address) {
        Some(descriptor) => seq![descriptor],
        None => Seq::empty(),
    }
}

/// The walk from the process at `current` on, with `remaining` visits
/// left. A process whose forward link cannot be followed ends the walk and
/// is not reported. Every other process is reported where it can be
/// described and left out where it cannot; the walk goes on from its link,
/// and ends where the link leads to `anchor`.
pub open spec fn spec_walk(
    memory: MemoryView,
    stub: KernelStubInfo,
    offsets: ProcessOffsets,
    anchor: u64,
    current: u64,
    remaining: nat,
) -> (Seq<ProcessDescriptor>, WalkEnd)
    decreases remaining,
{
    if remaining == 0 {
        (Seq::empty(), WalkEnd::Bounded)
    } else {
        match spec_next(memory, stub, offsets, current) {
            None => (Seq::empty(), WalkEnd::Torn),
            Some(next) => {
                let here = spec_report(memory, stub, offsets, current);
                if next == anchor {
                    (here, WalkEnd::Closed)
                } else {
                    let rest = spec_walk(
                        memory,
                        stub,
                        offsets,
                        anchor,
                        next,
                        (remaining - 1) as nat,
                    );
                    (here + rest.0, rest.1)
                }
            },
        }
    }
}

/// The list of processes of the kernel: the walk from the system process
/// on, with `MAX_PROCESSES` visits.
pub open spec fn spec_process_list(
    memory: MemoryView,
    stub: KernelStubInfo,
    offsets: ProcessOffsets,
    anchor: u64,
) -> (Seq<ProcessDescriptor>, WalkEnd) {
    spec_walk(memory, stub, offsets, anchor, anchor, MAX_PROCESSES as nat)
}

/// Walks the kernel's list of processes from the process at `anchor` on.
pub fn walk<M: MemoryAccess>(
    mem: &mut M,
    stub: &KernelStubInfo,
    offsets: &ProcessOffsets,
    anchor: u64,
) -> (list: ProcessList)
    ensures
        final(mem).view() == old(mem).view(),
        (list.processes@, list.end) == spec_process_list(
            old(mem).view(),
            *stub,
            *offsets,
            anchor,
        ),
{
    let ghost memory = mem.view();
    let mut processes: Vec<ProcessDescriptor> = Vec::new();
    let mut current = anchor;
    let mut visited: usize = 0;
    while visited < MAX_PROCESSES
        invariant
            visited <= MAX_PROCESSES,
            mem.view() == memory,
            memory == old(mem).view(),
            spec_process_list(memory, *stub, *offsets, anchor) == ({
                let rest = spec_walk(
                    memory,
                    *stub,
                    *offsets,
                    anchor,
                    current,
                    (MAX_PROCESSES - visited) as nat,
                );
                (processes@ + rest.0, rest.1)
            }),
        decreases MAX_PROCESSES - visited,
    {
        let ghost before = processes@;
        let ghost here = spec_report(memory, *stub, *offsets, current);
        match next_process(mem, stub, offsets, current) {
            None => {
                assert(processes@ + Seq::<ProcessDescriptor>::empty() =~= processes@);
                return ProcessList { processes, end: WalkEnd::Torn };
            },
            Some(next) => {
                match describe(mem, stub, offsets, current) {
                    Some(descriptor) => {
                        processes.push(descriptor);
                    },
                    None => {},
                }
                assert(processes@ =~= before + here);
                if next == anchor {
                    return ProcessList { processes, end: WalkEnd::Closed };
                }
                proof {
                    let rest = spec_walk(
                        memory,
                        *stub,
                        *offsets,
                        anchor,
                        next,
                        (MAX_PROCESSES - visited - 1) as nat,
                    );
                    assert(before + (here + rest.0) =~= (before + here) + rest.0);
                }
                current = next;
                visited += 1;
            },
        }
    }
    assert(processes@ + Seq::<ProcessDescriptor>::empty() =~= processes@);
    ProcessList { processes, end: WalkEnd::Bounded }
}

impl Windows {
    /// The processes of the kernel, in the order of the kernel's own list.
    /// Without the offsets that the walk goes by there is no list, only
    /// the error that says which was missing.
    pub fn process_list<M: MemoryAccess>(&mut self, mem: &mut M) -> (r: Result<ProcessList, Error>)
        requires
            old(self).wf(),
        ensures
            final(self).wf(),
            final(self).same_kernel(old(self)),
            final(self).cached() == spec_offsets_cache(old(self).cached(), old(self).symbols()),
            final(mem).view() == old(mem).view(),
            r matches Ok(list) ==> list.processes@.len() <= MAX_PROCESSES,
            match spec_process_offsets(old(self).symbols()) {
                Err(e) => r matches Err(x) && x == e,
                Ok(offsets) => r matches Ok(list) && (list.processes@, list.end)
                    == spec_process_list(
                    old(mem).view(),
                    old(self).stub(),
                    offsets,
                    old(self).anchor(),
                ),
            },
    {
        match process_offsets(self) {
            Err(e) => Err(e),
            Ok(offsets) => {
                let stub = self.kernel_stub_info();
                let anchor = self.eprocess_base();
                proof {
                    lemma_walk_is_bounded(
                        mem.view(),
                        stub,
                        offsets,
                        anchor,
                        anchor,
                        MAX_PROCESSES as nat,
                    );
                }
                Ok(walk(mem, &stub, &offsets, anchor))
            },
        }
    }
}

/// Whether `nodes` are the processes of a list that begins at `anchor` and
/// closes: each is followed by the next, none but the first is the anchor,
/// and the last is followed by the anchor.
pub open spec fn is_closed_list(
    memory: MemoryView,
    stub: KernelStubInfo,
    offsets: ProcessOffsets,
    anchor: u64,
    nodes: Seq<u64>,
) -> bool {
    &&& nodes.len() >= 1
    &&& nodes[0] == anchor
    &&& forall|i: int|
        0 <= i < nodes.len() - 1 ==> #[trigger] spec_next(memory, stub, offsets, nodes[i]) == Some(
            nodes[i + 1],
        ) && nodes[i + 1] != anchor
    &&& spec_next(memory, stub, offsets, nodes.last()) == Some(anchor)
}

/// Whether `nodes` are the processes of a list that begins at `anchor` and
/// never closes: each is followed by the next, none but the first is the
/// anchor, and the last is followed by itself.
pub open spec fn is_looping_list(
    memory: MemoryView,
    stub: KernelStubInfo,
    offsets: ProcessOffsets,
    anchor: u64,
    nodes: Seq<u64>,
) -> bool {
    &&& nodes.len() >= 2
    &&& nodes[0] == anchor
    &&& forall|i: int|
        0 <= i < nodes.len() - 1 ==> #[trigger] spec_next(memory, stub, offsets, nodes[i]) == Some(
            nodes[i + 1],
        ) && nodes[i + 1] != anchor
    &&& spec_next(memory, stub, offsets, nodes.last()) == Some(nodes.last())
}

/// The reports of the processes from place `from` of `nodes` on, in their
/// order.
pub open spec fn spec_reports(
    memory: MemoryView,
    stub: KernelStubInfo,
    offsets: ProcessOffsets,
    nodes: Seq<u64>,
    from: int,
) -> Seq<ProcessDescriptor>
    decreases nodes.len() - from,
{
    if from < 0 || from >= nodes.len() {
        Seq::empty()
    } else {
        spec_report(memory, stub, offsets, nodes[from]) + spec_reports(
            memory,
            stub,
            offsets,
            nodes,
            from + 1,
        )
    }
}

proof fn lemma_walk_along_closed_list(
    memory: MemoryView,
    stub: KernelStubInfo,
    offsets: ProcessOffsets,
    anchor: u64,
    nodes: Seq<u64>,
    from: int,
    remaining: nat,
)
    requires
        is_closed_list(memory, stub, offsets, anchor, nodes),
        0 <= from < nodes.len(),
        remaining >= nodes.len() - from,
    ensures
        spec_walk(memory, stub, offsets, anchor, nodes[from], remaining) == (
            spec_reports(memory, stub, offsets, nodes, from),
            WalkEnd::Closed,
        ),
    decreases nodes.len() - from,
{
    let here = spec_report(memory, stub, offsets, nodes[from]);
    if from == nodes.len() - 1 {
        assert(nodes[from] == nodes.last());
        assert(spec_reports(memory, stub, offsets, nodes, from + 1) =~= Seq::empty());
        assert(here + Seq::<ProcessDescriptor>::empty() =~= here);
    } else {
        assert(spec_next(memory, stub, offsets, nodes[from]) == Some(nodes[from + 1]));
        lemma_walk_along_closed_list(
            memory,
            stub,
            offsets,
            anchor,
            nodes,
            from + 1,
            (remaining - 1) as nat,
        );
    }
}

proof fn lemma_reports_of_described(
    memory: MemoryView,
    stub: KernelStubInfo,
    offsets: ProcessOffsets,
    nodes: Seq<u64>,
    from: int,
)
    requires
        0 <= from <= nodes.len(),
        forall|i: int|
            0 <= i < nodes.len() ==> (#[trigger] spec_describe(
                memory,
                stub,
                offsets,
                nodes[i],
            )).is_some(),
    ensures
        spec_reports(memory, stub, offsets, nodes, from) == Seq::new(
            (nodes.len() - from) as nat,
            |i: int| spec_describe(memory, stub, offsets, nodes[from + i]).unwrap(),
        ),
    decreases nodes.len() - from,
{
    let all = Seq::new(
        (nodes.len() - from) as nat,
        |i: int| spec_describe(memory, stub, offsets, nodes[from + i]).unwrap(),
    );
    if from < nodes.len() {
        lemma_reports_of_described(memory, stub, offsets, nodes, from + 1);
        assert(spec_describe(memory, stub, offsets, nodes[from]).is_some());
        assert(spec_reports(memory, stub, offsets, nodes, from) =~= all);
    } else {
        assert(spec_reports(memory, stub, offsets, nodes, from) =~= all);
    }
}

/// On a list of at most `MAX_PROCESSES` processes that closes, the walk
/// ends closed and reports the processes in the order of the list, each
/// that can be described.
pub proof fn lemma_closed_list_is_walked(
    memory: MemoryView,
    stub: KernelStubInfo,
    offsets: ProcessOffsets,
    anchor: u64,
    nodes: Seq<u64>,
)
    requires
        is_closed_list(memory, stub, offsets, anchor, nodes),
        nodes.len() <= MAX_PROCESSES,
    ensures
        spec_process_list(memory, stub, offsets, anchor) == (
            spec_reports(memory, stub, offsets, nodes, 0),
            WalkEnd::Closed,
        ),
{
    lemma_walk_along_closed_list(memory, stub, offsets, anchor, nodes, 0, MAX_PROCESSES as nat);
}

/// On a list of `n` processes that closes, all of which can be described,
/// the walk gives exactly `n` descriptors: those of the processes, in the
/// order of the list.
pub proof fn lemma_closed_list_gives_every_process(
    memory: MemoryView,
    stub: KernelStubInfo,
    offsets: ProcessOffsets,
    anchor: u64,
    nodes: Seq<u64>,
)
    requires
        is_closed_list(memory, stub, offsets, anchor, nodes),
        nodes.len() <= MAX_PROCESSES,
        forall|i: int|
            0 <= i < nodes.len() ==> (#[trigger] spec_describe(
                memory,
                stub,
                offsets,
                nodes[i],
            )).is_some(),
    ensures
        spec_process_list(memory, stub, offsets, anchor) == (
            Seq::new(
                nodes.len(),
                |i: int| spec_describe(memory, stub, offsets, nodes[i]).unwrap(),
            ),
            WalkEnd::Closed,
        ),
{
    lemma_closed_list_is_walked(memory, stub, offsets, anchor, nodes);
    lemma_reports_of_described(memory, stub, offsets, nodes, 0);
    assert(Seq::new(
        (nodes.len() - 0) as nat,
        |i: int| spec_describe(memory, stub, offsets, nodes[0 + i]).unwrap(),
    ) =~= Seq::new(
        nodes.len(),
        |i: int| spec_describe(memory, stub, offsets, nodes[i]).unwrap(),
    ));
}

proof fn lemma_walk_in_loop(
    memory: MemoryView,
    stub: KernelStubInfo,
    offsets: ProcessOffsets,
    anchor: u64,
    node: u64,
    remaining: nat,
)
    requires
        node != anchor,
        spec_next(memory, stub, offsets, node) == Some(node),
    ensures
        spec_walk(memory, stub, offsets, anchor, node, remaining).1 == WalkEnd::Bounded,
        spec_walk(memory, stub, offsets, anchor, node, remaining).0.len() <= remaining,
    decreases remaining,
{
    if remaining > 0 {
        lemma_walk_in_loop(memory, stub, offsets, anchor, node, (remaining - 1) as nat);
    }
}

proof fn lemma_walk_along_looping_list(
    memory: MemoryView,
    stub: KernelStubInfo,
    offsets: ProcessOffsets,
    anchor: u64,
    nodes: Seq<u64>,
    from: int,
    remaining: nat,
)
    requires
        is_looping_list(memory, stub, offsets, anchor, nodes),
        0 <= from < nodes.len(),
    ensures
        spec_walk(memory, stub, offsets, anchor, nodes[from], remaining).1 == WalkEnd::Bounded,
        spec_walk(memory, stub, offsets, anchor, nodes[from], remaining).0.len() <= remaining,
    decreases nodes.len() - from,
{
    if from == nodes.len() - 1 {
        assert(nodes[from] == nodes.last());
        assert(nodes[(nodes.len() - 2) + 1] != anchor);
        lemma_walk_in_loop(memory, stub, offsets, anchor, nodes[from], remaining);
    } else if remaining > 0 {
        assert(spec_next(memory, stub, offsets, nodes[from]) == Some(nodes[from + 1]));
        lemma_walk_along_looping_list(
            memory,
            stub,
            offsets,
            anchor,
            nodes,
            from + 1,
            (remaining - 1) as nat,
        );
    }
}

/// On a list in which a process other than the anchor is followed by
/// itself, the walk ends at its bound, with at most `MAX_PROCESSES`
/// descriptors.
pub proof fn lemma_looping_list_is_bounded(
    memory: MemoryView,
    stub: KernelStubInfo,
    offsets: ProcessOffsets,
    anchor: u64,
    nodes: Seq<u64>,
)
    requires
        is_looping_list(memory, stub, offsets, anchor, nodes),
    ensures
        spec_process_list(memory, stub, offsets, anchor).1 == WalkEnd::Bounded,
        spec_process_list(memory, stub, offsets, anchor).0.len() <= MAX_PROCESSES,
{
    lemma_walk_along_looping_list(memory, stub, offsets, anchor, nodes, 0, MAX_PROCESSES as nat);
}

/// Whatever the memory holds, a walk gives at most `MAX_PROCESSES`
/// descriptors.
pub proof fn lemma_walk_is_bounded(
    memory: MemoryView,
    stub: KernelStubInfo,
    offsets: ProcessOffsets,
    anchor: u64,
    current: u64,
    remaining: nat,
)
    ensures
        spec_walk(memory, stub, offsets, anchor, current, remaining).0.len() <= remaining,
    decreases remaining,
{
    if remaining > 0 {
        if let Some(next) = spec_next(memory, stub, offsets, current) {
            if next != anchor {
                lemma_walk_is_bounded(
                    memory,
                    stub,
                    offsets,
                    anchor,
                    next,
                    (remaining - 1) as nat,
                );
            }
        }
    }
}

} // verus!
