//! Reconstructs the state of a Windows kernel from raw memory reads: the
//! translation root, the kernel image, the system process, and from there
//! the list of live processes.
use vstd::prelude::*;

pub mod architecture;
pub mod bytes;
pub mod error;
pub mod image;
pub mod lowstub;
pub mod memory;
pub mod ntos;
pub mod plugin;
pub mod processes;
pub mod report;
pub mod scan;
pub mod symbols;
pub mod sysproc;
pub mod win;

use crate::error::{Error, Stage};
use crate::lowstub::{
    lemma_no_stub_fails, probe_address, probe_architecture, stub_in_page, KernelStubInfo,
    LOW_STUB_PROBES,
};
use crate::memory::{MemoryAccess, MemoryView, PAGE_SIZE};
use crate::symbols::{spec_identify, LayoutView, SymbolSource, SymbolStore};
use crate::win::Windows;

verus! {

/// What the caller knows beforehand. Each stage of discovery takes what is
/// supplied for it and does its own work only where nothing is.
pub struct DiscoveryOptions {
    /// The translation root of the kernel, with the architecture it
    /// belongs to and an address to look for the kernel image from. Where
    /// it is supplied, low memory is not scanned.
    pub translation_root: Option<KernelStubInfo>,
    /// The base of the kernel image. Where it is supplied, virtual memory
    /// is not scanned for it.
    pub kernel_base: Option<u64>,
    /// The symbols of the kernel. Where they are supplied, the symbol
    /// store is not asked.
    pub symbol_source: Option<SymbolSource>,
}

impl DiscoveryOptions {
    /// Nothing is known: every stage does its own work.
    pub fn none() -> (options: DiscoveryOptions)
        ensures
            options.translation_root is None,
            options.kernel_base is None,
            options.symbol_source is None,
    {
        DiscoveryOptions { translation_root: None, kernel_base: None, symbol_source: None }
    }
}

/// What the stages that scan memory find.
pub struct Discovered {
    pub stub: KernelStubInfo,
    pub base: u64,
    pub anchor: u64,
}

/// What the stages that scan memory find, one after the other. The first
/// stage that fails decides the error, and nothing is found.
pub open spec fn spec_discover(
    memory: MemoryView,
    translation_root: Option<KernelStubInfo>,
    kernel_base: Option<u64>,
) -> Result<Discovered, Error> {
    let found_stub = match translation_root {
        Some(stub) => Ok(stub),
        None => lowstub::spec_find(memory),
    };
    match found_stub {
        Err(e) => Err(e),
        Ok(stub) => {
            let found_base = match kernel_base {
                Some(base) => Ok(base),
                None => ntos::spec_find(memory, stub),
            };
            match found_base {
                Err(e) => Err(e),
                Ok(base) => match sysproc::spec_find(memory, stub, base) {
                    Err(e) => Err(e),
                    Ok(anchor) => Ok(Discovered { stub, base, anchor }),
                },
            }
        },
    }
}

/// Whether `context` is what discovery on `memory` with these options
/// assembles from `found`: a context of what was found, with nothing
/// cached. Supplied symbols are its symbols; what a store answered is kept
/// only where it belongs to the build that the kernel image names.
pub open spec fn assembled(
    memory: MemoryView,
    supplied: Option<SymbolSource>,
    found: Discovered,
    context: Windows,
) -> bool {
    &&& context.wf()
    &&& context.stub() == found.stub
    &&& context.base() == found.base
    &&& context.anchor() == found.anchor
    &&& context.cached() == Seq::<LayoutView>::empty()
    &&& match supplied {
        Some(source) => context.symbols() == Some(source@),
        None => match spec_identify(memory, found.stub, found.base) {
            None => context.symbols() is None,
            Some(identifier) => context.symbols() matches Some(source) ==> source.identifier
                == identifier,
        },
    }
}

/// Discovers the kernel in the memory that `mem` reads: the low stub, the
/// kernel image, the system process, and, where they can be had, the
/// symbols. Without symbols the context is still assembled. A stage that
/// finds nothing ends discovery with its error, and no context is made.
/// The store is left alone where discovery fails and where symbols are
/// supplied.
pub fn discover<M: MemoryAccess, S: SymbolStore>(
    mem: &mut M,
    store: &mut S,
    options: DiscoveryOptions,
) -> (r: Result<Windows, Error>)
    ensures
        final(mem).view() == old(mem).view(),
        match spec_discover(old(mem).view(), options.translation_root, options.kernel_base) {
            Err(e) => r matches Err(x) && x == e,
            Ok(found) => r matches Ok(context) && assembled(
                old(mem).view(),
                options.symbol_source,
                found,
                context,
            ),
        },
        options.translation_root is None ==> (r matches Ok(context) ==> (old(
            mem,
        ).view().translated)(context.stub().dtb, context.stub().va, 1) is Ok),
        r is Err || options.symbol_source is Some ==> *final(store) == *old(store),
{
    let stub = match options.translation_root {
        Some(stub) => stub,
        None => match lowstub::find(mem) {
            Err(e) => {
                return Err(e);
            },
            Ok(stub) => stub,
        },
    };
    let base = match options.kernel_base {
        Some(base) => base,
        None => match ntos::find(mem, &stub) {
            Err(e) => {
                return Err(e);
            },
            Ok(base) => base,
        },
    };
    let anchor = match sysproc::find(mem, &stub, base) {
        Err(e) => {
            return Err(e);
        },
        Ok(anchor) => anchor,
    };
    let symbols = symbols::resolve(mem, store, &stub, base, options.symbol_source);
    Ok(Windows::new(stub, base, anchor, symbols))
}

/// Discovers the kernel with nothing known beforehand.
pub fn init<M: MemoryAccess, S: SymbolStore>(mem: &mut M, store: &mut S) -> (r: Result<
    Windows,
    Error,
>)
    ensures
        final(mem).view() == old(mem).view(),
        match spec_discover(old(mem).view(), None, None) {
            Err(e) => r matches Err(x) && x == e,
            Ok(found) => r matches Ok(context) && assembled(old(mem).view(), None, found, context),
        },
        r matches Ok(context) ==> (old(mem).view().translated)(
            context.stub().dtb,
            context.stub().va,
            1,
        ) is Ok,
        r is Err ==> *final(store) == *old(store),
{
    discover(mem, store, DiscoveryOptions::none())
}

/// Where every page of low memory can be read and none holds a start
/// block, discovery fails at the low stub, whatever else the memory holds.
pub proof fn lemma_discovery_needs_stub(memory: MemoryView, kernel_base: Option<u64>)
    requires
        forall|index: int|
            0 <= index < LOW_STUB_PROBES ==> match #[trigger] (memory.physical)(
                probe_address(index),
                PAGE_SIZE as nat,
            ) {
                Ok(page) => stub_in_page(probe_architecture(index), page) is None,
                Err(_) => false,
            },
    ensures
        spec_discover(memory, None, kernel_base) == Err::<Discovered, Error>(
            Error::DiscoveryFailed(Stage::LowStub),
        ),
{
    lemma_no_stub_fails(memory);
}

} // verus!
