//! The kernel context: what discovery found, the symbols of the kernel, and
//! the layouts that have been derived from them so far.
use vstd::prelude::*;
use vstd::bytes::{
    lemma_auto_spec_u16_to_from_le_bytes, lemma_auto_spec_u32_to_from_le_bytes,
    lemma_auto_spec_u64_to_from_le_bytes, spec_u16_to_le_bytes, spec_u32_to_le_bytes,
    spec_u64_to_le_bytes,
};
use crate::architecture::Architecture;
use crate::bytes::{spec_u16_at, spec_u32_at, spec_u64_at, u16_at, u32_at, u64_at};
use crate::error::Error;
use crate::image::{
    image_view, lemma_write_then_read, overwritten, translate_from, Mapping,
};
use crate::lowstub::KernelStubInfo;
use crate::memory::{MemoryAccess, MemoryView};
use crate::symbols::{
    field_offset, layout_of, layout_outcome, offset_of, struct_index_from, LayoutView, SourceView,
    StructLayout, StructView, SymbolSource,
};

verus! {

/// The type of a field's value, which fixes how many bytes are read.
#[derive(Clone, Copy, Debug, PartialEq, Eq, Structural)]
pub enum FieldWidth {
    U8,
    U16,
    U32,
    U64,
    /// A pointer of the kernel's architecture.
    Pointer,
}

impl FieldWidth {
    /// The number of bytes of a value.
    pub open spec fn spec_length(self, arch: Architecture) -> nat {
        match self {
            FieldWidth::U8 => 1,
            FieldWidth::U16 => 2,
            FieldWidth::U32 => 4,
            FieldWidth::U64 => 8,
            FieldWidth::Pointer => arch.spec_pointer_width(),
        }
    }

    pub fn length(&self, arch: Architecture) -> (n: usize)
        ensures
            n == self.spec_length(arch),
    {
        match self {
            FieldWidth::U8 => 1,
            FieldWidth::U16 => 2,
            FieldWidth::U32 => 4,
            FieldWidth::U64 => 8,
            FieldWidth::Pointer => arch.pointer_width(),
        }
    }
}

/// The little-endian value of one, two, four or eight bytes.
pub open spec fn spec_value(bytes: Seq<u8>) -> u64 {
    if bytes.len() == 1 {
        bytes[0] as u64
    } else if bytes.len() == 2 {
        spec_u16_at(bytes, 0) as u64
    } else if bytes.len() == 4 {
        spec_u32_at(bytes, 0) as u64
    } else {
        spec_u64_at(bytes, 0)
    }
}

/// The little-endian value of one, two, four or eight bytes.
pub fn value(bytes: &[u8]) -> (v: u64)
    requires
        bytes.len() == 1 || bytes.len() == 2 || bytes.len() == 4 || bytes.len() == 8,
    ensures
        v == spec_value(bytes@),
{
    if bytes.len() == 1 {
        bytes[0] as u64
    } else if bytes.len() == 2 {
        u16_at(bytes, 0) as u64
    } else if bytes.len() == 4 {
        u32_at(bytes, 0) as u64
    } else {
        u64_at(bytes, 0)
    }
}

/// The `length` little-endian bytes of `value`, where it fits in them.
pub open spec fn spec_encoding(value: u64, length: nat) -> Seq<u8> {
    if length == 1 {
        seq![value as u8]
    } else if length == 2 {
        spec_u16_to_le_bytes(value as u16)
    } else if length == 4 {
        spec_u32_to_le_bytes(value as u32)
    } else {
        spec_u64_to_le_bytes(value)
    }
}

/// What a read of a value of `length` bytes at `address` gives. An address
/// beyond the last one has no translation.
pub open spec fn spec_read_value(
    memory: MemoryView,
    stub: KernelStubInfo,
    address: int,
    length: nat,
) -> Result<u64, Error> {
    if address + length - 1 > u64::MAX {
        Err(Error::TranslationFailed)
    } else {
        match (memory.translated)(stub.dtb, address as u64, length) {
            Err(e) => Err(Error::spec_from_read(e)),
            Ok(bytes) => Ok(spec_value(bytes)),
        }
    }
}

/// What a read of the field of a structure at `base_address` gives.
pub open spec fn spec_read_field(
    memory: MemoryView,
    stub: KernelStubInfo,
    symbols: Option<SourceView>,
    base_address: u64,
    structure: Seq<char>,
    field: Seq<char>,
    width: FieldWidth,
) -> Result<u64, Error> {
    match offset_of(symbols, structure, field) {
        Err(e) => Err(e),
        Ok(offset) => spec_read_value(
            memory,
            stub,
            base_address + offset,
            width.spec_length(stub.arch),
        ),
    }
}

/// The layouts as they are compared and looked up.
pub open spec fn layout_views(layouts: Seq<StructLayout>) -> Seq<LayoutView> {
    Seq::new(layouts.len(), |i: int| layouts[i]@)
}

/// Whether `cached` holds the layout of the structure named `name`.
pub open spec fn holds(cached: Seq<LayoutView>, name: Seq<char>) -> bool {
    exists|i: int| 0 <= i < cached.len() && cached[i].name == name
}

/// The cache after the layout of the structure named `name` has been asked
/// for: as it was where it held the layout or the symbols give none, and
/// else with the layout at its end.
pub open spec fn grown(cached: Seq<LayoutView>, symbols: Option<SourceView>, name: Seq<char>) -> Seq<
    LayoutView,
> {
    if holds(cached, name) {
        cached
    } else {
        match layout_of(symbols, name) {
            Ok(layout) => cached.push(layout),
            Err(_) => cached,
        }
    }
}

/// The kernel context. What discovery found is fixed when the context is
/// made; afterwards only the cache of layouts grows, and only through the
/// context's own methods.
pub struct Windows {
    kernel_stub_info: KernelStubInfo,
    kernel_base: u64,
    eprocess_base: u64,
    kernel_pdb: Option<SymbolSource>,
    kernel_structs: Vec<StructLayout>,
}

impl Windows {
    /// What the low stub gave.
    pub closed spec fn stub(&self) -> KernelStubInfo {
        self.kernel_stub_info
    }

    /// The base of the kernel image.
    pub closed spec fn base(&self) -> u64 {
        self.kernel_base
    }

    /// The address of the control block of the system process.
    pub closed spec fn anchor(&self) -> u64 {
        self.eprocess_base
    }

    /// The symbols of the kernel, where there are any.
    pub closed spec fn symbols(&self) -> Option<SourceView> {
        match self.kernel_pdb {
            Some(source) => Some(source@),
            None => None,
        }
    }

    /// The layouts derived so far, in the order in which they were first
    /// asked for.
    pub closed spec fn cached(&self) -> Seq<LayoutView> {
        layout_views(self.kernel_structs@)
    }

    /// Whether the layout of the structure named `name` has been derived.
    pub open spec fn is_cached(&self, name: Seq<char>) -> bool {
        holds(self.cached(), name)
    }

    /// Every cached layout is what the symbols give for its name, and no
    /// name is cached twice.
    pub open spec fn wf(&self) -> bool {
        &&& forall|i: int|
            0 <= i < self.cached().len() ==> layout_of(
                self.symbols(),
                (#[trigger] self.cached()[i]).name,
            ) == Ok::<LayoutView, Error>(self.cached()[i])
        &&& forall|i: int, j: int|
            0 <= i < j < self.cached().len() ==> self.cached()[i].name != self.cached()[j].name
    }

    /// Whether `other` is a context of the same kernel: with the same stub,
    /// base, anchor and symbols.
    pub open spec fn same_kernel(&self, other: &Windows) -> bool {
        &&& self.stub() == other.stub()
        &&& self.base() == other.base()
        &&& self.anchor() == other.anchor()
        &&& self.symbols() == other.symbols()
    }

    /// A context of what discovery found, with nothing cached.
    pub fn new(
        kernel_stub_info: KernelStubInfo,
        kernel_base: u64,
        eprocess_base: u64,
        kernel_pdb: Option<SymbolSource>,
    ) -> (context: Windows)
        ensures
            context.wf(),
            context.stub() == kernel_stub_info,
            context.base() == kernel_base,
            context.anchor() == eprocess_base,
            context.symbols() == match kernel_pdb {
                Some(source) => Some(source@),
                None => None,
            },
            context.cached() == Seq::<LayoutView>::empty(),
    {
        let context = Windows {
            kernel_stub_info,
            kernel_base,
            eprocess_base,
            kernel_pdb,
            kernel_structs: Vec::new(),
        };
        assert(context.cached() =~= Seq::<LayoutView>::empty());
        context
    }

    pub fn kernel_stub_info(&self) -> (stub: KernelStubInfo)
        ensures
            stub == self.stub(),
    {
        self.kernel_stub_info
    }

    pub fn kernel_base(&self) -> (base: u64)
        ensures
            base == self.base(),
    {
        self.kernel_base
    }

    pub fn eprocess_base(&self) -> (anchor: u64)
        ensures
            anchor == self.anchor(),
    {
        self.eprocess_base
    }

    /// Whether the context has symbols.
    pub fn has_symbols(&self) -> (r: bool)
        ensures
            r == self.symbols().is_some(),
    {
        self.kernel_pdb.is_some()
    }

    /// The number of layouts derived so far.
    pub fn cached_layouts(&self) -> (n: usize)
        ensures
            n == self.cached().len(),
    {
        self.kernel_structs.len()
    }

    /// The place in the cache of the layout of the structure named `name`.
    fn cache_index(&self, name: &str) -> (r: Option<usize>)
        ensures
            match r {
                Some(i) => i < self.cached().len() && self.cached()[i as int].name == name@,
                None => !self.is_cached(name@),
            },
    {
        let wanted = name.to_owned();
        let mut i: usize = 0;
        while i < self.kernel_structs.len()
            invariant
                i <= self.kernel_structs@.len(),
                wanted@ == name@,
                forall|j: int| 0 <= j < i ==> self.cached()[j].name != name@,
            decreases self.kernel_structs@.len() - i,
        {
            assert(self.cached()[i as int] == self.kernel_structs@[i as int]@);
            if self.kernel_structs[i].name == wanted {
                return Some(i);
            }
            i += 1;
        }
        None
    }

    /// The layout of the structure named `name`. It is derived from the
    /// symbols when it is first asked for and kept; asked for again, the
    /// kept layout is returned and nothing is derived. The symbol store
    /// plays no part in either.
    pub fn get_structure_layout(&mut self, name: &str) -> (r: Result<StructLayout, Error>)
        requires
            old(self).wf(),
        ensures
            resolved(*old(self), name@, layout_outcome(r), *final(self)),
    {
        match self.cache_index(name) {
            Some(i) => {
                assert(self.cached()[i as int] == self.kernel_structs@[i as int]@);
                Ok(self.kernel_structs[i].copy())
            },
            None => {
                let derived = match &self.kernel_pdb {
                    None => Err(Error::SymbolsUnavailable),
                    Some(source) => source.layout(name),
                };
                match derived {
                    Err(e) => Err(e),
                    Ok(layout) => {
                        proof {
                            lemma_layout_is_named(self.symbols(), name@);
                        }
                        let kept = layout.copy();
                        self.kernel_structs.push(kept);
                        assert(self.cached() =~= old(self).cached().push(layout@));
                        Ok(layout)
                    },
                }
            },
        }
    }

    /// The offset of a field of a structure.
    pub fn resolve_offset(&mut self, structure: &str, field: &str) -> (r: Result<u64, Error>)
        requires
            old(self).wf(),
        ensures
            resolved(
                *old(self),
                structure@,
                layout_of(old(self).symbols(), structure@),
                *final(self),
            ),
            r == offset_of(old(self).symbols(), structure@, field@),
    {
        match self.get_structure_layout(structure) {
            Err(e) => Err(e),
            Ok(layout) => layout.get_field(field),
        }
    }

    /// Reads the value of a field of the structure at `base_address` in the
    /// kernel's address space.
    pub fn read_field<M: MemoryAccess>(
        &mut self,
        mem: &mut M,
        base_address: u64,
        structure: &str,
        field: &str,
        width: FieldWidth,
    ) -> (r: Result<u64, Error>)
        requires
            old(self).wf(),
        ensures
            resolved(
                *old(self),
                structure@,
                layout_of(old(self).symbols(), structure@),
                *final(self),
            ),
            final(mem).view() == old(mem).view(),
            r == spec_read_field(
                old(mem).view(),
                old(self).stub(),
                old(self).symbols(),
                base_address,
                structure@,
                field@,
                width,
            ),
    {
        let offset = match self.resolve_offset(structure, field) {
            Err(e) => {
                return Err(e);
            },
            Ok(offset) => offset,
        };
        let length = width.length(self.kernel_stub_info.arch);
        if base_address as u128 + offset as u128 + length as u128 - 1 > u64::MAX as u128 {
            return Err(Error::TranslationFailed);
        }
        match mem.read_virtual(self.kernel_stub_info.dtb, base_address + offset, length) {
            Err(e) => Err(Error::from_read(e)),
            Ok(bytes) => Ok(value(bytes.as_slice())),
        }
    }
}

/// What asking `before` for the layout of the structure named `name` comes
/// to: the answer `r`, and the context `after`. The answer is what the
/// symbols give. The context stays one of the same kernel, and its cache
/// grows by the layout where it was not held.
pub open spec fn resolved(
    before: Windows,
    name: Seq<char>,
    r: Result<LayoutView, Error>,
    after: Windows,
) -> bool {
    &&& after.wf()
    &&& after.same_kernel(&before)
    &&& r == layout_of(before.symbols(), name)
    &&& after.cached() == grown(before.cached(), before.symbols(), name)
}

/// The layout that the symbols give for a name carries that name.
pub proof fn lemma_layout_is_named(symbols: Option<SourceView>, name: Seq<char>)
    ensures
        layout_of(symbols, name) matches Ok(layout) ==> layout.name == name,
{
    if let Some(source) = symbols {
        lemma_struct_index_is_named(source.structures, 0, name);
    }
}

proof fn lemma_struct_index_is_named(structures: Seq<StructView>, from: int, name: Seq<char>)
    ensures
        struct_index_from(structures, from, name) matches Some(index) ==> from <= index
            < structures.len() && structures[index].name == name,
    decreases structures.len() - from,
{
    if 0 <= from < structures.len() && structures[from].name != name {
        lemma_struct_index_is_named(structures, from + 1, name);
    }
}

/// A cache that has grown by the layout of a structure holds it, where the
/// symbols give one, and does not grow by it again.
pub proof fn lemma_grown_once(cached: Seq<LayoutView>, symbols: Option<SourceView>, name: Seq<char>)
    ensures
        layout_of(symbols, name) is Ok ==> holds(grown(cached, symbols, name), name),
        grown(grown(cached, symbols, name), symbols, name) == grown(cached, symbols, name),
        cached.is_prefix_of(grown(cached, symbols, name)),
{
    lemma_layout_is_named(symbols, name);
    if !holds(cached, name) && layout_of(symbols, name) is Ok {
        let after = grown(cached, symbols, name);
        assert(after[cached.len() as int].name == name);
    }
}

/// Asked twice for the layout of one structure, a context answers the same
/// both times, and the second time it derives nothing: its cache is what
/// the first call left. The offsets of the fields are those that the
/// symbols give.
pub proof fn lemma_resolution_is_idempotent(
    start: Windows,
    name: Seq<char>,
    first: Result<LayoutView, Error>,
    between: Windows,
    second: Result<LayoutView, Error>,
    end: Windows,
)
    requires
        resolved(start, name, first, between),
        resolved(between, name, second, end),
    ensures
        second == first,
        end.cached() == between.cached(),
        forall|field: Seq<char>|
            offset_of(between.symbols(), name, field) == offset_of(start.symbols(), name, field),
        first matches Ok(layout) ==> forall|field: Seq<char>|
            field_offset(layout.fields, field) == offset_of(start.symbols(), name, field),
{
    lemma_grown_once(start.cached(), start.symbols(), name);
}

/// The largest value that `length` bytes can hold.
pub open spec fn spec_largest(length: nat) -> u64 {
    if length == 1 {
        0xff
    } else if length == 2 {
        0xffff
    } else if length == 4 {
        0xffff_ffff
    } else {
        0xffff_ffff_ffff_ffff
    }
}

/// The bytes of a value are the bytes of that value.
pub proof fn lemma_value_of_encoding(value: u64, length: nat)
    requires
        length == 1 || length == 2 || length == 4 || length == 8,
        value <= spec_largest(length),
    ensures
        spec_encoding(value, length).len() == length,
        spec_value(spec_encoding(value, length)) == value,
{
    lemma_auto_spec_u16_to_from_le_bytes();
    lemma_auto_spec_u32_to_from_le_bytes();
    lemma_auto_spec_u64_to_from_le_bytes();
    let bytes = spec_encoding(value, length);
    assert(bytes.subrange(0, length as int) =~= bytes);
}

/// In a memory image, a value written where a field of a structure lies is
/// the value that a read of the field gives.
pub proof fn lemma_field_round_trip(
    bytes: Seq<u8>,
    mappings: Seq<Mapping>,
    stub: KernelStubInfo,
    symbols: Option<SourceView>,
    base_address: u64,
    structure: Seq<char>,
    field: Seq<char>,
    width: FieldWidth,
    value: u64,
    physical: int,
)
    requires
        value <= spec_largest(width.spec_length(stub.arch)),
        offset_of(symbols, structure, field) matches Ok(offset) && base_address + offset
            + width.spec_length(stub.arch) - 1 <= u64::MAX && translate_from(
            mappings,
            0,
            stub.dtb,
            (base_address + offset) as u64,
            width.spec_length(stub.arch),
        ) == Some(physical),
        physical + width.spec_length(stub.arch) <= bytes.len(),
    ensures
        spec_read_field(
            image_view(
                overwritten(bytes, physical, spec_encoding(value, width.spec_length(stub.arch))),
                mappings,
            ),
            stub,
            symbols,
            base_address,
            structure,
            field,
            width,
        ) == Ok::<u64, Error>(value),
{
    let length = width.spec_length(stub.arch);
    let offset = offset_of(symbols, structure, field)->Ok_0;
    lemma_value_of_encoding(value, length);
    lemma_write_then_read(
        bytes,
        mappings,
        stub.dtb,
        (base_address + offset) as u64,
        spec_encoding(value, length),
    );
}

} // verus!
