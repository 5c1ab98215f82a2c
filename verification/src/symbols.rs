//! Symbol sources and the layouts of kernel structures that are derived
//! from them.
use vstd::prelude::*;
use crate::error::Error;
use crate::lowstub::KernelStubInfo;
use crate::memory::{MemoryAccess, MemoryView, PAGE_SIZE};
use crate::ntos::{header_in_page, parse_header, ImageHeader};

verus! {

/// What tells one build of the kernel from every other: when its image was
/// linked, and how large the image is.
#[derive(Clone, Copy, Debug, PartialEq, Eq, Structural)]
pub struct BuildIdentifier {
    pub timestamp: u32,
    pub image_size: u32,
}

/// A field of a structure: its name and its offset in bytes.
#[derive(Debug, PartialEq, Eq)]
pub struct FieldDef {
    pub name: String,
    pub offset: u64,
}

pub struct FieldView {
    pub name: Seq<char>,
    pub offset: u64,
}

impl View for FieldDef {
    type V = FieldView;

    open spec fn view(&self) -> FieldView {
        FieldView { name: self.name@, offset: self.offset }
    }
}

/// The fields as they are compared and looked up.
pub open spec fn field_views(fields: Seq<FieldDef>) -> Seq<FieldView> {
    Seq::new(fields.len(), |i: int| fields[i]@)
}

/// A structure as a symbol source describes it.
#[derive(Debug, PartialEq, Eq)]
pub struct StructDef {
    pub name: String,
    pub fields: Vec<FieldDef>,
}

pub struct StructView {
    pub name: Seq<char>,
    pub fields: Seq<FieldView>,
}

impl View for StructDef {
    type V = StructView;

    open spec fn view(&self) -> StructView {
        StructView { name: self.name@, fields: field_views(self.fields@) }
    }
}

/// The structures as they are compared and looked up.
pub open spec fn struct_views(structures: Seq<StructDef>) -> Seq<StructView> {
    Seq::new(structures.len(), |i: int| structures[i]@)
}

/// The debug symbols of one build of the kernel.
#[derive(Debug, PartialEq, Eq)]
pub struct SymbolSource {
    pub identifier: BuildIdentifier,
    pub structures: Vec<StructDef>,
}

pub struct SourceView {
    pub identifier: BuildIdentifier,
    pub structures: Seq<StructView>,
}

impl View for SymbolSource {
    type V = SourceView;

    open spec fn view(&self) -> SourceView {
        SourceView { identifier: self.identifier, structures: struct_views(self.structures@) }
    }
}

/// The layout of one structure in one build: what a lookup of a field goes
/// by.
#[derive(Debug, PartialEq, Eq)]
pub struct StructLayout {
    pub name: String,
    pub identifier: BuildIdentifier,
    pub fields: Vec<FieldDef>,
}

pub struct LayoutView {
    pub name: Seq<char>,
    pub identifier: BuildIdentifier,
    pub fields: Seq<FieldView>,
}

impl View for StructLayout {
    type V = LayoutView;

    open spec fn view(&self) -> LayoutView {
        LayoutView {
            name: self.name@,
            identifier: self.identifier,
            fields: field_views(self.fields@),
        }
    }
}

/// The symbol store that the caller supplies. What it answers is its own
/// affair: it may ask a remote service, and it may have nothing.
pub trait SymbolStore {
    /// The symbols of the build, or `None` where the store has none.
    fn fetch(&mut self, identifier: BuildIdentifier) -> Option<SymbolSource>;
}

/// The index of the first field from `from` on that is named `name`.
pub open spec fn field_index_from(fields: Seq<FieldView>, from: int, name: Seq<char>) -> Option<int>
    decreases fields.len() - from,
{
    if from < 0 || from >= fields.len() {
        None
    } else if fields[from].name == name {
        Some(from)
    } else {
        field_index_from(fields, from + 1, name)
    }
}

/// The offset of the field named `name`: of the first one, where several
/// have the name.
pub open spec fn field_offset(fields: Seq<FieldView>, name: Seq<char>) -> Result<u64, Error> {
    match field_index_from(fields, 0, name) {
        Some(index) => Ok(fields[index].offset),
        None => Err(Error::UnknownField),
    }
}

/// The index of the first structure from `from` on that is named `name`.
pub open spec fn struct_index_from(structures: Seq<StructView>, from: int, name: Seq<char>) -> Option<
    int,
>
    decreases structures.len() - from,
{
    if from < 0 || from >= structures.len() {
        None
    } else if structures[from].name == name {
        Some(from)
    } else {
        struct_index_from(structures, from + 1, name)
    }
}

/// The layout of the structure named `name` that the symbols give: of the
/// first one, where the source describes several of the name.
pub open spec fn layout_of(symbols: Option<SourceView>, name: Seq<char>) -> Result<
    LayoutView,
    Error,
> {
    match symbols {
        None => Err(Error::SymbolsUnavailable),
        Some(source) => match struct_index_from(source.structures, 0, name) {
            None => Err(Error::UnknownStructure),
            Some(index) => Ok(
                LayoutView {
                    name: source.structures[index].name,
                    identifier: source.identifier,
                    fields: source.structures[index].fields,
                },
            ),
        },
    }
}

/// The offset of a field of a structure that the symbols give.
pub open spec fn offset_of(symbols: Option<SourceView>, structure: Seq<char>, field: Seq<char>) -> Result<
    u64,
    Error,
> {
    match layout_of(symbols, structure) {
        Err(e) => Err(e),
        Ok(layout) => field_offset(layout.fields, field),
    }
}

impl FieldDef {
    pub fn new(name: &str, offset: u64) -> (field: FieldDef)
        ensures
            field@ == (FieldView { name: name@, offset }),
    {
        FieldDef { name: name.to_owned(), offset }
    }

    /// A field of the same name and offset.
    pub fn copy(&self) -> (field: FieldDef)
        ensures
            field@ == self@,
    {
        FieldDef { name: self.name.clone(), offset: self.offset }
    }
}

/// Copies of `fields`, in their order.
pub fn copy_fields(fields: &Vec<FieldDef>) -> (copies: Vec<FieldDef>)
    ensures
        field_views(copies@) == field_views(fields@),
{
    let mut copies: Vec<FieldDef> = Vec::new();
    let mut i: usize = 0;
    while i < fields.len()
        invariant
            i <= fields@.len(),
            copies@.len() == i,
            forall|j: int| 0 <= j < i ==> copies@[j]@ == fields@[j]@,
        decreases fields@.len() - i,
    {
        copies.push(fields[i].copy());
        i += 1;
    }
    assert(field_views(copies@) =~= field_views(fields@));
    copies
}

impl StructDef {
    pub fn new(name: &str, fields: Vec<FieldDef>) -> (structure: StructDef)
        ensures
            structure@ == (StructView { name: name@, fields: field_views(fields@) }),
    {
        StructDef { name: name.to_owned(), fields }
    }

    /// A structure of the same name and fields.
    pub fn copy(&self) -> (structure: StructDef)
        ensures
            structure@ == self@,
    {
        StructDef { name: self.name.clone(), fields: copy_fields(&self.fields) }
    }
}

impl SymbolSource {
    pub fn new(identifier: BuildIdentifier, structures: Vec<StructDef>) -> (source: SymbolSource)
        ensures
            source@ == (SourceView { identifier, structures: struct_views(structures@) }),
    {
        SymbolSource { identifier, structures }
    }

    /// A source of the same build and structures.
    pub fn copy(&self) -> (source: SymbolSource)
        ensures
            source@ == self@,
    {
        let mut structures: Vec<StructDef> = Vec::new();
        let mut i: usize = 0;
        while i < self.structures.len()
            invariant
                i <= self.structures@.len(),
                structures@.len() == i,
                forall|j: int| 0 <= j < i ==> structures@[j]@ == self.structures@[j]@,
            decreases self.structures@.len() - i,
        {
            structures.push(self.structures[i].copy());
            i += 1;
        }
        assert(struct_views(structures@) =~= struct_views(self.structures@));
        SymbolSource { identifier: self.identifier, structures }
    }

    /// Derives the layout of the structure named `name`.
    pub fn layout(&self, name: &str) -> (r: Result<StructLayout, Error>)
        ensures
            layout_outcome(r) == layout_of(Some(self@), name@),
    {
        let wanted = name.to_owned();
        let mut i: usize = 0;
        while i < self.structures.len()
            invariant
                i <= self.structures@.len(),
                wanted@ == name@,
                struct_index_from(self@.structures, 0, name@) == struct_index_from(
                    self@.structures,
                    i as int,
                    name@,
                ),
            decreases self.structures@.len() - i,
        {
            let structure = &self.structures[i];
            assert(self@.structures[i as int] == structure@);
            if structure.name == wanted {
                return Ok(
                    StructLayout {
                        name: structure.name.clone(),
                        identifier: self.identifier,
                        fields: copy_fields(&structure.fields),
                    },
                );
            }
            i += 1;
        }
        Err(Error::UnknownStructure)
    }
}

/// The layout or the error that a lookup handed back.
pub open spec fn layout_outcome(r: Result<StructLayout, Error>) -> Result<LayoutView, Error> {
    match r {
        Ok(layout) => Ok(layout@),
        Err(e) => Err(e),
    }
}

impl StructLayout {
    /// A layout of the same structure.
    pub fn copy(&self) -> (layout: StructLayout)
        ensures
            layout@ == self@,
    {
        StructLayout {
            name: self.name.clone(),
            identifier: self.identifier,
            fields: copy_fields(&self.fields),
        }
    }

    /// The offset of the field named `name`.
    pub fn get_field(&self, name: &str) -> (r: Result<u64, Error>)
        ensures
            r == field_offset(self@.fields, name@),
    {
        let wanted = name.to_owned();
        let mut i: usize = 0;
        while i < self.fields.len()
            invariant
                i <= self.fields@.len(),
                wanted@ == name@,
                field_index_from(self@.fields, 0, name@) == field_index_from(
                    self@.fields,
                    i as int,
                    name@,
                ),
            decreases self.fields@.len() - i,
        {
            let field = &self.fields[i];
            assert(self@.fields[i as int] == field@);
            if field.name == wanted {
                return Ok(field.offset);
            }
            i += 1;
        }
        Err(Error::UnknownField)
    }
}

/// The identifier of the build whose image has `header`.
pub open spec fn spec_identifier(header: ImageHeader) -> BuildIdentifier {
    BuildIdentifier { timestamp: header.timestamp, image_size: header.size_of_image }
}

/// The identifier of the build whose image lies at `base`, where its header
/// can be read.
pub open spec fn spec_identify(memory: MemoryView, stub: KernelStubInfo, base: u64) -> Option<
    BuildIdentifier,
> {
    match (memory.translated)(stub.dtb, base, PAGE_SIZE as nat) {
        Err(_) => None,
        Ok(page) => match header_in_page(stub.arch, page) {
            None => None,
            Some(header) => Some(spec_identifier(header)),
        },
    }
}

/// Reads from the header of the kernel image which build it is.
pub fn identify<M: MemoryAccess>(mem: &mut M, stub: &KernelStubInfo, base: u64) -> (r: Option<
    BuildIdentifier,
>)
    ensures
        final(mem).view() == old(mem).view(),
        r == spec_identify(old(mem).view(), *stub, base),
{
    match mem.read_virtual(stub.dtb, base, PAGE_SIZE) {
        Err(_) => None,
        Ok(page) => match parse_header(stub.arch, page.as_slice()) {
            None => None,
            Some(header) => Some(
                BuildIdentifier { timestamp: header.timestamp, image_size: header.size_of_image },
            ),
        },
    }
}

/// The symbols that are kept of what a store answered: a source of another
/// build is not kept.
pub open spec fn spec_accept(identifier: BuildIdentifier, fetched: Option<SymbolSource>) -> Option<
    SymbolSource,
> {
    match fetched {
        Some(source) => if source.identifier == identifier {
            Some(source)
        } else {
            None
        },
        None => None,
    }
}

/// Keeps what a store answered where it belongs to the build asked for.
pub fn accept(identifier: BuildIdentifier, fetched: Option<SymbolSource>) -> (r: Option<
    SymbolSource,
>)
    ensures
        r == spec_accept(identifier, fetched),
{
    match fetched {
        Some(source) => {
            if source.identifier.timestamp == identifier.timestamp && source.identifier.image_size
                == identifier.image_size {
                Some(source)
            } else {
                None
            }
        },
        None => None,
    }
}

/// Obtains the symbols of the kernel at `base`. Symbols that the caller
/// supplies are taken as they are, and the store is not asked. Else the
/// store is asked for the build that the image's header names, once; where
/// the header cannot be read, the store is not asked and there are no
/// symbols.
pub fn resolve<M: MemoryAccess, S: SymbolStore>(
    mem: &mut M,
    store: &mut S,
    stub: &KernelStubInfo,
    base: u64,
    supplied: Option<SymbolSource>,
) -> (r: Option<SymbolSource>)
    ensures
        final(mem).view() == old(mem).view(),
        supplied is Some ==> r == supplied && *final(store) == *old(store),
        supplied is None ==> match spec_identify(old(mem).view(), *stub, base) {
            None => r is None && *final(store) == *old(store),
            Some(identifier) => r matches Some(source) ==> source.identifier == identifier,
        },
{
    match supplied {
        Some(source) => Some(source),
        None => match identify(mem, stub, base) {
            None => None,
            Some(identifier) => {
                let fetched = store.fetch(identifier);
                accept(identifier, fetched)
            },
        },
    }
}

} // verus!
