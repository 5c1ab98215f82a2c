//! A memory image held in this process: physical memory as one run of
//! bytes from address zero, and virtual memory as mapped ranges.
use vstd::prelude::*;
use crate::error::ReadError;
use crate::memory::{MemoryAccess, MemoryView};

verus! {

/// A range of virtual addresses under one translation root, and where in
/// physical memory it begins.
#[derive(Clone, Copy, Debug, PartialEq, Eq, Structural)]
pub struct Mapping {
    pub root: u64,
    pub virt: u64,
    pub phys: u64,
    pub length: u64,
}

impl Mapping {
    /// Whether the mapping translates every address of a read.
    pub open spec fn spec_covers(self, root: u64, address: u64, length: nat) -> bool {
        self.root == root && self.virt <= address && address + length <= self.virt + self.length
    }

    pub fn covers(&self, root: u64, address: u64, length: usize) -> (r: bool)
        ensures
            r == self.spec_covers(root, address, length as nat),
    {
        self.root == root && self.virt <= address && length as u128 <= self.length as u128
            && address as u128 + length as u128 <= self.virt as u128 + self.length as u128
    }
}

/// Where a read of physical memory finds its bytes, or that it has none.
pub open spec fn physical_read(bytes: Seq<u8>, address: int, length: nat) -> Result<
    Seq<u8>,
    ReadError,
> {
    if 0 <= address && address + length <= bytes.len() {
        Ok(bytes.subrange(address, address + length))
    } else {
        Err(ReadError::Io)
    }
}

/// The physical address that the first covering mapping from index `from`
/// on gives to `address`.
pub open spec fn translate_from(
    mappings: Seq<Mapping>,
    from: int,
    root: u64,
    address: u64,
    length: nat,
) -> Option<int>
    decreases mappings.len() - from,
{
    if from < 0 || from >= mappings.len() {
        None
    } else if mappings[from].spec_covers(root, address, length) {
        Some(mappings[from].phys + (address - mappings[from].virt))
    } else {
        translate_from(mappings, from + 1, root, address, length)
    }
}

/// What a read of virtual memory gives: the bytes that the first covering
/// mapping leads to.
pub open spec fn translated_read(
    bytes: Seq<u8>,
    mappings: Seq<Mapping>,
    root: u64,
    address: u64,
    length: nat,
) -> Result<Seq<u8>, ReadError> {
    match translate_from(mappings, 0, root, address, length) {
        Some(physical) => physical_read(bytes, physical, length),
        None => Err(ReadError::Translation),
    }
}

/// `bytes` with `data` written over it from `address` on.
pub open spec fn overwritten(bytes: Seq<u8>, address: int, data: Seq<u8>) -> Seq<u8> {
    Seq::new(
        bytes.len(),
        |i: int|
            if address <= i < address + data.len() {
                data[i - address]
            } else {
                bytes[i]
            },
    )
}

/// What reads of an image with these bytes and mappings give.
pub open spec fn image_view(bytes: Seq<u8>, mappings: Seq<Mapping>) -> MemoryView {
    MemoryView {
        physical: |address: u64, length: nat| physical_read(bytes, address as int, length),
        translated: |root: u64, address: u64, length: nat|
            translated_read(bytes, mappings, root, address, length),
    }
}

/// A memory image for a target that is not live: a dump, or an image made
/// up to try the library on.
pub struct MemoryImage {
    physical: Vec<u8>,
    mappings: Vec<Mapping>,
}

impl MemoryImage {
    /// The bytes of physical memory, from address zero.
    pub closed spec fn bytes(&self) -> Seq<u8> {
        self.physical@
    }

    /// The mappings, earliest first.
    pub closed spec fn mappings(&self) -> Seq<Mapping> {
        self.mappings@
    }

    /// An image of `size` zero bytes with nothing mapped.
    pub fn new(size: usize) -> (image: MemoryImage)
        ensures
            image.bytes() == Seq::new(size as nat, |i: int| 0u8),
            image.mappings() == Seq::<Mapping>::empty(),
    {
        let physical = vec![0u8; size];
        assert(physical@ =~= Seq::new(size as nat, |i: int| 0u8));
        MemoryImage { physical, mappings: Vec::new() }
    }

    /// The number of bytes of physical memory.
    pub fn size(&self) -> (n: usize)
        ensures
            n == self.bytes().len(),
    {
        self.physical.len()
    }

    /// Adds a mapping. Of two mappings that cover a read, the earlier one
    /// translates it.
    pub fn map(&mut self, mapping: Mapping)
        ensures
            final(self).bytes() == old(self).bytes(),
            final(self).mappings() == old(self).mappings().push(mapping),
    {
        self.mappings.push(mapping);
    }

    /// Writes `data` to physical memory from `address` on, or nothing where
    /// it would not fit.
    pub fn write_physical(&mut self, address: u64, data: &[u8]) -> (r: Result<(), ReadError>)
        ensures
            final(self).mappings() == old(self).mappings(),
            r is Ok <==> address + data@.len() <= old(self).bytes().len(),
            r is Ok ==> final(self).bytes() == overwritten(
                old(self).bytes(),
                address as int,
                data@,
            ),
            r is Err ==> r == Err::<(), ReadError>(ReadError::Io) && final(self).bytes() == old(
                self,
            ).bytes(),
    {
        let size = self.physical.len();
        if address > size as u64 || data.len() > size - address as usize {
            return Err(ReadError::Io);
        }
        let start = address as usize;
        let mut i: usize = 0;
        while i < data.len()
            invariant
                i <= data@.len(),
                start + data@.len() <= size,
                self.physical@.len() == size,
                self.mappings == old(self).mappings,
                self.physical@ == overwritten(
                    old(self).physical@,
                    start as int,
                    data@.subrange(0, i as int),
                ),
            decreases data@.len() - i,
        {
            self.physical.set(start + i, data[i]);
            i += 1;
            assert(self.physical@ =~= overwritten(
                old(self).physical@,
                start as int,
                data@.subrange(0, i as int),
            ));
        }
        assert(data@.subrange(0, i as int) =~= data@);
        Ok(())
    }

    /// The physical address of a read of virtual memory.
    pub fn translate(&self, root: u64, address: u64, length: usize) -> (r: Option<u128>)
        ensures
            r matches Some(p) ==> translate_from(self.mappings(), 0, root, address, length as nat)
                == Some(p as int),
            r is None ==> translate_from(self.mappings(), 0, root, address, length as nat)
                is None,
    {
        let mut i: usize = 0;
        while i < self.mappings.len()
            invariant
                i <= self.mappings@.len(),
                translate_from(self.mappings@, 0, root, address, length as nat) == translate_from(
                    self.mappings@,
                    i as int,
                    root,
                    address,
                    length as nat,
                ),
            decreases self.mappings@.len() - i,
        {
            let m = self.mappings[i];
            if m.covers(root, address, length) {
                return Some(m.phys as u128 + (address - m.virt) as u128);
            }
            i += 1;
        }
        None
    }

    /// Writes `data` to virtual memory from `address` on, where one mapping
    /// covers all of it.
    pub fn write_virtual(&mut self, root: u64, address: u64, data: &[u8]) -> (r: Result<
        (),
        ReadError,
    >)
        ensures
            final(self).mappings() == old(self).mappings(),
            match translate_from(old(self).mappings(), 0, root, address, data@.len()) {
                None => r == Err::<(), ReadError>(ReadError::Translation) && final(self).bytes()
                    == old(self).bytes(),
                Some(p) => if p + data@.len() <= old(self).bytes().len() {
                    r is Ok && final(self).bytes() == overwritten(old(self).bytes(), p, data@)
                } else {
                    r == Err::<(), ReadError>(ReadError::Io) && final(self).bytes() == old(
                        self,
                    ).bytes()
                },
            },
    {
        match self.translate(root, address, data.len()) {
            None => Err(ReadError::Translation),
            Some(p) => {
                let size = self.physical.len();
                if p > size as u128 {
                    Err(ReadError::Io)
                } else {
                    self.write_physical(p as u64, data)
                }
            },
        }
    }
}

impl MemoryAccess for MemoryImage {
    open spec fn view(&self) -> MemoryView {
        image_view(self.bytes(), self.mappings())
    }

    fn read_physical(&mut self, address: u64, length: usize) -> (r: Result<Vec<u8>, ReadError>) {
        self.copy_out(address as u128, length)
    }

    fn read_virtual(&mut self, root: u64, address: u64, length: usize) -> (r: Result<
        Vec<u8>,
        ReadError,
    >) {
        match self.translate(root, address, length) {
            None => Err(ReadError::Translation),
            Some(p) => self.copy_out(p, length),
        }
    }
}

impl MemoryImage {
    /// A copy of `length` bytes of physical memory from `address` on.
    fn copy_out(&self, address: u128, length: usize) -> (r: Result<Vec<u8>, ReadError>)
        ensures
            crate::memory::read_outcome(r) == physical_read(
                self.bytes(),
                address as int,
                length as nat,
            ),
    {
        let size = self.physical.len();
        if address > size as u128 || length > size - address as usize {
            return Err(ReadError::Io);
        }
        let start = address as usize;
        let mut out: Vec<u8> = Vec::new();
        let mut i: usize = 0;
        while i < length
            invariant
                i <= length,
                start + length <= size,
                size == self.physical@.len(),
                out@ == self.physical@.subrange(start as int, start + i),
            decreases length - i,
        {
            out.push(self.physical[start + i]);
            i += 1;
            assert(out@ =~= self.physical@.subrange(start as int, start + i));
        }
        Ok(out)
    }
}

/// What was written to virtual memory is what a read of the same range
/// gives back.
pub proof fn lemma_write_then_read(
    before: Seq<u8>,
    mappings: Seq<Mapping>,
    root: u64,
    address: u64,
    data: Seq<u8>,
)
    requires
        translate_from(mappings, 0, root, address, data.len()) matches Some(p) && p + data.len()
            <= before.len(),
    ensures
        translated_read(
            overwritten(before, translate_from(mappings, 0, root, address, data.len()).unwrap(), data),
            mappings,
            root,
            address,
            data.len(),
        ) == Ok::<Seq<u8>, ReadError>(data),
{
    let p = translate_from(mappings, 0, root, address, data.len()).unwrap();
    lemma_translation_in_range(mappings, 0, root, address, data.len());
    assert(overwritten(before, p, data).subrange(p, p + data.len()) =~= data);
}

/// A translation is never negative.
pub proof fn lemma_translation_in_range(
    mappings: Seq<Mapping>,
    from: int,
    root: u64,
    address: u64,
    length: nat,
)
    ensures
        translate_from(mappings, from, root, address, length) matches Some(p) ==> 0 <= p,
    decreases mappings.len() - from,
{
    if 0 <= from < mappings.len() && !mappings[from].spec_covers(root, address, length) {
        lemma_translation_in_range(mappings, from + 1, root, address, length);
    }
}

} // verus!
