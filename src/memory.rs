//! The memory map: which ranges of physical memory hold what.

use vstd::prelude::*;
use crate::region::{BootRegion, lemma_slice_len_fits, le_u32, le_u64, read_le_u32, read_le_u64};
use crate::v2::tag::StivaleTagHeader;

verus! {

/// Identifier of the memory map tag.
pub const MEMORY_MAP_TAG_ID: u64 = 0x2187f79e8612de07;

/// Size in bytes of the memory map tag before its entries.
pub const MEMORY_MAP_TAG_PREFIX: u64 = 24;

/// Size in bytes of one memory map entry.
pub const MEMORY_MAP_ENTRY_SIZE: u64 = 24;

/// The type of the memory map entry
#[derive(Clone, Copy, PartialEq, Eq, Structural, Debug)]
pub enum MemoryMapEntryType {
    /// Usable memory
    Usable,
    /// Memory reserved by the system
    Reserved,
    /// ACPI memory that can be reclaimed
    AcpiReclaimable,
    /// ACPI memory that cannot be reclaimed
    AcpiNvs,
    /// Memory marked as defective (bad RAM)
    BadMemory,
    /// Memory used by the bootloader that can be reclaimed after it's not being used anymore
    BootloaderReclaimable,
    /// Memory containing the kernel and any modules
    Kernel,
    /// A type code not listed above, as it was found.
    Unknown(u32),
}

/// The memory type with the code `code`.
pub open spec fn entry_type_of(code: u32) -> MemoryMapEntryType {
    if code == 1 {
        MemoryMapEntryType::Usable
    } else if code == 2 {
        MemoryMapEntryType::Reserved
    } else if code == 3 {
        MemoryMapEntryType::AcpiReclaimable
    } else if code == 4 {
        MemoryMapEntryType::AcpiNvs
    } else if code == 5 {
        MemoryMapEntryType::BadMemory
    } else if code == 0x1000 {
        MemoryMapEntryType::BootloaderReclaimable
    } else if code == 0x1001 {
        MemoryMapEntryType::Kernel
    } else {
        MemoryMapEntryType::Unknown(code)
    }
}

impl MemoryMapEntryType {
    /// The memory type with the code `code`.
    pub fn from_code(code: u32) -> (r: MemoryMapEntryType)
        ensures
            r == entry_type_of(code),
    {
        if code == 1 {
            MemoryMapEntryType::Usable
        } else if code == 2 {
            MemoryMapEntryType::Reserved
        } else if code == 3 {
            MemoryMapEntryType::AcpiReclaimable
        } else if code == 4 {
            MemoryMapEntryType::AcpiNvs
        } else if code == 5 {
            MemoryMapEntryType::BadMemory
        } else if code == 0x1000 {
            MemoryMapEntryType::BootloaderReclaimable
        } else if code == 0x1001 {
            MemoryMapEntryType::Kernel
        } else {
            MemoryMapEntryType::Unknown(code)
        }
    }
}

/// A memory region
#[derive(Clone, Copy, PartialEq, Eq, Structural, Debug)]
pub struct MemoryMapEntry {
    pub base: u64,
    pub length: u64,
    pub entry_type: MemoryMapEntryType,
}

/// The memory map entry at index `i` of the array `arr`.
pub open spec fn entry_at_index(arr: Seq<u8>, i: int) -> MemoryMapEntry {
    let o = i * MEMORY_MAP_ENTRY_SIZE;
    MemoryMapEntry {
        base: le_u64(arr, o) as u64,
        length: le_u64(arr, o + 8) as u64,
        entry_type: entry_type_of(le_u32(arr, o + 16) as u32),
    }
}

impl MemoryMapEntry {
    /// Get the address where the memory region starts
    pub fn start_address(&self) -> (r: u64)
        ensures
            r == self.base,
    {
        self.base
    }

    /// Get the address where the memory region ends: its start plus its size.
    pub fn end_address(&self) -> (r: u64)
        requires
            self.base + self.length <= u64::MAX,
        ensures
            r == self.base + self.length,
    {
        self.base + self.length
    }

    /// Get the size of the memory region
    pub fn size(&self) -> (r: u64)
        ensures
            r == self.length,
    {
        self.length
    }

    /// Get the type of the memory region
    pub fn entry_type(&self) -> (r: MemoryMapEntryType)
        ensures
            r == self.entry_type,
    {
        self.entry_type
    }
}

/// A memory map tag provided by the bootloader
#[derive(Clone, Copy)]
pub struct MemoryMapTag<'a> {
    pub header: StivaleTagHeader,
    /// The number of entries.
    pub entries: u64,
    /// The bytes of the entries, `entries` records of 24 bytes.
    pub entry_array: &'a [u8],
}

impl<'a> MemoryMapTag<'a> {
    /// The entry array holds exactly `entries` entries.
    pub open spec fn wf(&self) -> bool {
        self.entry_array@.len() == self.entries * MEMORY_MAP_ENTRY_SIZE
    }

    /// The entry at index `i`.
    pub open spec fn entry(&self, i: int) -> MemoryMapEntry {
        entry_at_index(self.entry_array@, i)
    }

    /// The entries, in order.
    pub open spec fn entry_list(&self) -> Seq<MemoryMapEntry> {
        Seq::new(self.entries as nat, |i: int| self.entry(i))
    }

    /// This tag is the one stored at `addr`.
    pub open spec fn decodes(&self, region: BootRegion, addr: u64) -> bool {
        &&& self.header.decodes(region, addr)
        &&& self.entries == region.u64_at(addr + 16)
        &&& self.entry_array@ == region.bytes_at(
            addr + MEMORY_MAP_TAG_PREFIX,
            self.entries * MEMORY_MAP_ENTRY_SIZE,
        )
    }

    /// Decodes the memory map tag at `addr`; its entries stay in the region's memory.
    pub fn read(region: &BootRegion<'a>, addr: u64) -> (r: MemoryMapTag<'a>)
        requires
            region.holds(addr as int, MEMORY_MAP_TAG_PREFIX as int),
            region.holds(
                addr + MEMORY_MAP_TAG_PREFIX,
                region.u64_at(addr + 16) * MEMORY_MAP_ENTRY_SIZE,
            ),
        ensures
            r.decodes(*region, addr),
            r.wf(),
    {
        let entries = region.read_u64(addr + 16);
        MemoryMapTag {
            header: StivaleTagHeader::read(region, addr),
            entries,
            entry_array: region.slice_at(addr + MEMORY_MAP_TAG_PREFIX, entries * MEMORY_MAP_ENTRY_SIZE),
        }
    }

    /// Get the count of memory regions
    pub fn entries(&self) -> (r: u64)
        ensures
            r == self.entries,
    {
        self.entries
    }

    /// Returns the entry at `index`.
    pub fn entry_at(&self, index: u64) -> (r: MemoryMapEntry)
        requires
            self.wf(),
            index < self.entries,
        ensures
            r == self.entry(index as int),
    {
        proof {
            lemma_slice_len_fits(self.entry_array);
            assert(index * MEMORY_MAP_ENTRY_SIZE + MEMORY_MAP_ENTRY_SIZE <= self.entries
                * MEMORY_MAP_ENTRY_SIZE);
        }
        let o = (index * MEMORY_MAP_ENTRY_SIZE) as usize;
        MemoryMapEntry {
            base: read_le_u64(self.entry_array, o),
            length: read_le_u64(self.entry_array, o + 8),
            entry_type: MemoryMapEntryType::from_code(read_le_u32(self.entry_array, o + 16)),
        }
    }

    /// Get an iterator over all the memory regions
    pub fn iter(&'a self) -> (r: MemoryMapIter<'a>)
        ensures
            r.tag == self,
            r.current == 0,
            r.remaining() == self.entry_list(),
    {
        let r = MemoryMapIter { tag: self, current: 0 };
        assert(r.remaining() =~= self.entry_list());
        r
    }
}

/// An iterator over all memory regions
#[derive(Clone, Copy)]
pub struct MemoryMapIter<'a> {
    /// The memory map tag walked over.
    pub tag: &'a MemoryMapTag<'a>,
    /// The index of the entry to yield next.
    pub current: u64,
}

impl<'a> MemoryMapIter<'a> {
    /// The entries this iterator has still to yield, in order.
    pub open spec fn remaining(&self) -> Seq<MemoryMapEntry> {
        if self.current <= self.tag.entries {
            self.tag.entry_list().skip(self.current as int)
        } else {
            Seq::empty()
        }
    }

    /// The entry `next` yields from this state.
    pub open spec fn peek(&self) -> Option<MemoryMapEntry> {
        if self.current < self.tag.entries {
            Some(self.tag.entry(self.current as int))
        } else {
            None
        }
    }

    /// The state `next` leaves this iterator in.
    pub open spec fn advanced(&self) -> MemoryMapIter<'a> {
        if self.current < self.tag.entries {
            MemoryMapIter { tag: self.tag, current: (self.current + 1) as u64 }
        } else {
            *self
        }
    }

    /// Yields the next entry, or `None` once every entry has been yielded.
    pub fn next(&mut self) -> (r: Option<MemoryMapEntry>)
        requires
            old(self).tag.wf(),
        ensures
            r == old(self).peek(),
            *final(self) == old(self).advanced(),
            final(self).tag == old(self).tag,
            old(self).current < old(self).tag.entries ==> r == Some(
                old(self).tag.entry(old(self).current as int),
            ) && final(self).current == old(self).current + 1,
            old(self).current >= old(self).tag.entries ==> r is None && final(self).current
                == old(self).current,
            old(self).remaining().len() > 0 ==> r == Some(old(self).remaining()[0])
                && final(self).remaining() == old(self).remaining().drop_first(),
            old(self).remaining().len() == 0 ==> r is None && final(self).remaining().len() == 0,
    {
        if self.current < self.tag.entries {
            let entry = self.tag.entry_at(self.current);
            self.current += 1;
            assert(self.remaining() =~= old(self).remaining().drop_first());
            Some(entry)
        } else {
            None
        }
    }
}

/// An iterator is a cursor of its own: advancing a copy of it (what `clone` gives)
/// moves only the copy. The copy yields the entry the iterator it came from was
/// about to yield and moves on to the rest, while that iterator still yields the
/// same entry next, followed by the same remaining entries.
pub proof fn lemma_copy_advances_alone(it: MemoryMapIter, copy: MemoryMapIter)
    requires
        copy == it,
        it.tag.wf(),
    ensures
        copy.peek() == it.peek(),
        it.remaining().len() > 0 ==> it.peek() == Some(it.remaining()[0]) && copy.advanced().remaining()
            == it.remaining().drop_first(),
        it.remaining().len() == 0 ==> it.peek() is None,
{
    if it.current < it.tag.entries {
        assert(copy.advanced().remaining() =~= it.remaining().drop_first());
    }
}

} // verus!
