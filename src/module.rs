//! The modules the bootloader loaded alongside the kernel.

use vstd::prelude::*;
use vstd::string::StringSliceAdditionalSpecFns;
use crate::region::{BootRegion, lemma_slice_len_fits, le_u64, read_le_u64};
use vstd::utf8::valid_utf8;
use crate::text::{string_from_u8, text_of};
use crate::v2::tag::StivaleTagHeader;

verus! {

/// Identifier of the module tag.
pub const MODULE_TAG_ID: u64 = 0x4b6fe466aade04ce;

/// Size in bytes of the module tag before its modules.
pub const MODULE_TAG_PREFIX: u64 = 24;

/// Size in bytes of one module record.
pub const MODULE_RECORD_SIZE: u64 = 144;

/// Size in bytes of the string field of a module record.
pub const MODULE_STRING_SIZE: u64 = 128;

/// A module info struct
#[derive(Clone, Copy)]
pub struct Module<'a> {
    /// Address where the module starts.
    pub start: u64,
    /// Address where the module ends.
    pub end: u64,
    /// The NUL-terminated string passed with the module (128 bytes).
    pub string: &'a [u8],
}

impl<'a> Module<'a> {
    /// This module is the record at offset `o` of `arr`.
    pub open spec fn decodes(&self, arr: Seq<u8>, o: int) -> bool {
        &&& self.start == le_u64(arr, o)
        &&& self.end == le_u64(arr, o + 8)
        &&& self.string@ == arr.subrange(o + 16, o + MODULE_RECORD_SIZE)
    }

    /// Get the address where the module starts
    pub fn start_address(&self) -> (r: u64)
        ensures
            r == self.start,
    {
        self.start
    }

    /// Get the address where the module ends
    pub fn end_address(&self) -> (r: u64)
        ensures
            r == self.end,
    {
        self.end
    }

    /// Get the size of the module: its end address minus its start address.
    pub fn size(&self) -> (r: u64)
        requires
            self.start <= self.end,
        ensures
            r == self.end - self.start,
    {
        self.end - self.start
    }

    /// Get the string passed to the module by the bootloader: `None` when its first
    /// byte is zero, else the text before the first zero byte.
    pub fn string(&self) -> (r: Option<&'a str>)
        requires
            self.string@.len() == MODULE_STRING_SIZE,
        ensures
            r is Some <==> self.string@[0] != 0 && valid_utf8(text_of(self.string@)),
            r matches Some(s) ==> s.spec_bytes() == text_of(self.string@),
    {
        string_from_u8(self.string)
    }
}

/// A module tag describing all the modules
#[derive(Clone, Copy)]
pub struct ModuleTag<'a> {
    pub header: StivaleTagHeader,
    /// The number of modules.
    pub module_count: u64,
    /// The bytes of the modules, `module_count` records of 144 bytes.
    pub module_array: &'a [u8],
}

impl<'a> ModuleTag<'a> {
    /// The module array holds exactly `module_count` modules.
    pub open spec fn wf(&self) -> bool {
        self.module_array@.len() == self.module_count * MODULE_RECORD_SIZE
    }

    /// `m` is the module at index `i`.
    pub open spec fn module_is(&self, i: int, m: Module) -> bool {
        m.decodes(self.module_array@, i * MODULE_RECORD_SIZE)
    }

    /// This tag is the one stored at `addr`.
    pub open spec fn decodes(&self, region: BootRegion, addr: u64) -> bool {
        &&& self.header.decodes(region, addr)
        &&& self.module_count == region.u64_at(addr + 16)
        &&& self.module_array@ == region.bytes_at(
            addr + MODULE_TAG_PREFIX,
            self.module_count * MODULE_RECORD_SIZE,
        )
    }

    /// Decodes the module tag at `addr`; its modules stay in the region's memory.
    pub fn read(region: &BootRegion<'a>, addr: u64) -> (r: ModuleTag<'a>)
        requires
            region.holds(addr as int, MODULE_TAG_PREFIX as int),
            region.holds(addr + MODULE_TAG_PREFIX, region.u64_at(addr + 16) * MODULE_RECORD_SIZE),
        ensures
            r.decodes(*region, addr),
            r.wf(),
    {
        let module_count = region.read_u64(addr + 16);
        ModuleTag {
            header: StivaleTagHeader::read(region, addr),
            module_count,
            module_array: region.slice_at(addr + MODULE_TAG_PREFIX, module_count * MODULE_RECORD_SIZE),
        }
    }

    /// Get the count of modules
    pub fn module_count(&self) -> (r: u64)
        ensures
            r == self.module_count,
    {
        self.module_count
    }

    /// Returns the module at `index`.
    pub fn module_at(&self, index: u64) -> (r: Module<'a>)
        requires
            self.wf(),
            index < self.module_count,
        ensures
            self.module_is(index as int, r),
            r.string@.len() == MODULE_STRING_SIZE,
    {
        proof {
            lemma_slice_len_fits(self.module_array);
            assert(index * MODULE_RECORD_SIZE + MODULE_RECORD_SIZE <= self.module_count
                * MODULE_RECORD_SIZE);
        }
        let o = (index * MODULE_RECORD_SIZE) as usize;
        Module {
            start: read_le_u64(self.module_array, o),
            end: read_le_u64(self.module_array, o + 8),
            string: &self.module_array[o + 16..o + 144],
        }
    }

    /// Get an iterator over all the modules
    pub fn iter(&'a self) -> (r: ModuleIter<'a>)
        ensures
            r.tag == self,
            r.current == 0,
    {
        ModuleIter { tag: self, current: 0 }
    }
}

/// An iterator over all the loaded modules
#[derive(Clone, Copy)]
pub struct ModuleIter<'a> {
    /// The module tag walked over.
    pub tag: &'a ModuleTag<'a>,
    /// The index of the module to yield next.
    pub current: u64,
}

impl<'a> ModuleIter<'a> {
    /// Yields the next module, or `None` once every module has been yielded.
    pub fn next(&mut self) -> (r: Option<Module<'a>>)
        requires
            old(self).tag.wf(),
        ensures
            final(self).tag == old(self).tag,
            old(self).current < old(self).tag.module_count ==> (r matches Some(m) && old(
                self,
            ).tag.module_is(old(self).current as int, m) && m.string@.len() == MODULE_STRING_SIZE)
                && final(self).current == old(self).current + 1,
            old(self).current >= old(self).tag.module_count ==> r is None && final(self).current
                == old(self).current,
    {
        if self.current < self.tag.module_count {
            let module = self.tag.module_at(self.current);
            self.current += 1;
            Some(module)
        } else {
            None
        }
    }
}

} // verus!
