//! The location of the ACPI RSDP.

use vstd::prelude::*;
use crate::region::BootRegion;
use crate::v2::tag::StivaleTagHeader;

verus! {

/// Identifier of the tag.
pub const RSDP_TAG_ID: u64 = 0x9e1786930a375e78;

/// Size in bytes of the tag.
pub const RSDP_TAG_SIZE: u64 = 24;

/// The ACPI RSDP info tag passed by the bootloader
#[derive(Clone, Copy)]
pub struct RSDPTag {
    pub header: StivaleTagHeader,
    /// Address of the RSDP.
    pub rsdp: u64,
}

impl RSDPTag {
    /// This tag is the one stored at `addr`.
    pub open spec fn decodes(&self, region: BootRegion, addr: u64) -> bool {
        &&& self.header.decodes(region, addr)
        &&& self.rsdp == region.u64_at(addr + 16)
    }

    /// Decodes the tag at `addr`.
    pub fn read(region: &BootRegion, addr: u64) -> (r: RSDPTag)
        requires
            region.holds(addr as int, RSDP_TAG_SIZE as int),
        ensures
            r.decodes(*region, addr),
    {
        RSDPTag {
            header: StivaleTagHeader::read(region, addr),
            rsdp: region.read_u64(addr + 16),
        }
    }

    /// Get the RSDP address
    pub fn rsdp(&self) -> (r: u64)
        ensures
            r == self.rsdp,
    {
        self.rsdp
    }
}

impl<'a> From<&'a RSDPTag> for u64 {
    fn from(tag: &'a RSDPTag) -> (r: u64) {
        tag.rsdp()
    }
}

impl<'a> vstd::std_specs::convert::FromSpecImpl<&'a RSDPTag> for u64 {
    open spec fn obeys_from_spec() -> bool {
        true
    }

    open spec fn from_spec(tag: &'a RSDPTag) -> u64 {
        tag.rsdp
    }
}

} // verus!
