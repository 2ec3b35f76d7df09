//! The boot-time UNIX epoch.

use vstd::prelude::*;
use crate::region::BootRegion;
use crate::v2::tag::StivaleTagHeader;

verus! {

/// Identifier of the tag.
pub const EPOCH_TAG_ID: u64 = 0x566a7bed888e1407;

/// Size in bytes of the tag.
pub const EPOCH_TAG_SIZE: u64 = 24;

/// The UNIX epoch info tag passed by the bootloader
#[derive(Clone, Copy)]
pub struct EpochTag {
    pub header: StivaleTagHeader,
    /// UNIX epoch at boot, read from the RTC.
    pub epoch: u64,
}

impl EpochTag {
    /// This tag is the one stored at `addr`.
    pub open spec fn decodes(&self, region: BootRegion, addr: u64) -> bool {
        &&& self.header.decodes(region, addr)
        &&& self.epoch == region.u64_at(addr + 16)
    }

    /// Decodes the tag at `addr`.
    pub fn read(region: &BootRegion, addr: u64) -> (r: EpochTag)
        requires
            region.holds(addr as int, EPOCH_TAG_SIZE as int),
        ensures
            r.decodes(*region, addr),
    {
        EpochTag {
            header: StivaleTagHeader::read(region, addr),
            epoch: region.read_u64(addr + 16),
        }
    }

    /// Get the boot UNIX epoch
    pub fn epoch(&self) -> (r: u64)
        ensures
            r == self.epoch,
    {
        self.epoch
    }
}

impl<'a> From<&'a EpochTag> for u64 {
    fn from(tag: &'a EpochTag) -> (r: u64) {
        tag.epoch()
    }
}

impl<'a> vstd::std_specs::convert::FromSpecImpl<&'a EpochTag> for u64 {
    open spec fn obeys_from_spec() -> bool {
        true
    }

    open spec fn from_spec(tag: &'a EpochTag) -> u64 {
        tag.epoch
    }
}

} // verus!
