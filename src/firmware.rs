//! The firmware the kernel was booted from.

use vstd::prelude::*;
use crate::region::BootRegion;
use crate::v2::tag::StivaleTagHeader;

verus! {

/// Firmware and boot flags.
#[derive(Clone, Copy, PartialEq, Eq, Structural, Debug)]
pub struct FirmwareFlags {
    pub bits: u64,
}

impl FirmwareFlags {
    /// Set if the kernel was booted from a BIOS bootloader, clear if booted from an UEFI bootloader
    pub const BIOS_BOOT: u64 = 0x1;

    /// The raw bits.
    pub fn bits(&self) -> (r: u64)
        ensures
            r == self.bits,
    {
        self.bits
    }

    /// Whether every bit of `flag` is set.
    pub fn contains(&self, flag: u64) -> (r: bool)
        ensures
            r == (self.bits & flag == flag),
    {
        self.bits & flag == flag
    }
}

/// Identifier of the tag.
pub const FIRMWARE_TAG_ID: u64 = 0x359d837855e3858c;

/// Size in bytes of the tag.
pub const FIRMWARE_TAG_SIZE: u64 = 24;

/// The system firmware info tag passed by the bootloader
#[derive(Clone, Copy)]
pub struct FirmwareTag {
    pub header: StivaleTagHeader,
    /// Firmware and boot flags.
    pub flags: FirmwareFlags,
}

impl FirmwareTag {
    /// This tag is the one stored at `addr`.
    pub open spec fn decodes(&self, region: BootRegion, addr: u64) -> bool {
        &&& self.header.decodes(region, addr)
        &&& self.flags.bits == region.u64_at(addr + 16)
    }

    /// Decodes the tag at `addr`.
    pub fn read(region: &BootRegion, addr: u64) -> (r: FirmwareTag)
        requires
            region.holds(addr as int, FIRMWARE_TAG_SIZE as int),
        ensures
            r.decodes(*region, addr),
    {
        FirmwareTag {
            header: StivaleTagHeader::read(region, addr),
            flags: FirmwareFlags { bits: region.read_u64(addr + 16) },
        }
    }

    /// Get the firmware and boot flags
    pub fn flags(&self) -> (r: FirmwareFlags)
        ensures
            r == self.flags,
    {
        self.flags
    }
}

} // verus!
