//! The header tag that asks for 5-level paging.

use vstd::prelude::*;

verus! {

/// Identifier of the 5-level paging header tag.
pub const HEADER_5_LEVEL_PAGING_TAG_ID: u64 = 0x932f477032007e8f;

/// A stivale2 header tag that asks the bootloader for 5-level paging, if supported
#[derive(Clone, Copy)]
pub struct Header5LevelPagingTag {
    identifier: u64,
    next: u64,
}

impl Header5LevelPagingTag {
    /// The stored identifier.
    pub closed spec fn identifier_of(&self) -> u64 {
        self.identifier
    }

    /// The stored address of the next header tag.
    pub closed spec fn next_of(&self) -> u64 {
        self.next
    }

    /// Create a new header tag that marks the kernel for 5-level paging
    pub fn new() -> (r: Self)
        ensures
            r.identifier_of() == HEADER_5_LEVEL_PAGING_TAG_ID,
            r.next_of() == 0,
    {
        Header5LevelPagingTag { identifier: HEADER_5_LEVEL_PAGING_TAG_ID, next: 0 }
    }

    /// Chains the header tag at address `tag` after this one.
    pub fn next(self, tag: u64) -> (r: Self)
        ensures
            r.identifier_of() == self.identifier_of(),
            r.next_of() == tag,
    {
        Header5LevelPagingTag { next: tag, ..self }
    }
}

} // verus!
