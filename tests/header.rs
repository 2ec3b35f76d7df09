use stivale_boot::header::framebuffer::HeaderFramebufferTag;
use stivale_boot::header::paging::Header5LevelPagingTag;
use stivale_boot::header::{StivaleHeader as LegacyHeader, StivaleHeaderFlags};
use stivale_boot::terminal::HeaderTerminalTag;
use stivale_boot::v2::header::{
    Stivale5LevelPagingHeaderTag, StivaleAnyVideoTag, StivaleFramebufferHeaderTag, StivaleHeader,
    StivaleSmpHeaderTag, StivaleTerminalHeaderTag, StivaleUnmapNullHeaderTag,
};

#[test]
fn stack_and_flags_in_either_order() {
    let a = StivaleHeader::new().stack(0x8000).flags(3);
    let b = StivaleHeader::new().flags(3).stack(0x8000);
    assert_eq!(a.get_stack(), 0x8000);
    assert_eq!(a.get_flags(), 3);
    assert_eq!(b.get_stack(), 0x8000);
    assert_eq!(b.get_flags(), 3);
}

#[test]
fn new_header_is_zeroed() {
    let h = StivaleHeader::new();
    assert_eq!(h.get_stack(), 0);
    assert_eq!(h.get_flags(), 0);
    let h = h.entry_point(0xffff_ffff_8000_0000).tags(0x5000);
    assert_eq!(h.get_stack(), 0);
    assert_eq!(h.get_flags(), 0);
}

#[test]
fn header_tags_build() {
    let fb = HeaderFramebufferTag::new().resolution(1024, 768).bpp(32).next(0x1234);
    let _ = fb;
    let p = Header5LevelPagingTag::new().next(0);
    let _ = p;
    let t = HeaderTerminalTag::new().next(0x42);
    let _ = t;
    let v = StivaleFramebufferHeaderTag::new().framebuffer_bpp(24).next(0x10);
    let _ = v;
    let h = LegacyHeader::new(0x9000).flags(StivaleHeaderFlags::from_bits(StivaleHeaderFlags::KASLR)).tags(0x10).entry_point(0x20);
    let _ = h;
}

fn words(bytes: &[u8]) -> Vec<u64> {
    bytes.chunks(8).map(|c| u64::from_le_bytes(c.try_into().unwrap())).collect()
}

#[test]
fn header_layout_is_four_words() {
    let h = StivaleHeader::new().entry_point(0xffff_ffff_8000_1000).stack(0x9000).flags(1).tags(0x4000);
    let bytes = h.to_bytes();
    assert_eq!(bytes.len(), 32);
    assert_eq!(words(&bytes), vec![0xffff_ffff_8000_1000, 0x9000, 1, 0x4000]);
}

#[test]
fn framebuffer_header_tag_layout() {
    let t = StivaleFramebufferHeaderTag::new()
        .framebuffer_width(1024)
        .framebuffer_height(768)
        .framebuffer_bpp(32)
        .next(0x5000);
    let bytes = t.to_bytes();
    assert_eq!(bytes.len(), 24);
    assert_eq!(words(&bytes[..16]), vec![0x3ecc1bc43d0f7971, 0x5000]);
    assert_eq!(&bytes[16..], &[0x00, 0x04, 0x00, 0x03, 0x20, 0x00, 0x00, 0x00]);
}

#[test]
fn request_tag_identifiers() {
    assert_eq!(words(&StivaleTerminalHeaderTag::new().to_bytes()), vec![0xa85d499b1823be72, 0, 0]);
    assert_eq!(words(&StivaleSmpHeaderTag::new().to_bytes()), vec![0x1ab015085f3273df, 0, 0]);
    assert_eq!(words(&Stivale5LevelPagingHeaderTag::new().to_bytes()), vec![0x932f477032007e8f, 0]);
    assert_eq!(words(&StivaleUnmapNullHeaderTag::new().to_bytes()), vec![0x92919432b16fe7e7, 0]);
    assert_eq!(
        words(&StivaleAnyVideoTag::new().preference(1).next(0x10).to_bytes()),
        vec![0xc75c9fa92a44c4db, 0x10, 1]
    );
}
