use multiboot2::header::tags::{
    AddressHeaderTag, ConsoleHeaderTag, EfiBootServiceHeaderTag, EndHeaderTag,
    EntryEfi32HeaderTag, EntryEfi64HeaderTag, EntryHeaderTag, FramebufferHeaderTag,
    InformationRequestHeaderTag, ModuleAlignHeaderTag, RelocatableHeaderTag,
};
use multiboot2::header::{
    header_is_valid, load_mb2_header, ConsoleHeaderTagFlags, HeaderTagFlag, HeaderTagISA, HeaderTagType,
    Multiboot2Header, Multiboot2HeaderBuilder, RelocatableHeaderTagPreference,
    MULTIBOOT2_HEADER_MAGIC,
};
use multiboot2::mbi::{MbiTag, MbiTagIter, MbiTagType};

#[test]
fn header_checksum_of_static_header() {
    // 2^32 - 0xe85250d6 - 0 - 16
    assert_eq!(Multiboot2Header::calc_checksum(MULTIBOOT2_HEADER_MAGIC, HeaderTagISA::I386, 16), 0x17AD_AF1A);
    // the four fields add up to zero, modulo 2^32
    let c = Multiboot2Header::calc_checksum(MULTIBOOT2_HEADER_MAGIC, HeaderTagISA::MIPS32, 40);
    assert_eq!(MULTIBOOT2_HEADER_MAGIC.wrapping_add(4).wrapping_add(40).wrapping_add(c), 0);
}

#[test]
fn header_builder_output_loads_and_verifies() {
    let bytes = Multiboot2HeaderBuilder::new()
        .additional_tags_len(8)
        .arch(HeaderTagISA::I386)
        .build();
    assert_eq!(bytes.len(), 16);
    assert_eq!(Multiboot2Header::static_size(), 16);
    let header = load_mb2_header(0x1000, &bytes);
    assert!(header.verify_checksum());
    assert_eq!(header.header_magic(), MULTIBOOT2_HEADER_MAGIC);
    assert_eq!(header.arch(), HeaderTagISA::I386);
    assert_eq!(header.length(), 24);
    assert_eq!(header.checksum(), Multiboot2Header::calc_checksum(MULTIBOOT2_HEADER_MAGIC, HeaderTagISA::I386, 24));
}

#[test]
fn header_tag_iteration() {
    let mut bytes = Multiboot2HeaderBuilder::new()
        .additional_tags_len(24)
        .arch(HeaderTagISA::MIPS32)
        .build();
    // an information request tag of size 12 (one request) and its padding,
    // then the end tag
    bytes.extend_from_slice(&[1, 0, 1, 0, 12, 0, 0, 0, 6, 0, 0, 0, 0, 0, 0, 0]);
    bytes.extend_from_slice(&[0, 0, 0, 0, 8, 0, 0, 0]);
    let header = load_mb2_header(0x2000, &bytes);
    assert!(header.verify_checksum());
    let mut iter = header.iter();
    let first = iter.next().unwrap();
    assert_eq!(first.typ(), HeaderTagType::InformationRequest);
    assert_eq!(first.flags(), HeaderTagFlag::Optional);
    assert_eq!(first.size(), 12);
    // 12 rounded up to a multiple of 8 is 16
    let second = iter.next().unwrap();
    assert_eq!(second.typ(), HeaderTagType::End);
    assert_eq!(second.size(), 8);
    assert!(iter.next().is_none());
}

#[test]
fn header_tags_keep_their_fields() {
    let end = EndHeaderTag::new();
    assert_eq!((end.typ(), end.flags(), end.size()), (HeaderTagType::End, HeaderTagFlag::Required, 8));
    let addr = AddressHeaderTag::new(HeaderTagFlag::Optional, 1, 2, 3, 4);
    assert_eq!(addr.typ(), HeaderTagType::Address);
    assert_eq!(addr.size(), 24);
    assert_eq!((addr.header_addr(), addr.load_addr(), addr.load_end_addr(), addr.bss_end_addr()), (1, 2, 3, 4));
    let entry = EntryHeaderTag::new(HeaderTagFlag::Required, 0x10_0000);
    assert_eq!((entry.typ(), entry.size(), entry.entry_addr()), (HeaderTagType::EntryAddress, 12, 0x10_0000));
    let console = ConsoleHeaderTag::new(HeaderTagFlag::Required, ConsoleHeaderTagFlags::EgaTextSupported);
    assert_eq!(console.console_flags(), ConsoleHeaderTagFlags::EgaTextSupported);
    assert_eq!(console.size(), 12);
    let fb = FramebufferHeaderTag::new(HeaderTagFlag::Optional, 1024, 768, 32);
    assert_eq!((fb.width(), fb.height(), fb.depth(), fb.size()), (1024, 768, 32, 20));
    let align = ModuleAlignHeaderTag::new(HeaderTagFlag::Required);
    assert_eq!((align.typ(), align.size()), (HeaderTagType::ModuleAlign, 8));
    let efi_bs = EfiBootServiceHeaderTag::new(HeaderTagFlag::Optional);
    assert_eq!((efi_bs.typ(), efi_bs.flags()), (HeaderTagType::EfiBS, HeaderTagFlag::Optional));
    let e32 = EntryEfi32HeaderTag::new(HeaderTagFlag::Required, 7);
    assert_eq!((e32.typ(), e32.entry_addr()), (HeaderTagType::EntryAddressEFI32, 7));
    let e64 = EntryEfi64HeaderTag::new(HeaderTagFlag::Required, 9);
    assert_eq!((e64.typ(), e64.entry_addr()), (HeaderTagType::EntryAddressEFI64, 9));
    let reloc = RelocatableHeaderTag::new(HeaderTagFlag::Optional, 0x1000, 0xF000, 0x1000, RelocatableHeaderTagPreference::High);
    assert_eq!((reloc.min_addr(), reloc.max_addr(), reloc.align(), reloc.size()), (0x1000, 0xF000, 0x1000, 24));
    assert_eq!(reloc.preference(), RelocatableHeaderTagPreference::High);
}

#[test]
fn information_request_lists_its_requests() {
    let tag = InformationRequestHeaderTag::new(HeaderTagFlag::Required, [MbiTagType::Cmdline, MbiTagType::Mmap]);
    assert_eq!(tag.size(), 16);
    assert_eq!(tag.typ(), HeaderTagType::InformationRequest);
    assert_eq!(tag.requests(), [MbiTagType::Cmdline, MbiTagType::Mmap]);
    let mut iter = tag.req_iter();
    assert_eq!(iter.next(), Some(MbiTagType::Cmdline));
    assert_eq!(iter.next(), Some(MbiTagType::Mmap));
    assert_eq!(iter.next(), None);
}

#[test]
fn mbi_tag_walk_stops_at_end_tag() {
    let bytes: [u8; 32] = [
        1, 0, 0, 0, 9, 0, 0, 0, // command line tag of size 9
        0, 0, 0, 0, 0, 0, 0, 0, // its payload and padding
        3, 0, 0, 0, 8, 0, 0, 0, // a module tag of size 8
        0, 0, 0, 0, 8, 0, 0, 0, // end tag
    ];
    let mut iter = MbiTagIter::new(&bytes, 0);
    assert_eq!(iter.next(), Some(MbiTag { typ: MbiTagType::Cmdline, size: 9 }));
    assert_eq!(iter.next(), Some(MbiTag { typ: MbiTagType::Module, size: 8 }));
    assert_eq!(iter.next(), None);
    assert_eq!(iter.next(), None);
    assert_eq!(MbiTagType::from_val(21), MbiTagType::LoadBaseAddr);
    assert_eq!(MbiTagType::EfiBs.val(), 18);
}

#[test]
fn mbi_tag_type_compares_with_its_id() {
    assert!(MbiTagType::Mmap == 6u32);
    assert!(6u32 == MbiTagType::Mmap);
    assert!(MbiTagType::Mmap != 7u32);
    assert!(MbiTagType::Mmap < 7u32);
    assert!(MbiTagType::Mmap > 5u32);
    assert!(MbiTagType::LoadBaseAddr >= 21u32);
    assert_eq!(MbiTagType::End.partial_cmp(&0u32), Some(core::cmp::Ordering::Equal));
}

#[test]
fn header_tags_start_at_multiples_of_8() {
    let mut bytes = Multiboot2HeaderBuilder::new()
        .additional_tags_len(48)
        .arch(HeaderTagISA::I386)
        .build();
    // an information request tag of size 20 (three requests) and its padding,
    // a console tag of size 12 and its padding, then the end tag
    bytes.extend_from_slice(&[1, 0, 0, 0, 20, 0, 0, 0, 1, 0, 0, 0, 2, 0, 0, 0, 3, 0, 0, 0, 0, 0, 0, 0]);
    bytes.extend_from_slice(&[4, 0, 0, 0, 12, 0, 0, 0, 1, 0, 0, 0, 0, 0, 0, 0]);
    bytes.extend_from_slice(&[0, 0, 0, 0, 8, 0, 0, 0]);
    let header = load_mb2_header(0x2000, &bytes);
    let mut iter = header.iter();
    assert_eq!(iter.next().unwrap().size(), 20);
    // 20 rounded up is 24: the console tag
    let console = iter.next().unwrap();
    assert_eq!(console.typ(), HeaderTagType::ConsoleFlags);
    // 24 + 12 = 36, rounded up is 40: the end tag
    assert_eq!(iter.next().unwrap().typ(), HeaderTagType::End);
    assert!(iter.next().is_none());
}

#[test]
fn header_validity_of_the_static_part() {
    let bytes = Multiboot2HeaderBuilder::new().arch(HeaderTagISA::MIPS32).build();
    assert!(header_is_valid(&bytes));
    let mut wrong_checksum = bytes.clone();
    wrong_checksum[12] ^= 1;
    assert!(!header_is_valid(&wrong_checksum));
    let mut unknown_arch = bytes.clone();
    unknown_arch[4] = 1;
    assert!(!header_is_valid(&unknown_arch));
    assert!(!header_is_valid(&bytes[..15]));
}
