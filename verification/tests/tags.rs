use multiboot2::boot_loader_name::BootLoaderNameTag;
use multiboot2::bootdev::BootdevTag;
use multiboot2::builder::information::InformationBuilder;
use multiboot2::command_line::CommandLineTag;
use multiboot2::efi::{EFIImageHandle32Tag, EFIImageHandle64Tag, EFISdt32Tag, EFISdt64Tag};
use multiboot2::end::EndTag;
use multiboot2::framebuffer::{FramebufferColor, FramebufferField, FramebufferTag, FramebufferType};
use multiboot2::image_load_addr::ImageLoadPhysAddrTag;
use multiboot2::memory_map::{MemoryArea, MemoryAreaType, MemoryAreaTypeId, MemoryMapTag};
use multiboot2::module::ModuleTag;
use multiboot2::tag::{new_tag_bytes, GenericTag, TagTrait, TagType};
use multiboot2::util::{parse_slice_as_string, StringError};
use multiboot2::vbe_info::{VBEControlInfo, VBEInfoTag, VBEModeInfo};

fn boot_loader_name_bytes() -> [u8; 16] {
    [
        TagType::BootLoaderName.val() as u8, 0, 0, 0,
        14, 0, 0, 0,
        b'h', b'e', b'l', b'l', b'o', b'\0',
        /* padding */
        0, 0,
    ]
}

#[test]
fn boot_loader_name_test_parse_str() {
    let bytes = boot_loader_name_bytes();
    let generic = GenericTag::ref_from_slice(&bytes[..]).unwrap();
    let tag = BootLoaderNameTag::from_generic(&generic).unwrap();
    assert_eq!(generic.typ(), TagType::BootLoaderName);
    assert_eq!(tag.name(), Ok("hello".to_string()));
}

#[test]
fn boot_loader_name_test_build_str() {
    let tag = BootLoaderNameTag::new("hello");
    let bytes = TagTrait::as_bytes(&tag);
    assert_eq!(bytes.as_slice(), &boot_loader_name_bytes()[..tag.size()]);
    assert_eq!(tag.name(), Ok("hello".to_string()));

    // test also some bigger message
    let tag = BootLoaderNameTag::new("AbCdEfGhUjK YEAH");
    assert_eq!(tag.name(), Ok("AbCdEfGhUjK YEAH".to_string()));
    let tag = BootLoaderNameTag::new("AbCdEfGhUjK YEAH".repeat(42).as_str());
    assert_eq!(tag.name(), Ok("AbCdEfGhUjK YEAH".repeat(42)));
}

#[test]
fn reported_size_matches_spec() {
    // The Multiboot2 spec mandates size 20 (excluding padding).
    let tag = BootdevTag::new(0x80, 0, 0xffff_ffff);
    let generic = GenericTag::ref_from_slice(&TagTrait::as_bytes(&tag)).unwrap();
    assert_eq!(generic.header().size, 20);
}

fn consume<T: TagTrait>(_: &T) {}

#[test]
fn can_hold_tag_trait() {
    let tag = CommandLineTag::new("hallo");
    consume(&tag);
    consume(&tag.clone());
}

#[test]
fn test_size_or_up_aligned() {
    assert_eq!(0, InformationBuilder::size_or_up_aligned(0));
    assert_eq!(8, InformationBuilder::size_or_up_aligned(1));
    assert_eq!(8, InformationBuilder::size_or_up_aligned(8));
    assert_eq!(16, InformationBuilder::size_or_up_aligned(9));
}

fn command_line_bytes() -> [u8; 16] {
    [
        TagType::Cmdline.val() as u8, 0, 0, 0,
        14, 0, 0, 0,
        b'h', b'e', b'l', b'l', b'o', b'\0',
        /* padding */
        0, 0,
    ]
}

#[test]
fn command_line_test_parse_str() {
    let bytes = command_line_bytes();
    let generic = GenericTag::ref_from_slice(&bytes[..]).unwrap();
    let tag = CommandLineTag::from_generic(&generic).unwrap();
    assert_eq!(generic.typ(), TagType::Cmdline);
    assert_eq!(tag.cmdline(), Ok("hello".to_string()));
}

#[test]
fn command_line_test_build_str() {
    let tag = CommandLineTag::new("hello");
    let bytes = TagTrait::as_bytes(&tag);
    assert_eq!(bytes.as_slice(), &command_line_bytes()[..tag.size()]);
    assert_eq!(tag.cmdline(), Ok("hello".to_string()));

    // test also some bigger message
    let tag = CommandLineTag::new("AbCdEfGhUjK YEAH");
    assert_eq!(tag.cmdline(), Ok("AbCdEfGhUjK YEAH".to_string()));
    let tag = CommandLineTag::new("AbCdEfGhUjK YEAH".repeat(42).as_str());
    assert_eq!(tag.cmdline(), Ok("AbCdEfGhUjK YEAH".repeat(42)));
}

const ADDR: usize = 0xABCDEF;

#[test]
fn test_build_eftsdt32() {
    let tag = EFISdt32Tag::new(ADDR.try_into().unwrap());
    assert_eq!(tag.sdt_address(), ADDR);
}

#[test]
fn test_build_eftsdt64() {
    let tag = EFISdt64Tag::new(ADDR.try_into().unwrap());
    assert_eq!(tag.sdt_address(), ADDR);
}

#[test]
fn test_build_eftih32() {
    let tag = EFIImageHandle32Tag::new(ADDR.try_into().unwrap());
    assert_eq!(tag.image_handle(), ADDR);
}

#[test]
fn test_build_eftih64() {
    let tag = EFIImageHandle64Tag::new(ADDR.try_into().unwrap());
    assert_eq!(tag.image_handle(), ADDR);
}

#[test]
fn test_end_tag_size() {
    let tag = EndTag::default();
    assert_eq!(TagTrait::as_bytes(&tag).len(), 8);
    assert_eq!(EndTag::BASE_SIZE, 8);
}

#[test]
fn test_size() {
    assert_eq!(core::mem::size_of::<FramebufferColor>(), 3)
}

#[test]
fn create_new() {
    let tag = FramebufferTag::new(0x1000, 1, 1024, 1024, 8, FramebufferType::Text);
    println!("{:?}", tag);

    let tag = FramebufferTag::new(
        0x1000,
        1,
        1024,
        1024,
        8,
        FramebufferType::Indexed {
            palette: vec![
                FramebufferColor { red: 255, green: 255, blue: 255 },
                FramebufferColor { red: 127, green: 42, blue: 73 },
            ],
        },
    );
    println!("{:?}", tag);

    let tag = FramebufferTag::new(
        0x1000,
        1,
        1024,
        1024,
        8,
        FramebufferType::RGB {
            red: FramebufferField { position: 0, size: 0 },
            green: FramebufferField { position: 10, size: 20 },
            blue: FramebufferField { position: 30, size: 40 },
        },
    );
    println!("{:?}", tag);
}

const LOAD_ADDR: u32 = 0xABCDEF;

#[test]
fn base_size_excludes_trailing_padding() {
    assert_eq!(ImageLoadPhysAddrTag::BASE_SIZE, 12);
}

#[test]
fn test_build_load_addr() {
    let tag = ImageLoadPhysAddrTag::new(LOAD_ADDR);
    assert_eq!(tag.load_base_addr(), LOAD_ADDR);
}

#[test]
fn vbe_info_tag_size() {
    // 16 for the start + 512 from `VBEControlInfo` + 256 from `VBEModeInfo`.
    let tag = VBEInfoTag::new(0, 0, 0, 0, VBEControlInfo::default(), VBEModeInfo::default());
    assert_eq!(TagTrait::as_bytes(&tag).len(), 784);
    assert_eq!(VBEInfoTag::BASE_SIZE, 784);
}

#[test]
fn test_create_old_mmap() {
    let _mmap = MemoryMapTag::new(&[]);
    let mmap = MemoryMapTag::new(&[
        MemoryArea::new(0x1000, 0x2000, MemoryAreaTypeId::from(MemoryAreaType::Available)),
        MemoryArea::new(0x2000, 0x3000, MemoryAreaTypeId::from(MemoryAreaType::Available)),
    ]);
    println!("{:?}", mmap);
}

fn module_bytes() -> [u8; 24] {
    [
        TagType::Module.val() as u8, 0, 0, 0,
        22, 0, 0, 0,
        /* mod start */
        0x00, 0xff, 0, 0,
        /* mod end */
        0xff, 0xff, 0, 0,
        b'h', b'e', b'l', b'l', b'o', b'\0',
        /* padding */
        0, 0,
    ]
}

#[test]
fn module_test_parse_str() {
    let bytes = module_bytes();
    let generic = GenericTag::ref_from_slice(&bytes[..]).unwrap();
    let tag = ModuleTag::from_generic(&generic).unwrap();
    assert_eq!(generic.typ(), TagType::Module);
    assert_eq!(tag.cmdline(), Ok("hello".to_string()));
}

#[test]
fn module_test_build_str() {
    let tag = ModuleTag::new(0xff00, 0xffff, "hello");
    let bytes = TagTrait::as_bytes(&tag);
    assert_eq!(bytes.as_slice(), &module_bytes()[..bytes.len()]);
    assert_eq!(tag.cmdline(), Ok("hello".to_string()));

    // test also some bigger message
    let tag = ModuleTag::new(0, 1, "AbCdEfGhUjK YEAH");
    assert_eq!(tag.cmdline(), Ok("AbCdEfGhUjK YEAH".to_string()));
    let tag = ModuleTag::new(0, 1, "AbCdEfGhUjK YEAH".repeat(42).as_str());
    assert_eq!(tag.cmdline(), Ok("AbCdEfGhUjK YEAH".repeat(42)));
}

#[test]
fn compatible_with_tag_bytes_ref_type() {
    let bytes = [
        /* tag id */
        0, 0, 0, 0,
        /* size */
        14, 0, 0, 0,
        /* arbitrary payload */
        1, 2, 3, 4,
        5, 6,
        /* padding */
        0, 0,
    ];
    let _a = GenericTag::ref_from_slice(&bytes[..]).unwrap();
}

#[test]
fn test_parse_slice_as_string() {
    // empty slice is invalid
    assert!(matches!(parse_slice_as_string(&[]), Err(StringError::MissingNul)));
    // empty string is fine
    assert_eq!(parse_slice_as_string(&[0x00]), Ok("".to_string()));
    // reject invalid utf8
    assert!(matches!(parse_slice_as_string(&[0xff, 0x00]), Err(StringError::Utf8)));
    // reject missing null
    assert!(matches!(parse_slice_as_string(b"hello"), Err(StringError::MissingNul)));
    // must not include final null
    assert_eq!(parse_slice_as_string(b"hello\0"), Ok("hello".to_string()));
    assert_eq!(parse_slice_as_string(b"hello\0\0"), Ok("hello".to_string()));
    // must skip everything after first null
    assert_eq!(parse_slice_as_string(b"hello\0foo"), Ok("hello".to_string()));
}

#[test]
fn framebuffer_tags_equal_regardless_of_reserved_field() {
    let tag = FramebufferTag::new(0x1000, 4096, 1024, 768, 32, FramebufferType::Text);
    let mut bytes = tag.as_bytes();
    bytes[30] = 0xab;
    bytes[31] = 0xcd;
    let generic = GenericTag::ref_from_slice(&bytes).unwrap();
    let other = FramebufferTag::from_generic(&generic).unwrap();
    assert_eq!(tag, other);
    bytes[28] = 24;
    let generic = GenericTag::ref_from_slice(&bytes).unwrap();
    let third = FramebufferTag::from_generic(&generic).unwrap();
    assert_ne!(tag, third);
}

#[test]
fn framebuffer_palette_has_a_32_bit_count() {
    let palette = vec![
        FramebufferColor { red: 1, green: 2, blue: 3 },
        FramebufferColor { red: 4, green: 5, blue: 6 },
    ];
    let tag = FramebufferTag::new(0x1000, 1, 1024, 1024, 8, FramebufferType::Indexed { palette });
    let bytes = tag.as_bytes();
    assert_eq!(bytes.len(), 32 + 4 + 6);
    assert_eq!(&bytes[32..36], &[2, 0, 0, 0]);
    assert_eq!(&bytes[36..42], &[1, 2, 3, 4, 5, 6]);
}

#[test]
fn test_boxed_dst_tag() {
    let content = *b"hallo\0";
    let content_rust_str = "hallo";
    let tag = GenericTag::from_bytes(new_tag_bytes(TagType::Custom(0x1337), &content));
    assert_eq!(tag.typ(), TagType::Custom(0x1337));
    assert_eq!(tag.header().size as usize, 8 + content.len());
    assert_eq!(parse_slice_as_string(&tag.payload()), Ok(content_rust_str.to_string()));
}

#[test]
fn framebuffer_buffer_completeness() {
    let palette = vec![FramebufferColor { red: 1, green: 2, blue: 3 }];
    let tag = FramebufferTag::new(0x1000, 1, 1024, 1024, 8, FramebufferType::Indexed { palette });
    assert!(tag.buffer_complete());
    let mut bytes = tag.as_bytes();
    bytes[32] = 5; // five colors claimed, one present
    let generic = GenericTag::ref_from_slice(&bytes).unwrap();
    let short = FramebufferTag::from_generic(&generic).unwrap();
    assert!(!short.buffer_complete());
    let text = FramebufferTag::new(0, 1, 80, 25, 16, FramebufferType::Text);
    assert!(text.buffer_complete());
}
