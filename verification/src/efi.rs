//! All tags related to (U)EFI with the exception of EFI memory tags.
use crate::bytes::{lemma_u32_le, lemma_u64_le, push_u32_le, push_u64_le, read_u32_le, read_u64_le, spec_u32_le, spec_u64_le, u32_le_bytes, u64_le_bytes};
use crate::tag::{header_bytes, tag_size, tag_typ, GenericTag, TagHeader, TagTrait, TagType};
use vstd::prelude::*;

verus! {

/// EFI system table in 32 bit mode tag.
#[derive(Clone, Copy, Debug, PartialEq, Eq, Structural)]
pub struct EFISdt32Tag {
    header: TagHeader,
    pointer: u32,
}

impl View for EFISdt32Tag {
    type V = EFISdt32Tag;

    open spec fn view(&self) -> EFISdt32Tag {
        *self
    }
}

impl EFISdt32Tag {
    /// The size of the tag, in bytes.
    pub const BASE_SIZE: u32 = 12;

    /// The tag's header.
    pub closed spec fn spec_header(&self) -> TagHeader {
        self.header
    }

    /// The pointer field.
    pub closed spec fn spec_pointer(&self) -> u32 {
        self.pointer
    }

    /// Create a new tag to pass the EFI32 System Table pointer.
    pub fn new(pointer: u32) -> (r: EFISdt32Tag)
        ensures
            EFISdt32Tag::spec_wf(r),
            r.spec_header() == (TagHeader { typ: 11, size: 12 }),
            EFISdt32Tag::spec_bytes(r) == header_bytes(11, 12) + u32_le_bytes(pointer as int),
            r.spec_pointer() == pointer,
    {
        EFISdt32Tag { header: TagHeader::new(TagType::Efi32, 12), pointer }
    }

    /// The physical address of a i386 EFI system table.
    pub fn sdt_address(&self) -> (r: usize)
        ensures
            r == self.spec_pointer() as usize,
    {
        self.pointer as usize
    }

}

impl TagTrait for EFISdt32Tag {
    open spec fn spec_type() -> TagType {
        TagType::Efi32
    }

    closed spec fn spec_from_bytes(b: Seq<u8>) -> Option<EFISdt32Tag> {
        if b.len() >= 12 && tag_typ(b) == 11 {
            Some(EFISdt32Tag { header: TagHeader { typ: tag_typ(b) as u32, size: tag_size(b) as u32 }, pointer: spec_u32_le(b, 8) as u32 })
        } else {
            None
        }
    }

    closed spec fn spec_bytes(v: EFISdt32Tag) -> Seq<u8> {
        header_bytes(v.header.typ, v.header.size)
            + u32_le_bytes(v.pointer as int)
    }

    closed spec fn spec_wf(v: EFISdt32Tag) -> bool {
        v.header.typ == 11 && v.header.size == 12
    }

    proof fn lemma_roundtrip(v: EFISdt32Tag) {
        let b = Self::spec_bytes(v);
        assert(b.subrange(0, 4) =~= u32_le_bytes(v.header.typ as int));
        assert(b.subrange(4, 8) =~= u32_le_bytes(v.header.size as int));
        lemma_u32_le(b, 0, v.header.typ as int);
        lemma_u32_le(b, 4, v.header.size as int);
        assert(b.subrange(8, 12) =~= u32_le_bytes(v.pointer as int));
        lemma_u32_le(b, 8, v.pointer as int);
        assert(Self::spec_from_bytes(b) == Some(v));
    }

    fn id() -> (r: TagType) {
        TagType::Efi32
    }

    fn from_generic(tag: &GenericTag) -> (r: Option<EFISdt32Tag>) {
        let b = tag.as_bytes();
        if b.len() < 12 || tag.typ().val() != 11 {
            return None;
        }
        Some(EFISdt32Tag { header: tag.header(), pointer: read_u32_le(b, 8) })
    }

    fn as_bytes(&self) -> (r: Vec<u8>) {
        let mut r: Vec<u8> = Vec::new();
        push_u32_le(&mut r, self.header.typ);
        push_u32_le(&mut r, self.header.size);
        push_u32_le(&mut r, self.pointer);
        assert(r@ =~= Self::spec_bytes(*self));
        r
    }
}

/// EFI system table in 64 bit mode tag.
#[derive(Clone, Copy, Debug, PartialEq, Eq, Structural)]
pub struct EFISdt64Tag {
    header: TagHeader,
    pointer: u64,
}

impl View for EFISdt64Tag {
    type V = EFISdt64Tag;

    open spec fn view(&self) -> EFISdt64Tag {
        *self
    }
}

impl EFISdt64Tag {
    /// The size of the tag, in bytes.
    pub const BASE_SIZE: u32 = 16;

    /// The tag's header.
    pub closed spec fn spec_header(&self) -> TagHeader {
        self.header
    }

    /// The pointer field.
    pub closed spec fn spec_pointer(&self) -> u64 {
        self.pointer
    }

    /// Create a new tag to pass the EFI64 System Table pointer.
    pub fn new(pointer: u64) -> (r: EFISdt64Tag)
        ensures
            EFISdt64Tag::spec_wf(r),
            r.spec_header() == (TagHeader { typ: 12, size: 16 }),
            EFISdt64Tag::spec_bytes(r) == header_bytes(12, 16) + u64_le_bytes(pointer as int),
            r.spec_pointer() == pointer,
    {
        EFISdt64Tag { header: TagHeader::new(TagType::Efi64, 16), pointer }
    }

    /// The physical address of a x86_64 EFI system table.
    pub fn sdt_address(&self) -> (r: usize)
        ensures
            r == self.spec_pointer() as usize,
    {
        self.pointer as usize
    }

}

impl TagTrait for EFISdt64Tag {
    open spec fn spec_type() -> TagType {
        TagType::Efi64
    }

    closed spec fn spec_from_bytes(b: Seq<u8>) -> Option<EFISdt64Tag> {
        if b.len() >= 16 && tag_typ(b) == 12 {
            Some(EFISdt64Tag { header: TagHeader { typ: tag_typ(b) as u32, size: tag_size(b) as u32 }, pointer: spec_u64_le(b, 8) as u64 })
        } else {
            None
        }
    }

    closed spec fn spec_bytes(v: EFISdt64Tag) -> Seq<u8> {
        header_bytes(v.header.typ, v.header.size)
            + u64_le_bytes(v.pointer as int)
    }

    closed spec fn spec_wf(v: EFISdt64Tag) -> bool {
        v.header.typ == 12 && v.header.size == 16
    }

    proof fn lemma_roundtrip(v: EFISdt64Tag) {
        let b = Self::spec_bytes(v);
        assert(b.subrange(0, 4) =~= u32_le_bytes(v.header.typ as int));
        assert(b.subrange(4, 8) =~= u32_le_bytes(v.header.size as int));
        lemma_u32_le(b, 0, v.header.typ as int);
        lemma_u32_le(b, 4, v.header.size as int);
        assert(b.subrange(8, 16) =~= u64_le_bytes(v.pointer as int));
        lemma_u64_le(b, 8, v.pointer as int);
        assert(Self::spec_from_bytes(b) == Some(v));
    }

    fn id() -> (r: TagType) {
        TagType::Efi64
    }

    fn from_generic(tag: &GenericTag) -> (r: Option<EFISdt64Tag>) {
        let b = tag.as_bytes();
        if b.len() < 16 || tag.typ().val() != 12 {
            return None;
        }
        Some(EFISdt64Tag { header: tag.header(), pointer: read_u64_le(b, 8) })
    }

    fn as_bytes(&self) -> (r: Vec<u8>) {
        let mut r: Vec<u8> = Vec::new();
        push_u32_le(&mut r, self.header.typ);
        push_u32_le(&mut r, self.header.size);
        push_u64_le(&mut r, self.pointer);
        assert(r@ =~= Self::spec_bytes(*self));
        r
    }
}

/// Tag that contains the pointer to the boot loader's UEFI image handle (32-bit).
#[derive(Clone, Copy, Debug, PartialEq, Eq, Structural)]
pub struct EFIImageHandle32Tag {
    header: TagHeader,
    pointer: u32,
}

impl View for EFIImageHandle32Tag {
    type V = EFIImageHandle32Tag;

    open spec fn view(&self) -> EFIImageHandle32Tag {
        *self
    }
}

impl EFIImageHandle32Tag {
    /// The size of the tag, in bytes.
    pub const BASE_SIZE: u32 = 12;

    /// The tag's header.
    pub closed spec fn spec_header(&self) -> TagHeader {
        self.header
    }

    /// The pointer field.
    pub closed spec fn spec_pointer(&self) -> u32 {
        self.pointer
    }

    /// Constructs a new tag.
    pub fn new(pointer: u32) -> (r: EFIImageHandle32Tag)
        ensures
            EFIImageHandle32Tag::spec_wf(r),
            r.spec_header() == (TagHeader { typ: 19, size: 12 }),
            EFIImageHandle32Tag::spec_bytes(r) == header_bytes(19, 12) + u32_le_bytes(pointer as int),
            r.spec_pointer() == pointer,
    {
        EFIImageHandle32Tag { header: TagHeader::new(TagType::Efi32Ih, 12), pointer }
    }

    /// Returns the physical address of the EFI image handle.
    pub fn image_handle(&self) -> (r: usize)
        ensures
            r == self.spec_pointer() as usize,
    {
        self.pointer as usize
    }

}

impl TagTrait for EFIImageHandle32Tag {
    open spec fn spec_type() -> TagType {
        TagType::Efi32Ih
    }

    closed spec fn spec_from_bytes(b: Seq<u8>) -> Option<EFIImageHandle32Tag> {
        if b.len() >= 12 && tag_typ(b) == 19 {
            Some(EFIImageHandle32Tag { header: TagHeader { typ: tag_typ(b) as u32, size: tag_size(b) as u32 }, pointer: spec_u32_le(b, 8) as u32 })
        } else {
            None
        }
    }

    closed spec fn spec_bytes(v: EFIImageHandle32Tag) -> Seq<u8> {
        header_bytes(v.header.typ, v.header.size)
            + u32_le_bytes(v.pointer as int)
    }

    closed spec fn spec_wf(v: EFIImageHandle32Tag) -> bool {
        v.header.typ == 19 && v.header.size == 12
    }

    proof fn lemma_roundtrip(v: EFIImageHandle32Tag) {
        let b = Self::spec_bytes(v);
        assert(b.subrange(0, 4) =~= u32_le_bytes(v.header.typ as int));
        assert(b.subrange(4, 8) =~= u32_le_bytes(v.header.size as int));
        lemma_u32_le(b, 0, v.header.typ as int);
        lemma_u32_le(b, 4, v.header.size as int);
        assert(b.subrange(8, 12) =~= u32_le_bytes(v.pointer as int));
        lemma_u32_le(b, 8, v.pointer as int);
        assert(Self::spec_from_bytes(b) == Some(v));
    }

    fn id() -> (r: TagType) {
        TagType::Efi32Ih
    }

    fn from_generic(tag: &GenericTag) -> (r: Option<EFIImageHandle32Tag>) {
        let b = tag.as_bytes();
        if b.len() < 12 || tag.typ().val() != 19 {
            return None;
        }
        Some(EFIImageHandle32Tag { header: tag.header(), pointer: read_u32_le(b, 8) })
    }

    fn as_bytes(&self) -> (r: Vec<u8>) {
        let mut r: Vec<u8> = Vec::new();
        push_u32_le(&mut r, self.header.typ);
        push_u32_le(&mut r, self.header.size);
        push_u32_le(&mut r, self.pointer);
        assert(r@ =~= Self::spec_bytes(*self));
        r
    }
}

/// Tag that contains the pointer to the boot loader's UEFI image handle (64-bit).
#[derive(Clone, Copy, Debug, PartialEq, Eq, Structural)]
pub struct EFIImageHandle64Tag {
    header: TagHeader,
    pointer: u64,
}

impl View for EFIImageHandle64Tag {
    type V = EFIImageHandle64Tag;

    open spec fn view(&self) -> EFIImageHandle64Tag {
        *self
    }
}

impl EFIImageHandle64Tag {
    /// The size of the tag, in bytes.
    pub const BASE_SIZE: u32 = 16;

    /// The tag's header.
    pub closed spec fn spec_header(&self) -> TagHeader {
        self.header
    }

    /// The pointer field.
    pub closed spec fn spec_pointer(&self) -> u64 {
        self.pointer
    }

    /// Constructs a new tag.
    pub fn new(pointer: u64) -> (r: EFIImageHandle64Tag)
        ensures
            EFIImageHandle64Tag::spec_wf(r),
            r.spec_header() == (TagHeader { typ: 20, size: 16 }),
            EFIImageHandle64Tag::spec_bytes(r) == header_bytes(20, 16) + u64_le_bytes(pointer as int),
            r.spec_pointer() == pointer,
    {
        EFIImageHandle64Tag { header: TagHeader::new(TagType::Efi64Ih, 16), pointer }
    }

    /// Returns the physical address of the EFI image handle.
    pub fn image_handle(&self) -> (r: usize)
        ensures
            r == self.spec_pointer() as usize,
    {
        self.pointer as usize
    }

}

impl TagTrait for EFIImageHandle64Tag {
    open spec fn spec_type() -> TagType {
        TagType::Efi64Ih
    }

    closed spec fn spec_from_bytes(b: Seq<u8>) -> Option<EFIImageHandle64Tag> {
        if b.len() >= 16 && tag_typ(b) == 20 {
            Some(EFIImageHandle64Tag { header: TagHeader { typ: tag_typ(b) as u32, size: tag_size(b) as u32 }, pointer: spec_u64_le(b, 8) as u64 })
        } else {
            None
        }
    }

    closed spec fn spec_bytes(v: EFIImageHandle64Tag) -> Seq<u8> {
        header_bytes(v.header.typ, v.header.size)
            + u64_le_bytes(v.pointer as int)
    }

    closed spec fn spec_wf(v: EFIImageHandle64Tag) -> bool {
        v.header.typ == 20 && v.header.size == 16
    }

    proof fn lemma_roundtrip(v: EFIImageHandle64Tag) {
        let b = Self::spec_bytes(v);
        assert(b.subrange(0, 4) =~= u32_le_bytes(v.header.typ as int));
        assert(b.subrange(4, 8) =~= u32_le_bytes(v.header.size as int));
        lemma_u32_le(b, 0, v.header.typ as int);
        lemma_u32_le(b, 4, v.header.size as int);
        assert(b.subrange(8, 16) =~= u64_le_bytes(v.pointer as int));
        lemma_u64_le(b, 8, v.pointer as int);
        assert(Self::spec_from_bytes(b) == Some(v));
    }

    fn id() -> (r: TagType) {
        TagType::Efi64Ih
    }

    fn from_generic(tag: &GenericTag) -> (r: Option<EFIImageHandle64Tag>) {
        let b = tag.as_bytes();
        if b.len() < 16 || tag.typ().val() != 20 {
            return None;
        }
        Some(EFIImageHandle64Tag { header: tag.header(), pointer: read_u64_le(b, 8) })
    }

    fn as_bytes(&self) -> (r: Vec<u8>) {
        let mut r: Vec<u8> = Vec::new();
        push_u32_le(&mut r, self.header.typ);
        push_u32_le(&mut r, self.header.size);
        push_u64_le(&mut r, self.pointer);
        assert(r@ =~= Self::spec_bytes(*self));
        r
    }
}

/// EFI ExitBootServices was not called tag. This tag has no payload and is just a marker.
#[derive(Clone, Copy, Debug, PartialEq, Eq, Structural)]
pub struct EFIBootServicesNotExitedTag {
    header: TagHeader,
}

impl View for EFIBootServicesNotExitedTag {
    type V = EFIBootServicesNotExitedTag;

    open spec fn view(&self) -> EFIBootServicesNotExitedTag {
        *self
    }
}

impl EFIBootServicesNotExitedTag {
    /// The size of the tag, in bytes.
    pub const BASE_SIZE: u32 = 8;

    /// The tag's header.
    pub closed spec fn spec_header(&self) -> TagHeader {
        self.header
    }

    /// Constructs a new tag.
    pub fn new() -> (r: EFIBootServicesNotExitedTag)
        ensures
            EFIBootServicesNotExitedTag::spec_wf(r),
            r.spec_header() == (TagHeader { typ: 18, size: 8 }),
            EFIBootServicesNotExitedTag::spec_bytes(r) == header_bytes(18, 8),
    {
        EFIBootServicesNotExitedTag::default()
    }

}

impl Default for EFIBootServicesNotExitedTag {
    fn default() -> (r: EFIBootServicesNotExitedTag)
        ensures
            EFIBootServicesNotExitedTag::spec_wf(r),
            r.spec_header() == (TagHeader { typ: 18, size: 8 }),
            EFIBootServicesNotExitedTag::spec_bytes(r) == header_bytes(18, 8),
    {
        EFIBootServicesNotExitedTag { header: TagHeader::new(TagType::EfiBs, 8) }
    }
}

impl TagTrait for EFIBootServicesNotExitedTag {
    open spec fn spec_type() -> TagType {
        TagType::EfiBs
    }

    closed spec fn spec_from_bytes(b: Seq<u8>) -> Option<EFIBootServicesNotExitedTag> {
        if b.len() >= 8 && tag_typ(b) == 18 {
            Some(EFIBootServicesNotExitedTag { header: TagHeader { typ: tag_typ(b) as u32, size: tag_size(b) as u32 } })
        } else {
            None
        }
    }

    closed spec fn spec_bytes(v: EFIBootServicesNotExitedTag) -> Seq<u8> {
        header_bytes(v.header.typ, v.header.size)
    }

    closed spec fn spec_wf(v: EFIBootServicesNotExitedTag) -> bool {
        v.header.typ == 18 && v.header.size == 8
    }

    proof fn lemma_roundtrip(v: EFIBootServicesNotExitedTag) {
        let b = Self::spec_bytes(v);
        assert(b.subrange(0, 4) =~= u32_le_bytes(v.header.typ as int));
        assert(b.subrange(4, 8) =~= u32_le_bytes(v.header.size as int));
        lemma_u32_le(b, 0, v.header.typ as int);
        lemma_u32_le(b, 4, v.header.size as int);
        assert(Self::spec_from_bytes(b) == Some(v));
    }

    fn id() -> (r: TagType) {
        TagType::EfiBs
    }

    fn from_generic(tag: &GenericTag) -> (r: Option<EFIBootServicesNotExitedTag>) {
        let b = tag.as_bytes();
        if b.len() < 8 || tag.typ().val() != 18 {
            return None;
        }
        Some(EFIBootServicesNotExitedTag { header: tag.header() })
    }

    fn as_bytes(&self) -> (r: Vec<u8>) {
        let mut r: Vec<u8> = Vec::new();
        push_u32_le(&mut r, self.header.typ);
        push_u32_le(&mut r, self.header.size);
        assert(r@ =~= Self::spec_bytes(*self));
        r
    }
}

/// The EFI 32-bit system table tag under its earlier name.
pub type EFISdt32 = EFISdt32Tag;

/// The EFI 64-bit system table tag under its earlier name.
pub type EFISdt64 = EFISdt64Tag;

/// The EFI 32-bit image handle tag under its earlier name.
pub type EFIImageHandle32 = EFIImageHandle32Tag;

/// The EFI 64-bit image handle tag under its earlier name.
pub type EFIImageHandle64 = EFIImageHandle64Tag;

} // verus!
