//! Module for [`BootdevTag`].
use crate::bytes::{lemma_u32_le, push_u32_le, read_u32_le, spec_u32_le, u32_le_bytes};
use crate::tag::{header_bytes, tag_size, tag_typ, GenericTag, TagHeader, TagTrait, TagType};
use vstd::prelude::*;

verus! {

/// Identifies the BIOS device and partition that supplied the OS image.
#[derive(Clone, Copy, Debug, PartialEq, Eq, Structural)]
pub struct BootdevTag {
    header: TagHeader,
    biosdev: u32,
    slice: u32,
    part: u32,
}

impl View for BootdevTag {
    type V = BootdevTag;

    open spec fn view(&self) -> BootdevTag {
        *self
    }
}

impl BootdevTag {
    /// The size of the tag, in bytes.
    pub const BASE_SIZE: u32 = 20;

    /// The tag's header.
    pub closed spec fn spec_header(&self) -> TagHeader {
        self.header
    }

    /// The BIOS device.
    pub closed spec fn spec_biosdev(&self) -> u32 {
        self.biosdev
    }

    /// The slice.
    pub closed spec fn spec_slice(&self) -> u32 {
        self.slice
    }

    /// The sub-partition.
    pub closed spec fn spec_part(&self) -> u32 {
        self.part
    }

    /// Creates a new tag.
    pub fn new(biosdev: u32, slice: u32, part: u32) -> (r: BootdevTag)
        ensures
            BootdevTag::spec_wf(r),
            r.spec_header() == (TagHeader { typ: 5, size: 20 }),
            BootdevTag::spec_bytes(r) == header_bytes(5, 20) + u32_le_bytes(biosdev as int) + u32_le_bytes(
                slice as int,
            ) + u32_le_bytes(part as int),
            r.spec_biosdev() == biosdev,
            r.spec_slice() == slice,
            r.spec_part() == part,
    {
        BootdevTag { header: TagHeader::new(TagType::Bootdev, 20), biosdev, slice, part }
    }

    /// Returns the bios device from which the device was booted from.
    pub fn biosdev(&self) -> (r: u32)
        ensures
            r == self.spec_biosdev(),
    {
        self.biosdev
    }

    /// The partition on the BIOS device from which the operating system was booted.
    pub fn slice(&self) -> (r: u32)
        ensures
            r == self.spec_slice(),
    {
        self.slice
    }

    /// The subpartition within the primary partition.
    pub fn part(&self) -> (r: u32)
        ensures
            r == self.spec_part(),
    {
        self.part
    }

}

impl TagTrait for BootdevTag {
    open spec fn spec_type() -> TagType {
        TagType::Bootdev
    }

    closed spec fn spec_from_bytes(b: Seq<u8>) -> Option<BootdevTag> {
        if b.len() >= 20 && tag_typ(b) == 5 {
            Some(BootdevTag { header: TagHeader { typ: tag_typ(b) as u32, size: tag_size(b) as u32 }, biosdev: spec_u32_le(b, 8) as u32, slice: spec_u32_le(b, 12) as u32, part: spec_u32_le(b, 16) as u32 })
        } else {
            None
        }
    }

    closed spec fn spec_bytes(v: BootdevTag) -> Seq<u8> {
        header_bytes(v.header.typ, v.header.size)
            + u32_le_bytes(v.biosdev as int)
            + u32_le_bytes(v.slice as int)
            + u32_le_bytes(v.part as int)
    }

    closed spec fn spec_wf(v: BootdevTag) -> bool {
        v.header.typ == 5 && v.header.size == 20
    }

    proof fn lemma_roundtrip(v: BootdevTag) {
        let b = Self::spec_bytes(v);
        assert(b.subrange(0, 4) =~= u32_le_bytes(v.header.typ as int));
        assert(b.subrange(4, 8) =~= u32_le_bytes(v.header.size as int));
        lemma_u32_le(b, 0, v.header.typ as int);
        lemma_u32_le(b, 4, v.header.size as int);
        assert(b.subrange(8, 12) =~= u32_le_bytes(v.biosdev as int));
        lemma_u32_le(b, 8, v.biosdev as int);
        assert(b.subrange(12, 16) =~= u32_le_bytes(v.slice as int));
        lemma_u32_le(b, 12, v.slice as int);
        assert(b.subrange(16, 20) =~= u32_le_bytes(v.part as int));
        lemma_u32_le(b, 16, v.part as int);
        assert(Self::spec_from_bytes(b) == Some(v));
    }

    fn id() -> (r: TagType) {
        TagType::Bootdev
    }

    fn from_generic(tag: &GenericTag) -> (r: Option<BootdevTag>) {
        let b = tag.as_bytes();
        if b.len() < 20 || tag.typ().val() != 5 {
            return None;
        }
        Some(BootdevTag { header: tag.header(), biosdev: read_u32_le(b, 8), slice: read_u32_le(b, 12), part: read_u32_le(b, 16) })
    }

    fn as_bytes(&self) -> (r: Vec<u8>) {
        let mut r: Vec<u8> = Vec::new();
        push_u32_le(&mut r, self.header.typ);
        push_u32_le(&mut r, self.header.size);
        push_u32_le(&mut r, self.biosdev);
        push_u32_le(&mut r, self.slice);
        push_u32_le(&mut r, self.part);
        assert(r@ =~= Self::spec_bytes(*self));
        r
    }
}

} // verus!
