//! Module for [`ImageLoadPhysAddrTag`].
use crate::bytes::{lemma_u32_le, push_u32_le, read_u32_le, spec_u32_le, u32_le_bytes};
use crate::tag::{header_bytes, tag_size, tag_typ, GenericTag, TagHeader, TagTrait, TagType};
use vstd::prelude::*;

verus! {

/// The physical load address tag. Typically, this is only available if the binary was relocated.
#[derive(Clone, Copy, Debug, PartialEq, Eq, Structural)]
pub struct ImageLoadPhysAddrTag {
    header: TagHeader,
    load_base_addr: u32,
}

impl View for ImageLoadPhysAddrTag {
    type V = ImageLoadPhysAddrTag;

    open spec fn view(&self) -> ImageLoadPhysAddrTag {
        *self
    }
}

impl ImageLoadPhysAddrTag {
    /// The size of the tag, in bytes.
    pub const BASE_SIZE: u32 = 12;

    /// The tag's header.
    pub closed spec fn spec_header(&self) -> TagHeader {
        self.header
    }

    /// The load base address.
    pub closed spec fn spec_load_base_addr(&self) -> u32 {
        self.load_base_addr
    }

    /// Constructs a new tag.
    pub fn new(load_base_addr: u32) -> (r: ImageLoadPhysAddrTag)
        ensures
            ImageLoadPhysAddrTag::spec_wf(r),
            r.spec_header() == (TagHeader { typ: 21, size: 12 }),
            ImageLoadPhysAddrTag::spec_bytes(r) == header_bytes(21, 12) + u32_le_bytes(load_base_addr as int),
            r.spec_load_base_addr() == load_base_addr,
    {
        ImageLoadPhysAddrTag { header: TagHeader::new(TagType::LoadBaseAddr, 12), load_base_addr }
    }

    /// Returns the load base address.
    pub fn load_base_addr(&self) -> (r: u32)
        ensures
            r == self.spec_load_base_addr(),
    {
        self.load_base_addr
    }

}

impl TagTrait for ImageLoadPhysAddrTag {
    open spec fn spec_type() -> TagType {
        TagType::LoadBaseAddr
    }

    closed spec fn spec_from_bytes(b: Seq<u8>) -> Option<ImageLoadPhysAddrTag> {
        if b.len() >= 12 && tag_typ(b) == 21 {
            Some(ImageLoadPhysAddrTag { header: TagHeader { typ: tag_typ(b) as u32, size: tag_size(b) as u32 }, load_base_addr: spec_u32_le(b, 8) as u32 })
        } else {
            None
        }
    }

    closed spec fn spec_bytes(v: ImageLoadPhysAddrTag) -> Seq<u8> {
        header_bytes(v.header.typ, v.header.size)
            + u32_le_bytes(v.load_base_addr as int)
    }

    closed spec fn spec_wf(v: ImageLoadPhysAddrTag) -> bool {
        v.header.typ == 21 && v.header.size == 12
    }

    proof fn lemma_roundtrip(v: ImageLoadPhysAddrTag) {
        let b = Self::spec_bytes(v);
        assert(b.subrange(0, 4) =~= u32_le_bytes(v.header.typ as int));
        assert(b.subrange(4, 8) =~= u32_le_bytes(v.header.size as int));
        lemma_u32_le(b, 0, v.header.typ as int);
        lemma_u32_le(b, 4, v.header.size as int);
        assert(b.subrange(8, 12) =~= u32_le_bytes(v.load_base_addr as int));
        lemma_u32_le(b, 8, v.load_base_addr as int);
        assert(Self::spec_from_bytes(b) == Some(v));
    }

    fn id() -> (r: TagType) {
        TagType::LoadBaseAddr
    }

    fn from_generic(tag: &GenericTag) -> (r: Option<ImageLoadPhysAddrTag>) {
        let b = tag.as_bytes();
        if b.len() < 12 || tag.typ().val() != 21 {
            return None;
        }
        Some(ImageLoadPhysAddrTag { header: tag.header(), load_base_addr: read_u32_le(b, 8) })
    }

    fn as_bytes(&self) -> (r: Vec<u8>) {
        let mut r: Vec<u8> = Vec::new();
        push_u32_le(&mut r, self.header.typ);
        push_u32_le(&mut r, self.header.size);
        push_u32_le(&mut r, self.load_base_addr);
        assert(r@ =~= Self::spec_bytes(*self));
        r
    }
}

/// The image load base physical address tag under its earlier name.
pub type ImageLoadPhysAddr = ImageLoadPhysAddrTag;

} // verus!
