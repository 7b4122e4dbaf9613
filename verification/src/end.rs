//! Module for [`EndTag`].
use crate::bytes::{lemma_u32_le, push_u32_le, u32_le_bytes};
use crate::tag::{header_bytes, tag_size, tag_typ, GenericTag, TagHeader, TagTrait, TagType};
use vstd::prelude::*;

verus! {

/// The end tag ends the information struct.
#[derive(Clone, Copy, Debug, PartialEq, Eq, Structural)]
pub struct EndTag {
    header: TagHeader,
}

impl View for EndTag {
    type V = EndTag;

    open spec fn view(&self) -> EndTag {
        *self
    }
}

impl EndTag {
    /// The size of the tag, in bytes.
    pub const BASE_SIZE: u32 = 8;

    /// The tag's header.
    pub closed spec fn spec_header(&self) -> TagHeader {
        self.header
    }
}

impl Default for EndTag {
    /// Creates the end tag.
    fn default() -> (r: EndTag)
        ensures
            EndTag::spec_wf(r),
            r.spec_header() == (TagHeader { typ: 0, size: 8 }),
            EndTag::spec_bytes(r) == header_bytes(0, 8),
    {
        EndTag { header: TagHeader::new(TagType::End, 8) }
    }
}

impl TagTrait for EndTag {
    open spec fn spec_type() -> TagType {
        TagType::End
    }

    closed spec fn spec_from_bytes(b: Seq<u8>) -> Option<EndTag> {
        if b.len() >= 8 && tag_typ(b) == 0 {
            Some(EndTag { header: TagHeader { typ: tag_typ(b) as u32, size: tag_size(b) as u32 } })
        } else {
            None
        }
    }

    closed spec fn spec_bytes(v: EndTag) -> Seq<u8> {
        header_bytes(v.header.typ, v.header.size)
    }

    closed spec fn spec_wf(v: EndTag) -> bool {
        v.header.typ == 0 && v.header.size == 8
    }

    proof fn lemma_roundtrip(v: EndTag) {
        let b = Self::spec_bytes(v);
        assert(b.subrange(0, 4) =~= u32_le_bytes(v.header.typ as int));
        assert(b.subrange(4, 8) =~= u32_le_bytes(v.header.size as int));
        lemma_u32_le(b, 0, v.header.typ as int);
        lemma_u32_le(b, 4, v.header.size as int);
        assert(Self::spec_from_bytes(b) == Some(v));
    }

    fn id() -> (r: TagType) {
        TagType::End
    }

    fn from_generic(tag: &GenericTag) -> (r: Option<EndTag>) {
        let b = tag.as_bytes();
        if b.len() < 8 || tag.typ().val() != 0 {
            return None;
        }
        Some(EndTag { header: tag.header() })
    }

    fn as_bytes(&self) -> (r: Vec<u8>) {
        let mut r: Vec<u8> = Vec::new();
        push_u32_le(&mut r, self.header.typ);
        push_u32_le(&mut r, self.header.size);
        assert(r@ =~= Self::spec_bytes(*self));
        r
    }
}

} // verus!
