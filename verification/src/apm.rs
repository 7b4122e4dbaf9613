//! Module for [`ApmTag`].
use crate::bytes::{lemma_u16_le, lemma_u32_le, push_u16_le, push_u32_le, push_zeros, read_u16_le, read_u32_le, spec_u16_le, spec_u32_le, u16_le_bytes, u32_le_bytes, zeros};
use crate::tag::{header_bytes, tag_size, tag_typ, GenericTag, TagHeader, TagTrait, TagType};
use vstd::prelude::*;

verus! {

/// The Advanced Power Management (APM) tag.
#[derive(Clone, Copy, Debug, PartialEq, Eq, Structural)]
pub struct ApmTag {
    header: TagHeader,
    version: u16,
    cseg: u16,
    offset: u32,
    cset_16: u16,
    dseg: u16,
    flags: u16,
    cseg_len: u16,
    cseg_16_len: u16,
    dseg_len: u16,
}

impl View for ApmTag {
    type V = ApmTag;

    open spec fn view(&self) -> ApmTag {
        *self
    }
}

impl ApmTag {
    /// The size of the tag, in bytes.
    pub const BASE_SIZE: u32 = 32;

    /// The tag's header.
    pub closed spec fn spec_header(&self) -> TagHeader {
        self.header
    }

    /// APM version.
    pub closed spec fn spec_version(&self) -> u16 {
        self.version
    }

    /// Code segment.
    pub closed spec fn spec_cseg(&self) -> u16 {
        self.cseg
    }

    /// Entry point offset.
    pub closed spec fn spec_offset(&self) -> u32 {
        self.offset
    }

    /// 16-bit code segment.
    pub closed spec fn spec_cset_16(&self) -> u16 {
        self.cset_16
    }

    /// Data segment.
    pub closed spec fn spec_dseg(&self) -> u16 {
        self.dseg
    }

    /// Flags.
    pub closed spec fn spec_flags(&self) -> u16 {
        self.flags
    }

    /// Code segment length.
    pub closed spec fn spec_cseg_len(&self) -> u16 {
        self.cseg_len
    }

    /// 16-bit code segment length.
    pub closed spec fn spec_cseg_16_len(&self) -> u16 {
        self.cseg_16_len
    }

    /// Data segment length.
    pub closed spec fn spec_dseg_len(&self) -> u16 {
        self.dseg_len
    }

    /// Creates a new tag.
    pub fn new(version: u16, cseg: u16, offset: u32, cset_16: u16, dseg: u16, flags: u16, cseg_len: u16, cseg_16_len: u16, dseg_len: u16) -> (r: ApmTag)
        ensures
            ApmTag::spec_wf(r),
            r.spec_header() == (TagHeader { typ: 10, size: 32 }),
            ApmTag::spec_bytes(r).len() == 32,
            ApmTag::spec_bytes(r) == header_bytes(10, 32) + u16_le_bytes(version as int) + u16_le_bytes(
                cseg as int,
            ) + u32_le_bytes(offset as int) + u16_le_bytes(cset_16 as int) + u16_le_bytes(dseg as int)
                + u16_le_bytes(flags as int) + u16_le_bytes(cseg_len as int) + u16_le_bytes(
                cseg_16_len as int,
            ) + u16_le_bytes(dseg_len as int) + zeros(4),
            r.spec_version() == version,
            r.spec_cseg() == cseg,
            r.spec_offset() == offset,
            r.spec_cset_16() == cset_16,
            r.spec_dseg() == dseg,
            r.spec_flags() == flags,
            r.spec_cseg_len() == cseg_len,
            r.spec_cseg_16_len() == cseg_16_len,
            r.spec_dseg_len() == dseg_len,
    {
        ApmTag { header: TagHeader::new(TagType::Apm, 32), version, cseg, offset, cset_16, dseg, flags, cseg_len, cseg_16_len, dseg_len }
    }

    /// The version number of the APM BIOS.
    pub fn version(&self) -> (r: u16)
        ensures
            r == self.spec_version(),
    {
        self.version
    }

    /// The 16-bit code segment (CS) address for the APM entry point.
    pub fn cseg(&self) -> (r: u16)
        ensures
            r == self.spec_cseg(),
    {
        self.cseg
    }

    /// The offset within the code segment for the APM entry point.
    pub fn offset(&self) -> (r: u32)
        ensures
            r == self.spec_offset(),
    {
        self.offset
    }

    /// The 16-bit code segment used for 16-bit protected mode APM functions.
    pub fn cset_16(&self) -> (r: u16)
        ensures
            r == self.spec_cset_16(),
    {
        self.cset_16
    }

    /// The 16-bit data segment used by the APM BIOS.
    pub fn dseg(&self) -> (r: u16)
        ensures
            r == self.spec_dseg(),
    {
        self.dseg
    }

    /// The status and characteristics of the APM connection.
    pub fn flags(&self) -> (r: u16)
        ensures
            r == self.spec_flags(),
    {
        self.flags
    }

    /// The length, in bytes, of the code segment.
    pub fn cseg_len(&self) -> (r: u16)
        ensures
            r == self.spec_cseg_len(),
    {
        self.cseg_len
    }

    /// The length, in bytes, of the 16-bit code segment.
    pub fn cseg_16_len(&self) -> (r: u16)
        ensures
            r == self.spec_cseg_16_len(),
    {
        self.cseg_16_len
    }

    /// The length, in bytes, of the data segment.
    pub fn dseg_len(&self) -> (r: u16)
        ensures
            r == self.spec_dseg_len(),
    {
        self.dseg_len
    }

}

impl TagTrait for ApmTag {
    open spec fn spec_type() -> TagType {
        TagType::Apm
    }

    closed spec fn spec_from_bytes(b: Seq<u8>) -> Option<ApmTag> {
        if b.len() >= 32 && tag_typ(b) == 10 {
            Some(ApmTag { header: TagHeader { typ: tag_typ(b) as u32, size: tag_size(b) as u32 }, version: spec_u16_le(b, 8) as u16, cseg: spec_u16_le(b, 10) as u16, offset: spec_u32_le(b, 12) as u32, cset_16: spec_u16_le(b, 16) as u16, dseg: spec_u16_le(b, 18) as u16, flags: spec_u16_le(b, 20) as u16, cseg_len: spec_u16_le(b, 22) as u16, cseg_16_len: spec_u16_le(b, 24) as u16, dseg_len: spec_u16_le(b, 26) as u16 })
        } else {
            None
        }
    }

    closed spec fn spec_bytes(v: ApmTag) -> Seq<u8> {
        header_bytes(v.header.typ, v.header.size)
            + u16_le_bytes(v.version as int)
            + u16_le_bytes(v.cseg as int)
            + u32_le_bytes(v.offset as int)
            + u16_le_bytes(v.cset_16 as int)
            + u16_le_bytes(v.dseg as int)
            + u16_le_bytes(v.flags as int)
            + u16_le_bytes(v.cseg_len as int)
            + u16_le_bytes(v.cseg_16_len as int)
            + u16_le_bytes(v.dseg_len as int)
            + zeros(4)
    }

    closed spec fn spec_wf(v: ApmTag) -> bool {
        v.header.typ == 10 && v.header.size == 32
    }

    proof fn lemma_roundtrip(v: ApmTag) {
        let b = Self::spec_bytes(v);
        assert(b.subrange(0, 4) =~= u32_le_bytes(v.header.typ as int));
        assert(b.subrange(4, 8) =~= u32_le_bytes(v.header.size as int));
        lemma_u32_le(b, 0, v.header.typ as int);
        lemma_u32_le(b, 4, v.header.size as int);
        assert(b.subrange(8, 10) =~= u16_le_bytes(v.version as int));
        lemma_u16_le(b, 8, v.version as int);
        assert(b.subrange(10, 12) =~= u16_le_bytes(v.cseg as int));
        lemma_u16_le(b, 10, v.cseg as int);
        assert(b.subrange(12, 16) =~= u32_le_bytes(v.offset as int));
        lemma_u32_le(b, 12, v.offset as int);
        assert(b.subrange(16, 18) =~= u16_le_bytes(v.cset_16 as int));
        lemma_u16_le(b, 16, v.cset_16 as int);
        assert(b.subrange(18, 20) =~= u16_le_bytes(v.dseg as int));
        lemma_u16_le(b, 18, v.dseg as int);
        assert(b.subrange(20, 22) =~= u16_le_bytes(v.flags as int));
        lemma_u16_le(b, 20, v.flags as int);
        assert(b.subrange(22, 24) =~= u16_le_bytes(v.cseg_len as int));
        lemma_u16_le(b, 22, v.cseg_len as int);
        assert(b.subrange(24, 26) =~= u16_le_bytes(v.cseg_16_len as int));
        lemma_u16_le(b, 24, v.cseg_16_len as int);
        assert(b.subrange(26, 28) =~= u16_le_bytes(v.dseg_len as int));
        lemma_u16_le(b, 26, v.dseg_len as int);
        assert(Self::spec_from_bytes(b) == Some(v));
    }

    fn id() -> (r: TagType) {
        TagType::Apm
    }

    fn from_generic(tag: &GenericTag) -> (r: Option<ApmTag>) {
        let b = tag.as_bytes();
        if b.len() < 32 || tag.typ().val() != 10 {
            return None;
        }
        Some(ApmTag { header: tag.header(), version: read_u16_le(b, 8), cseg: read_u16_le(b, 10), offset: read_u32_le(b, 12), cset_16: read_u16_le(b, 16), dseg: read_u16_le(b, 18), flags: read_u16_le(b, 20), cseg_len: read_u16_le(b, 22), cseg_16_len: read_u16_le(b, 24), dseg_len: read_u16_le(b, 26) })
    }

    fn as_bytes(&self) -> (r: Vec<u8>) {
        let mut r: Vec<u8> = Vec::new();
        push_u32_le(&mut r, self.header.typ);
        push_u32_le(&mut r, self.header.size);
        push_u16_le(&mut r, self.version);
        push_u16_le(&mut r, self.cseg);
        push_u32_le(&mut r, self.offset);
        push_u16_le(&mut r, self.cset_16);
        push_u16_le(&mut r, self.dseg);
        push_u16_le(&mut r, self.flags);
        push_u16_le(&mut r, self.cseg_len);
        push_u16_le(&mut r, self.cseg_16_len);
        push_u16_le(&mut r, self.dseg_len);
        push_zeros(&mut r, 4);
        assert(r@ =~= Self::spec_bytes(*self));
        r
    }
}

} // verus!
