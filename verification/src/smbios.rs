//! Module for [`SmbiosTag`].
use crate::bytes::{copy_range, push_bytes, push_zeros, zeros};
use crate::tag::{
    lemma_tag_with_payload, new_tag_bytes, tag_bytes_wf, tag_typ, tag_with_payload, GenericTag,
    TagTrait, TagType,
};
use vstd::prelude::*;

verus! {

/// This tag contains a copy of SMBIOS tables as well as their version.
#[derive(Clone, Debug)]
pub struct SmbiosTag {
    bytes: Vec<u8>,
}

impl View for SmbiosTag {
    type V = Seq<u8>;

    closed spec fn view(&self) -> Seq<u8> {
        self.bytes@
    }
}

/// The bytes `b` hold a tag of this type.
pub open spec fn smbios_tag_wf(b: Seq<u8>) -> bool {
    tag_bytes_wf(b) && tag_typ(b) == 13 && b.len() >= 16
}

impl SmbiosTag {
    /// The bytes hold a tag of this type.
    pub open spec fn wf(&self) -> bool {
        smbios_tag_wf(self@)
    }

    /// Returns the major number.
    pub fn major(&self) -> (r: u8)
        requires
            self.wf(),
        ensures
            r == self@[8],
    {
        self.bytes[8]
    }

    /// Returns the minor number.
    pub fn minor(&self) -> (r: u8)
        requires
            self.wf(),
        ensures
            r == self@[9],
    {
        self.bytes[9]
    }

    /// The size of the fixed part of the tag, in bytes.
    pub const BASE_SIZE: u32 = 16;

    /// Constructs a new tag.
    pub fn new(major: u8, minor: u8, tables: &[u8]) -> (r: SmbiosTag)
        requires
            16 + tables@.len() <= u32::MAX,
        ensures
            r@ == tag_with_payload(13, seq![major, minor] + zeros(6) + tables@),
            r.wf(),
            r@[8] == major,
            r@[9] == minor,
            r@.subrange(16, r@.len() as int) == tables@,
    {
        let mut payload: Vec<u8> = Vec::new();
        payload.push(major);
        payload.push(minor);
        push_zeros(&mut payload, 6);
        push_bytes(&mut payload, tables);
        let bytes = new_tag_bytes(TagType::Smbios, payload.as_slice());
        proof {
            let p = seq![major, minor] + zeros(6) + tables@;
            assert(payload@ =~= p);
            lemma_tag_with_payload(13, p);
            assert(bytes@.subrange(16, bytes@.len() as int) =~= tables@);
        }
        SmbiosTag { bytes }
    }

    /// Returns the raw tables.
    pub fn tables(&self) -> (r: Vec<u8>)
        requires
            self.wf(),
        ensures
            r@ == self@.subrange(16, self@.len() as int),
    {
        copy_range(self.bytes.as_slice(), 16, self.bytes.len())
    }

}

impl TagTrait for SmbiosTag {
    open spec fn spec_type() -> TagType {
        TagType::Smbios
    }

    open spec fn spec_from_bytes(b: Seq<u8>) -> Option<Seq<u8>> {
        if smbios_tag_wf(b) {
            Some(b)
        } else {
            None
        }
    }

    open spec fn spec_bytes(v: Seq<u8>) -> Seq<u8> {
        v
    }

    open spec fn spec_wf(v: Seq<u8>) -> bool {
        smbios_tag_wf(v)
    }

    proof fn lemma_roundtrip(v: Seq<u8>) {
    }

    fn id() -> (r: TagType) {
        TagType::Smbios
    }

    fn from_generic(tag: &GenericTag) -> (r: Option<SmbiosTag>) {
        let b = tag.as_bytes();
        if tag.typ().val() == 13 && b.len() >= 16 {
            Some(SmbiosTag { bytes: copy_range(b, 0, b.len()) })
        } else {
            None
        }
    }

    fn as_bytes(&self) -> (r: Vec<u8>) {
        copy_range(self.bytes.as_slice(), 0, self.bytes.len())
    }
}

} // verus!
