//! Module for [`NetworkTag`].
use crate::bytes::copy_range;
use crate::tag::{
    lemma_tag_with_payload, new_tag_bytes, tag_bytes_wf, tag_typ, tag_with_payload, GenericTag,
    TagTrait, TagType,
};
use vstd::prelude::*;

verus! {

/// Contains network information in the form of a DHCP packet.
#[derive(Clone, Debug)]
pub struct NetworkTag {
    bytes: Vec<u8>,
}

impl View for NetworkTag {
    type V = Seq<u8>;

    closed spec fn view(&self) -> Seq<u8> {
        self.bytes@
    }
}

/// The bytes `b` hold a tag of this type.
pub open spec fn network_tag_wf(b: Seq<u8>) -> bool {
    tag_bytes_wf(b) && tag_typ(b) == 16 && b.len() >= 8
}

impl NetworkTag {
    /// The bytes hold a tag of this type.
    pub open spec fn wf(&self) -> bool {
        network_tag_wf(self@)
    }

    /// Create a new network tag from the given DHCP package.
    pub fn new(dhcp_pack: &[u8]) -> (r: NetworkTag)
        requires
            8 + dhcp_pack@.len() <= u32::MAX,
        ensures
            r@ == tag_with_payload(16, dhcp_pack@),
            r.wf(),
            r@.subrange(8, r@.len() as int) == dhcp_pack@,
    {
        let bytes = new_tag_bytes(TagType::Network, dhcp_pack);
        proof {
            lemma_tag_with_payload(16, dhcp_pack@);
        }
        NetworkTag { bytes }
    }
}

impl TagTrait for NetworkTag {
    open spec fn spec_type() -> TagType {
        TagType::Network
    }

    open spec fn spec_from_bytes(b: Seq<u8>) -> Option<Seq<u8>> {
        if network_tag_wf(b) {
            Some(b)
        } else {
            None
        }
    }

    open spec fn spec_bytes(v: Seq<u8>) -> Seq<u8> {
        v
    }

    open spec fn spec_wf(v: Seq<u8>) -> bool {
        network_tag_wf(v)
    }

    proof fn lemma_roundtrip(v: Seq<u8>) {
    }

    fn id() -> (r: TagType) {
        TagType::Network
    }

    fn from_generic(tag: &GenericTag) -> (r: Option<NetworkTag>) {
        let b = tag.as_bytes();
        if tag.typ().val() == 16 && b.len() >= 8 {
            Some(NetworkTag { bytes: copy_range(b, 0, b.len()) })
        } else {
            None
        }
    }

    fn as_bytes(&self) -> (r: Vec<u8>) {
        copy_range(self.bytes.as_slice(), 0, self.bytes.len())
    }
}

} // verus!
