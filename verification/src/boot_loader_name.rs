//! Module for [`BootLoaderNameTag`].
use crate::bytes::copy_range;
use crate::tag::{lemma_tag_with_payload, new_tag_bytes, tag_bytes_wf, tag_typ, tag_with_payload, GenericTag, TagTrait, TagType};
use crate::util::{chars_until_nul, has_nul_char, lemma_chars_until_nul_whole, lemma_one_nul, lemma_parse_nul_terminated, nul_terminated, nul_terminated_bytes, parse_slice_as_string, spec_parse_string, StringError};
use vstd::prelude::*;
use vstd::utf8::encode_utf8;

verus! {

/// The bootloader name tag.
#[derive(Clone, Debug)]
pub struct BootLoaderNameTag {
    bytes: Vec<u8>,
}

impl View for BootLoaderNameTag {
    type V = Seq<u8>;

    closed spec fn view(&self) -> Seq<u8> {
        self.bytes@
    }
}

/// The bytes `b` hold a tag of this type.
pub open spec fn boot_loader_name_tag_wf(b: Seq<u8>) -> bool {
    tag_bytes_wf(b) && tag_typ(b) == 2 && b.len() >= 8
}

impl BootLoaderNameTag {
    /// The bytes hold a tag of this type.
    pub open spec fn wf(&self) -> bool {
        boot_loader_name_tag_wf(self@)
    }

    /// Constructs a new tag.
    pub fn new(name: &str) -> (r: BootLoaderNameTag)
        requires
            encode_utf8(name@).len() + 9 <= u32::MAX,
        ensures
            r@ == tag_with_payload(2, nul_terminated(name@)),
            r.wf(),
            spec_parse_string(r@.subrange(8, r@.len() as int)) == Ok::<Seq<char>, StringError>(
                chars_until_nul(name@),
            ),
            !has_nul_char(name@) ==> spec_parse_string(r@.subrange(8, r@.len() as int)) == Ok::<
                Seq<char>,
                StringError,
            >(name@) && r@.len() == 8 + encode_utf8(name@).len() + 1,
            name@.len() > 0 && name@.last() == '\0' && !has_nul_char(name@.drop_last()) ==> spec_parse_string(
                r@.subrange(8, r@.len() as int),
            ) == Ok::<Seq<char>, StringError>(name@.drop_last()) && r@.len() == 8 + encode_utf8(
                name@.drop_last(),
            ).len() + 1,
    {
        let payload = nul_terminated_bytes(name);
        let bytes = new_tag_bytes(TagType::BootLoaderName, payload.as_slice());
        proof {
            lemma_boot_loader_name_roundtrip(name@);
            if !has_nul_char(name@) {
                lemma_chars_until_nul_whole(name@);
                lemma_one_nul(name@);
            }
            if name@.len() > 0 && name@.last() == '\0' && !has_nul_char(name@.drop_last()) {
                assert(name@ =~= name@.drop_last().push('\0'));
                lemma_one_nul(name@.drop_last());
            }
        }
        BootLoaderNameTag { bytes }
    }

    /// Returns the underlying [`TagType`].
    pub fn typ(&self) -> (r: TagType)
        requires
            self.wf(),
        ensures
            r == TagType::BootLoaderName,
    {
        TagType::BootLoaderName
    }

    /// Returns the underlying tag size.
    pub fn size(&self) -> (r: usize)
        requires
            self.wf(),
        ensures
            r == self@.len(),
    {
        self.bytes.len()
    }

    /// Reads the name of the bootloader that is booting the kernel as Rust
    /// string without the null-byte.
    pub fn name(&self) -> (r: Result<String, StringError>)
        requires
            self.wf(),
        ensures
            r matches Ok(s) ==> spec_parse_string(self@.subrange(8, self@.len() as int))
                == Ok::<Seq<char>, StringError>(s@),
            r matches Err(e) ==> spec_parse_string(self@.subrange(8, self@.len() as int))
                == Err::<Seq<char>, StringError>(e),
    {
        let payload = copy_range(self.bytes.as_slice(), 8, self.bytes.len());
        parse_slice_as_string(payload.as_slice())
    }

}

impl TagTrait for BootLoaderNameTag {
    open spec fn spec_type() -> TagType {
        TagType::BootLoaderName
    }

    open spec fn spec_from_bytes(b: Seq<u8>) -> Option<Seq<u8>> {
        if boot_loader_name_tag_wf(b) {
            Some(b)
        } else {
            None
        }
    }

    open spec fn spec_bytes(v: Seq<u8>) -> Seq<u8> {
        v
    }

    open spec fn spec_wf(v: Seq<u8>) -> bool {
        boot_loader_name_tag_wf(v)
    }

    proof fn lemma_roundtrip(v: Seq<u8>) {
    }

    fn id() -> (r: TagType) {
        TagType::BootLoaderName
    }

    fn from_generic(tag: &GenericTag) -> (r: Option<BootLoaderNameTag>) {
        let b = tag.as_bytes();
        if tag.typ().val() == 2 && b.len() >= 8 && boot_loader_name_tag_check(b) {
            Some(BootLoaderNameTag { bytes: copy_range(b, 0, b.len()) })
        } else {
            None
        }
    }

    fn as_bytes(&self) -> (r: Vec<u8>) {
        copy_range(self.bytes.as_slice(), 0, self.bytes.len())
    }
}

/// The name that a new tag is built with is the one it gives back, up to its
/// first NUL character.
pub proof fn lemma_boot_loader_name_roundtrip(s: Seq<char>)
    requires
        encode_utf8(s).len() + 9 <= u32::MAX,
    ensures
        ({
            let b = tag_with_payload(2, nul_terminated(s));
            spec_parse_string(b.subrange(8, b.len() as int)) == Ok::<Seq<char>, StringError>(
                chars_until_nul(s),
            )
        }),
{
    lemma_tag_with_payload(2, nul_terminated(s));
    lemma_parse_nul_terminated(s);
}

/// Every tag of the right type and size is a boot loader name tag.
fn boot_loader_name_tag_check(b: &[u8]) -> (r: bool)
    ensures
        r,
{
    true
}

} // verus!
