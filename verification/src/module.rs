//! Module for [`ModuleTag`].
use crate::bytes::{copy_range, push_u32_le, read_u32_le, spec_u32_le, u32_le_bytes, lemma_u32_le};
use crate::tag::{lemma_tag_with_payload, new_tag_bytes, tag_bytes_wf, tag_typ, tag_with_payload, GenericTag, TagIter, TagTrait, TagType};
use crate::util::{chars_until_nul, has_nul_char, lemma_chars_until_nul_whole, lemma_one_nul, lemma_parse_nul_terminated, nul_terminated, nul_terminated_bytes, parse_slice_as_string, spec_parse_string, StringError};
use vstd::prelude::*;
use vstd::utf8::encode_utf8;

verus! {

/// The payload of a module tag: start, end, and the NUL-terminated command
/// line.
pub open spec fn module_payload(start: u32, end: u32, cmdline: Seq<char>) -> Seq<u8> {
    u32_le_bytes(start as int) + u32_le_bytes(end as int) + nul_terminated(cmdline)
}

/// The module tag can occur multiple times and specifies passed boot modules (blobs in memory). The tag itself does not include the blob, but references its location.
#[derive(Clone, Debug)]
pub struct ModuleTag {
    bytes: Vec<u8>,
}

impl View for ModuleTag {
    type V = Seq<u8>;

    closed spec fn view(&self) -> Seq<u8> {
        self.bytes@
    }
}

/// The bytes `b` hold a tag of this type.
pub open spec fn module_tag_wf(b: Seq<u8>) -> bool {
    tag_bytes_wf(b) && tag_typ(b) == 3 && b.len() >= 16
}

impl ModuleTag {
    /// The bytes hold a tag of this type.
    pub open spec fn wf(&self) -> bool {
        module_tag_wf(self@)
    }

    /// Start address of the module.
    pub fn start_address(&self) -> (r: u32)
        requires
            self.wf(),
        ensures
            r == spec_u32_le(self@, 8),
    {
        read_u32_le(self.bytes.as_slice(), 8)
    }

    /// End address of the module.
    pub fn end_address(&self) -> (r: u32)
        requires
            self.wf(),
        ensures
            r == spec_u32_le(self@, 12),
    {
        read_u32_le(self.bytes.as_slice(), 12)
    }

    /// Constructs a new tag.
    pub fn new(start: u32, end: u32, cmdline: &str) -> (r: ModuleTag)
        requires
            end > start,
            encode_utf8(cmdline@).len() + 17 <= u32::MAX,
        ensures
            r@ == tag_with_payload(3, module_payload(start, end, cmdline@)),
            r.wf(),
            r.spec_start_address() == start,
            r.spec_end_address() == end,
            spec_parse_string(r@.subrange(16, r@.len() as int)) == Ok::<Seq<char>, StringError>(
                chars_until_nul(cmdline@),
            ),
            !has_nul_char(cmdline@) ==> spec_parse_string(r@.subrange(16, r@.len() as int)) == Ok::<
                Seq<char>,
                StringError,
            >(cmdline@) && r@.len() == 16 + encode_utf8(cmdline@).len() + 1,
            cmdline@.len() > 0 && cmdline@.last() == '\0' && !has_nul_char(cmdline@.drop_last()) ==> spec_parse_string(
                r@.subrange(16, r@.len() as int),
            ) == Ok::<Seq<char>, StringError>(cmdline@.drop_last()) && r@.len() == 16 + encode_utf8(
                cmdline@.drop_last(),
            ).len() + 1,
    {
        let mut payload: Vec<u8> = Vec::new();
        push_u32_le(&mut payload, start);
        push_u32_le(&mut payload, end);
        let s = nul_terminated_bytes(cmdline);
        crate::bytes::push_bytes(&mut payload, s.as_slice());
        let bytes = new_tag_bytes(TagType::Module, payload.as_slice());
        let r = ModuleTag { bytes };
        proof {
            let p = module_payload(start, end, cmdline@);
            lemma_tag_with_payload(3, p);
            let b = r@;
            assert(b.subrange(8, 12) =~= u32_le_bytes(start as int));
            assert(b.subrange(12, 16) =~= u32_le_bytes(end as int));
            lemma_u32_le(b, 8, start as int);
            lemma_u32_le(b, 12, end as int);
            lemma_module_cmdline_roundtrip(start, end, cmdline@);
            if !has_nul_char(cmdline@) {
                lemma_chars_until_nul_whole(cmdline@);
                lemma_one_nul(cmdline@);
            }
            if cmdline@.len() > 0 && cmdline@.last() == '\0' && !has_nul_char(cmdline@.drop_last()) {
                assert(cmdline@ =~= cmdline@.drop_last().push('\0'));
                lemma_one_nul(cmdline@.drop_last());
            }
        }
        r
    }

    /// The start address, as a spec value.
    pub open spec fn spec_start_address(&self) -> int {
        spec_u32_le(self@, 8)
    }

    /// The end address, as a spec value.
    pub open spec fn spec_end_address(&self) -> int {
        spec_u32_le(self@, 12)
    }

    /// Reads the command line of the boot module as Rust string without the
    /// null-byte.
    pub fn cmdline(&self) -> (r: Result<String, StringError>)
        requires
            self.wf(),
        ensures
            r matches Ok(s) ==> spec_parse_string(self@.subrange(16, self@.len() as int))
                == Ok::<Seq<char>, StringError>(s@),
            r matches Err(e) ==> spec_parse_string(self@.subrange(16, self@.len() as int))
                == Err::<Seq<char>, StringError>(e),
    {
        let payload = copy_range(self.bytes.as_slice(), 16, self.bytes.len());
        parse_slice_as_string(payload.as_slice())
    }

    /// The size of the module/the BLOB in memory.
    pub fn module_size(&self) -> (r: u32)
        requires
            self.wf(),
            self.spec_end_address() >= self.spec_start_address(),
        ensures
            r == self.spec_end_address() - self.spec_start_address(),
    {
        self.end_address() - self.start_address()
    }

}

impl TagTrait for ModuleTag {
    open spec fn spec_type() -> TagType {
        TagType::Module
    }

    open spec fn spec_from_bytes(b: Seq<u8>) -> Option<Seq<u8>> {
        if module_tag_wf(b) {
            Some(b)
        } else {
            None
        }
    }

    open spec fn spec_bytes(v: Seq<u8>) -> Seq<u8> {
        v
    }

    open spec fn spec_wf(v: Seq<u8>) -> bool {
        module_tag_wf(v)
    }

    proof fn lemma_roundtrip(v: Seq<u8>) {
    }

    fn id() -> (r: TagType) {
        TagType::Module
    }

    fn from_generic(tag: &GenericTag) -> (r: Option<ModuleTag>) {
        let b = tag.as_bytes();
        if tag.typ().val() == 3 && b.len() >= 16 {
            Some(ModuleTag { bytes: copy_range(b, 0, b.len()) })
        } else {
            None
        }
    }

    fn as_bytes(&self) -> (r: Vec<u8>) {
        copy_range(self.bytes.as_slice(), 0, self.bytes.len())
    }
}

/// The command line that a new module tag is built with is the one it gives
/// back, up to its first NUL character.
pub proof fn lemma_module_cmdline_roundtrip(start: u32, end: u32, s: Seq<char>)
    requires
        encode_utf8(s).len() + 17 <= u32::MAX,
    ensures
        ({
            let b = tag_with_payload(3, module_payload(start, end, s));
            spec_parse_string(b.subrange(16, b.len() as int)) == Ok::<Seq<char>, StringError>(
                chars_until_nul(s),
            )
        }),
{
    let p = module_payload(start, end, s);
    lemma_tag_with_payload(3, p);
    let b = tag_with_payload(3, p);
    assert(b.subrange(16, b.len() as int) =~= nul_terminated(s));
    lemma_parse_nul_terminated(s);
}

/// The module tags among `l`, in order.
pub open spec fn modules_in(l: Seq<Seq<u8>>) -> Seq<Seq<u8>>
    decreases l.len(),
{
    if l.len() == 0 {
        seq![]
    } else if module_tag_wf(l[0]) {
        seq![l[0]] + modules_in(l.drop_first())
    } else {
        modules_in(l.drop_first())
    }
}

/// Creates an iterator over the module tags among the tags of `iter`.
pub fn module_iter(iter: TagIter) -> (r: ModuleIter)
    ensures
        r.remaining() == modules_in(iter.remaining()),
{
    ModuleIter { iter }
}

/// An iterator over all module tags.
#[derive(Clone, Debug)]
pub struct ModuleIter<'a> {
    iter: TagIter<'a>,
}

impl<'a> ModuleIter<'a> {
    /// The module tags that are still to come.
    pub closed spec fn remaining(&self) -> Seq<Seq<u8>> {
        modules_in(self.iter.remaining())
    }

    /// Returns the next module tag.
    pub fn next(&mut self) -> (r: Option<ModuleTag>)
        ensures
            old(self).remaining().len() == 0 ==> r is None && final(self).remaining().len() == 0,
            old(self).remaining().len() > 0 ==> (r matches Some(t) && t@ == old(self).remaining()[0]
                && final(self).remaining() == old(self).remaining().drop_first()),
            r matches Some(t) ==> t.wf(),
    {
        loop
            invariant
                modules_in(self.iter.remaining()) == modules_in(old(self).iter.remaining()),
            decreases self.iter.remaining().len(),
        {
            let ghost before = self.iter.remaining();
            match self.iter.next() {
                None => {
                    return None;
                },
                Some(t) => {
                    match ModuleTag::from_generic(&t) {
                        Some(m) => {
                            return Some(m);
                        },
                        None => {
                        },
                    }
                },
            }
        }
    }
}

} // verus!
