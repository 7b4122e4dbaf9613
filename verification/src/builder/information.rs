//! Exports item [`InformationBuilder`].
use crate::boot_information::{find_tag, has_valid_end_tag, mbi_tags, mbi_total_size, spec_load, MbiLoadError};
use crate::bytes::{align8, lemma_align8, lemma_u32_le, lemma_u32_le_same, pad8, push_bytes, push_u32_le, push_zeros, u32_le_bytes};
use crate::boot_loader_name::BootLoaderNameTag;
use crate::command_line::CommandLineTag;
use crate::efi::{EFIBootServicesNotExitedTag, EFIImageHandle32Tag, EFIImageHandle64Tag, EFISdt32Tag, EFISdt64Tag};
use crate::elf_sections::ElfSectionsTag;
use crate::framebuffer::FramebufferTag;
use crate::image_load_addr::ImageLoadPhysAddrTag;
use crate::memory_map::{BasicMemoryInfoTag, EFIMemoryMapTag, MemoryMapTag};
use crate::module::ModuleTag;
use crate::rsdp::{RsdpV1Tag, RsdpV2Tag};
use crate::smbios::SmbiosTag;
use crate::tag::{header_bytes, lemma_first_of_type, tag_bytes_wf, tag_list, tag_size, tag_typ, tag_type_val, TagTrait, TagType};
use vstd::prelude::*;

verus! {

/// The bytes of an end tag.
pub open spec fn end_tag_bytes() -> Seq<u8> {
    header_bytes(0, 8)
}

/// The tags `ts`, each padded to a multiple of 8, one after the other.
pub open spec fn concat_padded(ts: Seq<Seq<u8>>) -> Seq<u8>
    decreases ts.len(),
{
    if ts.len() == 0 {
        seq![]
    } else {
        pad8(ts[0]) + concat_padded(ts.drop_first())
    }
}

/// The total size of a boot information that holds the tags `ts`.
pub open spec fn built_len(ts: Seq<Seq<u8>>) -> int {
    8 + concat_padded(ts).len() as int + 8
}

/// The bytes of a boot information that holds the tags `ts`: the header, the
/// padded tags, and the end tag.
pub open spec fn built_bytes(ts: Seq<Seq<u8>>) -> Seq<u8> {
    u32_le_bytes(built_len(ts)) + u32_le_bytes(0) + concat_padded(ts) + end_tag_bytes()
}

/// Every tag of `ts` is a well-formed tag that is not an end tag.
pub open spec fn all_tags_wf(ts: Seq<Seq<u8>>) -> bool {
    forall|i: int| 0 <= i < ts.len() ==> tag_bytes_wf(#[trigger] ts[i]) && tag_typ(ts[i]) != 0
}

pub proof fn lemma_pad8(b: Seq<u8>)
    ensures
        pad8(b).len() == align8(b.len() as int),
        pad8(b).subrange(0, b.len() as int) == b,
        pad8(b).len() % 8 == 0,
{
    lemma_align8(b.len() as int);
    assert(pad8(b).subrange(0, b.len() as int) =~= b);
}

pub proof fn lemma_concat_padded_len(ts: Seq<Seq<u8>>)
    ensures
        concat_padded(ts).len() % 8 == 0,
    decreases ts.len(),
{
    if ts.len() > 0 {
        lemma_pad8(ts[0]);
        lemma_concat_padded_len(ts.drop_first());
    }
}

pub proof fn lemma_concat_padded_push(ts: Seq<Seq<u8>>, t: Seq<u8>)
    ensures
        concat_padded(ts.push(t)) == concat_padded(ts) + pad8(t),
    decreases ts.len(),
{
    if ts.len() == 0 {
        assert(ts.push(t).drop_first() =~= Seq::<Seq<u8>>::empty());
        assert(ts.push(t)[0] == t);
        assert(concat_padded(Seq::<Seq<u8>>::empty()) =~= Seq::<u8>::empty());
        assert(concat_padded(ts.push(t)) =~= pad8(t));
    } else {
        assert(ts.push(t).drop_first() =~= ts.drop_first().push(t));
        lemma_concat_padded_push(ts.drop_first(), t);
        assert(concat_padded(ts.push(t)) =~= concat_padded(ts) + pad8(t));
    }
}

/// Walking the padded tags followed by an end tag finds exactly the tags.
pub proof fn lemma_tag_list_concat(ts: Seq<Seq<u8>>, tail: Seq<u8>)
    requires
        all_tags_wf(ts),
        tail.len() >= 8,
        tag_typ(tail) == 0,
        tag_size(tail) == 8,
    ensures
        tag_list(concat_padded(ts) + tail) == ts,
    decreases ts.len(),
{
    let b = concat_padded(ts) + tail;
    if ts.len() == 0 {
        assert(b =~= tail);
        assert(tag_list(b) =~= ts);
    } else {
        let t0 = ts[0];
        let rest = ts.drop_first();
        assert(all_tags_wf(rest)) by {
            assert forall|i: int| 0 <= i < rest.len() implies tag_bytes_wf(#[trigger] rest[i])
                && tag_typ(rest[i]) != 0 by {
                assert(rest[i] == ts[i + 1]);
            }
        }
        lemma_tag_list_concat(rest, tail);
        lemma_pad8(t0);
        assert(tag_bytes_wf(ts[0]) && tag_typ(ts[0]) != 0);
        let n = t0.len() as int;
        let p = align8(n);
        assert(b == pad8(t0) + (concat_padded(rest) + tail));
        assert(b.subrange(0, n) =~= t0);
        assert(b.subrange(0, 4) =~= t0.subrange(0, 4));
        assert(b.subrange(4, 8) =~= t0.subrange(4, 8));
        lemma_u32_le_same(b, 0, t0, 0);
        lemma_u32_le_same(b, 4, t0, 4);
        assert(b.subrange(p, b.len() as int) =~= concat_padded(rest) + tail);
        assert(tag_list(b) =~= seq![t0] + rest);
        assert(seq![t0] + rest =~= ts);
    }
}

/// The bytes built from well-formed tags form a valid boot information whose
/// tags are exactly those tags, in order.
pub proof fn lemma_built_bytes(ts: Seq<Seq<u8>>)
    requires
        all_tags_wf(ts),
        built_len(ts) <= u32::MAX,
    ensures
        built_bytes(ts).len() == built_len(ts),
        mbi_total_size(built_bytes(ts)) == built_len(ts),
        built_len(ts) % 8 == 0,
        16 <= built_len(ts),
        has_valid_end_tag(built_bytes(ts)),
        mbi_tags(built_bytes(ts)) == ts,
{
    let b = built_bytes(ts);
    let n = built_len(ts);
    lemma_concat_padded_len(ts);
    assert(b.subrange(0, 4) =~= u32_le_bytes(n));
    lemma_u32_le(b, 0, n);
    assert(b.subrange(n - 8, n - 4) =~= u32_le_bytes(0));
    assert(b.subrange(n - 4, n) =~= u32_le_bytes(8));
    lemma_u32_le(b, n - 8, 0);
    lemma_u32_le(b, n - 4, 8);
    let e = end_tag_bytes();
    assert(e.subrange(0, 4) =~= u32_le_bytes(0));
    assert(e.subrange(4, 8) =~= u32_le_bytes(8));
    lemma_u32_le(e, 0, 0);
    lemma_u32_le(e, 4, 8);
    lemma_tag_list_concat(ts, e);
    assert(b.subrange(8, b.len() as int) =~= concat_padded(ts) + e);
}

/// The bytes built from well-formed tags load, at any non-null address
/// aligned to 8 bytes, as a boot information of exactly these bytes, whose
/// tags are the built tags.
pub proof fn lemma_build_then_load(ts: Seq<Seq<u8>>, addr: usize)
    requires
        all_tags_wf(ts),
        built_len(ts) <= u32::MAX,
        addr != 0,
        addr % 8 == 0,
    ensures
        spec_load(addr, built_bytes(ts)) == Ok::<Seq<u8>, MbiLoadError>(built_bytes(ts)),
        mbi_tags(built_bytes(ts)) == ts,
{
    lemma_built_bytes(ts);
    assert(built_bytes(ts).subrange(0, built_len(ts)) =~= built_bytes(ts));
}

/// A tag added to the builder is what the built boot information gives back
/// for its type, when no tag of that type comes before it.
pub proof fn lemma_build_then_get_tag<T: TagTrait>(ts: Seq<Seq<u8>>, i: int, v: T::V)
    requires
        all_tags_wf(ts),
        built_len(ts) <= u32::MAX,
        0 <= i < ts.len(),
        T::spec_wf(v),
        ts[i] == T::spec_bytes(v),
        forall|j: int| 0 <= j < i ==> tag_typ(#[trigger] ts[j]) != tag_type_val(T::spec_type()),
    ensures
        find_tag::<T>(mbi_tags(built_bytes(ts))) == Some(v),
{
    lemma_built_bytes(ts);
    T::lemma_roundtrip(v);
    lemma_first_of_type(ts, tag_type_val(T::spec_type()) as int, i);
}

/// Holds the raw bytes of a boot information built with
/// [`InformationBuilder`].
#[derive(Clone, Debug)]
pub struct BootInformationBytes {
    bytes: Vec<u8>,
}

impl BootInformationBytes {
    /// Holds the given bytes.
    pub(crate) fn from_bytes(bytes: Vec<u8>) -> (r: BootInformationBytes)
        ensures
            r.spec_bytes() == bytes@,
    {
        BootInformationBytes { bytes }
    }

    /// The bytes of the boot information.
    pub closed spec fn spec_bytes(&self) -> Seq<u8> {
        self.bytes@
    }

    /// Returns the bytes.
    pub fn as_bytes(&self) -> (r: &[u8])
        ensures
            r@ == self.spec_bytes(),
    {
        self.bytes.as_slice()
    }
}

/// Error that indicates a tag was added multiple times that is not allowed to
/// be there multiple times.
#[derive(Clone, Copy, Debug, PartialEq, Eq, Structural)]
pub struct RedundantTagError(pub TagType);

/// Only module tags and custom tags may occur more than once.
pub open spec fn spec_allowed_multiple_times(t: TagType) -> bool {
    match t {
        TagType::Module | TagType::Custom(_) => true,
        _ => false,
    }
}

/// The padded tags of `a + b` are those of `a` followed by those of `b`.
pub proof fn lemma_concat_padded_append(a: Seq<Seq<u8>>, b: Seq<Seq<u8>>)
    ensures
        concat_padded(a + b) == concat_padded(a) + concat_padded(b),
    decreases a.len(),
{
    if a.len() == 0 {
        assert(a + b =~= b);
        assert(concat_padded(a) =~= Seq::<u8>::empty());
        assert(concat_padded(a) + concat_padded(b) =~= concat_padded(b));
    } else {
        assert((a + b).drop_first() =~= a.drop_first() + b);
        assert((a + b)[0] == a[0]);
        lemma_concat_padded_append(a.drop_first(), b);
        assert(concat_padded(a + b) =~= concat_padded(a) + concat_padded(b));
    }
}

/// Adding a tag at any position to the tags of a builder makes the boot
/// information it builds longer by the tag's length rounded up to a multiple
/// of 8.
pub proof fn lemma_expected_len_insert(s: Seq<(TagType, Seq<u8>)>, p: int, t: (TagType, Seq<u8>))
    requires
        0 <= p <= s.len(),
    ensures
        built_len(tag_bytes_of(s.insert(p, t))) == built_len(tag_bytes_of(s)) + align8(t.1.len() as int),
{
    let ts = tag_bytes_of(s);
    let n = ts.len() as int;
    let pre = ts.subrange(0, p);
    let post = ts.subrange(p, n);
    assert(tag_bytes_of(s.insert(p, t)) =~= pre + seq![t.1] + post);
    assert(ts =~= pre + post);
    lemma_concat_padded_append(pre + seq![t.1], post);
    lemma_concat_padded_append(pre, seq![t.1]);
    lemma_concat_padded_append(pre, post);
    let one = seq![t.1];
    assert(one[0] == t.1);
    assert(one.drop_first() =~= Seq::<Seq<u8>>::empty());
    assert(concat_padded(one.drop_first()) =~= Seq::<u8>::empty());
    assert(concat_padded(one) =~= pad8(t.1));
    lemma_pad8(t.1);
}

/// The position at which a tag of type id `v` is inserted to keep the order:
/// after all tags whose id is not larger.
pub open spec fn insert_pos(s: Seq<(TagType, Seq<u8>)>, v: u32) -> int
    decreases s.len(),
{
    if s.len() == 0 {
        0
    } else if tag_type_val(s.last().0) <= v {
        s.len() as int
    } else {
        insert_pos(s.drop_last(), v)
    }
}

/// Adding a tag of type id `v` to `s` would repeat a type that may occur only
/// once.
pub open spec fn spec_is_redundant(s: Seq<(TagType, Seq<u8>)>, v: u32) -> bool {
    exists|i: int| 0 <= i < s.len() && tag_type_val(#[trigger] s[i].0) == v && !spec_allowed_multiple_times(s[i].0)
}

/// The tags in `s` are ordered by their numeric type.
pub open spec fn sorted_by_type(s: Seq<(TagType, Seq<u8>)>) -> bool {
    forall|i: int, j: int| 0 <= i <= j < s.len() ==> tag_type_val(#[trigger] s[i].0) <= tag_type_val(#[trigger] s[j].0)
}

/// In tags ordered by type, the tags before the insert position of type id
/// `v` have types not above `v`, and those after it have types above `v`.
pub proof fn lemma_insert_pos(s: Seq<(TagType, Seq<u8>)>, v: u32)
    requires
        sorted_by_type(s),
    ensures
        0 <= insert_pos(s, v) <= s.len(),
        forall|j: int| 0 <= j < insert_pos(s, v) ==> tag_type_val(#[trigger] s[j].0) <= v,
        forall|j: int| insert_pos(s, v) <= j < s.len() ==> tag_type_val(#[trigger] s[j].0) > v,
    decreases s.len(),
{
    if s.len() > 0 {
        let init = s.drop_last();
        if tag_type_val(s.last().0) <= v {
            assert forall|j: int| 0 <= j < s.len() implies tag_type_val(#[trigger] s[j].0) <= v by {
                assert(tag_type_val(s[j].0) <= tag_type_val(s[s.len() - 1].0));
            }
        } else {
            assert(sorted_by_type(init)) by {
                assert forall|i: int, j: int| 0 <= i <= j < init.len() implies tag_type_val(
                    #[trigger] init[i].0,
                ) <= tag_type_val(#[trigger] init[j].0) by {
                    assert(init[i] == s[i] && init[j] == s[j]);
                }
            }
            lemma_insert_pos(init, v);
            assert forall|j: int| insert_pos(s, v) <= j < s.len() implies tag_type_val(
                #[trigger] s[j].0,
            ) > v by {
                if j < s.len() - 1 {
                    assert(init[j] == s[j]);
                }
            }
            assert forall|j: int| 0 <= j < insert_pos(s, v) implies tag_type_val(#[trigger] s[j].0)
                <= v by {
                assert(init[j] == s[j]);
            }
        }
    }
}

/// Inserting a tag at the insert position of its type keeps the tags ordered
/// by type.
pub proof fn lemma_insert_sorted(s: Seq<(TagType, Seq<u8>)>, t: (TagType, Seq<u8>))
    requires
        sorted_by_type(s),
    ensures
        sorted_by_type(s.insert(insert_pos(s, tag_type_val(t.0)), t)),
{
    let v = tag_type_val(t.0);
    let p = insert_pos(s, v);
    lemma_insert_pos(s, v);
    let r = s.insert(p, t);
    assert forall|i: int, j: int| 0 <= i <= j < r.len() implies tag_type_val(#[trigger] r[i].0)
        <= tag_type_val(#[trigger] r[j].0) by {
        if i < p {
            assert(r[i] == s[i]);
        } else if i > p {
            assert(r[i] == s[i - 1]);
        }
        if j < p {
            assert(r[j] == s[j]);
        } else if j > p {
            assert(r[j] == s[j - 1]);
        }
    }
}

/// The bytes of the tags in `s`.
pub open spec fn tag_bytes_of(s: Seq<(TagType, Seq<u8>)>) -> Seq<Seq<u8>> {
    s.map_values(|p: (TagType, Seq<u8>)| p.1)
}

/// Builder to construct a valid Multiboot2 information dynamically at runtime.
/// The tags will appear in the order of their numeric type, except for the
/// END tag, which comes last.
#[derive(Debug)]
pub struct InformationBuilder {
    tags: Vec<(TagType, Vec<u8>)>,
}

impl View for InformationBuilder {
    type V = Seq<(TagType, Seq<u8>)>;

    closed spec fn view(&self) -> Seq<(TagType, Seq<u8>)> {
        self.tags@.map_values(|p: (TagType, Vec<u8>)| (p.0, p.1@))
    }
}

impl InformationBuilder {
    /// Every tag is a well-formed tag of the type it is stored with.
    pub open spec fn wf(&self) -> bool {
        &&& all_tags_wf(tag_bytes_of(self@))
        &&& sorted_by_type(self@)
        &&& forall|i: int| 0 <= i < self@.len() ==> tag_typ(#[trigger] self@[i].1) == tag_type_val(self@[i].0)
    }

    /// The length of the boot information that [`Self::build`] returns.
    pub open spec fn spec_expected_len(&self) -> int {
        built_len(tag_bytes_of(self@))
    }

    /// Creates a new builder.
    pub fn new() -> (r: InformationBuilder)
        ensures
            r@ == Seq::<(TagType, Seq<u8>)>::empty(),
            r.wf(),
    {
        let r = InformationBuilder { tags: Vec::new() };
        assert(r@ =~= Seq::<(TagType, Seq<u8>)>::empty());
        r
    }

    /// Returns the provided number or the next multiple of 8. This is helpful
    /// to ensure that the following tag starts at a 8-byte aligned boundary.
    pub fn size_or_up_aligned(size: usize) -> (r: usize)
        requires
            size + 7 <= usize::MAX,
        ensures
            r == align8(size as int),
    {
        crate::bytes::align8_usize(size)
    }

    /// Returns the expected length of the boot information, when the
    /// [`Self::build`]-method is called: the header, each tag padded to a
    /// multiple of 8, and the end tag.
    pub fn expected_len(&self) -> (r: usize)
        requires
            self.wf(),
            self.spec_expected_len() <= usize::MAX,
        ensures
            r == self.spec_expected_len(),
    {
        let ghost ts = tag_bytes_of(self@);
        let mut total: usize = 8;
        let mut i: usize = 0;
        while i < self.tags.len()
            invariant
                ts == tag_bytes_of(self@),
                self.wf(),
                self.spec_expected_len() <= usize::MAX,
                i <= self.tags@.len(),
                total == 8 + concat_padded(ts.subrange(0, i as int)).len(),
            decreases self.tags@.len() - i,
        {
            assert(ts.subrange(0, i + 1) =~= ts.subrange(0, i as int).push(ts[i as int]));
            proof {
                lemma_concat_padded_push(ts.subrange(0, i as int), ts[i as int]);
                lemma_pad8(ts[i as int]);
                lemma_concat_prefix_len(ts, i as int + 1);
            }
            let n = self.tags[i].1.len();
            assert(n == ts[i as int].len());
            total = total + Self::size_or_up_aligned(n);
            i = i + 1;
        }
        assert(ts.subrange(0, i as int) =~= ts);
        total + 8
    }

    /// Constructs the bytes for a valid Multiboot2 information with the given
    /// tags.
    pub fn build(self) -> (r: BootInformationBytes)
        requires
            self.wf(),
            self.spec_expected_len() <= u32::MAX,
        ensures
            r.spec_bytes() == built_bytes(tag_bytes_of(self@)),
    {
        let ghost ts = tag_bytes_of(self@);
        let len = self.expected_len();
        let mut bytes: Vec<u8> = Vec::new();
        push_u32_le(&mut bytes, len as u32);
        push_u32_le(&mut bytes, 0);
        let mut i: usize = 0;
        while i < self.tags.len()
            invariant
                ts == tag_bytes_of(self@),
                self.wf(),
                i <= self.tags@.len(),
                len == built_len(ts),
                bytes@ == u32_le_bytes(len as int) + u32_le_bytes(0) + concat_padded(
                    ts.subrange(0, i as int),
                ),
            decreases self.tags@.len() - i,
        {
            let t = &self.tags[i].1;
            assert(t@ == ts[i as int]);
            assert(ts.subrange(0, i + 1) =~= ts.subrange(0, i as int).push(ts[i as int]));
            proof {
                lemma_concat_padded_push(ts.subrange(0, i as int), ts[i as int]);
                lemma_align8(t@.len() as int);
            }
            let n = t.len();
            push_bytes(&mut bytes, t.as_slice());
            let pad = if n % 8 == 0 { 0 } else { 8 - n % 8 };
            push_zeros(&mut bytes, pad);
            i = i + 1;
            assert(bytes@ =~= u32_le_bytes(len as int) + u32_le_bytes(0) + concat_padded(
                ts.subrange(0, i as int),
            ));
        }
        push_u32_le(&mut bytes, 0);
        push_u32_le(&mut bytes, 8);
        assert(ts.subrange(0, i as int) =~= ts);
        assert(bytes@ =~= built_bytes(ts));
        BootInformationBytes { bytes }
    }

    /// Adds an arbitrary tag to the builder. Only [`TagType::Module`] and
    /// [`TagType::Custom`] tags may occur multiple times; for other tags
    /// already present, this returns an error. An end
    /// tag is not added: [`Self::build`] adds it. The tags are kept ordered by
    /// their numeric type; tags of the same type keep the order they were
    /// added in.
    pub fn add_tag<T: TagTrait>(self, tag: &T) -> (r: Result<InformationBuilder, RedundantTagError>)
        requires
            self.wf(),
            tag_type_val(T::spec_type()) != 0 ==> tag_bytes_wf(T::spec_bytes(tag@)) && tag_typ(T::spec_bytes(tag@))
                == tag_type_val(T::spec_type()),
        ensures
            tag_type_val(T::spec_type()) == 0 ==> (r matches Ok(b) && b@ == self@),
            tag_type_val(T::spec_type()) != 0 && spec_is_redundant(self@, tag_type_val(T::spec_type())) ==> (r matches Err(e)
                && e.0 == T::spec_type()),
            tag_type_val(T::spec_type()) != 0 && !spec_is_redundant(self@, tag_type_val(T::spec_type())) ==> (r matches Ok(b)
                && b@.len() == self@.len() + 1
                && b@ == self@.insert(
                insert_pos(self@, tag_type_val(T::spec_type())),
                (T::spec_type(), T::spec_bytes(tag@)),
            )),
            tag_type_val(T::spec_type()) != 0 ==> (r matches Ok(b) ==> b.spec_expected_len()
                == self.spec_expected_len() + align8(T::spec_bytes(tag@).len() as int)),
            r matches Ok(b) ==> b.wf(),
    {
        let id = T::id();
        let v = id.val();
        if v == 0 {
            return Ok(self);
        }
        let mut i: usize = 0;
        while i < self.tags.len()
            invariant
                v == tag_type_val(T::spec_type()),
                v != 0,
                id == T::spec_type(),
                i <= self.tags@.len(),
                self@.len() == self.tags@.len(),
                forall|j: int|
                    0 <= j < i ==> !(tag_type_val(#[trigger] self@[j].0) == v
                        && !spec_allowed_multiple_times(self@[j].0)),
            decreases self.tags@.len() - i,
        {
            let t = self.tags[i].0;
            assert(t == self@[i as int].0);
            if t.val() == v && !Self::tag_is_allowed_multiple_times(t) {
                return Err(RedundantTagError(id));
            }
            i = i + 1;
        }
        assert(self@.subrange(0, self@.len() as int) =~= self@);
        let mut pos = self.tags.len();
        while pos > 0 && self.tags[pos - 1].0.val() > v
            invariant
                pos <= self.tags@.len(),
                self@.len() == self.tags@.len(),
                insert_pos(self@, v) == insert_pos(self@.subrange(0, pos as int), v),
            decreases pos,
        {
            assert(self@.subrange(0, pos as int).drop_last() =~= self@.subrange(0, pos - 1));
            assert(self@[pos - 1].0 == self.tags@[pos - 1].0);
            pos = pos - 1;
        }
        proof {
            if pos > 0 {
                assert(self@[pos - 1].0 == self.tags@[pos - 1].0);
                assert(self@.subrange(0, pos as int).last() == self@[pos - 1]);
            }
        }
        assert(insert_pos(self@, v) == pos);
        let bytes = tag.as_bytes();
        let mut tags = self.tags;
        let ghost old_view = self@;
        tags.insert(pos, (id, bytes));
        let r = InformationBuilder { tags };
        assert(r@ =~= old_view.insert(pos as int, (id, T::spec_bytes(tag@))));
        assert(built_len(tag_bytes_of(r@)) == built_len(tag_bytes_of(old_view)) + align8(
            T::spec_bytes(tag@).len() as int,
        )) by {
            lemma_expected_len_insert(old_view, pos as int, (id, T::spec_bytes(tag@)));
        }
        proof {
            lemma_insert_sorted(old_view, (id, T::spec_bytes(tag@)));
            let ts = tag_bytes_of(r@);
            assert forall|k: int| 0 <= k < ts.len() implies tag_bytes_wf(#[trigger] ts[k])
                && tag_typ(ts[k]) != 0 by {
                if k < pos {
                    assert(ts[k] == tag_bytes_of(old_view)[k]);
                } else if k > pos {
                    assert(ts[k] == tag_bytes_of(old_view)[k - 1]);
                }
            }
            assert forall|k: int| 0 <= k < r@.len() implies tag_typ(#[trigger] r@[k].1)
                == tag_type_val(r@[k].0) by {
                if k < pos {
                    assert(r@[k] == old_view[k]);
                } else if k > pos {
                    assert(r@[k] == old_view[k - 1]);
                }
            }
        }
        Ok(r)
    }

    /// Adds a well-formed tag whose type is not yet present, or may be present
    /// more than once.
    fn add_unique<T: TagTrait>(self, tag: &T) -> (r: InformationBuilder)
        requires
            self.wf(),
            T::spec_wf(tag@),
            tag_type_val(T::spec_type()) != 0,
            !spec_is_redundant(self@, tag_type_val(T::spec_type())),
        ensures
            r.wf(),
            r@ == self@.insert(
                insert_pos(self@, tag_type_val(T::spec_type())),
                (T::spec_type(), T::spec_bytes(tag@)),
            ),
    {
        proof {
            T::lemma_roundtrip(tag@);
        }
        match self.add_tag(tag) {
            Ok(b) => b,
            Err(_) => {
                assert(false);
                InformationBuilder::new()
            },
        }
    }

    /// Adds a 'basic memory information' tag (represented by [`BasicMemoryInfoTag`]) to the builder.
    pub fn basic_memory_info_tag(self, tag: BasicMemoryInfoTag) -> (r: InformationBuilder)
        requires
            self.wf(),
            BasicMemoryInfoTag::spec_wf(tag@),
            !spec_is_redundant(self@, 4),
        ensures
            r.wf(),
            r@ == self@.insert(insert_pos(self@, 4), (TagType::BasicMeminfo, BasicMemoryInfoTag::spec_bytes(tag@))),
    {
        self.add_unique(&tag)
    }

    /// Adds a 'bootloader name' tag (represented by [`BootLoaderNameTag`]) to the builder.
    pub fn bootloader_name_tag(self, tag: BootLoaderNameTag) -> (r: InformationBuilder)
        requires
            self.wf(),
            BootLoaderNameTag::spec_wf(tag@),
            !spec_is_redundant(self@, 2),
        ensures
            r.wf(),
            r@ == self@.insert(insert_pos(self@, 2), (TagType::BootLoaderName, BootLoaderNameTag::spec_bytes(tag@))),
    {
        self.add_unique(&tag)
    }

    /// Adds a 'command line' tag (represented by [`CommandLineTag`]) to the builder.
    pub fn command_line_tag(self, tag: CommandLineTag) -> (r: InformationBuilder)
        requires
            self.wf(),
            CommandLineTag::spec_wf(tag@),
            !spec_is_redundant(self@, 1),
        ensures
            r.wf(),
            r@ == self@.insert(insert_pos(self@, 1), (TagType::Cmdline, CommandLineTag::spec_bytes(tag@))),
    {
        self.add_unique(&tag)
    }

    /// Adds a 'EFI 32-bit system table pointer' tag (represented by [`EFISdt32Tag`]) to the builder.
    pub fn efisdt32_tag(self, tag: EFISdt32Tag) -> (r: InformationBuilder)
        requires
            self.wf(),
            EFISdt32Tag::spec_wf(tag@),
            !spec_is_redundant(self@, 11),
        ensures
            r.wf(),
            r@ == self@.insert(insert_pos(self@, 11), (TagType::Efi32, EFISdt32Tag::spec_bytes(tag@))),
    {
        self.add_unique(&tag)
    }

    /// Adds a 'EFI 64-bit system table pointer' tag (represented by [`EFISdt64Tag`]) to the builder.
    pub fn efisdt64_tag(self, tag: EFISdt64Tag) -> (r: InformationBuilder)
        requires
            self.wf(),
            EFISdt64Tag::spec_wf(tag@),
            !spec_is_redundant(self@, 12),
        ensures
            r.wf(),
            r@ == self@.insert(insert_pos(self@, 12), (TagType::Efi64, EFISdt64Tag::spec_bytes(tag@))),
    {
        self.add_unique(&tag)
    }

    /// Adds a 'EFI 32-bit image handle pointer' tag (represented by [`EFIImageHandle32Tag`]) to the builder.
    pub fn efi_image_handle32(self, tag: EFIImageHandle32Tag) -> (r: InformationBuilder)
        requires
            self.wf(),
            EFIImageHandle32Tag::spec_wf(tag@),
            !spec_is_redundant(self@, 19),
        ensures
            r.wf(),
            r@ == self@.insert(insert_pos(self@, 19), (TagType::Efi32Ih, EFIImageHandle32Tag::spec_bytes(tag@))),
    {
        self.add_unique(&tag)
    }

    /// Adds a 'EFI 64-bit image handle pointer' tag (represented by [`EFIImageHandle64Tag`]) to the builder.
    pub fn efi_image_handle64(self, tag: EFIImageHandle64Tag) -> (r: InformationBuilder)
        requires
            self.wf(),
            EFIImageHandle64Tag::spec_wf(tag@),
            !spec_is_redundant(self@, 20),
        ensures
            r.wf(),
            r@ == self@.insert(insert_pos(self@, 20), (TagType::Efi64Ih, EFIImageHandle64Tag::spec_bytes(tag@))),
    {
        self.add_unique(&tag)
    }

    /// Adds a 'EFI Memory map' tag (represented by [`EFIMemoryMapTag`]) to the builder.
    pub fn efi_memory_map_tag(self, tag: EFIMemoryMapTag) -> (r: InformationBuilder)
        requires
            self.wf(),
            EFIMemoryMapTag::spec_wf(tag@),
            !spec_is_redundant(self@, 17),
        ensures
            r.wf(),
            r@ == self@.insert(insert_pos(self@, 17), (TagType::EfiMmap, EFIMemoryMapTag::spec_bytes(tag@))),
    {
        self.add_unique(&tag)
    }

    /// Adds a 'ELF-Symbols' tag (represented by [`ElfSectionsTag`]) to the builder.
    pub fn elf_sections_tag(self, tag: ElfSectionsTag) -> (r: InformationBuilder)
        requires
            self.wf(),
            ElfSectionsTag::spec_wf(tag@),
            !spec_is_redundant(self@, 9),
        ensures
            r.wf(),
            r@ == self@.insert(insert_pos(self@, 9), (TagType::ElfSections, ElfSectionsTag::spec_bytes(tag@))),
    {
        self.add_unique(&tag)
    }

    /// Adds a 'Framebuffer info' tag (represented by [`FramebufferTag`]) to the builder.
    pub fn framebuffer_tag(self, tag: FramebufferTag) -> (r: InformationBuilder)
        requires
            self.wf(),
            FramebufferTag::spec_wf(tag@),
            !spec_is_redundant(self@, 8),
        ensures
            r.wf(),
            r@ == self@.insert(insert_pos(self@, 8), (TagType::Framebuffer, FramebufferTag::spec_bytes(tag@))),
    {
        self.add_unique(&tag)
    }

    /// Adds a 'Image load base physical address' tag (represented by [`ImageLoadPhysAddrTag`]) to the builder.
    pub fn image_load_addr(self, tag: ImageLoadPhysAddrTag) -> (r: InformationBuilder)
        requires
            self.wf(),
            ImageLoadPhysAddrTag::spec_wf(tag@),
            !spec_is_redundant(self@, 21),
        ensures
            r.wf(),
            r@ == self@.insert(insert_pos(self@, 21), (TagType::LoadBaseAddr, ImageLoadPhysAddrTag::spec_bytes(tag@))),
    {
        self.add_unique(&tag)
    }

    /// Adds a (*none EFI*) 'memory map' tag (represented by [`MemoryMapTag`]) to the builder.
    pub fn memory_map_tag(self, tag: MemoryMapTag) -> (r: InformationBuilder)
        requires
            self.wf(),
            MemoryMapTag::spec_wf(tag@),
            !spec_is_redundant(self@, 6),
        ensures
            r.wf(),
            r@ == self@.insert(insert_pos(self@, 6), (TagType::Mmap, MemoryMapTag::spec_bytes(tag@))),
    {
        self.add_unique(&tag)
    }

    /// Adds a 'Modules' tag (represented by [`ModuleTag`]); this tag can occur multiple times to the builder.
    pub fn add_module_tag(self, tag: ModuleTag) -> (r: InformationBuilder)
        requires
            self.wf(),
            ModuleTag::spec_wf(tag@),
        ensures
            r.wf(),
            r@ == self@.insert(insert_pos(self@, 3), (TagType::Module, ModuleTag::spec_bytes(tag@))),
    {
        self.add_unique(&tag)
    }

    /// Adds a 'ACPI old RSDP' tag (represented by [`RsdpV1Tag`]) to the builder.
    pub fn rsdp_v1_tag(self, tag: RsdpV1Tag) -> (r: InformationBuilder)
        requires
            self.wf(),
            RsdpV1Tag::spec_wf(tag@),
            !spec_is_redundant(self@, 14),
        ensures
            r.wf(),
            r@ == self@.insert(insert_pos(self@, 14), (TagType::AcpiV1, RsdpV1Tag::spec_bytes(tag@))),
    {
        self.add_unique(&tag)
    }

    /// Adds a 'ACPI new RSDP' tag (represented by [`RsdpV2Tag`]) to the builder.
    pub fn rsdp_v2_tag(self, tag: RsdpV2Tag) -> (r: InformationBuilder)
        requires
            self.wf(),
            RsdpV2Tag::spec_wf(tag@),
            !spec_is_redundant(self@, 15),
        ensures
            r.wf(),
            r@ == self@.insert(insert_pos(self@, 15), (TagType::AcpiV2, RsdpV2Tag::spec_bytes(tag@))),
    {
        self.add_unique(&tag)
    }

    /// Adds a 'SMBIOS tables' tag (represented by [`SmbiosTag`]) to the
    /// builder.
    pub fn smbios_tag(self, tag: SmbiosTag) -> (r: InformationBuilder)
        requires
            self.wf(),
            SmbiosTag::spec_wf(tag@),
            !spec_is_redundant(self@, 13),
        ensures
            r.wf(),
            r@ == self@.insert(insert_pos(self@, 13), (TagType::Smbios, SmbiosTag::spec_bytes(tag@))),
    {
        self.add_unique(&tag)
    }

    /// Adds a 'EFI boot services not terminated' tag (represented by
    /// [`EFIBootServicesNotExitedTag`]) to the builder.
    pub fn efi_boot_services_not_exited_tag(self) -> (r: InformationBuilder)
        requires
            self.wf(),
            !spec_is_redundant(self@, 18),
        ensures
            r.wf(),
            r@ == self@.insert(insert_pos(self@, 18), (TagType::EfiBs, header_bytes(18, 8))),
    {
        self.add_unique(&EFIBootServicesNotExitedTag::new())
    }

    /// Only [`TagType::Module`] and [`TagType::Custom`] tags may appear
    /// multiple times.
    pub fn tag_is_allowed_multiple_times(tag_type: TagType) -> (r: bool)
        ensures
            r == spec_allowed_multiple_times(tag_type),
    {
        match tag_type {
            TagType::Module | TagType::Custom(_) => true,
            _ => false,
        }
    }
}

impl Default for InformationBuilder {
    fn default() -> (r: InformationBuilder)
        ensures
            r@ == Seq::<(TagType, Seq<u8>)>::empty(),
            r.wf(),
    {
        InformationBuilder::new()
    }
}

/// The padded length of the first `n` tags is bounded by that of all tags.
pub proof fn lemma_concat_prefix_len(ts: Seq<Seq<u8>>, n: int)
    requires
        0 <= n <= ts.len(),
    ensures
        concat_padded(ts.subrange(0, n)).len() <= concat_padded(ts).len(),
    decreases ts.len() - n,
{
    if n < ts.len() {
        lemma_concat_prefix_len(ts, n + 1);
        assert(ts.subrange(0, n + 1) =~= ts.subrange(0, n).push(ts[n]));
        lemma_concat_padded_push(ts.subrange(0, n), ts[n]);
    } else {
        assert(ts.subrange(0, n) =~= ts);
    }
}

} // verus!
