//! Construction of boot information structures.
use crate::boot_loader_name::BootLoaderNameTag;
use crate::bytes::{lemma_align8, push_bytes, push_u32_le, push_zeros, u32_le_bytes};
use crate::command_line::CommandLineTag;
use crate::efi::{EFIBootServicesNotExitedTag, EFIImageHandle32Tag, EFIImageHandle64Tag, EFISdt32Tag, EFISdt64Tag};
use crate::elf_sections::ElfSectionsTag;
use crate::framebuffer::FramebufferTag;
use crate::image_load_addr::ImageLoadPhysAddrTag;
use crate::memory_map::{BasicMemoryInfoTag, EFIMemoryMapTag, MemoryMapTag};
use crate::module::ModuleTag;
use crate::rsdp::{RsdpV1Tag, RsdpV2Tag};
use crate::smbios::SmbiosTag;
use crate::tag::{tag_bytes_wf, tag_typ, GenericTag, TagTrait};
use crate::vbe_info::VBEInfoTag;
use information::{all_tags_wf, built_bytes, built_len, concat_padded, lemma_concat_padded_push, lemma_concat_prefix_len, lemma_pad8, BootInformationBytes};
use vstd::prelude::*;

pub mod information;

verus! {

/// Serialization of structures that are not tags.
pub trait AsBytes: Sized {
    /// Returns the raw bytes of the value.
    fn as_bytes(&self) -> Vec<u8>;
}

/// The bytes of the tag in `o`, if there is one.
pub open spec fn opt_bytes<T: TagTrait>(o: Option<T>) -> Seq<Seq<u8>> {
    match o {
        Some(t) => seq![T::spec_bytes(t@)],
        None => seq![],
    }
}

/// The bytes of the tags in `v`, in order.
pub open spec fn vec_bytes<T: TagTrait>(v: Seq<T>) -> Seq<Seq<u8>> {
    v.map_values(|t: T| T::spec_bytes(t@))
}

/// The bytes in `v`, in order.
pub open spec fn vec_views(v: Seq<Vec<u8>>) -> Seq<Seq<u8>> {
    v.map_values(|b: Vec<u8>| b@)
}

/// The tags `a` followed by the tags `b` are well formed when both are.
pub proof fn lemma_all_tags_wf_concat(a: Seq<Seq<u8>>, b: Seq<Seq<u8>>)
    requires
        all_tags_wf(a),
        all_tags_wf(b),
    ensures
        all_tags_wf(a + b),
{
    assert forall|i: int| 0 <= i < (a + b).len() implies tag_bytes_wf(#[trigger] (a + b)[i])
        && tag_typ((a + b)[i]) != 0 by {
        if i < a.len() {
            assert((a + b)[i] == a[i]);
        } else {
            assert((a + b)[i] == b[i - a.len()]);
        }
    }
}

/// Appends the bytes of the tag in `o`, if there is one.
fn push_opt<T: TagTrait>(out: &mut Vec<Vec<u8>>, o: &Option<T>)
    ensures
        vec_views(final(out)@) == vec_views(old(out)@) + opt_bytes::<T>(*o),
{
    match o {
        Some(t) => {
            let b = t.as_bytes();
            out.push(b);
        },
        None => {},
    }
    assert(vec_views(out@) =~= vec_views(old(out)@) + opt_bytes::<T>(*o));
}

/// Appends the bytes of each tag in `v`.
fn push_each<T: TagTrait>(out: &mut Vec<Vec<u8>>, v: &Vec<T>)
    ensures
        vec_views(final(out)@) == vec_views(old(out)@) + vec_bytes::<T>(v@),
{
    let mut i: usize = 0;
    while i < v.len()
        invariant
            i <= v@.len(),
            vec_views(out@) == vec_views(old(out)@) + vec_bytes::<T>(v@.subrange(0, i as int)),
        decreases v@.len() - i,
    {
        let b = v[i].as_bytes();
        let ghost prev = out@;
        out.push(b);
        assert(vec_views(out@) =~= vec_views(prev).push(b@));
        assert(vec_bytes::<T>(v@.subrange(0, i + 1)) =~= vec_bytes::<T>(v@.subrange(0, i as int)).push(
            T::spec_bytes(v@[i as int]@),
        ));
        i = i + 1;
        assert(vec_views(out@) =~= vec_views(old(out)@) + vec_bytes::<T>(v@.subrange(0, i as int)));
    }
    assert(v@.subrange(0, i as int) =~= v@);
}

/// The bytes of the tags in `v`, in order.
pub open spec fn generic_bytes(v: Seq<GenericTag>) -> Seq<Seq<u8>> {
    v.map_values(|t: GenericTag| t@)
}

/// Appends the bytes of each tag in `v`.
fn push_each_generic(out: &mut Vec<Vec<u8>>, v: &Vec<GenericTag>)
    ensures
        vec_views(final(out)@) == vec_views(old(out)@) + generic_bytes(v@),
{
    let mut i: usize = 0;
    while i < v.len()
        invariant
            i <= v@.len(),
            vec_views(out@) == vec_views(old(out)@) + generic_bytes(v@.subrange(0, i as int)),
        decreases v@.len() - i,
    {
        let b = crate::bytes::copy_range(v[i].as_bytes(), 0, v[i].as_bytes().len());
        assert(b@ =~= v@[i as int]@);
        let ghost prev = out@;
        out.push(b);
        assert(vec_views(out@) =~= vec_views(prev).push(b@));
        assert(generic_bytes(v@.subrange(0, i + 1)) =~= generic_bytes(v@.subrange(0, i as int)).push(
            v@[i as int]@,
        ));
        i = i + 1;
        assert(vec_views(out@) =~= vec_views(old(out)@) + generic_bytes(v@.subrange(0, i as int)));
    }
    assert(v@.subrange(0, i as int) =~= v@);
}

/// Writes a boot information that holds the tags `tags`: the header, each
/// tag padded to a multiple of 8, and the end tag.
fn build_from_tags(tags: &Vec<Vec<u8>>) -> (r: Vec<u8>)
    requires
        all_tags_wf(vec_views(tags@)),
        built_len(vec_views(tags@)) <= u32::MAX,
    ensures
        r@ == built_bytes(vec_views(tags@)),
{
    let ghost ts = vec_views(tags@);
    let mut total: usize = 8;
    let mut i: usize = 0;
    while i < tags.len()
        invariant
            ts == vec_views(tags@),
            built_len(ts) <= u32::MAX,
            i <= tags@.len(),
            total == 8 + concat_padded(ts.subrange(0, i as int)).len(),
        decreases tags@.len() - i,
    {
        assert(ts.subrange(0, i + 1) =~= ts.subrange(0, i as int).push(ts[i as int]));
        proof {
            lemma_concat_padded_push(ts.subrange(0, i as int), ts[i as int]);
            lemma_pad8(ts[i as int]);
            lemma_concat_prefix_len(ts, i as int + 1);
        }
        let n = tags[i].len();
        assert(n == ts[i as int].len());
        total = total + crate::bytes::align8_usize(n);
        i = i + 1;
    }
    assert(ts.subrange(0, i as int) =~= ts);
    let len = total + 8;
    let mut bytes: Vec<u8> = Vec::new();
    push_u32_le(&mut bytes, len as u32);
    push_u32_le(&mut bytes, 0);
    let mut i: usize = 0;
    while i < tags.len()
        invariant
            ts == vec_views(tags@),
            i <= tags@.len(),
            len == built_len(ts),
            bytes@ == u32_le_bytes(len as int) + u32_le_bytes(0) + concat_padded(
                ts.subrange(0, i as int),
            ),
        decreases tags@.len() - i,
    {
        let t = &tags[i];
        assert(t@ == ts[i as int]);
        assert(ts.subrange(0, i + 1) =~= ts.subrange(0, i as int).push(ts[i as int]));
        proof {
            lemma_concat_padded_push(ts.subrange(0, i as int), ts[i as int]);
            lemma_align8(t@.len() as int);
        }
        let n = t.len();
        push_bytes(&mut bytes, t.as_slice());
        let pad = if n % 8 == 0 {
            0
        } else {
            8 - n % 8
        };
        push_zeros(&mut bytes, pad);
        i = i + 1;
        assert(bytes@ =~= u32_le_bytes(len as int) + u32_le_bytes(0) + concat_padded(
            ts.subrange(0, i as int),
        ));
    }
    push_u32_le(&mut bytes, 0);
    push_u32_le(&mut bytes, 8);
    assert(ts.subrange(0, i as int) =~= ts);
    assert(bytes@ =~= built_bytes(ts));
    bytes
}

/// What a [`Builder`] holds: the bytes of its tags of each kind, in the
/// order in which [`Builder::build`] writes them.
pub struct BuilderView {
    /// The bytes of the CommandLineTag.
    pub cmdline: Seq<Seq<u8>>,
    /// The bytes of the BootLoaderNameTag.
    pub bootloader: Seq<Seq<u8>>,
    /// The bytes of the ModuleTags.
    pub modules: Seq<Seq<u8>>,
    /// The bytes of the BasicMemoryInfoTag.
    pub meminfo: Seq<Seq<u8>>,
    /// The bytes of the MemoryMapTag.
    pub mmap: Seq<Seq<u8>>,
    /// The bytes of the VBEInfoTag.
    pub vbe: Seq<Seq<u8>>,
    /// The bytes of the FramebufferTag.
    pub framebuffer: Seq<Seq<u8>>,
    /// The bytes of the ElfSectionsTag.
    pub elf_sections: Seq<Seq<u8>>,
    /// The bytes of the EFISdt32Tag.
    pub efi32: Seq<Seq<u8>>,
    /// The bytes of the EFISdt64Tag.
    pub efi64: Seq<Seq<u8>>,
    /// The bytes of the SmbiosTags.
    pub smbios: Seq<Seq<u8>>,
    /// The bytes of the RsdpV1Tag.
    pub rsdpv1: Seq<Seq<u8>>,
    /// The bytes of the RsdpV2Tag.
    pub rsdpv2: Seq<Seq<u8>>,
    /// The bytes of the EFIMemoryMapTag.
    pub efi_mmap: Seq<Seq<u8>>,
    /// The bytes of the EFIBootServicesNotExitedTag.
    pub efi_bs: Seq<Seq<u8>>,
    /// The bytes of the EFIImageHandle32Tag.
    pub efi32_ih: Seq<Seq<u8>>,
    /// The bytes of the EFIImageHandle64Tag.
    pub efi64_ih: Seq<Seq<u8>>,
    /// The bytes of the ImageLoadPhysAddrTag.
    pub image_load_addr: Seq<Seq<u8>>,
    /// The bytes of the custom tags.
    pub custom_tags: Seq<Seq<u8>>,
}

/// The tags that a builder with the view `v` writes, in order.
pub open spec fn builder_tags(v: BuilderView) -> Seq<Seq<u8>> {
    v.cmdline
        + v.bootloader
        + v.modules
        + v.meminfo
        + v.mmap
        + v.vbe
        + v.framebuffer
        + v.elf_sections
        + v.efi32
        + v.efi64
        + v.smbios
        + v.rsdpv1
        + v.rsdpv2
        + v.efi_mmap
        + v.efi_bs
        + v.efi32_ih
        + v.efi64_ih
        + v.image_load_addr
        + v.custom_tags
}

/// The tags of every kind are well formed.
pub open spec fn builder_view_wf(v: BuilderView) -> bool {
    &&& all_tags_wf(v.cmdline)
    &&& all_tags_wf(v.bootloader)
    &&& all_tags_wf(v.modules)
    &&& all_tags_wf(v.meminfo)
    &&& all_tags_wf(v.mmap)
    &&& all_tags_wf(v.vbe)
    &&& all_tags_wf(v.framebuffer)
    &&& all_tags_wf(v.elf_sections)
    &&& all_tags_wf(v.efi32)
    &&& all_tags_wf(v.efi64)
    &&& all_tags_wf(v.smbios)
    &&& all_tags_wf(v.rsdpv1)
    &&& all_tags_wf(v.rsdpv2)
    &&& all_tags_wf(v.efi_mmap)
    &&& all_tags_wf(v.efi_bs)
    &&& all_tags_wf(v.efi32_ih)
    &&& all_tags_wf(v.efi64_ih)
    &&& all_tags_wf(v.image_load_addr)
    &&& all_tags_wf(v.custom_tags)
}

/// The tags that a well-formed builder writes are well formed.
pub proof fn lemma_builder_tags_wf(v: BuilderView)
    requires
        builder_view_wf(v),
    ensures
        all_tags_wf(builder_tags(v)),
{
    let p0 = v.cmdline;
    lemma_all_tags_wf_concat(p0, v.bootloader);
    let p1 = p0 + v.bootloader;
    lemma_all_tags_wf_concat(p1, v.modules);
    let p2 = p1 + v.modules;
    lemma_all_tags_wf_concat(p2, v.meminfo);
    let p3 = p2 + v.meminfo;
    lemma_all_tags_wf_concat(p3, v.mmap);
    let p4 = p3 + v.mmap;
    lemma_all_tags_wf_concat(p4, v.vbe);
    let p5 = p4 + v.vbe;
    lemma_all_tags_wf_concat(p5, v.framebuffer);
    let p6 = p5 + v.framebuffer;
    lemma_all_tags_wf_concat(p6, v.elf_sections);
    let p7 = p6 + v.elf_sections;
    lemma_all_tags_wf_concat(p7, v.efi32);
    let p8 = p7 + v.efi32;
    lemma_all_tags_wf_concat(p8, v.efi64);
    let p9 = p8 + v.efi64;
    lemma_all_tags_wf_concat(p9, v.smbios);
    let p10 = p9 + v.smbios;
    lemma_all_tags_wf_concat(p10, v.rsdpv1);
    let p11 = p10 + v.rsdpv1;
    lemma_all_tags_wf_concat(p11, v.rsdpv2);
    let p12 = p11 + v.rsdpv2;
    lemma_all_tags_wf_concat(p12, v.efi_mmap);
    let p13 = p12 + v.efi_mmap;
    lemma_all_tags_wf_concat(p13, v.efi_bs);
    let p14 = p13 + v.efi_bs;
    lemma_all_tags_wf_concat(p14, v.efi32_ih);
    let p15 = p14 + v.efi32_ih;
    lemma_all_tags_wf_concat(p15, v.efi64_ih);
    let p16 = p15 + v.efi64_ih;
    lemma_all_tags_wf_concat(p16, v.image_load_addr);
    let p17 = p16 + v.image_load_addr;
    lemma_all_tags_wf_concat(p17, v.custom_tags);
    let p18 = p17 + v.custom_tags;
}

/// Builder for a Multiboot2 boot information: one slot for each kind of tag,
/// and lists of module, SMBIOS and custom tags.
#[derive(Debug)]
pub struct Builder {
    cmdline: Option<CommandLineTag>,
    bootloader: Option<BootLoaderNameTag>,
    modules: Vec<ModuleTag>,
    meminfo: Option<BasicMemoryInfoTag>,
    mmap: Option<MemoryMapTag>,
    vbe: Option<VBEInfoTag>,
    framebuffer: Option<FramebufferTag>,
    elf_sections: Option<ElfSectionsTag>,
    efi32: Option<EFISdt32Tag>,
    efi64: Option<EFISdt64Tag>,
    smbios: Vec<SmbiosTag>,
    rsdpv1: Option<RsdpV1Tag>,
    rsdpv2: Option<RsdpV2Tag>,
    efi_mmap: Option<EFIMemoryMapTag>,
    efi_bs: Option<EFIBootServicesNotExitedTag>,
    efi32_ih: Option<EFIImageHandle32Tag>,
    efi64_ih: Option<EFIImageHandle64Tag>,
    image_load_addr: Option<ImageLoadPhysAddrTag>,
    custom_tags: Vec<GenericTag>,
}

impl View for Builder {
    type V = BuilderView;

    closed spec fn view(&self) -> BuilderView {
        BuilderView {
            cmdline: opt_bytes::<CommandLineTag>(self.cmdline),
            bootloader: opt_bytes::<BootLoaderNameTag>(self.bootloader),
            modules: vec_bytes::<ModuleTag>(self.modules@),
            meminfo: opt_bytes::<BasicMemoryInfoTag>(self.meminfo),
            mmap: opt_bytes::<MemoryMapTag>(self.mmap),
            vbe: opt_bytes::<VBEInfoTag>(self.vbe),
            framebuffer: opt_bytes::<FramebufferTag>(self.framebuffer),
            elf_sections: opt_bytes::<ElfSectionsTag>(self.elf_sections),
            efi32: opt_bytes::<EFISdt32Tag>(self.efi32),
            efi64: opt_bytes::<EFISdt64Tag>(self.efi64),
            smbios: vec_bytes::<SmbiosTag>(self.smbios@),
            rsdpv1: opt_bytes::<RsdpV1Tag>(self.rsdpv1),
            rsdpv2: opt_bytes::<RsdpV2Tag>(self.rsdpv2),
            efi_mmap: opt_bytes::<EFIMemoryMapTag>(self.efi_mmap),
            efi_bs: opt_bytes::<EFIBootServicesNotExitedTag>(self.efi_bs),
            efi32_ih: opt_bytes::<EFIImageHandle32Tag>(self.efi32_ih),
            efi64_ih: opt_bytes::<EFIImageHandle64Tag>(self.efi64_ih),
            image_load_addr: opt_bytes::<ImageLoadPhysAddrTag>(self.image_load_addr),
            custom_tags: generic_bytes(self.custom_tags@),
        }
    }
}

/// The view of a builder without tags.
pub open spec fn empty_builder_view() -> BuilderView {
    BuilderView {
        cmdline: Seq::empty(),
        bootloader: Seq::empty(),
        modules: Seq::empty(),
        meminfo: Seq::empty(),
        mmap: Seq::empty(),
        vbe: Seq::empty(),
        framebuffer: Seq::empty(),
        elf_sections: Seq::empty(),
        efi32: Seq::empty(),
        efi64: Seq::empty(),
        smbios: Seq::empty(),
        rsdpv1: Seq::empty(),
        rsdpv2: Seq::empty(),
        efi_mmap: Seq::empty(),
        efi_bs: Seq::empty(),
        efi32_ih: Seq::empty(),
        efi64_ih: Seq::empty(),
        image_load_addr: Seq::empty(),
        custom_tags: Seq::empty(),
    }
}

impl Default for Builder {
    fn default() -> (r: Builder)
        ensures
            r@ == empty_builder_view(),
            r.wf(),
    {
        Builder::new()
    }
}

impl Builder {
    /// The tags of every kind are well formed.
    pub open spec fn wf(&self) -> bool {
        builder_view_wf(self@)
    }

    /// Creates a new builder.
    pub fn new() -> (r: Builder)
        ensures
            r@ == empty_builder_view(),
            r.wf(),
    {
        let r = Builder { cmdline: None, bootloader: None, modules: Vec::new(), meminfo: None, mmap: None, vbe: None, framebuffer: None, elf_sections: None, efi32: None, efi64: None, smbios: Vec::new(), rsdpv1: None, rsdpv2: None, efi_mmap: None, efi_bs: None, efi32_ih: None, efi64_ih: None, image_load_addr: None, custom_tags: Vec::new() };
        assert(r@.modules =~= Seq::<Seq<u8>>::empty());
        assert(r@.smbios =~= Seq::<Seq<u8>>::empty());
        assert(r@.custom_tags =~= Seq::<Seq<u8>>::empty());
        r
    }

    /// Sets the [`CommandLineTag`] tag.
    pub fn cmdline(self, cmdline: CommandLineTag) -> (r: Builder)
        requires
            self.wf(),
            CommandLineTag::spec_wf(cmdline@),
        ensures
            r@ == (BuilderView { cmdline: seq![CommandLineTag::spec_bytes(cmdline@)], ..self@ }),
            r.wf(),
    {
        proof {
            CommandLineTag::lemma_roundtrip(cmdline@);
        }
        let r = Builder { cmdline: Some(cmdline), ..self };
        assert(r@.cmdline =~= seq![CommandLineTag::spec_bytes(cmdline@)]);
        r
    }

    /// Sets the [`BootLoaderNameTag`] tag.
    pub fn bootloader(self, bootloader: BootLoaderNameTag) -> (r: Builder)
        requires
            self.wf(),
            BootLoaderNameTag::spec_wf(bootloader@),
        ensures
            r@ == (BuilderView { bootloader: seq![BootLoaderNameTag::spec_bytes(bootloader@)], ..self@ }),
            r.wf(),
    {
        proof {
            BootLoaderNameTag::lemma_roundtrip(bootloader@);
        }
        let r = Builder { bootloader: Some(bootloader), ..self };
        assert(r@.bootloader =~= seq![BootLoaderNameTag::spec_bytes(bootloader@)]);
        r
    }

    /// Adds a [`ModuleTag`] tag.
    pub fn add_module(self, module: ModuleTag) -> (r: Builder)
        requires
            self.wf(),
            ModuleTag::spec_wf(module@),
        ensures
            r@ == (BuilderView { modules: self@.modules.push(ModuleTag::spec_bytes(module@)), ..self@ }),
            r.wf(),
    {
        proof {
            ModuleTag::lemma_roundtrip(module@);
        }
        let mut modules = self.modules;
        modules.push(module);
        let r = Builder { modules, ..self };
        assert(r@.modules =~= self@.modules.push(ModuleTag::spec_bytes(module@)));
        r
    }

    /// Sets the [`BasicMemoryInfoTag`] tag.
    pub fn meminfo(self, meminfo: BasicMemoryInfoTag) -> (r: Builder)
        requires
            self.wf(),
            BasicMemoryInfoTag::spec_wf(meminfo@),
        ensures
            r@ == (BuilderView { meminfo: seq![BasicMemoryInfoTag::spec_bytes(meminfo@)], ..self@ }),
            r.wf(),
    {
        proof {
            BasicMemoryInfoTag::lemma_roundtrip(meminfo@);
        }
        let r = Builder { meminfo: Some(meminfo), ..self };
        assert(r@.meminfo =~= seq![BasicMemoryInfoTag::spec_bytes(meminfo@)]);
        r
    }

    /// Sets the [`MemoryMapTag`] tag.
    pub fn mmap(self, mmap: MemoryMapTag) -> (r: Builder)
        requires
            self.wf(),
            MemoryMapTag::spec_wf(mmap@),
        ensures
            r@ == (BuilderView { mmap: seq![MemoryMapTag::spec_bytes(mmap@)], ..self@ }),
            r.wf(),
    {
        proof {
            MemoryMapTag::lemma_roundtrip(mmap@);
        }
        let r = Builder { mmap: Some(mmap), ..self };
        assert(r@.mmap =~= seq![MemoryMapTag::spec_bytes(mmap@)]);
        r
    }

    /// Sets the [`VBEInfoTag`] tag.
    pub fn vbe(self, vbe: VBEInfoTag) -> (r: Builder)
        requires
            self.wf(),
            VBEInfoTag::spec_wf(vbe@),
        ensures
            r@ == (BuilderView { vbe: seq![VBEInfoTag::spec_bytes(vbe@)], ..self@ }),
            r.wf(),
    {
        proof {
            VBEInfoTag::lemma_roundtrip(vbe@);
        }
        let r = Builder { vbe: Some(vbe), ..self };
        assert(r@.vbe =~= seq![VBEInfoTag::spec_bytes(vbe@)]);
        r
    }

    /// Sets the [`FramebufferTag`] tag.
    pub fn framebuffer(self, framebuffer: FramebufferTag) -> (r: Builder)
        requires
            self.wf(),
            FramebufferTag::spec_wf(framebuffer@),
        ensures
            r@ == (BuilderView { framebuffer: seq![FramebufferTag::spec_bytes(framebuffer@)], ..self@ }),
            r.wf(),
    {
        proof {
            FramebufferTag::lemma_roundtrip(framebuffer@);
        }
        let r = Builder { framebuffer: Some(framebuffer), ..self };
        assert(r@.framebuffer =~= seq![FramebufferTag::spec_bytes(framebuffer@)]);
        r
    }

    /// Sets the [`ElfSectionsTag`] tag.
    pub fn elf_sections(self, elf_sections: ElfSectionsTag) -> (r: Builder)
        requires
            self.wf(),
            ElfSectionsTag::spec_wf(elf_sections@),
        ensures
            r@ == (BuilderView { elf_sections: seq![ElfSectionsTag::spec_bytes(elf_sections@)], ..self@ }),
            r.wf(),
    {
        proof {
            ElfSectionsTag::lemma_roundtrip(elf_sections@);
        }
        let r = Builder { elf_sections: Some(elf_sections), ..self };
        assert(r@.elf_sections =~= seq![ElfSectionsTag::spec_bytes(elf_sections@)]);
        r
    }

    /// Sets the [`EFISdt32Tag`] tag.
    pub fn efi32(self, efi32: EFISdt32Tag) -> (r: Builder)
        requires
            self.wf(),
            EFISdt32Tag::spec_wf(efi32@),
        ensures
            r@ == (BuilderView { efi32: seq![EFISdt32Tag::spec_bytes(efi32@)], ..self@ }),
            r.wf(),
    {
        proof {
            EFISdt32Tag::lemma_roundtrip(efi32@);
        }
        let r = Builder { efi32: Some(efi32), ..self };
        assert(r@.efi32 =~= seq![EFISdt32Tag::spec_bytes(efi32@)]);
        r
    }

    /// Sets the [`EFISdt64Tag`] tag.
    pub fn efi64(self, efi64: EFISdt64Tag) -> (r: Builder)
        requires
            self.wf(),
            EFISdt64Tag::spec_wf(efi64@),
        ensures
            r@ == (BuilderView { efi64: seq![EFISdt64Tag::spec_bytes(efi64@)], ..self@ }),
            r.wf(),
    {
        proof {
            EFISdt64Tag::lemma_roundtrip(efi64@);
        }
        let r = Builder { efi64: Some(efi64), ..self };
        assert(r@.efi64 =~= seq![EFISdt64Tag::spec_bytes(efi64@)]);
        r
    }

    /// Adds a [`SmbiosTag`] tag.
    pub fn add_smbios(self, smbio: SmbiosTag) -> (r: Builder)
        requires
            self.wf(),
            SmbiosTag::spec_wf(smbio@),
        ensures
            r@ == (BuilderView { smbios: self@.smbios.push(SmbiosTag::spec_bytes(smbio@)), ..self@ }),
            r.wf(),
    {
        proof {
            SmbiosTag::lemma_roundtrip(smbio@);
        }
        let mut smbios = self.smbios;
        smbios.push(smbio);
        let r = Builder { smbios, ..self };
        assert(r@.smbios =~= self@.smbios.push(SmbiosTag::spec_bytes(smbio@)));
        r
    }

    /// Sets the [`RsdpV1Tag`] tag.
    pub fn rsdpv1(self, rsdpv1: RsdpV1Tag) -> (r: Builder)
        requires
            self.wf(),
            RsdpV1Tag::spec_wf(rsdpv1@),
        ensures
            r@ == (BuilderView { rsdpv1: seq![RsdpV1Tag::spec_bytes(rsdpv1@)], ..self@ }),
            r.wf(),
    {
        proof {
            RsdpV1Tag::lemma_roundtrip(rsdpv1@);
        }
        let r = Builder { rsdpv1: Some(rsdpv1), ..self };
        assert(r@.rsdpv1 =~= seq![RsdpV1Tag::spec_bytes(rsdpv1@)]);
        r
    }

    /// Sets the [`RsdpV2Tag`] tag.
    pub fn rsdpv2(self, rsdpv2: RsdpV2Tag) -> (r: Builder)
        requires
            self.wf(),
            RsdpV2Tag::spec_wf(rsdpv2@),
        ensures
            r@ == (BuilderView { rsdpv2: seq![RsdpV2Tag::spec_bytes(rsdpv2@)], ..self@ }),
            r.wf(),
    {
        proof {
            RsdpV2Tag::lemma_roundtrip(rsdpv2@);
        }
        let r = Builder { rsdpv2: Some(rsdpv2), ..self };
        assert(r@.rsdpv2 =~= seq![RsdpV2Tag::spec_bytes(rsdpv2@)]);
        r
    }

    /// Sets the [`EFIMemoryMapTag`] tag.
    pub fn efi_mmap(self, efi_mmap: EFIMemoryMapTag) -> (r: Builder)
        requires
            self.wf(),
            EFIMemoryMapTag::spec_wf(efi_mmap@),
        ensures
            r@ == (BuilderView { efi_mmap: seq![EFIMemoryMapTag::spec_bytes(efi_mmap@)], ..self@ }),
            r.wf(),
    {
        proof {
            EFIMemoryMapTag::lemma_roundtrip(efi_mmap@);
        }
        let r = Builder { efi_mmap: Some(efi_mmap), ..self };
        assert(r@.efi_mmap =~= seq![EFIMemoryMapTag::spec_bytes(efi_mmap@)]);
        r
    }

    /// Sets the [`EFIBootServicesNotExitedTag`] tag.
    pub fn efi_bs(self, efi_bs: EFIBootServicesNotExitedTag) -> (r: Builder)
        requires
            self.wf(),
            EFIBootServicesNotExitedTag::spec_wf(efi_bs@),
        ensures
            r@ == (BuilderView { efi_bs: seq![EFIBootServicesNotExitedTag::spec_bytes(efi_bs@)], ..self@ }),
            r.wf(),
    {
        proof {
            EFIBootServicesNotExitedTag::lemma_roundtrip(efi_bs@);
        }
        let r = Builder { efi_bs: Some(efi_bs), ..self };
        assert(r@.efi_bs =~= seq![EFIBootServicesNotExitedTag::spec_bytes(efi_bs@)]);
        r
    }

    /// Sets the [`EFIImageHandle32Tag`] tag.
    pub fn efi32_ih(self, efi32_ih: EFIImageHandle32Tag) -> (r: Builder)
        requires
            self.wf(),
            EFIImageHandle32Tag::spec_wf(efi32_ih@),
        ensures
            r@ == (BuilderView { efi32_ih: seq![EFIImageHandle32Tag::spec_bytes(efi32_ih@)], ..self@ }),
            r.wf(),
    {
        proof {
            EFIImageHandle32Tag::lemma_roundtrip(efi32_ih@);
        }
        let r = Builder { efi32_ih: Some(efi32_ih), ..self };
        assert(r@.efi32_ih =~= seq![EFIImageHandle32Tag::spec_bytes(efi32_ih@)]);
        r
    }

    /// Sets the [`EFIImageHandle64Tag`] tag.
    pub fn efi64_ih(self, efi64_ih: EFIImageHandle64Tag) -> (r: Builder)
        requires
            self.wf(),
            EFIImageHandle64Tag::spec_wf(efi64_ih@),
        ensures
            r@ == (BuilderView { efi64_ih: seq![EFIImageHandle64Tag::spec_bytes(efi64_ih@)], ..self@ }),
            r.wf(),
    {
        proof {
            EFIImageHandle64Tag::lemma_roundtrip(efi64_ih@);
        }
        let r = Builder { efi64_ih: Some(efi64_ih), ..self };
        assert(r@.efi64_ih =~= seq![EFIImageHandle64Tag::spec_bytes(efi64_ih@)]);
        r
    }

    /// Sets the [`ImageLoadPhysAddrTag`] tag.
    pub fn image_load_addr(self, image_load_addr: ImageLoadPhysAddrTag) -> (r: Builder)
        requires
            self.wf(),
            ImageLoadPhysAddrTag::spec_wf(image_load_addr@),
        ensures
            r@ == (BuilderView { image_load_addr: seq![ImageLoadPhysAddrTag::spec_bytes(image_load_addr@)], ..self@ }),
            r.wf(),
    {
        proof {
            ImageLoadPhysAddrTag::lemma_roundtrip(image_load_addr@);
        }
        let r = Builder { image_load_addr: Some(image_load_addr), ..self };
        assert(r@.image_load_addr =~= seq![ImageLoadPhysAddrTag::spec_bytes(image_load_addr@)]);
        r
    }

    /// Adds a custom tag: a tag whose type the specification does not name.
    pub fn add_custom_tag(self, custom_tag: GenericTag) -> (r: Builder)
        requires
            self.wf(),
            custom_tag.wf(),
            tag_typ(custom_tag@) > 21,
        ensures
            r@ == (BuilderView { custom_tags: self@.custom_tags.push(custom_tag@), ..self@ }),
            r.wf(),
    {
        let mut custom_tags = self.custom_tags;
        custom_tags.push(custom_tag);
        let r = Builder { custom_tags, ..self };
        assert(r@.custom_tags =~= self@.custom_tags.push(custom_tag@));
        r
    }

    /// Returns the bytes of a boot information that holds the tags: the
    /// header with the total size, the tags in the order of their kinds, each
    /// padded to a multiple of 8, and the end tag.
    pub fn build(self) -> (r: BootInformationBytes)
        requires
            self.wf(),
            built_len(builder_tags(self@)) <= u32::MAX,
        ensures
            r.spec_bytes() == built_bytes(builder_tags(self@)),
            all_tags_wf(builder_tags(self@)),
    {
        let mut tags: Vec<Vec<u8>> = Vec::new();
        push_opt(&mut tags, &self.cmdline);
        push_opt(&mut tags, &self.bootloader);
        push_each(&mut tags, &self.modules);
        push_opt(&mut tags, &self.meminfo);
        push_opt(&mut tags, &self.mmap);
        push_opt(&mut tags, &self.vbe);
        push_opt(&mut tags, &self.framebuffer);
        push_opt(&mut tags, &self.elf_sections);
        push_opt(&mut tags, &self.efi32);
        push_opt(&mut tags, &self.efi64);
        push_each(&mut tags, &self.smbios);
        push_opt(&mut tags, &self.rsdpv1);
        push_opt(&mut tags, &self.rsdpv2);
        push_opt(&mut tags, &self.efi_mmap);
        push_opt(&mut tags, &self.efi_bs);
        push_opt(&mut tags, &self.efi32_ih);
        push_opt(&mut tags, &self.efi64_ih);
        push_opt(&mut tags, &self.image_load_addr);
        push_each_generic(&mut tags, &self.custom_tags);
        assert(vec_views(tags@) =~= builder_tags(self@));
        proof {
            lemma_builder_tags_wf(self@);
        }
        let bytes = build_from_tags(&tags);
        BootInformationBytes::from_bytes(bytes)
    }
}

} // verus!
