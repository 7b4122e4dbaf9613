//! The tags of a Multiboot2 header: what a payload asks of the boot loader.
use crate::header::{
    ConsoleHeaderTagFlags, HeaderTagFlag, HeaderTagType, RelocatableHeaderTagPreference,
};
use crate::mbi::MbiTagType;
use vstd::prelude::*;

verus! {

/// Terminates a list of optional tags in a multiboot2 header.
#[derive(Clone, Copy, Debug, PartialEq, Eq, Structural)]
pub struct EndHeaderTag {
    typ: HeaderTagType,
    flags: HeaderTagFlag,
    size: u32,
}

impl EndHeaderTag {
    /// The type field.
    pub closed spec fn spec_typ(&self) -> HeaderTagType {
        self.typ
    }

    /// The flags field.
    pub closed spec fn spec_flags(&self) -> HeaderTagFlag {
        self.flags
    }

    /// The size field.
    pub closed spec fn spec_size(&self) -> u32 {
        self.size
    }

    /// Creates the tag.
    pub fn new() -> (r: EndHeaderTag)
        ensures
            r.spec_typ() == HeaderTagType::End,
            r.spec_flags() == HeaderTagFlag::Required,
            r.spec_size() == 8,
    {
        EndHeaderTag { typ: HeaderTagType::End, flags: HeaderTagFlag::Required, size: 8 }
    }

    /// The type of the tag.
    pub fn typ(&self) -> (r: HeaderTagType)
        ensures
            r == self.spec_typ(),
    {
        self.typ
    }

    /// The flags of the tag.
    pub fn flags(&self) -> (r: HeaderTagFlag)
        ensures
            r == self.spec_flags(),
    {
        self.flags
    }

    /// The size of the tag, in bytes.
    pub fn size(&self) -> (r: u32)
        ensures
            r == self.spec_size(),
    {
        self.size
    }
}

/// This information does not need to be provided if the kernel image is in ELF
/// format, but it must be provided if the image is in a.out format or in some
/// other format. Required for legacy boot (BIOS). Determines load addresses.
#[derive(Clone, Copy, Debug, PartialEq, Eq, Structural)]
pub struct AddressHeaderTag {
    typ: HeaderTagType,
    flags: HeaderTagFlag,
    size: u32,
    header_addr: u32,
    load_addr: u32,
    load_end_addr: u32,
    bss_end_addr: u32,
}

impl AddressHeaderTag {
    /// The type field.
    pub closed spec fn spec_typ(&self) -> HeaderTagType {
        self.typ
    }

    /// The flags field.
    pub closed spec fn spec_flags(&self) -> HeaderTagFlag {
        self.flags
    }

    /// The size field.
    pub closed spec fn spec_size(&self) -> u32 {
        self.size
    }

    /// The physical memory location at which the magic value is supposed to be loaded.
    pub closed spec fn spec_header_addr(&self) -> u32 {
        self.header_addr
    }

    /// The physical address of the beginning of the text segment.
    pub closed spec fn spec_load_addr(&self) -> u32 {
        self.load_addr
    }

    /// The physical address of the end of the data segment.
    pub closed spec fn spec_load_end_addr(&self) -> u32 {
        self.load_end_addr
    }

    /// The physical address of the end of the bss segment.
    pub closed spec fn spec_bss_end_addr(&self) -> u32 {
        self.bss_end_addr
    }

    /// Creates the tag.
    pub fn new(flags: HeaderTagFlag, header_addr: u32, load_addr: u32, load_end_addr: u32, bss_end_addr: u32) -> (r: AddressHeaderTag)
        ensures
            r.spec_typ() == HeaderTagType::Address,
            r.spec_flags() == flags,
            r.spec_size() == 24,
            r.spec_header_addr() == header_addr,
            r.spec_load_addr() == load_addr,
            r.spec_load_end_addr() == load_end_addr,
            r.spec_bss_end_addr() == bss_end_addr,
    {
        AddressHeaderTag { typ: HeaderTagType::Address, flags: flags, size: 24, header_addr, load_addr, load_end_addr, bss_end_addr }
    }

    /// The type of the tag.
    pub fn typ(&self) -> (r: HeaderTagType)
        ensures
            r == self.spec_typ(),
    {
        self.typ
    }

    /// The flags of the tag.
    pub fn flags(&self) -> (r: HeaderTagFlag)
        ensures
            r == self.spec_flags(),
    {
        self.flags
    }

    /// The size of the tag, in bytes.
    pub fn size(&self) -> (r: u32)
        ensures
            r == self.spec_size(),
    {
        self.size
    }

    /// The physical memory location at which the magic value is supposed to be loaded.
    pub fn header_addr(&self) -> (r: u32)
        ensures
            r == self.spec_header_addr(),
    {
        self.header_addr
    }

    /// The physical address of the beginning of the text segment.
    pub fn load_addr(&self) -> (r: u32)
        ensures
            r == self.spec_load_addr(),
    {
        self.load_addr
    }

    /// The physical address of the end of the data segment.
    pub fn load_end_addr(&self) -> (r: u32)
        ensures
            r == self.spec_load_end_addr(),
    {
        self.load_end_addr
    }

    /// The physical address of the end of the bss segment.
    pub fn bss_end_addr(&self) -> (r: u32)
        ensures
            r == self.spec_bss_end_addr(),
    {
        self.bss_end_addr
    }
}

/// Specifies the physical address to which the boot loader should jump in
/// order to start running the operating system. Not needed for ELF files.
#[derive(Clone, Copy, Debug, PartialEq, Eq, Structural)]
pub struct EntryHeaderTag {
    typ: HeaderTagType,
    flags: HeaderTagFlag,
    size: u32,
    entry_addr: u32,
}

impl EntryHeaderTag {
    /// The type field.
    pub closed spec fn spec_typ(&self) -> HeaderTagType {
        self.typ
    }

    /// The flags field.
    pub closed spec fn spec_flags(&self) -> HeaderTagFlag {
        self.flags
    }

    /// The size field.
    pub closed spec fn spec_size(&self) -> u32 {
        self.size
    }

    /// The physical address to which the boot loader should jump.
    pub closed spec fn spec_entry_addr(&self) -> u32 {
        self.entry_addr
    }

    /// Creates the tag.
    pub fn new(flags: HeaderTagFlag, entry_addr: u32) -> (r: EntryHeaderTag)
        ensures
            r.spec_typ() == HeaderTagType::EntryAddress,
            r.spec_flags() == flags,
            r.spec_size() == 12,
            r.spec_entry_addr() == entry_addr,
    {
        EntryHeaderTag { typ: HeaderTagType::EntryAddress, flags: flags, size: 12, entry_addr }
    }

    /// The type of the tag.
    pub fn typ(&self) -> (r: HeaderTagType)
        ensures
            r == self.spec_typ(),
    {
        self.typ
    }

    /// The flags of the tag.
    pub fn flags(&self) -> (r: HeaderTagFlag)
        ensures
            r == self.spec_flags(),
    {
        self.flags
    }

    /// The size of the tag, in bytes.
    pub fn size(&self) -> (r: u32)
        ensures
            r == self.spec_size(),
    {
        self.size
    }

    /// The physical address to which the boot loader should jump.
    pub fn entry_addr(&self) -> (r: u32)
        ensures
            r == self.spec_entry_addr(),
    {
        self.entry_addr
    }
}

/// Tells that a console must be available in MBI. Only relevant for legacy BIOS.
#[derive(Clone, Copy, Debug, PartialEq, Eq, Structural)]
pub struct ConsoleHeaderTag {
    typ: HeaderTagType,
    flags: HeaderTagFlag,
    size: u32,
    console_flags: ConsoleHeaderTagFlags,
}

impl ConsoleHeaderTag {
    /// The type field.
    pub closed spec fn spec_typ(&self) -> HeaderTagType {
        self.typ
    }

    /// The flags field.
    pub closed spec fn spec_flags(&self) -> HeaderTagFlag {
        self.flags
    }

    /// The size field.
    pub closed spec fn spec_size(&self) -> u32 {
        self.size
    }

    /// The console flags.
    pub closed spec fn spec_console_flags(&self) -> ConsoleHeaderTagFlags {
        self.console_flags
    }

    /// Creates the tag.
    pub fn new(flags: HeaderTagFlag, console_flags: ConsoleHeaderTagFlags) -> (r: ConsoleHeaderTag)
        ensures
            r.spec_typ() == HeaderTagType::ConsoleFlags,
            r.spec_flags() == flags,
            r.spec_size() == 12,
            r.spec_console_flags() == console_flags,
    {
        ConsoleHeaderTag { typ: HeaderTagType::ConsoleFlags, flags: flags, size: 12, console_flags }
    }

    /// The type of the tag.
    pub fn typ(&self) -> (r: HeaderTagType)
        ensures
            r == self.spec_typ(),
    {
        self.typ
    }

    /// The flags of the tag.
    pub fn flags(&self) -> (r: HeaderTagFlag)
        ensures
            r == self.spec_flags(),
    {
        self.flags
    }

    /// The size of the tag, in bytes.
    pub fn size(&self) -> (r: u32)
        ensures
            r == self.spec_size(),
    {
        self.size
    }

    /// The console flags.
    pub fn console_flags(&self) -> (r: ConsoleHeaderTagFlags)
        ensures
            r == self.spec_console_flags(),
    {
        self.console_flags
    }
}

/// Specifies the preferred graphics mode. If this tag is present the bootloader
/// assumes that the payload has framebuffer support. Note: This is only a
/// recommended mode. Only relevant on legacy BIOS.
#[derive(Clone, Copy, Debug, PartialEq, Eq, Structural)]
pub struct FramebufferHeaderTag {
    typ: HeaderTagType,
    flags: HeaderTagFlag,
    size: u32,
    width: u32,
    height: u32,
    depth: u32,
}

impl FramebufferHeaderTag {
    /// The type field.
    pub closed spec fn spec_typ(&self) -> HeaderTagType {
        self.typ
    }

    /// The flags field.
    pub closed spec fn spec_flags(&self) -> HeaderTagFlag {
        self.flags
    }

    /// The size field.
    pub closed spec fn spec_size(&self) -> u32 {
        self.size
    }

    /// The preferred width.
    pub closed spec fn spec_width(&self) -> u32 {
        self.width
    }

    /// The preferred height.
    pub closed spec fn spec_height(&self) -> u32 {
        self.height
    }

    /// The preferred depth.
    pub closed spec fn spec_depth(&self) -> u32 {
        self.depth
    }

    /// Creates the tag.
    pub fn new(flags: HeaderTagFlag, width: u32, height: u32, depth: u32) -> (r: FramebufferHeaderTag)
        ensures
            r.spec_typ() == HeaderTagType::Framebuffer,
            r.spec_flags() == flags,
            r.spec_size() == 20,
            r.spec_width() == width,
            r.spec_height() == height,
            r.spec_depth() == depth,
    {
        FramebufferHeaderTag { typ: HeaderTagType::Framebuffer, flags: flags, size: 20, width, height, depth }
    }

    /// The type of the tag.
    pub fn typ(&self) -> (r: HeaderTagType)
        ensures
            r == self.spec_typ(),
    {
        self.typ
    }

    /// The flags of the tag.
    pub fn flags(&self) -> (r: HeaderTagFlag)
        ensures
            r == self.spec_flags(),
    {
        self.flags
    }

    /// The size of the tag, in bytes.
    pub fn size(&self) -> (r: u32)
        ensures
            r == self.spec_size(),
    {
        self.size
    }

    /// The preferred width.
    pub fn width(&self) -> (r: u32)
        ensures
            r == self.spec_width(),
    {
        self.width
    }

    /// The preferred height.
    pub fn height(&self) -> (r: u32)
        ensures
            r == self.spec_height(),
    {
        self.height
    }

    /// The preferred depth.
    pub fn depth(&self) -> (r: u32)
        ensures
            r == self.spec_depth(),
    {
        self.depth
    }
}

/// If this tag is present modules must be page aligned.
#[derive(Clone, Copy, Debug, PartialEq, Eq, Structural)]
pub struct ModuleAlignHeaderTag {
    typ: HeaderTagType,
    flags: HeaderTagFlag,
    size: u32,
}

impl ModuleAlignHeaderTag {
    /// The type field.
    pub closed spec fn spec_typ(&self) -> HeaderTagType {
        self.typ
    }

    /// The flags field.
    pub closed spec fn spec_flags(&self) -> HeaderTagFlag {
        self.flags
    }

    /// The size field.
    pub closed spec fn spec_size(&self) -> u32 {
        self.size
    }

    /// Creates the tag.
    pub fn new(flags: HeaderTagFlag) -> (r: ModuleAlignHeaderTag)
        ensures
            r.spec_typ() == HeaderTagType::ModuleAlign,
            r.spec_flags() == flags,
            r.spec_size() == 8,
    {
        ModuleAlignHeaderTag { typ: HeaderTagType::ModuleAlign, flags: flags, size: 8 }
    }

    /// The type of the tag.
    pub fn typ(&self) -> (r: HeaderTagType)
        ensures
            r == self.spec_typ(),
    {
        self.typ
    }

    /// The flags of the tag.
    pub fn flags(&self) -> (r: HeaderTagFlag)
        ensures
            r == self.spec_flags(),
    {
        self.flags
    }

    /// The size of the tag, in bytes.
    pub fn size(&self) -> (r: u32)
        ensures
            r == self.spec_size(),
    {
        self.size
    }
}

/// This tag indicates that payload supports starting without terminating UEFI
/// boot services.
#[derive(Clone, Copy, Debug, PartialEq, Eq, Structural)]
pub struct EfiBootServiceHeaderTag {
    typ: HeaderTagType,
    flags: HeaderTagFlag,
    size: u32,
}

impl EfiBootServiceHeaderTag {
    /// The type field.
    pub closed spec fn spec_typ(&self) -> HeaderTagType {
        self.typ
    }

    /// The flags field.
    pub closed spec fn spec_flags(&self) -> HeaderTagFlag {
        self.flags
    }

    /// The size field.
    pub closed spec fn spec_size(&self) -> u32 {
        self.size
    }

    /// Creates the tag.
    pub fn new(flags: HeaderTagFlag) -> (r: EfiBootServiceHeaderTag)
        ensures
            r.spec_typ() == HeaderTagType::EfiBS,
            r.spec_flags() == flags,
            r.spec_size() == 8,
    {
        EfiBootServiceHeaderTag { typ: HeaderTagType::EfiBS, flags: flags, size: 8 }
    }

    /// The type of the tag.
    pub fn typ(&self) -> (r: HeaderTagType)
        ensures
            r == self.spec_typ(),
    {
        self.typ
    }

    /// The flags of the tag.
    pub fn flags(&self) -> (r: HeaderTagFlag)
        ensures
            r == self.spec_flags(),
    {
        self.flags
    }

    /// The size of the tag, in bytes.
    pub fn size(&self) -> (r: u32)
        ensures
            r == self.spec_size(),
    {
        self.size
    }
}

/// This tag is taken into account only on EFI i386 platforms when Multiboot2
/// image header contains EFI boot services tag. Then entry point specified in
/// ELF header and the entry address tag of Multiboot2 header are ignored.
#[derive(Clone, Copy, Debug, PartialEq, Eq, Structural)]
pub struct EntryEfi32HeaderTag {
    typ: HeaderTagType,
    flags: HeaderTagFlag,
    size: u32,
    entry_addr: u32,
}

impl EntryEfi32HeaderTag {
    /// The type field.
    pub closed spec fn spec_typ(&self) -> HeaderTagType {
        self.typ
    }

    /// The flags field.
    pub closed spec fn spec_flags(&self) -> HeaderTagFlag {
        self.flags
    }

    /// The size field.
    pub closed spec fn spec_size(&self) -> u32 {
        self.size
    }

    /// The entry address on EFI i386 platforms.
    pub closed spec fn spec_entry_addr(&self) -> u32 {
        self.entry_addr
    }

    /// Creates the tag.
    pub fn new(flags: HeaderTagFlag, entry_addr: u32) -> (r: EntryEfi32HeaderTag)
        ensures
            r.spec_typ() == HeaderTagType::EntryAddressEFI32,
            r.spec_flags() == flags,
            r.spec_size() == 12,
            r.spec_entry_addr() == entry_addr,
    {
        EntryEfi32HeaderTag { typ: HeaderTagType::EntryAddressEFI32, flags: flags, size: 12, entry_addr }
    }

    /// The type of the tag.
    pub fn typ(&self) -> (r: HeaderTagType)
        ensures
            r == self.spec_typ(),
    {
        self.typ
    }

    /// The flags of the tag.
    pub fn flags(&self) -> (r: HeaderTagFlag)
        ensures
            r == self.spec_flags(),
    {
        self.flags
    }

    /// The size of the tag, in bytes.
    pub fn size(&self) -> (r: u32)
        ensures
            r == self.spec_size(),
    {
        self.size
    }

    /// The entry address on EFI i386 platforms.
    pub fn entry_addr(&self) -> (r: u32)
        ensures
            r == self.spec_entry_addr(),
    {
        self.entry_addr
    }
}

/// This tag is taken into account only on EFI amd64 platforms when Multiboot2
/// image header contains EFI boot services tag. Then entry point specified in
/// ELF header and the entry address tag of Multiboot2 header are ignored.
#[derive(Clone, Copy, Debug, PartialEq, Eq, Structural)]
pub struct EntryEfi64HeaderTag {
    typ: HeaderTagType,
    flags: HeaderTagFlag,
    size: u32,
    entry_addr: u32,
}

impl EntryEfi64HeaderTag {
    /// The type field.
    pub closed spec fn spec_typ(&self) -> HeaderTagType {
        self.typ
    }

    /// The flags field.
    pub closed spec fn spec_flags(&self) -> HeaderTagFlag {
        self.flags
    }

    /// The size field.
    pub closed spec fn spec_size(&self) -> u32 {
        self.size
    }

    /// The entry address on EFI amd64 platforms.
    pub closed spec fn spec_entry_addr(&self) -> u32 {
        self.entry_addr
    }

    /// Creates the tag.
    pub fn new(flags: HeaderTagFlag, entry_addr: u32) -> (r: EntryEfi64HeaderTag)
        ensures
            r.spec_typ() == HeaderTagType::EntryAddressEFI64,
            r.spec_flags() == flags,
            r.spec_size() == 12,
            r.spec_entry_addr() == entry_addr,
    {
        EntryEfi64HeaderTag { typ: HeaderTagType::EntryAddressEFI64, flags: flags, size: 12, entry_addr }
    }

    /// The type of the tag.
    pub fn typ(&self) -> (r: HeaderTagType)
        ensures
            r == self.spec_typ(),
    {
        self.typ
    }

    /// The flags of the tag.
    pub fn flags(&self) -> (r: HeaderTagFlag)
        ensures
            r == self.spec_flags(),
    {
        self.flags
    }

    /// The size of the tag, in bytes.
    pub fn size(&self) -> (r: u32)
        ensures
            r == self.spec_size(),
    {
        self.size
    }

    /// The entry address on EFI amd64 platforms.
    pub fn entry_addr(&self) -> (r: u32)
        ensures
            r == self.spec_entry_addr(),
    {
        self.entry_addr
    }
}

/// This tag indicates that the image is relocatable.
#[derive(Clone, Copy, Debug, PartialEq, Eq, Structural)]
pub struct RelocatableHeaderTag {
    typ: HeaderTagType,
    flags: HeaderTagFlag,
    size: u32,
    min_addr: u32,
    max_addr: u32,
    align: u32,
    preference: RelocatableHeaderTagPreference,
}

impl RelocatableHeaderTag {
    /// The type field.
    pub closed spec fn spec_typ(&self) -> HeaderTagType {
        self.typ
    }

    /// The flags field.
    pub closed spec fn spec_flags(&self) -> HeaderTagFlag {
        self.flags
    }

    /// The size field.
    pub closed spec fn spec_size(&self) -> u32 {
        self.size
    }

    /// The lowest address at which the image may be loaded.
    pub closed spec fn spec_min_addr(&self) -> u32 {
        self.min_addr
    }

    /// The highest address at which the image may end.
    pub closed spec fn spec_max_addr(&self) -> u32 {
        self.max_addr
    }

    /// The alignment of the image.
    pub closed spec fn spec_align(&self) -> u32 {
        self.align
    }

    /// Where the image should preferably be placed.
    pub closed spec fn spec_preference(&self) -> RelocatableHeaderTagPreference {
        self.preference
    }

    /// Creates the tag.
    pub fn new(flags: HeaderTagFlag, min_addr: u32, max_addr: u32, align: u32, preference: RelocatableHeaderTagPreference) -> (r: RelocatableHeaderTag)
        ensures
            r.spec_typ() == HeaderTagType::Relocatable,
            r.spec_flags() == flags,
            r.spec_size() == 24,
            r.spec_min_addr() == min_addr,
            r.spec_max_addr() == max_addr,
            r.spec_align() == align,
            r.spec_preference() == preference,
    {
        RelocatableHeaderTag { typ: HeaderTagType::Relocatable, flags: flags, size: 24, min_addr, max_addr, align, preference }
    }

    /// The type of the tag.
    pub fn typ(&self) -> (r: HeaderTagType)
        ensures
            r == self.spec_typ(),
    {
        self.typ
    }

    /// The flags of the tag.
    pub fn flags(&self) -> (r: HeaderTagFlag)
        ensures
            r == self.spec_flags(),
    {
        self.flags
    }

    /// The size of the tag, in bytes.
    pub fn size(&self) -> (r: u32)
        ensures
            r == self.spec_size(),
    {
        self.size
    }

    /// The lowest address at which the image may be loaded.
    pub fn min_addr(&self) -> (r: u32)
        ensures
            r == self.spec_min_addr(),
    {
        self.min_addr
    }

    /// The highest address at which the image may end.
    pub fn max_addr(&self) -> (r: u32)
        ensures
            r == self.spec_max_addr(),
    {
        self.max_addr
    }

    /// The alignment of the image.
    pub fn align(&self) -> (r: u32)
        ensures
            r == self.spec_align(),
    {
        self.align
    }

    /// Where the image should preferably be placed.
    pub fn preference(&self) -> (r: RelocatableHeaderTagPreference)
        ensures
            r == self.spec_preference(),
    {
        self.preference
    }
}

/// Specifies what specific tag types the bootloader should provide inside the
/// boot information.
#[derive(Clone, Copy, Debug)]
pub struct InformationRequestHeaderTag<const N: usize> {
    typ: HeaderTagType,
    flags: HeaderTagFlag,
    size: u32,
    requests: [MbiTagType; N],
}

impl<const N: usize> InformationRequestHeaderTag<N> {
    /// The type field.
    pub closed spec fn spec_typ(&self) -> HeaderTagType {
        self.typ
    }

    /// The flags field.
    pub closed spec fn spec_flags(&self) -> HeaderTagFlag {
        self.flags
    }

    /// The size field.
    pub closed spec fn spec_size(&self) -> u32 {
        self.size
    }

    /// The requested tag types.
    pub closed spec fn spec_requests(&self) -> Seq<MbiTagType> {
        self.requests@
    }

    /// The size field covers the header and the requests.
    pub closed spec fn wf(&self) -> bool {
        &&& self.size == 8 + 4 * N
        &&& self.requests@.len() == N
    }

    /// Creates the tag.
    pub fn new(flags: HeaderTagFlag, requests: [MbiTagType; N]) -> (r: InformationRequestHeaderTag<N>)
        requires
            8 + 4 * N <= u32::MAX,
        ensures
            r.wf(),
            r.spec_typ() == HeaderTagType::InformationRequest,
            r.spec_flags() == flags,
            r.spec_size() == 8 + 4 * N,
            r.spec_requests() == requests@,
    {
        proof {
            vstd::array::array_len_matches_n(&requests);
        }
        InformationRequestHeaderTag {
            typ: HeaderTagType::InformationRequest,
            flags,
            size: (8 + 4 * N) as u32,
            requests,
        }
    }

    /// The type of the tag.
    pub fn typ(&self) -> (r: HeaderTagType)
        ensures
            r == self.spec_typ(),
    {
        self.typ
    }

    /// The flags of the tag.
    pub fn flags(&self) -> (r: HeaderTagFlag)
        ensures
            r == self.spec_flags(),
    {
        self.flags
    }

    /// The size of the tag, in bytes.
    pub fn size(&self) -> (r: u32)
        ensures
            r == self.spec_size(),
    {
        self.size
    }

    /// Returns a copy of the requested tag types.
    pub fn requests(&self) -> (r: [MbiTagType; N])
        ensures
            r@ == self.spec_requests(),
    {
        self.requests
    }

    /// Returns an iterator over the requested tag types: as many as the size
    /// field covers.
    pub fn req_iter(&self) -> (r: InformationRequestHeaderTagIter<'_>)
        requires
            self.wf(),
        ensures
            r.inv(),
            r.remaining() == self.spec_requests(),
    {
        let count = (self.size - 8) / 4;
        let r = InformationRequestHeaderTagIter { requests: self.requests.as_slice(), i: 0, count };
        assert(r.remaining() =~= self.spec_requests());
        r
    }
}

/// An iterator over the tag types that an [`InformationRequestHeaderTag`]
/// requests.
#[derive(Clone, Copy, Debug)]
pub struct InformationRequestHeaderTagIter<'a> {
    requests: &'a [MbiTagType],
    i: u32,
    count: u32,
}

impl<'a> InformationRequestHeaderTagIter<'a> {
    /// The position is within the requests.
    pub closed spec fn inv(&self) -> bool {
        self.i <= self.count <= self.requests@.len()
    }

    /// The requested tag types that are still to come.
    pub closed spec fn remaining(&self) -> Seq<MbiTagType> {
        self.requests@.subrange(self.i as int, self.count as int)
    }

    /// Returns the next requested tag type.
    pub fn next(&mut self) -> (r: Option<MbiTagType>)
        requires
            old(self).inv(),
        ensures
            final(self).inv(),
            old(self).remaining().len() == 0 ==> r is None && final(self).remaining().len() == 0,
            old(self).remaining().len() > 0 ==> r == Some(old(self).remaining()[0])
                && final(self).remaining() == old(self).remaining().drop_first(),
    {
        if self.i < self.count {
            let t = self.requests[self.i as usize];
            let ghost old_rem = self.remaining();
            self.i = self.i + 1;
            assert(self.remaining() =~= old_rem.drop_first());
            Some(t)
        } else {
            None
        }
    }
}

} // verus!
