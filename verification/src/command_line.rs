//! Module for [`CommandLineTag`].
use crate::tag::{lemma_tag_with_payload, new_tag_bytes, tag_bytes_wf, tag_typ, tag_with_payload, GenericTag, TagTrait, TagType};
use crate::util::{chars_until_nul, has_nul_char, lemma_chars_until_nul_whole, lemma_one_nul, lemma_parse_nul_terminated, nul_terminated, nul_terminated_bytes, parse_slice_as_string, spec_parse_string, StringError};
use vstd::prelude::*;
use vstd::utf8::encode_utf8;

verus! {

/// This tag contains the command line string: a C-style UTF-8
/// zero-terminated string.
#[derive(Clone, Debug)]
pub struct CommandLineTag {
    bytes: Vec<u8>,
}

impl View for CommandLineTag {
    type V = Seq<u8>;

    closed spec fn view(&self) -> Seq<u8> {
        self.bytes@
    }
}

impl CommandLineTag {
    /// The bytes hold a command line tag.
    pub open spec fn wf(&self) -> bool {
        tag_bytes_wf(self@) && tag_typ(self@) == 1
    }

    /// Create a new command line tag from the given string.
    pub fn new(command_line: &str) -> (r: CommandLineTag)
        requires
            encode_utf8(command_line@).len() + 9 <= u32::MAX,
        ensures
            r@ == tag_with_payload(1, nul_terminated(command_line@)),
            r.wf(),
            spec_parse_string(r@.subrange(8, r@.len() as int)) == Ok::<Seq<char>, StringError>(
                chars_until_nul(command_line@),
            ),
            !has_nul_char(command_line@) ==> spec_parse_string(r@.subrange(8, r@.len() as int)) == Ok::<
                Seq<char>,
                StringError,
            >(command_line@) && r@.len() == 8 + encode_utf8(command_line@).len() + 1,
            command_line@.len() > 0 && command_line@.last() == '\0' && !has_nul_char(command_line@.drop_last()) ==> spec_parse_string(
                r@.subrange(8, r@.len() as int),
            ) == Ok::<Seq<char>, StringError>(command_line@.drop_last()) && r@.len() == 8 + encode_utf8(
                command_line@.drop_last(),
            ).len() + 1,
    {
        let payload = nul_terminated_bytes(command_line);
        let bytes = new_tag_bytes(TagType::Cmdline, payload.as_slice());
        proof {
            lemma_command_line_roundtrip(command_line@);
            if !has_nul_char(command_line@) {
                lemma_chars_until_nul_whole(command_line@);
                lemma_one_nul(command_line@);
            }
            if command_line@.len() > 0 && command_line@.last() == '\0' && !has_nul_char(command_line@.drop_last()) {
                assert(command_line@ =~= command_line@.drop_last().push('\0'));
                lemma_one_nul(command_line@.drop_last());
            }
        }
        CommandLineTag { bytes }
    }

    /// Reads the command line of the kernel as Rust string without the
    /// null-byte.
    pub fn cmdline(&self) -> (r: Result<String, StringError>)
        requires
            self.wf(),
        ensures
            r matches Ok(s) ==> spec_parse_string(self@.subrange(8, self@.len() as int))
                == Ok::<Seq<char>, StringError>(s@),
            r matches Err(e) ==> spec_parse_string(self@.subrange(8, self@.len() as int))
                == Err::<Seq<char>, StringError>(e),
    {
        let payload = crate::bytes::copy_range(self.bytes.as_slice(), 8, self.bytes.len());
        parse_slice_as_string(payload.as_slice())
    }

    /// Returns the underlying tag size.
    pub fn size(&self) -> (r: usize)
        requires
            self.wf(),
        ensures
            r == self@.len(),
    {
        self.bytes.len()
    }
}

/// The command line that a new tag is built with is the one it gives back, up
/// to its first NUL character.
pub proof fn lemma_command_line_roundtrip(s: Seq<char>)
    requires
        encode_utf8(s).len() + 9 <= u32::MAX,
    ensures
        ({
            let b = tag_with_payload(1, nul_terminated(s));
            spec_parse_string(b.subrange(8, b.len() as int)) == Ok::<Seq<char>, StringError>(
                chars_until_nul(s),
            )
        }),
{
    let p = nul_terminated(s);
    lemma_tag_with_payload(1, p);
    lemma_parse_nul_terminated(s);
}

impl TagTrait for CommandLineTag {
    open spec fn spec_type() -> TagType {
        TagType::Cmdline
    }

    open spec fn spec_from_bytes(b: Seq<u8>) -> Option<Seq<u8>> {
        if tag_typ(b) == 1 {
            Some(b)
        } else {
            None
        }
    }

    open spec fn spec_bytes(v: Seq<u8>) -> Seq<u8> {
        v
    }

    open spec fn spec_wf(v: Seq<u8>) -> bool {
        tag_bytes_wf(v) && tag_typ(v) == 1
    }

    proof fn lemma_roundtrip(v: Seq<u8>) {
    }

    fn id() -> (r: TagType) {
        TagType::Cmdline
    }

    fn from_generic(tag: &GenericTag) -> (r: Option<CommandLineTag>) {
        if tag.typ().val() == 1 {
            Some(CommandLineTag { bytes: crate::bytes::copy_range(tag.as_bytes(), 0, tag.as_bytes().len()) })
        } else {
            None
        }
    }

    fn as_bytes(&self) -> (r: Vec<u8>) {
        crate::bytes::copy_range(self.bytes.as_slice(), 0, self.bytes.len())
    }
}

} // verus!
