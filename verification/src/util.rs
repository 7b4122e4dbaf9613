//! Parsing of the NUL-terminated UTF-8 strings that several tags carry.
use crate::bytes::copy_range;
use vstd::prelude::*;
use vstd::utf8::{
    decode_utf8, encode_scalar, encode_utf8, encode_utf8_decode_utf8, encode_utf8_valid_utf8,
    is_scalar, valid_utf8, char_is_scalar,
};

verus! {

/// Error type describing failures when parsing the string from a tag.
#[derive(Clone, Copy, Debug, PartialEq, Eq, Structural)]
pub enum StringError {
    /// There is no terminating NUL character, although the specification
    /// requires one.
    MissingNul,
    /// The sequence until the first NUL character is not valid UTF-8.
    Utf8,
}

/// The index of the first zero byte of `b`, or `b.len()` if there is none.
pub open spec fn nul_pos(b: Seq<u8>) -> int
    decreases b.len(),
{
    if b.len() == 0 {
        0
    } else if b[0] == 0 {
        0
    } else {
        1 + nul_pos(b.drop_first())
    }
}

/// What [`parse_slice_as_string`] gives for the bytes `b`.
pub open spec fn spec_parse_string(b: Seq<u8>) -> Result<Seq<char>, StringError> {
    let p = nul_pos(b);
    if p == b.len() {
        Err(StringError::MissingNul)
    } else if valid_utf8(b.subrange(0, p)) {
        Ok(decode_utf8(b.subrange(0, p)))
    } else {
        Err(StringError::Utf8)
    }
}

/// The characters of `s` before its first NUL character (all of `s` if it has none).
pub open spec fn chars_until_nul(s: Seq<char>) -> Seq<char>
    decreases s.len(),
{
    if s.len() == 0 {
        s
    } else if s[0] as u32 == 0 {
        seq![]
    } else {
        seq![s[0]] + chars_until_nul(s.drop_first())
    }
}

/// `s` has a NUL character.
pub open spec fn has_nul_char(s: Seq<char>) -> bool {
    exists|i: int| 0 <= i < s.len() && s[i] as u32 == 0
}

/// A string without a NUL character is kept whole up to its first NUL.
pub proof fn lemma_chars_until_nul_whole(s: Seq<char>)
    requires
        !has_nul_char(s),
    ensures
        chars_until_nul(s) == s,
    decreases s.len(),
{
    if s.len() > 0 {
        let t = s.drop_first();
        assert(!has_nul_char(t)) by {
            if has_nul_char(t) {
                let i = choose|i: int| 0 <= i < t.len() && t[i] as u32 == 0;
                assert(s[i + 1] == t[i]);
            }
        }
        assert(s[0] as u32 != 0) by {
            if s[0] as u32 == 0 {
                assert(has_nul_char(s));
            }
        }
        lemma_chars_until_nul_whole(t);
        assert(seq![s[0]] + t =~= s);
    }
}

pub proof fn lemma_nul_pos_bounds(b: Seq<u8>)
    ensures
        0 <= nul_pos(b) <= b.len(),
        nul_pos(b) < b.len() ==> b[nul_pos(b)] == 0,
        forall|j: int| 0 <= j < nul_pos(b) ==> b[j] != 0,
    decreases b.len(),
{
    if b.len() > 0 && b[0] != 0 {
        lemma_nul_pos_bounds(b.drop_first());
        assert forall|j: int| 0 <= j < nul_pos(b) implies b[j] != 0 by {
            if j > 0 {
                assert(b[j] == b.drop_first()[j - 1]);
            }
        }
    }
}

pub proof fn lemma_nul_pos_is(b: Seq<u8>, i: int)
    requires
        0 <= i <= b.len(),
        i < b.len() ==> b[i] == 0,
        forall|j: int| 0 <= j < i ==> b[j] != 0,
    ensures
        nul_pos(b) == i,
    decreases b.len(),
{
    if b.len() > 0 && b[0] != 0 {
        assert forall|j: int| 0 <= j < i - 1 implies b.drop_first()[j] != 0 by {
            assert(b.drop_first()[j] == b[j + 1]);
        }
        lemma_nul_pos_is(b.drop_first(), i - 1);
    }
}

pub proof fn lemma_nul_pos_append(a: Seq<u8>, t: Seq<u8>)
    requires
        forall|j: int| 0 <= j < a.len() ==> a[j] != 0,
    ensures
        nul_pos(a + t) == a.len() + nul_pos(t),
{
    lemma_nul_pos_bounds(t);
    let c = a + t;
    assert forall|j: int| 0 <= j < a.len() + nul_pos(t) implies c[j] != 0 by {
        if j >= a.len() {
            assert(c[j] == t[j - a.len()]);
        }
    }
    if nul_pos(t) < t.len() {
        assert(c[a.len() + nul_pos(t)] == t[nul_pos(t)]);
    }
    lemma_nul_pos_is(c, a.len() + nul_pos(t));
}

/// The UTF-8 encoding of a character other than NUL has no zero byte, and the
/// encoding of NUL is the single zero byte.
pub proof fn lemma_encode_scalar_nul(c: u32)
    requires
        is_scalar(c),
    ensures
        encode_scalar(c).len() >= 1,
        c == 0 ==> encode_scalar(c) =~= seq![0u8],
        c != 0 ==> forall|j: int| 0 <= j < encode_scalar(c).len() ==> #[trigger] encode_scalar(c)[j] != 0,
{
    if c <= 0x7F {
        assert(c <= 0x7F && c != 0 ==> (c & 0x7F) as u8 != 0) by (bit_vector);
        assert(c == 0 ==> (c & 0x7F) as u8 == 0) by (bit_vector);
    } else {
        assert(forall|x: u8| #![auto] (0xC0u8 | x) != 0) by (bit_vector);
        assert(forall|x: u8| #![auto] (0xE0u8 | x) != 0) by (bit_vector);
        assert(forall|x: u8| #![auto] (0xF0u8 | x) != 0) by (bit_vector);
        assert(forall|x: u8| #![auto] (0x80u8 | x) != 0) by (bit_vector);
    }
}

/// Where the first zero byte of an encoded string followed by more bytes lies.
pub proof fn lemma_nul_pos_encode(s: Seq<char>, t: Seq<u8>)
    ensures
        has_nul_char(s) ==> nul_pos(encode_utf8(s) + t) == encode_utf8(chars_until_nul(s)).len(),
        !has_nul_char(s) ==> nul_pos(encode_utf8(s) + t) == encode_utf8(s).len() + nul_pos(t),
        !has_nul_char(s) ==> chars_until_nul(s) == s,
        encode_utf8(s) + t =~= encode_utf8(chars_until_nul(s)) + (encode_utf8(s).subrange(
            encode_utf8(chars_until_nul(s)).len() as int,
            encode_utf8(s).len() as int,
        ) + t),
        encode_utf8(chars_until_nul(s)).len() <= encode_utf8(s).len(),
        has_nul_char(s) ==> encode_utf8(chars_until_nul(s)).len() < encode_utf8(s).len(),
        encode_utf8(s).subrange(0, encode_utf8(chars_until_nul(s)).len() as int)
            == encode_utf8(chars_until_nul(s)),
    decreases s.len(),
{
    if s.len() == 0 {
        assert(encode_utf8(s) =~= Seq::<u8>::empty());
        assert(encode_utf8(s) + t =~= t);
    } else {
        let c = s[0];
        char_is_scalar(c);
        let head = encode_scalar(c as u32);
        let rest = s.drop_first();
        lemma_encode_scalar_nul(c as u32);
        lemma_nul_pos_encode(rest, t);
        assert(encode_utf8(s) == head + encode_utf8(rest));
        if c as u32 == 0 {
            assert(has_nul_char(s));
            assert(chars_until_nul(s) =~= Seq::<char>::empty());
            assert(encode_utf8(chars_until_nul(s)) =~= Seq::<u8>::empty());
            let all = encode_utf8(s) + t;
            assert(all[0] == 0);
            lemma_nul_pos_is(all, 0);
        } else {
            assert(has_nul_char(s) <==> has_nul_char(rest)) by {
                if has_nul_char(s) {
                    let i = choose|i: int| 0 <= i < s.len() && s[i] as u32 == 0;
                    assert(rest[i - 1] == s[i]);
                }
                if has_nul_char(rest) {
                    let i = choose|i: int| 0 <= i < rest.len() && rest[i] as u32 == 0;
                    assert(s[i + 1] == rest[i]);
                }
            }
            assert(chars_until_nul(s) == seq![c] + chars_until_nul(rest));
            let u = chars_until_nul(s);
            assert(u.drop_first() =~= chars_until_nul(rest));
            assert(encode_utf8(u) == head + encode_utf8(chars_until_nul(rest)));
            assert(head + (encode_utf8(rest) + t) =~= encode_utf8(s) + t);
            lemma_nul_pos_append(head, encode_utf8(rest) + t);
            if !has_nul_char(rest) {
                assert(seq![c] + rest =~= s);
            }
            assert(encode_utf8(s).subrange(0, encode_utf8(u).len() as int) =~= encode_utf8(u));
        }
    }
}

/// Parsing the encoding of `s` followed by a zero byte and more bytes gives
/// the characters of `s` up to its first NUL character.
pub proof fn lemma_parse_encoded_string(s: Seq<char>, t: Seq<u8>)
    requires
        has_nul_char(s) || (t.len() > 0 && t[0] == 0),
    ensures
        spec_parse_string(encode_utf8(s) + t) == Ok::<Seq<char>, StringError>(chars_until_nul(s)),
{
    lemma_nul_pos_encode(s, t);
    let b = encode_utf8(s) + t;
    let u = chars_until_nul(s);
    let p = nul_pos(b);
    if !has_nul_char(s) {
        lemma_nul_pos_is(t, 0);
    }
    assert(p == encode_utf8(u).len());
    assert(p < b.len());
    assert(b.subrange(0, p) =~= encode_utf8(u));
    encode_utf8_valid_utf8(u);
    encode_utf8_decode_utf8(u);
}

/// The UTF-8 bytes of `s`, with a terminating zero byte appended unless
/// they already end with one.
pub open spec fn nul_terminated(s: Seq<char>) -> Seq<u8> {
    let b = encode_utf8(s);
    if b.len() > 0 && b.last() == 0 {
        b
    } else {
        b + seq![0u8]
    }
}

/// Parsing a string stored as [`nul_terminated`] gives back its characters up
/// to the first NUL character.
pub proof fn lemma_parse_nul_terminated(s: Seq<char>)
    ensures
        spec_parse_string(nul_terminated(s)) == Ok::<Seq<char>, StringError>(chars_until_nul(s)),
{
    let b = encode_utf8(s);
    if b.len() > 0 && b.last() == 0 {
        lemma_nul_pos_encode(s, Seq::<u8>::empty());
        assert(b + Seq::<u8>::empty() =~= b);
        if !has_nul_char(s) {
            lemma_nul_pos_bounds(Seq::<u8>::empty());
            lemma_nul_pos_bounds(b);
        }
        lemma_parse_encoded_string(s, Seq::<u8>::empty());
    } else {
        lemma_parse_encoded_string(s, seq![0u8]);
    }
}

/// A string without a NUL character, and the same string followed by one
/// NUL character, are both stored as its UTF-8 bytes and one zero byte, and
/// both are kept up to that NUL: the string itself comes back.
pub proof fn lemma_one_nul(s: Seq<char>)
    requires
        !has_nul_char(s),
    ensures
        chars_until_nul(s.push('\0')) == s,
        encode_utf8(s.push('\0')) == encode_utf8(s) + seq![0u8],
        nul_terminated(s.push('\0')) == encode_utf8(s) + seq![0u8],
        nul_terminated(s) == encode_utf8(s) + seq![0u8],
    decreases s.len(),
{
    let t = s.push('\0');
    char_is_scalar('\0');
    lemma_encode_scalar_nul(0);
    if s.len() == 0 {
        assert(t.drop_first() =~= Seq::<char>::empty());
        assert(encode_utf8(Seq::<char>::empty()) =~= Seq::<u8>::empty());
        assert(encode_utf8(t) =~= seq![0u8]);
        assert(encode_utf8(s) =~= Seq::<u8>::empty());
        assert(encode_utf8(t) =~= encode_utf8(s) + seq![0u8]);
    } else {
        let c = s[0];
        let rest = s.drop_first();
        assert(!has_nul_char(rest)) by {
            if has_nul_char(rest) {
                let i = choose|i: int| 0 <= i < rest.len() && rest[i] as u32 == 0;
                assert(s[i + 1] == rest[i]);
            }
        }
        assert(c as u32 != 0) by {
            if c as u32 == 0 {
                assert(has_nul_char(s));
            }
        }
        lemma_one_nul(rest);
        assert(t.drop_first() =~= rest.push('\0'));
        assert(t[0] == c);
        assert(encode_utf8(t) =~= encode_utf8(s) + seq![0u8]);
        assert(chars_until_nul(t) =~= seq![c] + rest);
        assert(seq![c] + rest =~= s);
    }
    let b = encode_utf8(s);
    lemma_nul_pos_encode(s, Seq::<u8>::empty());
    assert(b + Seq::<u8>::empty() =~= b);
    lemma_nul_pos_bounds(b);
    lemma_nul_pos_bounds(Seq::<u8>::empty());
    let bt = encode_utf8(t);
    assert(bt.last() == 0);
}

/// The UTF-8 bytes of `s` with a terminating zero byte, as [`nul_terminated`].
pub fn nul_terminated_bytes(s: &str) -> (r: Vec<u8>)
    ensures
        r@ == nul_terminated(s@),
{
    let b = s.as_bytes();
    let mut r = copy_range(b, 0, b.len());
    assert(b@.subrange(0, b@.len() as int) =~= b@);
    if b.len() > 0 && b[b.len() - 1] == 0 {
        r
    } else {
        r.push(0);
        r
    }
}

/// The error type of `core::str::from_utf8`.
#[verifier::external_type_specification]
#[verifier::external_body]
pub struct ExUtf8Error(core::str::Utf8Error);

/// Calls `core::str::from_utf8`: it succeeds exactly on valid UTF-8, and then
/// the string's bytes are the given bytes. Nothing is stated of the error
/// value.
#[verifier::external_body]
pub(crate) fn str_from_utf8(v: &[u8]) -> (r: Result<&str, core::str::Utf8Error>)
    ensures
        r is Ok <==> valid_utf8(v@),
        r matches Ok(s) ==> encode_utf8(s@) == v@,
{
    core::str::from_utf8(v)
}

/// Parses the provided byte sequence as Multiboot string: the bytes until the
/// first NUL byte, decoded as UTF-8.
pub fn parse_slice_as_string(bytes: &[u8]) -> (r: Result<String, StringError>)
    ensures
        r matches Ok(s) ==> spec_parse_string(bytes@) == Ok::<Seq<char>, StringError>(s@),
        r matches Err(e) ==> spec_parse_string(bytes@) == Err::<Seq<char>, StringError>(e),
{
    let mut i: usize = 0;
    while i < bytes.len() && bytes[i] != 0
        invariant
            i <= bytes@.len(),
            forall|j: int| 0 <= j < i ==> bytes@[j] != 0,
        decreases bytes@.len() - i,
    {
        i = i + 1;
    }
    proof {
        lemma_nul_pos_is(bytes@, i as int);
    }
    if i == bytes.len() {
        return Err(StringError::MissingNul);
    }
    let prefix = copy_range(bytes, 0, i);
    match str_from_utf8(prefix.as_slice()) {
        Ok(s) => {
            proof {
                encode_utf8_decode_utf8(s@);
            }
            Ok(s.to_owned())
        },
        Err(_) => Err(StringError::Utf8),
    }
}

} // verus!
