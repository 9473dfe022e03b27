//! Marshaling between Rust text and null-terminated native buffers.
//!
//! Going out, text becomes its UTF-8 bytes followed by one zero byte; text
//! that holds a zero byte has no such form and is refused. Coming in, a
//! buffer is read up to its first zero byte and decoded as UTF-8, with
//! replacement characters where the bytes are not valid UTF-8. A null
//! pointer is `None` on both sides and never an empty string.

use std::borrow::Cow;
use vstd::prelude::*;
use vstd::slice::slice_subrange;
use vstd::string::StringSliceAdditionalSpecFns;
use vstd::utf8::{decode_utf8, encode_utf8, valid_utf8};

verus! {

/// The text could not be marshaled because it holds a null byte.
#[derive(Clone, Copy, Debug, PartialEq, Eq, Structural)]
pub struct NulError {
    /// Index of the first null byte in the text's UTF-8 encoding.
    pub position: usize,
}

/// A list of arguments could not be marshaled.
#[derive(Clone, Copy, Debug, PartialEq, Eq, Structural)]
pub enum ArgsError {
    /// There are more arguments than a native argument count can hold.
    TooMany,
    /// The argument at `index` holds a null byte at `position`.
    Nul { index: usize, position: usize },
}

/// What was read from a buffer that the native side allocated for the
/// caller, and whether the buffer is now to be freed.
#[derive(Clone, Debug, PartialEq, Eq)]
pub struct OwnedText {
    /// The text that was copied out of the buffer, `None` for a null
    /// pointer.
    pub text: Option<String>,
    /// True when the buffer must be handed to the native free function,
    /// once. A null pointer is not freed.
    pub free: bool,
}

/// A marshaled argument list: the count and the terminated strings.
///
/// An empty list is passed to the native side as count 0 with a null
/// pointer.
pub struct NativeArgs {
    pub argc: i32,
    pub argv: Vec<Vec<u8>>,
}

/// True when no byte of `bytes` is zero.
pub open spec fn nul_free(bytes: Seq<u8>) -> bool {
    forall|i: int| 0 <= i < bytes.len() ==> bytes[i] != 0u8
}

/// The native form of `bytes`: the same bytes followed by one terminator.
pub open spec fn terminated(bytes: Seq<u8>) -> Seq<u8> {
    bytes.push(0u8)
}

/// Index of the first zero byte of `bytes`, or its length if it has none.
pub open spec fn first_nul(bytes: Seq<u8>) -> int
    decreases bytes.len(),
{
    if bytes.len() == 0 || bytes[0] == 0u8 {
        0
    } else {
        1 + first_nul(bytes.drop_first())
    }
}

/// The string that a native reader finds in `buf`: the bytes before the
/// first zero byte.
pub open spec fn c_str(buf: Seq<u8>) -> Seq<u8> {
    buf.subrange(0, first_nul(buf))
}

/// What `String::from_utf8_lossy` makes of the given bytes.
pub uninterp spec fn utf8_lossy(bytes: Seq<u8>) -> Seq<char>;

/// The text that native bytes stand for: their UTF-8 decoding where they
/// are valid UTF-8, and the lossy decoding otherwise.
pub open spec fn text_of(bytes: Seq<u8>) -> Seq<char> {
    if valid_utf8(bytes) {
        decode_utf8(bytes)
    } else {
        utf8_lossy(bytes)
    }
}

/// The text of an optional native string: nothing for the null pointer,
/// else the text of the bytes before the buffer's first zero byte.
pub open spec fn native_text(p: Option<&[u8]>) -> Option<Seq<char>> {
    match p {
        None => None,
        Some(buf) => Some(text_of(c_str(buf@))),
    }
}

/// The native integer for a boolean argument: 1 for `true`, 0 for `false`.
pub open spec fn flag_of(b: bool) -> i32 {
    if b {
        1i32
    } else {
        0i32
    }
}

/// `first_nul` is the one index before which every byte is nonzero and at
/// which the bytes end or hold a zero.
pub proof fn lemma_first_nul_unique(bytes: Seq<u8>, n: int)
    requires
        0 <= n <= bytes.len(),
        forall|i: int| 0 <= i < n ==> bytes[i] != 0u8,
        n < bytes.len() ==> bytes[n] == 0u8,
    ensures
        first_nul(bytes) == n,
    decreases bytes.len(),
{
    if n > 0 {
        let rest = bytes.drop_first();
        assert forall|i: int| 0 <= i < n - 1 implies rest[i] != 0u8 by {
            assert(rest[i] == bytes[i + 1]);
        }
        lemma_first_nul_unique(rest, n - 1);
    }
}

/// `first_nul` lies within the bytes, no byte before it is zero, and the
/// byte at it, if there is one, is zero.
pub proof fn lemma_first_nul_is_first(bytes: Seq<u8>)
    ensures
        0 <= first_nul(bytes) <= bytes.len(),
        forall|i: int| 0 <= i < first_nul(bytes) ==> bytes[i] != 0u8,
        first_nul(bytes) < bytes.len() ==> bytes[first_nul(bytes)] == 0u8,
        nul_free(bytes) <==> first_nul(bytes) == bytes.len(),
    decreases bytes.len(),
{
    if bytes.len() == 0 || bytes[0] == 0u8 {
    } else {
        let rest = bytes.drop_first();
        lemma_first_nul_is_first(rest);
        assert forall|i: int| 0 <= i < first_nul(bytes) implies bytes[i] != 0u8 by {
            if i > 0 {
                assert(bytes[i] == rest[i - 1]);
            }
        }
        if first_nul(bytes) < bytes.len() {
            assert(bytes[first_nul(bytes)] == rest[first_nul(rest)]);
        }
    }
}

/// Converts a boolean into the integer that the native interface expects.
pub fn flag(b: bool) -> (r: i32)
    ensures
        r == flag_of(b),
{
    if b {
        1
    } else {
        0
    }
}

/// Converts text to a null-terminated buffer.
///
/// Fails exactly when the text holds a null byte, and then reports where
/// the first one is.
pub fn to_cstr(s: &str) -> (r: Result<Vec<u8>, NulError>)
    ensures
        r is Ok <==> nul_free(s.spec_bytes()),
        r matches Ok(out) ==> out@ == terminated(s.spec_bytes()),
        r matches Err(e) ==> e.position == first_nul(s.spec_bytes()),
{
    let bytes = s.as_bytes();
    let mut out: Vec<u8> = Vec::new();
    let mut i: usize = 0;
    while i < bytes.len()
        invariant
            i <= bytes.len(),
            bytes@ == s.spec_bytes(),
            out@ == bytes@.subrange(0, i as int),
            forall|j: int| 0 <= j < i ==> bytes@[j] != 0u8,
        decreases bytes.len() - i,
    {
        let b = bytes[i];
        if b == 0 {
            proof {
                lemma_first_nul_unique(bytes@, i as int);
            }
            return Err(NulError { position: i });
        }
        out.push(b);
        i = i + 1;
    }
    assert(bytes@.subrange(0, bytes.len() as int) == bytes@);
    out.push(0u8);
    Ok(out)
}

/// Marshals an optional list of arguments.
///
/// `None` and the empty list both give count 0 and no strings. Fails when
/// the list is too long for a native count, else at the first argument
/// that holds a null byte.
pub fn to_cstr_array(args: &Option<Vec<String>>) -> (r: Result<NativeArgs, ArgsError>)
    ensures
        r is Ok <==> args_marshal(args_of(*args)),
        r matches Ok(native) ==> is_marshaled(*args, native),
        r matches Err(e) ==> e == args_error(args_of(*args)),
{
    let mut argv: Vec<Vec<u8>> = Vec::new();
    match args {
        None => Ok(NativeArgs { argc: 0, argv }),
        Some(list) => {
            if list.len() > 0x7fff_ffff {
                return Err(ArgsError::TooMany);
            }
            let ghost texts = args_of(*args);
            assert(texts.len() == list@.len());
            let mut i: usize = 0;
            while i < list.len()
                invariant
                    i <= list.len() <= 0x7fff_ffff,
                    texts == args_of(*args),
                    texts.len() == list@.len(),
                    forall|k: int| 0 <= k < list@.len() ==> texts[k] == #[trigger] list@[k]@,
                    argv@.len() == i,
                    forall|k: int| 0 <= k < i ==> nul_free(encode_utf8(#[trigger] texts[k])),
                    forall|k: int|
                        0 <= k < i ==> #[trigger] argv@[k]@ == terminated(encode_utf8(texts[k])),
                decreases list.len() - i,
            {
                assert(texts[i as int] == list@[i as int]@);
                match to_cstr(list[i].as_str()) {
                    Ok(c) => {
                        argv.push(c);
                    },
                    Err(e) => {
                        proof {
                            lemma_first_bad(texts, i as int);
                        }
                        return Err(ArgsError::Nul { index: i, position: e.position });
                    },
                }
                i = i + 1;
            }
            proof {
                assert forall|k: int| 0 <= k < texts.len() implies nul_free(
                    encode_utf8(#[trigger] texts[k]),
                ) by {}
            }
            Ok(NativeArgs { argc: list.len() as i32, argv })
        },
    }
}

/// True when `native` is the marshaled form of the argument list `args`.
pub open spec fn is_marshaled(args: Option<Vec<String>>, native: NativeArgs) -> bool {
    &&& native.argc == args_of(args).len()
    &&& native.argv@.len() == args_of(args).len()
    &&& forall|k: int|
        0 <= k < args_of(args).len() ==> #[trigger] native.argv@[k]@ == terminated(
            encode_utf8(args_of(args)[k]),
        )
}

/// The texts of an optional argument list; `None` is the empty list.
pub open spec fn args_of(args: Option<Vec<String>>) -> Seq<Seq<char>> {
    match args {
        None => Seq::empty(),
        Some(list) => Seq::new(list@.len(), |k: int| list@[k]@),
    }
}

/// True when a list of texts can be marshaled: its length fits a native
/// count and no text holds a null byte.
pub open spec fn args_marshal(texts: Seq<Seq<char>>) -> bool {
    &&& texts.len() <= 0x7fff_ffff
    &&& forall|k: int| 0 <= k < texts.len() ==> nul_free(encode_utf8(#[trigger] texts[k]))
}

/// Index of the first text that holds a null byte, or the length of the
/// list if none does.
pub open spec fn first_bad(texts: Seq<Seq<char>>) -> int
    decreases texts.len(),
{
    if texts.len() == 0 || !nul_free(encode_utf8(texts[0])) {
        0
    } else {
        1 + first_bad(texts.drop_first())
    }
}

/// The error for a list of texts that cannot be marshaled.
pub open spec fn args_error(texts: Seq<Seq<char>>) -> ArgsError {
    if texts.len() > 0x7fff_ffff {
        ArgsError::TooMany
    } else {
        ArgsError::Nul {
            index: first_bad(texts) as usize,
            position: first_nul(encode_utf8(texts[first_bad(texts)])) as usize,
        }
    }
}

/// `first_bad` is the index of a text with a null byte before which no
/// text has one.
pub proof fn lemma_first_bad(texts: Seq<Seq<char>>, n: int)
    requires
        0 <= n < texts.len(),
        forall|k: int| 0 <= k < n ==> nul_free(encode_utf8(#[trigger] texts[k])),
        !nul_free(encode_utf8(texts[n])),
    ensures
        first_bad(texts) == n,
    decreases texts.len(),
{
    if n > 0 {
        let rest = texts.drop_first();
        assert forall|k: int| 0 <= k < n - 1 implies nul_free(
            encode_utf8(#[trigger] rest[k]),
        ) by {
            assert(rest[k] == texts[k + 1]);
        }
        assert(rest[n - 1] == texts[n]);
        lemma_first_bad(rest, n - 1);
    }
}

/// Decodes bytes as text, replacing what is not valid UTF-8.
///
/// Calls `String::from_utf8_lossy`. Trusted: the result is a function of
/// the bytes alone, and on valid UTF-8 it is the decoded text, as the
/// function's documentation says.
#[verifier::external_body]
fn from_utf8_lossy<'a>(bytes: &'a [u8]) -> (text: Cow<'a, str>)
    ensures
        text@ == utf8_lossy(bytes@),
        valid_utf8(bytes@) ==> text@ == decode_utf8(bytes@),
{
    String::from_utf8_lossy(bytes)
}

/// Reads the string in a native buffer without taking the buffer over.
///
/// `None` stands for the null pointer and gives `None`. Otherwise the
/// result is the text of the bytes before the buffer's first zero byte.
pub fn from_cstr_ref<'a>(p: Option<&'a [u8]>) -> (r: Option<Cow<'a, str>>)
    ensures
        r.deep_view() == native_text(p),
{
    match p {
        None => None,
        Some(buf) => {
            let mut n: usize = 0;
            while n < buf.len() && buf[n] != 0
                invariant
                    n <= buf.len(),
                    forall|j: int| 0 <= j < n ==> buf@[j] != 0u8,
                decreases buf.len() - n,
            {
                n = n + 1;
            }
            proof {
                lemma_first_nul_unique(buf@, n as int);
            }
            Some(from_utf8_lossy(slice_subrange(buf, 0, n)))
        },
    }
}

/// Reads the string in a native buffer into owned text.
///
/// Same reading as [`from_cstr_ref`]; the result does not borrow the buffer.
pub fn from_cstr(p: Option<&[u8]>) -> (r: Option<String>)
    ensures
        r.deep_view() == native_text(p),
{
    match from_cstr_ref(p) {
        None => None,
        Some(Cow::Borrowed(s)) => Some(s.to_owned()),
        Some(Cow::Owned(s)) => Some(s),
    }
}

/// Reads the string in a native buffer that belongs to the caller.
///
/// Same reading as [`from_cstr`]. The text is copied, so the buffer is of
/// no more use: unless the pointer was null, it is to be freed.
pub fn from_cstr_owned(p: Option<&[u8]>) -> (r: OwnedText)
    ensures
        r.text.deep_view() == native_text(p),
        r.free == p is Some,
{
    OwnedText { text: from_cstr(p), free: p.is_some() }
}

/// Marshaling text and reading it back gives the text: the buffer made
/// from text without a null byte holds that text again.
pub proof fn lemma_round_trip(text: Seq<char>)
    requires
        nul_free(encode_utf8(text)),
    ensures
        c_str(terminated(encode_utf8(text))) == encode_utf8(text),
        text_of(c_str(terminated(encode_utf8(text)))) == text,
        forall|buf: &[u8]|
            buf@ == terminated(encode_utf8(text)) ==> #[trigger] native_text(Some(buf)) == Some(
                text,
            ),
{
    let bytes = encode_utf8(text);
    let buf = terminated(bytes);
    lemma_first_nul_unique(buf, bytes.len() as int);
    assert(buf.subrange(0, bytes.len() as int) == bytes);
    vstd::utf8::encode_utf8_valid_utf8(text);
    vstd::utf8::encode_utf8_decode_utf8(text);
}

} // verus!
