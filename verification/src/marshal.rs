//! Marshalling of an argument list into null-terminated byte buffers.
//!
//! The native entry point takes its arguments as C strings. A C string ends at
//! its first null byte, so an argument that holds one cannot be passed on
//! faithfully and is rejected. Every other argument becomes a buffer of its
//! UTF-8 bytes followed by a single null byte; the buffers keep the order of
//! the arguments, and none is dropped, merged or added.

use vstd::prelude::*;
use vstd::utf8::{
    char_is_scalar, char_u32_cast, encode_scalar, encode_utf8, has_width_1_encoding,
    has_width_2_encoding, has_width_3_encoding, is_scalar,
};

verus! {

/// The bytes hold a null byte.
pub open spec fn has_nul(bytes: Seq<u8>) -> bool {
    exists|k: int| 0 <= k < bytes.len() && bytes[k] == 0u8
}

/// The argument can be marshalled: its UTF-8 encoding is free of null bytes.
pub open spec fn marshallable(arg: Seq<char>) -> bool {
    !has_nul(encode_utf8(arg))
}

/// The buffer that stands for an argument: its UTF-8 bytes, then one null byte.
pub open spec fn c_string(arg: Seq<char>) -> Seq<u8> {
    encode_utf8(arg).push(0u8)
}

/// All of the first `n` arguments can be marshalled.
pub open spec fn marshallable_prefix(args: Seq<String>, n: int) -> bool {
    forall|j: int| 0 <= j < n && j < args.len() ==> marshallable(#[trigger] args[j]@)
}

/// Every argument can be marshalled.
pub open spec fn all_marshallable(args: Seq<String>) -> bool {
    marshallable_prefix(args, args.len() as int)
}

/// The argument table of `args`: one C string per argument, in the order of
/// the arguments.
pub open spec fn argv_of(args: Seq<String>) -> Seq<Seq<u8>> {
    Seq::new(args.len(), |i: int| c_string(args[i]@))
}

/// The contents of a table of buffers, buffer by buffer.
pub open spec fn buffers(argv: Seq<Vec<u8>>) -> Seq<Seq<u8>> {
    Seq::new(argv.len(), |i: int| argv[i]@)
}

/// The buffer is a well-formed C string: it ends with a null byte and holds
/// no other.
pub open spec fn is_c_string(buffer: Seq<u8>) -> bool {
    &&& buffer.len() > 0
    &&& buffer.last() == 0u8
    &&& !has_nul(buffer.drop_last())
}

/// Every buffer of the table is a well-formed C string.
pub open spec fn all_c_strings(argv: Seq<Seq<u8>>) -> bool {
    forall|i: int| 0 <= i < argv.len() ==> is_c_string(#[trigger] argv[i])
}

/// The buffer of an argument that can be marshalled is a well-formed C string,
/// and what stands before its terminator is the argument's UTF-8 encoding: the
/// native side reads back the bytes of the argument, all of them and no more.
pub proof fn lemma_c_string_reads_back(arg: Seq<char>)
    requires
        marshallable(arg),
    ensures
        is_c_string(c_string(arg)),
        c_string(arg).drop_last() == encode_utf8(arg),
        c_string(arg).len() == encode_utf8(arg).len() + 1,
{
    assert(c_string(arg).drop_last() =~= encode_utf8(arg));
}

/// The argument table of a list that can be marshalled has one well-formed C
/// string per argument.
pub proof fn lemma_argv_is_well_formed(args: Seq<String>)
    requires
        all_marshallable(args),
    ensures
        argv_of(args).len() == args.len(),
        all_c_strings(argv_of(args)),
{
    assert forall|i: int| 0 <= i < argv_of(args).len() implies is_c_string(
        #[trigger] argv_of(args)[i],
    ) by {
        lemma_c_string_reads_back(args[i]@);
    }
}

/// The argument holds the character U+0000.
pub open spec fn has_nul_char(arg: Seq<char>) -> bool {
    exists|i: int| 0 <= i < arg.len() && arg[i] == '\0'
}

/// A concatenation holds a null byte exactly when one of its parts does.
proof fn lemma_has_nul_concat(a: Seq<u8>, b: Seq<u8>)
    ensures
        has_nul(a + b) <==> has_nul(a) || has_nul(b),
{
    let ab = a + b;
    if has_nul(a) {
        let k = choose|k: int| 0 <= k < a.len() && a[k] == 0u8;
        assert(ab[k] == 0u8);
    }
    if has_nul(b) {
        let k = choose|k: int| 0 <= k < b.len() && b[k] == 0u8;
        assert(ab[a.len() + k] == 0u8);
    }
    if has_nul(ab) {
        let k = choose|k: int| 0 <= k < ab.len() && ab[k] == 0u8;
        if k < a.len() {
            assert(a[k] == 0u8);
        } else {
            assert(b[k - a.len()] == 0u8);
        }
    }
}

/// The UTF-8 encoding of a scalar holds a null byte exactly when the scalar is
/// zero: every byte of a longer encoding has its high bit set.
proof fn lemma_scalar_has_nul(c: u32)
    requires
        is_scalar(c),
    ensures
        has_nul(encode_scalar(c)) <==> c == 0,
{
    let bytes = encode_scalar(c);
    assert(c <= 0x7F ==> ((c & 0x7F) as u8 == 0u8 <==> c == 0)) by (bit_vector);
    assert((0xC0u8 | ((c >> 6) & 0x1F) as u8) != 0u8) by (bit_vector);
    assert((0xE0u8 | ((c >> 12) & 0x0F) as u8) != 0u8) by (bit_vector);
    assert((0xF0u8 | ((c >> 18) & 0x7) as u8) != 0u8) by (bit_vector);
    assert((0x80u8 | (c & 0x3F) as u8) != 0u8) by (bit_vector);
    assert((0x80u8 | ((c >> 6) & 0x3F) as u8) != 0u8) by (bit_vector);
    assert((0x80u8 | ((c >> 12) & 0x3F) as u8) != 0u8) by (bit_vector);
    if has_width_1_encoding(c) {
        assert(bytes.len() == 1);
        if c == 0 {
            assert(bytes[0] == 0u8);
        }
    } else if has_width_2_encoding(c) {
        assert(bytes.len() == 2);
    } else if has_width_3_encoding(c) {
        assert(bytes.len() == 3);
    } else {
        assert(bytes.len() == 4);
    }
}

/// A null byte in the encoding is the character U+0000 in the text.
///
/// An argument can be marshalled exactly when it does not hold the character
/// U+0000: no other character has a null byte in its UTF-8 encoding.
pub proof fn lemma_null_byte_iff_nul_char(arg: Seq<char>)
    ensures
        marshallable(arg) <==> !has_nul_char(arg),
    decreases arg.len(),
{
    if arg.len() == 0 {
        assert(encode_utf8(arg).len() == 0);
    } else {
        let rest = arg.drop_first();
        lemma_null_byte_iff_nul_char(rest);
        let first = arg[0] as u32;
        char_is_scalar(arg[0]);
        lemma_scalar_has_nul(first);
        lemma_has_nul_concat(encode_scalar(first), encode_utf8(rest));
        assert(arg[0] == '\0' <==> first == 0) by {
            if first == 0 {
                char_u32_cast(arg[0], 0u32);
                char_u32_cast('\0', 0u32);
            }
        }
        if has_nul_char(rest) {
            let i = choose|i: int| 0 <= i < rest.len() && rest[i] == '\0';
            assert(arg[i + 1] == '\0');
        }
        if has_nul_char(arg) {
            let i = choose|i: int| 0 <= i < arg.len() && arg[i] == '\0';
            if i > 0 {
                assert(rest[i - 1] == '\0');
            }
        }
    }
}

/// The failure of marshalling: an argument holds an embedded null byte.
#[derive(Clone, Copy, Debug, PartialEq, Eq, Structural)]
pub struct EncodingError {
    position: usize,
}

impl EncodingError {
    /// The position, in the argument list, of the first argument that holds a
    /// null byte.
    pub closed spec fn spec_position(&self) -> usize {
        self.position
    }

    /// The position, in the argument list, of the first argument that holds a
    /// null byte.
    #[verifier::when_used_as_spec(spec_position)]
    pub fn position(&self) -> (position: usize)
        ensures
            position == self.spec_position(),
    {
        self.position
    }
}

/// Looks for the first null byte in `bytes`.
pub fn find_nul(bytes: &[u8]) -> (found: Option<usize>)
    ensures
        found is None <==> !has_nul(bytes@),
        found matches Some(k) ==> k < bytes@.len() && bytes@[k as int] == 0u8 && !has_nul(
            bytes@.take(k as int),
        ),
{
    let mut k: usize = 0;
    while k < bytes.len()
        invariant
            k <= bytes@.len(),
            !has_nul(bytes@.take(k as int)),
        decreases bytes@.len() - k,
    {
        if bytes[k] == 0 {
            return Some(k);
        }
        proof {
            let shorter = bytes@.take(k as int);
            let longer = bytes@.take(k + 1);
            assert forall|j: int| 0 <= j < longer.len() implies longer[j] != 0u8 by {
                if j < k {
                    assert(shorter[j] == longer[j]);
                }
            }
        }
        k += 1;
    }
    proof {
        assert(bytes@.take(k as int) =~= bytes@);
    }
    None
}

/// Copies the argument's UTF-8 bytes into a fresh buffer and ends it with a
/// null byte.
pub fn to_c_string(arg: &str) -> (buffer: Vec<u8>)
    ensures
        buffer@ == c_string(arg@),
{
    let bytes = arg.as_bytes();
    let mut buffer: Vec<u8> = Vec::with_capacity(bytes.len());
    let mut k: usize = 0;
    while k < bytes.len()
        invariant
            k <= bytes@.len(),
            bytes@ == encode_utf8(arg@),
            buffer@ == bytes@.take(k as int),
        decreases bytes@.len() - k,
    {
        buffer.push(bytes[k]);
        proof {
            assert(bytes@.take(k + 1) =~= bytes@.take(k as int).push(bytes@[k as int]));
        }
        k += 1;
    }
    proof {
        assert(bytes@.take(k as int) =~= bytes@);
    }
    buffer.push(0);
    buffer
}

/// Marshals the argument list.
///
/// Succeeds exactly when no argument holds a null byte, with the argument
/// table of `args`. Fails otherwise, naming the first argument that holds one.
pub fn marshal(args: &[String]) -> (outcome: Result<Vec<Vec<u8>>, EncodingError>)
    ensures
        outcome is Ok <==> all_marshallable(args@),
        outcome matches Ok(argv) ==> buffers(argv@) == argv_of(args@) && all_c_strings(
            buffers(argv@),
        ),
        outcome matches Err(e) ==> {
            &&& e.position() < args@.len()
            &&& !marshallable(args@[e.position() as int]@)
            &&& marshallable_prefix(args@, e.position() as int)
        },
{
    let mut argv: Vec<Vec<u8>> = Vec::with_capacity(args.len());
    let mut i: usize = 0;
    while i < args.len()
        invariant
            i <= args@.len(),
            argv@.len() == i,
            marshallable_prefix(args@, i as int),
            forall|j: int| 0 <= j < i ==> (#[trigger] argv@[j])@ == c_string(args@[j]@),
        decreases args@.len() - i,
    {
        let arg = args[i].as_str();
        if find_nul(arg.as_bytes()).is_some() {
            return Err(EncodingError { position: i });
        }
        argv.push(to_c_string(arg));
        i += 1;
    }
    proof {
        lemma_argv_is_well_formed(args@);
    }
    Ok(argv)
}

} // verus!
