//! Reading a collection's metadata record from its account bytes.
//!
//! The mint entry point copies name, symbol and uri out of an existing
//! metadata account. The account serializes, in order: a one-byte
//! discriminator, the 32-byte update authority, the 32-byte mint, and
//! then the three strings, each as a little-endian 32-bit byte length
//! followed by that many UTF-8 bytes. The reader below extracts exactly
//! those three strings and fails on a truncated record or invalid UTF-8,
//! as the account deserializer it stands in for does.

use vstd::prelude::*;
use vstd::utf8::decode_utf8;
use vstd::utf8::valid_utf8;

use crate::metadata::MetadataData;

verus! {

/// Where the name field starts: after the discriminator and the two
/// 32-byte addresses.
pub const NAME_OFFSET: usize = 65;

/// The little-endian 32-bit integer at position `i`.
pub open spec fn u32_le(b: Seq<u8>, i: int) -> int {
    b[i] + 0x100 * b[i + 1] + 0x10000 * b[i + 2] + 0x1000000 * b[i + 3]
}

/// Where the string field starting at `start` ends: past its four length
/// bytes and the bytes they count.
pub open spec fn field_end(b: Seq<u8>, start: int) -> int {
    start + 4 + u32_le(b, start)
}

/// The content bytes of the string field starting at `start`.
pub open spec fn field_bytes(b: Seq<u8>, start: int) -> Seq<u8> {
    b.subrange(start + 4, field_end(b, start))
}

/// The string field starting at `start` lies within the record and its
/// content is valid UTF-8.
pub open spec fn field_wf(b: Seq<u8>, start: int) -> bool {
    &&& start + 4 <= b.len()
    &&& field_end(b, start) <= b.len()
    &&& valid_utf8(field_bytes(b, start))
}

/// Where the symbol field starts: right after the name field.
pub open spec fn symbol_offset(b: Seq<u8>) -> int {
    field_end(b, NAME_OFFSET as int)
}

/// Where the uri field starts: right after the symbol field.
pub open spec fn uri_offset(b: Seq<u8>) -> int {
    field_end(b, symbol_offset(b))
}

/// The record holds its three well-formed string fields.
pub open spec fn metadata_bytes_wf(b: Seq<u8>) -> bool {
    &&& field_wf(b, NAME_OFFSET as int)
    &&& field_wf(b, symbol_offset(b))
    &&& field_wf(b, uri_offset(b))
}

/// Reads the little-endian 32-bit integer at position `i`.
fn read_u32_le(bytes: &[u8], i: usize) -> (r: u32)
    requires
        i + 4 <= bytes@.len(),
    ensures
        r == u32_le(bytes@, i as int),
{
    let b0 = bytes[i] as u32;
    let b1 = bytes[i + 1] as u32;
    let b2 = bytes[i + 2] as u32;
    let b3 = bytes[i + 3] as u32;
    b0 + 0x100 * b1 + 0x10000 * b2 + 0x1000000 * b3
}

/// Copies `bytes[start..end]` into a fresh vector.
fn copy_range(bytes: &[u8], start: usize, end: usize) -> (r: Vec<u8>)
    requires
        start <= end <= bytes@.len(),
    ensures
        r@ == bytes@.subrange(start as int, end as int),
{
    let mut v: Vec<u8> = Vec::new();
    let mut i: usize = start;
    while i < end
        invariant
            start <= i <= end <= bytes@.len(),
            v@ == bytes@.subrange(start as int, i as int),
        decreases end - i,
    {
        v.push(bytes[i]);
        proof {
            assert(v@ =~= bytes@.subrange(start as int, (i + 1) as int));
        }
        i = i + 1;
    }
    v
}

/// Relies on String::from_utf8: it succeeds exactly on valid UTF-8 input
/// and returns the string those bytes encode.
#[verifier::external_body]
fn bytes_to_string(v: Vec<u8>) -> (r: Option<String>)
    ensures
        r matches Some(s) ==> valid_utf8(v@) && s@ == decode_utf8(v@),
        r is None ==> !valid_utf8(v@),
{
    String::from_utf8(v).ok()
}

/// Reads the string field starting at `start`: its content as a string,
/// and where the next field starts.
fn read_string_field(bytes: &[u8], start: usize) -> (r: Option<(String, usize)>)
    ensures
        r matches Some(p) ==> ({
            &&& field_wf(bytes@, start as int)
            &&& p.0@ == decode_utf8(field_bytes(bytes@, start as int))
            &&& p.1 == field_end(bytes@, start as int)
        }),
        r is None ==> !field_wf(bytes@, start as int),
{
    if bytes.len() < 4 || start > bytes.len() - 4 {
        return None;
    }
    let n = read_u32_le(bytes, start) as usize;
    if n > bytes.len() - (start + 4) {
        return None;
    }
    let end = start + 4 + n;
    let content = copy_range(bytes, start + 4, end);
    match bytes_to_string(content) {
        Some(s) => Some((s, end)),
        None => None,
    }
}

/// Reads a collection's name, symbol and uri out of its metadata account
/// bytes. Returns the three strings exactly as the record encodes them,
/// and nothing on a truncated record or invalid UTF-8.
pub fn parse_collection_metadata(bytes: &[u8]) -> (r: Option<MetadataData>)
    ensures
        r matches Some(d) ==> ({
            &&& metadata_bytes_wf(bytes@)
            &&& d.name@ == decode_utf8(field_bytes(bytes@, NAME_OFFSET as int))
            &&& d.symbol@ == decode_utf8(field_bytes(bytes@, symbol_offset(bytes@)))
            &&& d.uri@ == decode_utf8(field_bytes(bytes@, uri_offset(bytes@)))
        }),
        r is None ==> !metadata_bytes_wf(bytes@),
{
    let name_field = match read_string_field(bytes, NAME_OFFSET) {
        Some(f) => f,
        None => {
            return None;
        },
    };
    let symbol_field = match read_string_field(bytes, name_field.1) {
        Some(f) => f,
        None => {
            return None;
        },
    };
    let uri_field = match read_string_field(bytes, symbol_field.1) {
        Some(f) => f,
        None => {
            return None;
        },
    };
    Some(MetadataData { name: name_field.0, symbol: symbol_field.0, uri: uri_field.0 })
}

} // verus!
