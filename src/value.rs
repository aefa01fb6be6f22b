use vstd::prelude::*;
use vstd::utf8::{decode_utf8, encode_utf8, encode_utf8_decode_utf8, valid_utf8};

use crate::dtype::{accepts, tag_is_container, Accessor, Dtype};
use crate::error::WzError;

verus! {

/// Relies on `std::str::from_utf8`: it succeeds exactly when the bytes are
/// valid UTF-8, and the text it returns is encoded by those same bytes.
#[verifier::external_body]
fn utf8_text(bytes: &[u8]) -> (r: Option<String>)
    ensures
        r is Some <==> valid_utf8(bytes@),
        r matches Some(s) ==> encode_utf8(s@) == bytes@,
{
    match std::str::from_utf8(bytes) {
        Ok(s) => Some(s.to_string()),
        Err(_) => None,
    }
}

/// True when a native text reply is present and is valid UTF-8.
pub open spec fn decodable(raw: Option<Seq<u8>>) -> bool {
    raw matches Some(b) && valid_utf8(b)
}

/// The text a decodable native reply stands for.
pub open spec fn text_of(raw: Option<Seq<u8>>) -> Seq<char> {
    match raw {
        Some(b) => decode_utf8(b),
        None => Seq::empty(),
    }
}

/// The view of an optional byte buffer.
pub open spec fn bytes_view(raw: &Option<Vec<u8>>) -> Option<Seq<u8>> {
    match raw {
        Some(b) => Some(b@),
        None => None,
    }
}

/// Decodes a native text reply: `None` stands for a null pointer, and the
/// bytes are those before the terminating NUL.
pub fn decode_text(raw: &Option<Vec<u8>>) -> (r: Result<String, WzError>)
    ensures
        r is Ok <==> decodable(bytes_view(raw)),
        r matches Ok(s) ==> s@ == text_of(bytes_view(raw)),
        r matches Err(e) ==> e == WzError::DecodeError,
{
    match raw {
        Some(b) => match utf8_text(b.as_slice()) {
            Some(s) => {
                proof {
                    encode_utf8_decode_utf8(s@);
                }
                Ok(s)
            },
            None => Err(WzError::DecodeError),
        },
        None => Err(WzError::DecodeError),
    }
}

/// The name of a node, from the native reply to a name query.
pub fn read_name(raw: &Option<Vec<u8>>) -> (r: Result<String, WzError>)
    ensures
        r is Ok <==> decodable(bytes_view(raw)),
        r matches Ok(s) ==> s@ == text_of(bytes_view(raw)),
        r matches Err(e) ==> e == WzError::DecodeError,
{
    decode_text(raw)
}

/// The string of a node carrying the numeric tag `tag`, from the native
/// reply to a string query.
pub fn read_string(tag: u8, raw: &Option<Vec<u8>>) -> (r: Result<String, WzError>)
    ensures
        !accepts(Accessor::Str, tag) ==> r == Err::<String, WzError>(WzError::TypeError),
        accepts(Accessor::Str, tag) ==> {
            &&& r is Ok <==> decodable(bytes_view(raw))
            &&& r matches Ok(s) ==> s@ == text_of(bytes_view(raw))
            &&& r matches Err(e) ==> e == WzError::DecodeError
        },
{
    if !Accessor::Str.accepts(tag) {
        return Err(WzError::TypeError);
    }
    decode_text(raw)
}

/// The result that accessor `kind` owes for a node with numeric tag `tag`,
/// when the native query answered `status` and wrote `val`.
pub open spec fn scalar_result<T>(kind: Accessor, tag: u8, status: i32, val: T) -> Result<T, WzError> {
    if status == 0 && accepts(kind, tag) {
        Ok(val)
    } else {
        Err(WzError::TypeError)
    }
}

/// Maps the native reply to a scalar query (an integer, a float or a
/// vector) to the accessor's result. The value is taken only when the node's
/// tag is one that the accessor reads and the native status reports success.
pub fn read_scalar<T>(kind: Accessor, tag: u8, status: i32, val: T) -> (r: Result<T, WzError>)
    ensures
        r == scalar_result(kind, tag, status, val),
{
    if status == 0 && kind.accepts(tag) {
        Ok(val)
    } else {
        Err(WzError::TypeError)
    }
}

/// The 32-bit integer of a node tagged `I16` or `I32`.
pub fn read_int32(tag: u8, status: i32, val: i32) -> (r: Result<i32, WzError>)
    ensures
        r == scalar_result(Accessor::Int32, tag, status, val),
{
    read_scalar(Accessor::Int32, tag, status, val)
}

/// The 64-bit integer of a node tagged `I64`.
pub fn read_int64(tag: u8, status: i32, val: i64) -> (r: Result<i64, WzError>)
    ensures
        r == scalar_result(Accessor::Int64, tag, status, val),
{
    read_scalar(Accessor::Int64, tag, status, val)
}

/// The `(x, y)` pair of a node tagged `VEC`.
pub fn read_vector(tag: u8, status: i32, x: i32, y: i32) -> (r: Result<(i32, i32), WzError>)
    ensures
        r == scalar_result(Accessor::Vector, tag, status, (x, y)),
{
    read_scalar(Accessor::Vector, tag, status, (x, y))
}

/// The number of children a node has: the native count for an array or an
/// image whose query succeeded, zero otherwise.
pub open spec fn len_of(tag: u8, status: i32, count: u32) -> u32 {
    if status == 0 && tag_is_container(tag) {
        count
    } else {
        0
    }
}

/// Maps the native reply to a child-count query to the node's length.
pub fn read_len(tag: u8, status: i32, count: u32) -> (r: u32)
    ensures
        r == len_of(tag, status, count),
{
    let container = match Dtype::from_u8(tag) {
        Some(t) => t.is_container(),
        None => false,
    };
    if status == 0 && container {
        count
    } else {
        0
    }
}

/// Maps the native reply to a polygon query to its number of points: the
/// native count for a node tagged `VEX` whose query succeeded, zero otherwise.
pub fn read_vex_len(tag: u8, status: i32, count: u32) -> (r: u32)
    ensures
        r == (if status == 0 && Dtype::spec_from_u8(tag) == Some(Dtype::VEX) { count } else { 0 }),
{
    if status == 0 && Dtype::from_u8(tag) == Some(Dtype::VEX) {
        count
    } else {
        0
    }
}

/// Encodes a path for the native boundary: its UTF-8 bytes followed by a
/// terminating NUL. A path that holds a NUL byte cannot be encoded.
pub fn encode_path(path: &str) -> (r: Result<Vec<u8>, WzError>)
    ensures
        r is Err <==> encode_utf8(path@).contains(0u8),
        r matches Ok(v) ==> v@ == encode_utf8(path@).push(0u8),
        r matches Err(e) ==> e == WzError::InvalidPath,
{
    let b = path.as_bytes();
    let mut out: Vec<u8> = Vec::new();
    let mut i: usize = 0;
    while i < b.len()
        invariant
            b@ == encode_utf8(path@),
            0 <= i <= b@.len(),
            out@ == b@.subrange(0, i as int),
            forall|j: int| 0 <= j < i ==> b@[j] != 0u8,
        decreases b@.len() - i,
    {
        if b[i] == 0u8 {
            return Err(WzError::InvalidPath);
        }
        out.push(b[i]);
        i = i + 1;
    }
    assert(out@ == b@);
    out.push(0u8);
    Ok(out)
}

} // verus!
