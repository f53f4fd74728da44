//! Turning the byte strings that a contract returns into typed values.
//!
//! A contract answers with a list of byte strings. A type that implements
//! [`Decode`] says which lists it can be read from and which value each one
//! gives. The numbers and booleans are read by the chain's own codec.

use vstd::prelude::*;
use multiversx_sc_codec::TopDecode;
use crate::bytes::{copy_bytes, segments_view};

verus! {

/// The number that a byte string spells, most significant byte first.
pub open spec fn big_endian(bytes: Seq<u8>) -> nat
    decreases bytes.len(),
{
    if bytes.len() == 0 {
        0
    } else {
        256 * big_endian(bytes.drop_last()) + bytes.last() as nat
    }
}

/// The byte strings that the codec reads as a `u64`: those of at most eight
/// bytes.
pub open spec fn spells_u64(bytes: Seq<u8>) -> bool {
    bytes.len() <= 8
}

/// The byte strings that the codec reads as a `u32`: those of at most eight
/// bytes whose number fits in 32 bits.
pub open spec fn spells_u32(bytes: Seq<u8>) -> bool {
    bytes.len() <= 8 && big_endian(bytes) <= u32::MAX
}

/// The byte strings that the codec reads as a `bool`: the empty one and the
/// single bytes 0 and 1.
pub open spec fn spells_bool(bytes: Seq<u8>) -> bool {
    bytes.len() == 0 || (bytes.len() == 1 && bytes[0] <= 1)
}

/// Says that `value`, taken by its view, is what `model` prescribes: the same
/// value where there is one, and none where there is none.
pub open spec fn agrees<T: View>(value: Option<T>, model: Option<T::V>) -> bool {
    match value {
        Some(v) => model == Some(v@),
        None => model is None,
    }
}

/// A type that can be read from the data that a contract returns.
pub trait Decode: Sized + View {
    /// The value that a list of byte strings decodes to, if it decodes.
    spec fn decoded(data: Seq<Seq<u8>>) -> Option<Self::V>;

    /// Reads a value from returned data, as `decoded` prescribes.
    fn decode(data: &Vec<Vec<u8>>) -> (value: Option<Self>)
        ensures
            agrees(value, Self::decoded(segments_view(data@))),
    ;
}

#[verifier::external_type_specification]
#[verifier::external_body]
pub struct ExDecodeError(multiversx_sc_codec::DecodeError);

/// `top_decode` of `multiversx_sc_codec::TopDecode` for `u64`, on an owned
/// buffer. The codec accepts at most eight bytes and reads them as a number,
/// most significant byte first; the empty buffer is zero.
#[verifier::external_body]
fn top_decode_u64(bytes: Vec<u8>) -> (decoded: Result<u64, multiversx_sc_codec::DecodeError>)
    ensures
        (decoded is Ok) == spells_u64(bytes@),
        decoded matches Ok(value) ==> value == big_endian(bytes@),
{
    u64::top_decode(bytes)
}

/// `top_decode` of `multiversx_sc_codec::TopDecode` for `u32`, on an owned
/// buffer. The codec reads at most eight bytes as for `u64` and then refuses
/// a number that does not fit in 32 bits.
#[verifier::external_body]
fn top_decode_u32(bytes: Vec<u8>) -> (decoded: Result<u32, multiversx_sc_codec::DecodeError>)
    ensures
        (decoded is Ok) == spells_u32(bytes@),
        decoded matches Ok(value) ==> value == big_endian(bytes@),
{
    u32::top_decode(bytes)
}

/// `top_decode` of `multiversx_sc_codec::TopDecode` for `bool`, on an owned
/// buffer. The codec reads the empty buffer as false, the single byte 0 as
/// false and the single byte 1 as true, and refuses everything else.
#[verifier::external_body]
fn top_decode_bool(bytes: Vec<u8>) -> (decoded: Result<bool, multiversx_sc_codec::DecodeError>)
    ensures
        (decoded is Ok) == spells_bool(bytes@),
        decoded matches Ok(value) ==> value == (bytes@.len() == 1 && bytes@[0] == 1),
{
    bool::top_decode(bytes)
}

impl Decode for u64 {
    /// The first byte string, of at most eight bytes, read as a number.
    open spec fn decoded(data: Seq<Seq<u8>>) -> Option<u64> {
        if data.len() > 0 && spells_u64(data[0]) {
            Some(big_endian(data[0]) as u64)
        } else {
            None
        }
    }

    fn decode(data: &Vec<Vec<u8>>) -> (value: Option<u64>) {
        if data.len() == 0 {
            return None;
        }
        match top_decode_u64(copy_bytes(&data[0])) {
            Ok(value) => Some(value),
            Err(_) => None,
        }
    }
}

impl Decode for u32 {
    /// The first byte string, of at most eight bytes, read as a number that
    /// fits in 32 bits.
    open spec fn decoded(data: Seq<Seq<u8>>) -> Option<u32> {
        if data.len() > 0 && spells_u32(data[0]) {
            Some(big_endian(data[0]) as u32)
        } else {
            None
        }
    }

    fn decode(data: &Vec<Vec<u8>>) -> (value: Option<u32>) {
        if data.len() == 0 {
            return None;
        }
        match top_decode_u32(copy_bytes(&data[0])) {
            Ok(value) => Some(value),
            Err(_) => None,
        }
    }
}

impl Decode for bool {
    /// The first byte string: empty or the byte 0 for false, the byte 1 for
    /// true.
    open spec fn decoded(data: Seq<Seq<u8>>) -> Option<bool> {
        if data.len() > 0 && spells_bool(data[0]) {
            Some(data[0].len() == 1 && data[0][0] == 1)
        } else {
            None
        }
    }

    fn decode(data: &Vec<Vec<u8>>) -> (value: Option<bool>) {
        if data.len() == 0 {
            return None;
        }
        match top_decode_bool(copy_bytes(&data[0])) {
            Ok(value) => Some(value),
            Err(_) => None,
        }
    }
}

impl Decode for Vec<u8> {
    /// The first byte string, as it is.
    open spec fn decoded(data: Seq<Seq<u8>>) -> Option<Seq<u8>> {
        if data.len() > 0 {
            Some(data[0])
        } else {
            None
        }
    }

    fn decode(data: &Vec<Vec<u8>>) -> (value: Option<Vec<u8>>) {
        if data.len() == 0 {
            return None;
        }
        Some(copy_bytes(&data[0]))
    }
}

impl Decode for () {
    /// Nothing is read: every answer will do, the empty one too.
    open spec fn decoded(data: Seq<Seq<u8>>) -> Option<()> {
        Some(())
    }

    fn decode(data: &Vec<Vec<u8>>) -> (value: Option<()>) {
        Some(())
    }
}

} // verus!
