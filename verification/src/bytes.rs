//! Byte strings and lists of byte strings, with their mathematical views.

use vstd::prelude::*;

verus! {

/// The contents of a list of byte strings, each taken by its view.
pub open spec fn segments_view(segments: Seq<Vec<u8>>) -> Seq<Seq<u8>> {
    Seq::new(segments.len(), |i: int| segments[i]@)
}

/// Tells whether two byte strings hold the same bytes.
pub fn bytes_eq(a: &Vec<u8>, b: &Vec<u8>) -> (same: bool)
    ensures
        same == (a@ == b@),
{
    if a.len() != b.len() {
        return false;
    }
    let mut i: usize = 0;
    while i < a.len()
        invariant
            i <= a.len(),
            a.len() == b.len(),
            forall|j: int| 0 <= j < i ==> a@[j] == b@[j],
        decreases a.len() - i,
    {
        if a[i] != b[i] {
            return false;
        }
        i += 1;
    }
    assert(a@ =~= b@);
    true
}

/// Copies a byte string.
pub fn copy_bytes(a: &Vec<u8>) -> (copy: Vec<u8>)
    ensures
        copy@ == a@,
{
    let mut copy: Vec<u8> = Vec::with_capacity(a.len());
    let mut i: usize = 0;
    while i < a.len()
        invariant
            i <= a.len(),
            copy@ == a@.subrange(0, i as int),
        decreases a.len() - i,
    {
        copy.push(a[i]);
        assert(copy@ =~= a@.subrange(0, i + 1));
        i += 1;
    }
    assert(a@.subrange(0, a.len() as int) =~= a@);
    copy
}

/// Tells whether two lists hold the same byte strings in the same order.
pub fn segments_eq(a: &Vec<Vec<u8>>, b: &Vec<Vec<u8>>) -> (same: bool)
    ensures
        same == (segments_view(a@) == segments_view(b@)),
{
    if a.len() != b.len() {
        assert(segments_view(a@).len() != segments_view(b@).len());
        return false;
    }
    let mut i: usize = 0;
    while i < a.len()
        invariant
            i <= a.len(),
            a.len() == b.len(),
            forall|j: int| 0 <= j < i ==> a@[j]@ == b@[j]@,
        decreases a.len() - i,
    {
        if !bytes_eq(&a[i], &b[i]) {
            assert(segments_view(a@)[i as int] != segments_view(b@)[i as int]);
            return false;
        }
        i += 1;
    }
    assert(segments_view(a@) =~= segments_view(b@));
    true
}

/// Copies a list of byte strings.
pub fn copy_segments(a: &Vec<Vec<u8>>) -> (copy: Vec<Vec<u8>>)
    ensures
        segments_view(copy@) == segments_view(a@),
{
    let mut copy: Vec<Vec<u8>> = Vec::with_capacity(a.len());
    let mut i: usize = 0;
    while i < a.len()
        invariant
            i <= a.len(),
            copy.len() == i,
            forall|j: int| 0 <= j < i ==> copy@[j]@ == a@[j]@,
        decreases a.len() - i,
    {
        copy.push(copy_bytes(&a[i]));
        i += 1;
    }
    assert(segments_view(copy@) =~= segments_view(a@));
    copy
}

/// The character code of the hexadecimal digit for a number below 16:
/// `0` to `9`, then `a` to `f`.
pub open spec fn hex_digit(nibble: u8) -> u8 {
    if nibble < 10 {
        (48 + nibble) as u8
    } else {
        (87 + nibble) as u8
    }
}

/// A byte string in hexadecimal: two digits for each byte, the high half
/// first, as character codes.
pub open spec fn hex_text(bytes: Seq<u8>) -> Seq<u8> {
    Seq::new(
        2 * bytes.len(),
        |i: int|
            hex_digit(
                if i % 2 == 0 {
                    bytes[i / 2] / 16
                } else {
                    bytes[i / 2] % 16
                },
            ),
    )
}

fn hex_digit_of(nibble: u8) -> (digit: u8)
    requires
        nibble < 16,
    ensures
        digit == hex_digit(nibble),
{
    if nibble < 10 {
        48 + nibble
    } else {
        87 + nibble
    }
}

/// Writes a byte string in hexadecimal, as gateways take arguments.
pub fn hex_encode(bytes: &Vec<u8>) -> (text: Vec<u8>)
    ensures
        text@ == hex_text(bytes@),
{
    let mut text: Vec<u8> = Vec::new();
    let mut i: usize = 0;
    while i < bytes.len()
        invariant
            i <= bytes.len(),
            text@.len() == 2 * i,
            forall|j: int| 0 <= j < 2 * i ==> text@[j] == hex_text(bytes@)[j],
        decreases bytes.len() - i,
    {
        let byte = bytes[i];
        text.push(hex_digit_of(byte / 16));
        text.push(hex_digit_of(byte % 16));
        i += 1;
    }
    assert(text@ =~= hex_text(bytes@));
    text
}

} // verus!
