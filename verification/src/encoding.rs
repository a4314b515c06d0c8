//! Strings in the form the native subsystem takes them: the bytes of the
//! text followed by one zero byte, with no zero byte before that.

use vstd::prelude::*;
use vstd::string::StringSliceAdditionalSpecFns;

verus! {

/// A text could not be put in the native string form because it holds a zero
/// byte. The field is the index of the first zero byte in the text's UTF-8
/// bytes.
#[derive(Copy, Clone, Debug, PartialEq, Eq, Structural)]
pub struct EncodingError {
    pub nul_position: usize,
}

/// Whether `bytes` holds a zero byte.
pub open spec fn has_nul(bytes: Seq<u8>) -> bool {
    exists|i: int| 0 <= i < bytes.len() && bytes[i] == 0
}

/// Whether `position` is the index of the first zero byte of `bytes`.
pub open spec fn is_first_nul(bytes: Seq<u8>, position: int) -> bool {
    &&& 0 <= position < bytes.len()
    &&& bytes[position] == 0
    &&& forall|j: int| 0 <= j < position ==> bytes[j] != 0
}

/// The index of the first zero byte of `bytes`, where it holds one.
pub open spec fn first_nul(bytes: Seq<u8>) -> int {
    choose|position: int| is_first_nul(bytes, position)
}

/// The native form of a text with UTF-8 bytes `bytes`.
pub open spec fn native_form(bytes: Seq<u8>) -> Seq<u8> {
    bytes.push(0)
}

/// Whether `encoded` is a well-formed native string: it ends in a zero
/// byte, and that is its only one.
pub open spec fn is_native_string(encoded: Seq<u8>) -> bool {
    &&& encoded.len() >= 1
    &&& is_first_nul(encoded, encoded.len() - 1)
}

/// Puts `text` in the native string form.
///
/// Succeeds exactly when `text` holds no zero byte, and then returns its
/// UTF-8 bytes followed by one zero byte. Otherwise reports where the first
/// zero byte stands.
pub fn encode_native_string(text: &str) -> (r: Result<Vec<u8>, EncodingError>)
    ensures
        r is Err <==> has_nul(text.spec_bytes()),
        r matches Ok(encoded) ==> encoded@ == native_form(text.spec_bytes()) && is_native_string(
            encoded@,
        ),
        r matches Err(e) ==> e.nul_position == first_nul(text.spec_bytes()) && is_first_nul(
            text.spec_bytes(),
            e.nul_position as int,
        ),
{
    let bytes = text.as_bytes();
    let mut encoded: Vec<u8> = Vec::new();
    let mut i: usize = 0;
    while i < bytes.len()
        invariant
            bytes@ == text.spec_bytes(),
            0 <= i <= bytes@.len(),
            encoded@ == bytes@.subrange(0, i as int),
            forall|j: int| 0 <= j < i ==> bytes@[j] != 0,
        decreases bytes@.len() - i,
    {
        let b = bytes[i];
        if b == 0 {
            proof {
                first_nul_is_unique(bytes@, i as int, first_nul(bytes@));
            }
            return Err(EncodingError { nul_position: i });
        }
        encoded.push(b);
        assert(encoded@ == bytes@.subrange(0, i + 1));
        i += 1;
    }
    assert(bytes@.subrange(0, i as int) == bytes@);
    encoded.push(0);
    Ok(encoded)
}

/// A text has at most one first zero byte, so the position that an encoding
/// error reports is determined by the text.
pub proof fn first_nul_is_unique(bytes: Seq<u8>, p: int, q: int)
    requires
        is_first_nul(bytes, p),
        is_first_nul(bytes, q),
    ensures
        p == q,
{
    if p < q {
        assert(bytes[p] != 0);
    } else if q < p {
        assert(bytes[q] != 0);
    }
}

/// A text with a zero byte has a first one, and `first_nul` is its index.
pub proof fn first_nul_is_first(bytes: Seq<u8>)
    requires
        has_nul(bytes),
    ensures
        is_first_nul(bytes, first_nul(bytes)),
{
    let i = choose|i: int| 0 <= i < bytes.len() && bytes[i] == 0;
    earlier_nul_or_first(bytes, i);
}

proof fn earlier_nul_or_first(bytes: Seq<u8>, i: int)
    requires
        0 <= i < bytes.len(),
        bytes[i] == 0,
    ensures
        exists|p: int| is_first_nul(bytes, p),
    decreases i,
{
    if exists|j: int| 0 <= j < i && bytes[j] == 0 {
        let j = choose|j: int| 0 <= j < i && bytes[j] == 0;
        earlier_nul_or_first(bytes, j);
    } else {
        assert(is_first_nul(bytes, i));
    }
}

/// The native form of a text without zero bytes is a well-formed native
/// string, one byte longer than the text, and gives the text back when its
/// last byte is dropped.
pub proof fn native_form_is_well_formed(bytes: Seq<u8>)
    requires
        !has_nul(bytes),
    ensures
        is_native_string(native_form(bytes)),
        native_form(bytes).len() == bytes.len() + 1,
        native_form(bytes).drop_last() == bytes,
{
    let encoded = native_form(bytes);
    assert forall|j: int| 0 <= j < encoded.len() - 1 implies encoded[j] != 0 by {
        assert(encoded[j] == bytes[j]);
    }
    assert(encoded.drop_last() =~= bytes);
}

} // verus!
