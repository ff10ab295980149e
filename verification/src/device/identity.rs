//! The reply to the identify request: a firmware version and a serial number.

use crate::device::DeviceError;
use crate::types::{le_u32, read_u32_le};
use crate::version::VersionNumber;
use vstd::prelude::*;
use vstd::slice::slice_subrange;
use vstd::utf8::{decode_utf8, pop_first_scalar, valid_utf8};

verus! {

/// Where version and serial number start in the reply to the identify request.
pub const IDENTITY_VERSION_AT: usize = 4;

/// Where the serial number starts in the reply to the identify request.
pub const IDENTITY_SERIAL_AT: usize = 8;

/// The text that `String::from_utf8_lossy` makes of a sequence of bytes.
pub uninterp spec fn utf8_lossy(bytes: Seq<u8>) -> Seq<char>;

/// Converts bytes to text with `String::from_utf8_lossy`, which decodes UTF-8 and
/// puts U+FFFD in place of each invalid sequence. The result depends on the
/// bytes alone, and on valid UTF-8 it is the text that the bytes encode.
#[verifier::external_body]
fn string_from_utf8_lossy(bytes: &[u8]) -> (text: String)
    ensures
        text@ == utf8_lossy(bytes@),
        valid_utf8(bytes@) ==> text@ == decode_utf8(bytes@),
{
    String::from_utf8_lossy(bytes).into_owned()
}

/// Bytes read as ASCII text, character by character.
pub open spec fn ascii_text(bytes: Seq<u8>) -> Seq<char> {
    Seq::new(bytes.len(), |i: int| bytes[i] as char)
}

/// Whether every byte is an ASCII character.
pub open spec fn is_ascii(bytes: Seq<u8>) -> bool {
    forall|i: int| 0 <= i < bytes.len() ==> bytes[i] < 0x80
}

/// ASCII is valid UTF-8 and decodes to itself.
pub proof fn lemma_ascii_decodes(bytes: Seq<u8>)
    requires
        is_ascii(bytes),
    ensures
        valid_utf8(bytes),
        decode_utf8(bytes) == ascii_text(bytes),
    decreases bytes.len(),
{
    if bytes.len() > 0 {
        let first = bytes[0];
        let rest = bytes.subrange(1, bytes.len() as int);
        assert(first & 0x7f == first) by (bit_vector)
            requires
                first < 0x80,
        ;
        lemma_ascii_decodes(rest);
        assert(pop_first_scalar(bytes) == rest);
        assert(decode_utf8(bytes) =~= ascii_text(bytes));
    } else {
        assert(decode_utf8(bytes) =~= ascii_text(bytes));
    }
}

/// The position of the first zero byte at or after `start`, or the length of
/// `bytes` where there is none.
pub open spec fn zero_from(bytes: Seq<u8>, start: int) -> int
    decreases bytes.len() - start,
{
    if start >= bytes.len() {
        bytes.len() as int
    } else if bytes[start] == 0 {
        start
    } else {
        zero_from(bytes, start + 1)
    }
}

/// The version that the reply to the identify request reports: the
/// little-endian word in its fifth to eighth byte, taken apart.
pub open spec fn identity_version(reply: Seq<u8>) -> VersionNumber
    recommends
        reply.len() >= 8,
{
    VersionNumber::of_word(le_u32(reply.subrange(4, 8)) as u32)
}

/// The bytes of the serial number in the reply to the identify request: what
/// follows the version, up to the first zero byte or to the end of the reply.
pub open spec fn identity_serial(reply: Seq<u8>) -> Seq<u8>
    recommends
        reply.len() >= 8,
{
    reply.subrange(8, zero_from(reply, 8))
}

/// What `zero_from` finds: no byte between `start` and the position is zero,
/// and the position is the end of `bytes` or holds a zero.
pub proof fn lemma_zero_from(bytes: Seq<u8>, start: int)
    requires
        0 <= start <= bytes.len(),
    ensures
        start <= zero_from(bytes, start) <= bytes.len(),
        forall|i: int| start <= i < zero_from(bytes, start) ==> bytes[i] != 0,
        zero_from(bytes, start) < bytes.len() ==> bytes[zero_from(bytes, start)] == 0,
    decreases bytes.len() - start,
{
    if start < bytes.len() && bytes[start] != 0 {
        lemma_zero_from(bytes, start + 1);
    }
}

/// Reads version and serial number from the reply to the identify request.
/// A reply of fewer than eight bytes holds no version and is refused. The
/// serial number is decoded as UTF-8, leniently.
pub fn parse_identity(reply: &[u8]) -> (identity: Result<(VersionNumber, String), DeviceError>)
    ensures
        reply@.len() < 8 ==> identity == Err::<(VersionNumber, String), DeviceError>(
            DeviceError::HandshakeError,
        ),
        reply@.len() >= 8 ==> identity is Ok && identity->Ok_0.0 == identity_version(reply@)
            && identity->Ok_0.0.is_valid() && identity->Ok_0.1@ == utf8_lossy(
            identity_serial(reply@),
        ),
        reply@.len() >= 8 && valid_utf8(identity_serial(reply@)) ==> identity->Ok_0.1@
            == decode_utf8(identity_serial(reply@)),
{
    if reply.len() < IDENTITY_SERIAL_AT {
        return Err(DeviceError::HandshakeError);
    }
    let word = read_u32_le(slice_subrange(reply, IDENTITY_VERSION_AT, IDENTITY_SERIAL_AT));
    let version = VersionNumber::from_word(word);
    let mut serial: Vec<u8> = Vec::new();
    let mut i: usize = IDENTITY_SERIAL_AT;
    while i < reply.len() && reply[i] != 0
        invariant
            8 <= i <= reply@.len(),
            zero_from(reply@, 8) == zero_from(reply@, i as int),
            serial@ == reply@.subrange(8, i as int),
        decreases reply@.len() - i,
    {
        serial.push(reply[i]);
        assert(serial@ =~= reply@.subrange(8, i + 1));
        i = i + 1;
    }
    assert(serial@ == identity_serial(reply@));
    let text = string_from_utf8_lossy(serial.as_slice());
    Ok((version, text))
}

} // verus!
