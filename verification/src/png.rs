//! PNG header recognition: the 8-byte signature and the big-endian width and
//! height fields at fixed offsets of the IHDR chunk.

use vstd::prelude::*;

verus! {

/// The pixel size of an image, decoded from a PNG header. Width and height
/// are always produced together, straight from the header's two fields.
#[derive(Clone, Copy, Debug, PartialEq, Eq, Structural)]
pub struct Dimensions {
    pub width: u32,
    pub height: u32,
}

/// The 8 bytes that begin every PNG stream.
pub open spec fn png_signature() -> Seq<u8> {
    seq![0x89u8, 0x50u8, 0x4Eu8, 0x47u8, 0x0Du8, 0x0Au8, 0x1Au8, 0x0Au8]
}

/// The value of four bytes read as one big-endian unsigned 32-bit integer.
pub open spec fn be_u32(b: Seq<u8>) -> nat
    recommends
        b.len() == 4,
{
    (b[0] as nat) * 0x1000000 + (b[1] as nat) * 0x10000 + (b[2] as nat) * 0x100 + (b[3] as nat)
}

/// Reads the first four bytes of `bytes` as a big-endian unsigned 32-bit
/// integer.
pub fn to_big_int(bytes: &[u8]) -> (r: u32)
    requires
        bytes@.len() >= 4,
    ensures
        r as nat == be_u32(bytes@.subrange(0, 4)),
{
    let b0 = bytes[0] as u32;
    let b1 = bytes[1] as u32;
    let b2 = bytes[2] as u32;
    let b3 = bytes[3] as u32;
    let r = b0 * 0x1000000 + b1 * 0x10000 + b2 * 0x100 + b3;
    assert(bytes@.subrange(0, 4)[0] == bytes@[0]);
    assert(bytes@.subrange(0, 4)[1] == bytes@[1]);
    assert(bytes@.subrange(0, 4)[2] == bytes@[2]);
    assert(bytes@.subrange(0, 4)[3] == bytes@[3]);
    r
}

/// Whether `bytes` is long enough to hold the signature and the two
/// dimension fields, and begins with the PNG signature.
pub open spec fn is_png_header(bytes: Seq<u8>) -> bool {
    bytes.len() >= 24 && bytes.subrange(0, 8) == png_signature()
}

/// Law: a stream whose leading bytes differ from the PNG signature at any
/// single position is no PNG header, however long it is.
pub proof fn lemma_signature_mismatch(bytes: Seq<u8>, i: int)
    requires
        0 <= i < 8,
        i < bytes.len(),
        bytes[i] != png_signature()[i],
    ensures
        !is_png_header(bytes),
{
    if bytes.len() >= 24 {
        assert(bytes.subrange(0, 8)[i] == bytes[i]);
    }
}

/// Law: decoding reads nothing past the first 24 bytes — two streams that
/// agree on those bytes are recognised alike and carry the same width and
/// height fields, whatever follows.
pub proof fn lemma_trailing_bytes_irrelevant(b1: Seq<u8>, b2: Seq<u8>)
    requires
        b1.len() >= 24,
        b2.len() >= 24,
        b1.subrange(0, 24) == b2.subrange(0, 24),
    ensures
        is_png_header(b1) == is_png_header(b2),
        b1.subrange(16, 20) == b2.subrange(16, 20),
        b1.subrange(20, 24) == b2.subrange(20, 24),
{
    assert(b1.subrange(0, 8) =~= b1.subrange(0, 24).subrange(0, 8));
    assert(b2.subrange(0, 8) =~= b2.subrange(0, 24).subrange(0, 8));
    assert(b1.subrange(16, 20) =~= b1.subrange(0, 24).subrange(16, 20));
    assert(b2.subrange(16, 20) =~= b2.subrange(0, 24).subrange(16, 20));
    assert(b1.subrange(20, 24) =~= b1.subrange(0, 24).subrange(20, 24));
    assert(b2.subrange(20, 24) =~= b2.subrange(0, 24).subrange(20, 24));
}

/// Decodes the pixel dimensions of a PNG stream from its leading bytes.
///
/// Returns `Some` exactly when the input is at least 24 bytes long and
/// begins with the PNG signature; the width is then the big-endian value of
/// bytes 16 to 19 and the height that of bytes 20 to 23, whatever the
/// remaining bytes hold. Anything shorter, signature or not, is rejected
/// rather than read out of range.
pub fn png_dimensions(bytes: &[u8]) -> (r: Option<Dimensions>)
    ensures
        r is Some <==> is_png_header(bytes@),
        r matches Some(d) ==> d.width as nat == be_u32(bytes@.subrange(16, 20)) && d.height
            as nat == be_u32(bytes@.subrange(20, 24)),
{
    if bytes.len() < 24 {
        assert(!is_png_header(bytes@));
        return None;
    }
    let sig_matches = bytes[0] == 0x89 && bytes[1] == 0x50 && bytes[2] == 0x4E && bytes[3] == 0x47
        && bytes[4] == 0x0D && bytes[5] == 0x0A && bytes[6] == 0x1A && bytes[7] == 0x0A;
    if !sig_matches {
        assert(bytes@.subrange(0, 8) != png_signature()) by {
            assert(forall|i: int| 0 <= i < 8 ==> bytes@.subrange(0, 8)[i] == bytes@[i]);
        }
        return None;
    }
    assert(bytes@.subrange(0, 8) =~= png_signature());
    let width = to_big_int(&bytes[16..20]);
    let height = to_big_int(&bytes[20..24]);
    assert(bytes@.subrange(16, 20).subrange(0, 4) =~= bytes@.subrange(16, 20));
    assert(bytes@.subrange(20, 24).subrange(0, 4) =~= bytes@.subrange(20, 24));
    Some(Dimensions { width, height })
}

} // verus!
