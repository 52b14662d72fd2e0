//! gzip members, written and read through the streaming types of the `flate2`
//! crate.

use crate::codec::{tagged, CompressionError};
use crate::scheme::CompressionScheme;
use vstd::prelude::*;

verus! {

/// A `flate2::write::GzEncoder` over a vector. The crate bounds the type's
/// definition by `std::io::Write`, which keeps Verus from taking the type
/// itself, so the encoder is held here and Verus does not look inside.
/// [`gz_writes`] says what has been written into one.
#[verifier::external_body]
pub struct GzWriter {
    inner: flate2::write::GzEncoder<Vec<u8>>,
}

/// `flate2::bufread::GzDecoder`, the crate's reader of one gzip member. Verus
/// sees it as an opaque value; [`gz_rest`] says what one still has to give.
#[verifier::external_type_specification]
#[verifier::external_body]
#[verifier::reject_recursive_types(R)]
pub struct ExGzDecoder<R>(flate2::bufread::GzDecoder<R>);

/// What the `flate2` encoder makes of `content`: the gzip member that it
/// returns when it is opened at the crate's default level, takes `content`
/// in one write and is finished, or nothing where one of these steps fails.
pub uninterp spec fn gz_member(content: Seq<u8>) -> Option<Seq<u8>>;

/// What the `flate2` decoder makes of `member`: the content of the gzip
/// member that the bytes begin with, or nothing where they hold no whole,
/// valid member.
pub uninterp spec fn gz_content(member: Seq<u8>) -> Option<Seq<u8>>;

/// The writes that an encoder has taken since it was opened, in order.
pub uninterp spec fn gz_writes(enc: GzWriter) -> Seq<Seq<u8>>;

/// The content that a decoder has yet to hand out before its member ends, or
/// nothing where its input stops or breaks before the end of the member.
pub uninterp spec fn gz_rest(dec: flate2::bufread::GzDecoder<&[u8]>) -> Option<Seq<u8>>;

/// `member` is the gzip member of `content`: the encoder's result for it,
/// which the decoder reads back as `content`, and of which no shorter
/// beginning is a whole member.
pub open spec fn gz_members(content: Seq<u8>, member: Seq<u8>) -> bool {
    &&& gz_member(content) == Some(member)
    &&& gz_content(member) == Some(content)
    &&& forall|k: int| 0 <= k < member.len() ==> (#[trigger] gz_content(member.take(k))) is None
}

/// `flate2::write::GzEncoder::new` over an empty vector, at the level that
/// `flate2::Compression::default` gives. Trusted: the encoder it returns has
/// taken no write.
#[verifier::external_body]
fn gz_writer() -> (enc: GzWriter)
    ensures
        gz_writes(enc) == Seq::<Seq<u8>>::empty(),
{
    GzWriter { inner: flate2::write::GzEncoder::new(Vec::new(), flate2::Compression::default()) }
}

/// `std::io::Write::write_all` on a `GzEncoder`. Trusted: where it succeeds,
/// the encoder has taken `data` as one more write; where it fails on an
/// encoder that had taken none, the encoder makes no member of `data`.
#[verifier::external_body]
fn gz_write_all(enc: GzWriter, data: &[u8]) -> (r: Result<GzWriter, std::io::Error>)
    ensures
        r matches Ok(after) ==> gz_writes(after) == gz_writes(enc).push(data@),
        r is Err ==> (gz_writes(enc).len() == 0 ==> gz_member(data@) is None),
{
    let mut enc = enc;
    match std::io::Write::write_all(&mut enc.inner, data) {
        Ok(()) => Ok(enc),
        Err(cause) => Err(cause),
    }
}

/// `GzEncoder::finish`, which writes the trailer and gives the vector back.
/// Trusted, of an encoder that took its content in one write: where it
/// succeeds, the vector is the member of that content, the crate's decoder
/// reads it back as exactly that content, and the decoder accepts nothing
/// shorter; where it fails, the encoder makes no member of that content.
#[verifier::external_body]
fn gz_finish(enc: GzWriter) -> (r: Result<Vec<u8>, std::io::Error>)
    ensures
        r matches Ok(member) ==> (gz_writes(enc).len() == 1 ==> gz_members(
            gz_writes(enc)[0],
            member@,
        )),
        r is Err ==> (gz_writes(enc).len() == 1 ==> gz_member(gz_writes(enc)[0]) is None),
{
    enc.inner.finish()
}

/// `flate2::bufread::GzDecoder::new` over a slice. Trusted: the decoder it
/// returns has all of the member's content still to give, as far as `member`
/// holds one. A header that does not parse shows as a failure of the first
/// read.
#[verifier::external_body]
fn gz_reader<'a>(member: &'a [u8]) -> (dec: flate2::bufread::GzDecoder<&'a [u8]>)
    ensures
        gz_rest(dec) == gz_content(member@),
{
    flate2::bufread::GzDecoder::new(member)
}

/// `std::io::Read::read_to_end` on a `GzDecoder`, into a fresh vector.
/// Trusted: it succeeds exactly where the member was read to its end and its
/// checksum and length agreed, and then hands out all that the decoder had to
/// give.
#[verifier::external_body]
fn gz_read_to_end(dec: flate2::bufread::GzDecoder<&[u8]>) -> (r: Result<Vec<u8>, std::io::Error>)
    ensures
        r matches Ok(bytes) ==> gz_rest(dec) == Some(bytes@),
        r is Err ==> gz_rest(dec) is None,
{
    let mut dec = dec;
    let mut bytes = Vec::new();
    match std::io::Read::read_to_end(&mut dec, &mut bytes) {
        Ok(_) => Ok(bytes),
        Err(cause) => Err(cause),
    }
}

/// Compresses `envelope` into one gzip member at the codec's default level:
/// opens an encoder, writes the envelope through it in one piece and
/// finishes the member before the bytes are taken. It fails only where the
/// encoder does.
pub fn save_gz(envelope: &[u8]) -> (r: Result<Vec<u8>, CompressionError>)
    ensures
        match r {
            Ok(contents) => gz_members(envelope@, contents@),
            Err(e) => gz_member(envelope@) is None && e.scheme == CompressionScheme::Gzip,
        },
{
    let enc = gz_writer();
    let enc = tagged(CompressionScheme::Gzip, gz_write_all(enc, envelope))?;
    tagged(CompressionScheme::Gzip, gz_finish(enc))
}

/// Decompresses the gzip member in `contents`: opens a decoder and reads it to
/// the end of the member. It fails exactly where the contents hold no whole,
/// valid member.
pub fn load_gz(contents: &[u8]) -> (r: Result<Vec<u8>, CompressionError>)
    ensures
        match r {
            Ok(envelope) => gz_content(contents@) == Some(envelope@),
            Err(e) => gz_content(contents@) is None && e.scheme == CompressionScheme::Gzip,
        },
{
    let dec = gz_reader(contents);
    tagged(CompressionScheme::Gzip, gz_read_to_end(dec))
}

} // verus!
