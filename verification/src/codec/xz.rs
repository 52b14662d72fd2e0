//! xz streams, written and read through the streaming types of the `xz`
//! crate.

use crate::codec::{tagged, CompressionError};
use crate::scheme::CompressionScheme;
use vstd::prelude::*;

verus! {

/// The preset at which envelopes are compressed.
pub const XZ_LEVEL: u32 = 6;

/// The highest preset that the codec takes.
pub const XZ_LEVEL_MAX: u32 = 9;

/// An `xz::write::XzEncoder` over a vector. The crate bounds the type's
/// definition by `std::io::Write`, which keeps Verus from taking the type
/// itself, so the encoder is held here and Verus does not look inside.
/// [`xz_writes`] says what has been written into one, [`xz_level`] at which
/// preset it was opened.
#[verifier::external_body]
pub struct XzWriter {
    inner: ::xz::write::XzEncoder<Vec<u8>>,
}

/// An `xz::read::XzDecoder` over a slice. The crate bounds the type's
/// definition by `std::io::Read`, so the decoder is held here in the same
/// way. [`xz_rest`] says what one still has to give.
#[verifier::external_body]
pub struct XzReader<'a> {
    inner: ::xz::read::XzDecoder<&'a [u8]>,
}

/// What the `xz` encoder makes of `content` at preset `level`: the stream
/// that it returns when it is opened at that preset, takes `content` in one
/// write and is finished, or nothing where one of these steps fails.
pub uninterp spec fn xz_stream(level: int, content: Seq<u8>) -> Option<Seq<u8>>;

/// What the `xz` decoder makes of `stream`: the content of the xz stream that
/// the bytes consist of, or nothing where they are no whole, valid stream.
pub uninterp spec fn xz_content(stream: Seq<u8>) -> Option<Seq<u8>>;

/// The writes that an encoder has taken since it was opened, in order.
pub uninterp spec fn xz_writes(enc: XzWriter) -> Seq<Seq<u8>>;

/// The preset at which an encoder was opened.
pub uninterp spec fn xz_level(enc: XzWriter) -> int;

/// The content that a decoder has yet to hand out before its stream ends, or
/// nothing where its input stops or breaks before the end of the stream.
pub uninterp spec fn xz_rest(dec: XzReader) -> Option<Seq<u8>>;

/// `stream` is the xz stream of `content` at preset `level`: the encoder's
/// result for it, which the decoder reads back as `content`, and of which no
/// shorter beginning is a whole stream.
pub open spec fn xz_streams(level: int, content: Seq<u8>, stream: Seq<u8>) -> bool {
    &&& xz_stream(level, content) == Some(stream)
    &&& xz_content(stream) == Some(content)
    &&& forall|k: int| 0 <= k < stream.len() ==> (#[trigger] xz_content(stream.take(k))) is None
}

/// `xz::write::XzEncoder::new` over an empty vector. The call panics on a
/// preset that the codec does not know, so presets above [`XZ_LEVEL_MAX`] are
/// kept out. Trusted: the encoder it returns was opened at `level` and has
/// taken no write.
#[verifier::external_body]
fn xz_writer(level: u32) -> (enc: XzWriter)
    requires
        level <= XZ_LEVEL_MAX,
    ensures
        xz_level(enc) == level,
        xz_writes(enc) == Seq::<Seq<u8>>::empty(),
{
    XzWriter { inner: ::xz::write::XzEncoder::new(Vec::new(), level) }
}

/// `std::io::Write::write_all` on an `XzEncoder`. Trusted: where it succeeds,
/// the encoder has taken `data` as one more write, at the preset it had;
/// where it fails on an encoder that had taken none, the encoder makes no
/// stream of `data` at its preset.
#[verifier::external_body]
fn xz_write_all(enc: XzWriter, data: &[u8]) -> (r: Result<XzWriter, std::io::Error>)
    ensures
        r matches Ok(after) ==> xz_level(after) == xz_level(enc),
        r matches Ok(after) ==> xz_writes(after) == xz_writes(enc).push(data@),
        r is Err ==> (xz_writes(enc).len() == 0 ==> xz_stream(xz_level(enc), data@) is None),
{
    let mut enc = enc;
    match std::io::Write::write_all(&mut enc.inner, data) {
        Ok(()) => Ok(enc),
        Err(cause) => Err(cause),
    }
}

/// `XzEncoder::finish`, which ends the stream and gives the vector back.
/// Trusted, of an encoder that took its content in one write: where it
/// succeeds, the vector is the stream of that content at the encoder's
/// preset, the crate's decoder reads it back as exactly that content, and the
/// decoder accepts nothing shorter; where it fails, the encoder makes no
/// stream of that content at its preset.
#[verifier::external_body]
fn xz_finish(enc: XzWriter) -> (r: Result<Vec<u8>, std::io::Error>)
    ensures
        r matches Ok(stream) ==> (xz_writes(enc).len() == 1 ==> xz_streams(
            xz_level(enc),
            xz_writes(enc)[0],
            stream@,
        )),
        r is Err ==> (xz_writes(enc).len() == 1 ==> xz_stream(xz_level(enc), xz_writes(enc)[0])
            is None),
{
    enc.inner.finish()
}

/// `xz::read::XzDecoder::new` over a slice. Trusted: the decoder it returns
/// has all of the stream's content still to give, as far as `stream` holds
/// one.
#[verifier::external_body]
fn xz_reader<'a>(stream: &'a [u8]) -> (dec: XzReader<'a>)
    ensures
        xz_rest(dec) == xz_content(stream@),
{
    XzReader { inner: ::xz::read::XzDecoder::new(stream) }
}

/// `std::io::Read::read_to_end` on an `XzDecoder`, into a fresh vector.
/// Trusted: it succeeds exactly where the stream was read to its end, and
/// then hands out all that the decoder had to give.
#[verifier::external_body]
fn xz_read_to_end(dec: XzReader) -> (r: Result<Vec<u8>, std::io::Error>)
    ensures
        r matches Ok(bytes) ==> xz_rest(dec) == Some(bytes@),
        r is Err ==> xz_rest(dec) is None,
{
    let mut dec = dec;
    let mut bytes = Vec::new();
    match std::io::Read::read_to_end(&mut dec.inner, &mut bytes) {
        Ok(_) => Ok(bytes),
        Err(cause) => Err(cause),
    }
}

/// Compresses `envelope` into one xz stream at [`XZ_LEVEL`]: opens an
/// encoder, writes the envelope through it in one piece and finishes the
/// stream before the bytes are taken. It fails only where the encoder does.
pub fn save_xz(envelope: &[u8]) -> (r: Result<Vec<u8>, CompressionError>)
    ensures
        match r {
            Ok(contents) => xz_streams(XZ_LEVEL as int, envelope@, contents@),
            Err(e) => xz_stream(XZ_LEVEL as int, envelope@) is None && e.scheme
                == CompressionScheme::Xz,
        },
{
    let enc = xz_writer(XZ_LEVEL);
    let enc = tagged(CompressionScheme::Xz, xz_write_all(enc, envelope))?;
    tagged(CompressionScheme::Xz, xz_finish(enc))
}

/// Decompresses the xz stream in `contents`: opens a decoder and reads it to
/// the end of the stream. It fails exactly where the contents are no whole,
/// valid stream.
pub fn load_xz(contents: &[u8]) -> (r: Result<Vec<u8>, CompressionError>)
    ensures
        match r {
            Ok(envelope) => xz_content(contents@) == Some(envelope@),
            Err(e) => xz_content(contents@) is None && e.scheme == CompressionScheme::Xz,
        },
{
    let dec = xz_reader(contents);
    tagged(CompressionScheme::Xz, xz_read_to_end(dec))
}

} // verus!
