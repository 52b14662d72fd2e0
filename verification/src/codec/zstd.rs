//! Zstandard frames, written and read through the streaming types of the
//! `zstd` crate.

use crate::codec::{tagged, CompressionError};
use crate::scheme::CompressionScheme;
use vstd::prelude::*;

verus! {

/// The level at which envelopes are compressed: zero, by which the codec
/// takes its own default.
pub const ZSTD_LEVEL: i32 = 0;

/// A `zstd::Encoder` over a vector. The crate bounds the type's definition by
/// `std::io::Write`, which keeps Verus from taking the type itself, so the
/// encoder is held here and Verus does not look inside. [`zstd_writes`] says
/// what has been written into one, [`zstd_level`] at which level it was
/// opened.
#[verifier::external_body]
pub struct ZstdWriter {
    inner: ::zstd::Encoder<'static, Vec<u8>>,
}

/// `zstd::Decoder`, the crate's frame reader. Verus sees it as an opaque
/// value; [`zstd_rest`] says what one still has to give.
#[verifier::external_type_specification]
#[verifier::external_body]
#[verifier::reject_recursive_types(R)]
pub struct ExDecoder<'a, R>(::zstd::Decoder<'a, R>);

/// `std::io::BufReader`, in which `zstd::Decoder::new` wraps its input.
#[verifier::external_type_specification]
#[verifier::external_body]
#[verifier::reject_recursive_types(R)]
pub struct ExBufReader<R: ?Sized>(std::io::BufReader<R>);

/// What the `zstd` encoder makes of `content` at `level`: the frame that it
/// returns when it is opened at that level, takes `content` in one write and
/// is finished, or nothing where one of these steps fails.
pub uninterp spec fn zstd_frame(level: int, content: Seq<u8>) -> Option<Seq<u8>>;

/// What the `zstd` decoder makes of `frames`: the content of the frames that
/// the bytes consist of, or nothing where they are not whole, valid frames.
pub uninterp spec fn zstd_content(frames: Seq<u8>) -> Option<Seq<u8>>;

/// The writes that an encoder has taken since it was opened, in order.
pub uninterp spec fn zstd_writes(enc: ZstdWriter) -> Seq<Seq<u8>>;

/// The level at which an encoder was opened.
pub uninterp spec fn zstd_level(enc: ZstdWriter) -> int;

/// The content that a decoder has yet to hand out before its input ends, or
/// nothing where the input stops inside a frame or is no valid frame.
pub uninterp spec fn zstd_rest(dec: ::zstd::Decoder<'static, std::io::BufReader<&[u8]>>) -> Option<
    Seq<u8>,
>;

/// `frame` is the Zstandard frame of `content` at `level`: the encoder's
/// result for it, which the decoder reads back as `content`, and of which no
/// shorter beginning is accepted by the decoder.
pub open spec fn zstd_frames(level: int, content: Seq<u8>, frame: Seq<u8>) -> bool {
    &&& zstd_frame(level, content) == Some(frame)
    &&& zstd_content(frame) == Some(content)
    &&& forall|k: int| 0 <= k < frame.len() ==> (#[trigger] zstd_content(frame.take(k))) is None
}

/// `zstd::Encoder::new` over an empty vector. Trusted: the encoder it returns
/// was opened at `level` and has taken no write; where it fails, the encoder
/// makes a frame of no content at that level.
#[verifier::external_body]
fn zstd_writer(level: i32) -> (r: Result<ZstdWriter, std::io::Error>)
    ensures
        r matches Ok(enc) ==> zstd_level(enc) == level,
        r matches Ok(enc) ==> zstd_writes(enc) == Seq::<Seq<u8>>::empty(),
        r is Err ==> forall|content: Seq<u8>| (#[trigger] zstd_frame(level as int, content)) is None,
{
    match ::zstd::Encoder::new(Vec::new(), level) {
        Ok(inner) => Ok(ZstdWriter { inner }),
        Err(cause) => Err(cause),
    }
}

/// `std::io::Write::write_all` on a `zstd::Encoder`. Trusted: where it
/// succeeds, the encoder has taken `data` as one more write, at the level it
/// had; where it fails on an encoder that had taken none, the encoder makes
/// no frame of `data` at its level.
#[verifier::external_body]
fn zstd_write_all(enc: ZstdWriter, data: &[u8]) -> (r: Result<ZstdWriter, std::io::Error>)
    ensures
        r matches Ok(after) ==> zstd_level(after) == zstd_level(enc),
        r matches Ok(after) ==> zstd_writes(after) == zstd_writes(enc).push(data@),
        r is Err ==> (zstd_writes(enc).len() == 0 ==> zstd_frame(zstd_level(enc), data@) is None),
{
    let mut enc = enc;
    match std::io::Write::write_all(&mut enc.inner, data) {
        Ok(()) => Ok(enc),
        Err(cause) => Err(cause),
    }
}

/// `zstd::Encoder::finish`, which ends the frame and gives the vector back.
/// Trusted, of an encoder that took its content in one write: where it
/// succeeds, the vector is the frame of that content at the encoder's level,
/// the crate's decoder reads it back as exactly that content, and the decoder
/// accepts nothing shorter; where it fails, the encoder makes no frame of
/// that content at its level.
#[verifier::external_body]
fn zstd_finish(enc: ZstdWriter) -> (r: Result<Vec<u8>, std::io::Error>)
    ensures
        r matches Ok(frame) ==> (zstd_writes(enc).len() == 1 ==> zstd_frames(
            zstd_level(enc),
            zstd_writes(enc)[0],
            frame@,
        )),
        r is Err ==> (zstd_writes(enc).len() == 1 ==> zstd_frame(
            zstd_level(enc),
            zstd_writes(enc)[0],
        ) is None),
{
    enc.inner.finish()
}

/// `zstd::Decoder::new` over a slice. Trusted: the decoder it returns has all
/// of the content still to give, as far as `frames` holds whole frames; where
/// it fails, the decoder makes nothing of `frames`.
#[verifier::external_body]
fn zstd_reader<'a>(frames: &'a [u8]) -> (r: Result<
    ::zstd::Decoder<'static, std::io::BufReader<&'a [u8]>>,
    std::io::Error,
>)
    ensures
        r matches Ok(dec) ==> zstd_rest(dec) == zstd_content(frames@),
        r is Err ==> zstd_content(frames@) is None,
{
    ::zstd::Decoder::new(frames)
}

/// `std::io::Read::read_to_end` on a `zstd::Decoder`, into a fresh vector.
/// Trusted: it succeeds exactly where the input ended on the end of a frame,
/// and then hands out all that the decoder had to give.
#[verifier::external_body]
fn zstd_read_to_end(dec: ::zstd::Decoder<'static, std::io::BufReader<&[u8]>>) -> (r: Result<
    Vec<u8>,
    std::io::Error,
>)
    ensures
        r matches Ok(bytes) ==> zstd_rest(dec) == Some(bytes@),
        r is Err ==> zstd_rest(dec) is None,
{
    let mut dec = dec;
    let mut bytes = Vec::new();
    match std::io::Read::read_to_end(&mut dec, &mut bytes) {
        Ok(_) => Ok(bytes),
        Err(cause) => Err(cause),
    }
}

/// Compresses `envelope` into one Zstandard frame at [`ZSTD_LEVEL`]: opens an
/// encoder, writes the envelope through it in one piece and finishes the
/// frame before the bytes are taken. It fails only where the encoder does.
pub fn save_zstd(envelope: &[u8]) -> (r: Result<Vec<u8>, CompressionError>)
    ensures
        match r {
            Ok(contents) => zstd_frames(ZSTD_LEVEL as int, envelope@, contents@),
            Err(e) => zstd_frame(ZSTD_LEVEL as int, envelope@) is None && e.scheme
                == CompressionScheme::Zstd,
        },
{
    let enc = tagged(CompressionScheme::Zstd, zstd_writer(ZSTD_LEVEL))?;
    let enc = tagged(CompressionScheme::Zstd, zstd_write_all(enc, envelope))?;
    tagged(CompressionScheme::Zstd, zstd_finish(enc))
}

/// Decompresses the Zstandard frames in `contents`: opens a decoder and reads
/// it to the end of the input. It fails exactly where the contents are not
/// whole, valid frames.
pub fn load_zstd(contents: &[u8]) -> (r: Result<Vec<u8>, CompressionError>)
    ensures
        match r {
            Ok(envelope) => zstd_content(contents@) == Some(envelope@),
            Err(e) => zstd_content(contents@) is None && e.scheme == CompressionScheme::Zstd,
        },
{
    let dec = tagged(CompressionScheme::Zstd, zstd_reader(contents))?;
    tagged(CompressionScheme::Zstd, zstd_read_to_end(dec))
}

} // verus!
