//! LZ4 frames, written and read through the streaming types of the `lz4` crate.

use crate::codec::{tagged, CompressionError};
use crate::scheme::CompressionScheme;
use vstd::prelude::*;

verus! {

/// `lz4::Encoder`, the crate's frame writer. Verus sees it as an opaque value;
/// [`lz4_writes`] says what has been written into one.
#[verifier::external_type_specification]
#[verifier::external_body]
#[verifier::reject_recursive_types(W)]
pub struct ExEncoder<W>(::lz4::Encoder<W>);

/// `lz4::Decoder`, the crate's frame reader. Verus sees it as an opaque value;
/// [`lz4_rest`] says what one still has to give.
#[verifier::external_type_specification]
#[verifier::external_body]
#[verifier::reject_recursive_types(R)]
pub struct ExDecoder<R>(::lz4::Decoder<R>);

/// What the `lz4` encoder makes of `content`: the frame that it returns when
/// it is opened with the builder's defaults, takes `content` in one write and
/// is finished, or nothing where one of these steps fails.
pub uninterp spec fn lz4_frame(content: Seq<u8>) -> Option<Seq<u8>>;

/// What the `lz4` decoder makes of `frame`: the content of the frame that the
/// bytes begin with, or nothing where they hold no whole, valid frame.
pub uninterp spec fn lz4_content(frame: Seq<u8>) -> Option<Seq<u8>>;

/// The writes that an encoder has taken since it was opened, in order.
pub uninterp spec fn lz4_writes(enc: ::lz4::Encoder<Vec<u8>>) -> Seq<Seq<u8>>;

/// The content that a decoder has yet to hand out before its frame ends, or
/// nothing where its input stops or breaks before the end of the frame.
pub uninterp spec fn lz4_rest(dec: ::lz4::Decoder<&[u8]>) -> Option<Seq<u8>>;

/// Whether a decoder has been read until it gave no more: it then stands at
/// the end of its frame or at the end of an input that stopped short of it.
pub uninterp spec fn lz4_drained(dec: ::lz4::Decoder<&[u8]>) -> bool;

/// `frame` is the LZ4 frame of `content`: the encoder's result for it, which
/// the decoder reads back as `content`, and of which no shorter beginning is
/// a whole frame.
pub open spec fn lz4_frames(content: Seq<u8>, frame: Seq<u8>) -> bool {
    &&& lz4_frame(content) == Some(frame)
    &&& lz4_content(frame) == Some(content)
    &&& forall|k: int| 0 <= k < frame.len() ==> (#[trigger] lz4_content(frame.take(k))) is None
}

/// `lz4::EncoderBuilder::build` on the builder's defaults, over an empty
/// vector. Trusted: the encoder it returns has taken no write; where it
/// fails, the encoder makes a frame of no content.
#[verifier::external_body]
fn lz4_writer() -> (r: Result<::lz4::Encoder<Vec<u8>>, std::io::Error>)
    ensures
        r matches Ok(enc) ==> lz4_writes(enc) == Seq::<Seq<u8>>::empty(),
        r is Err ==> forall|content: Seq<u8>| (#[trigger] lz4_frame(content)) is None,
{
    ::lz4::EncoderBuilder::new().build(Vec::new())
}

/// `std::io::Write::write_all` on an `lz4::Encoder`. Trusted: where it
/// succeeds, the encoder has taken `data` as one more write; where it fails
/// on an encoder that had taken none, the encoder makes no frame of `data`.
#[verifier::external_body]
fn lz4_write_all(enc: ::lz4::Encoder<Vec<u8>>, data: &[u8]) -> (r: Result<
    ::lz4::Encoder<Vec<u8>>,
    std::io::Error,
>)
    ensures
        r matches Ok(after) ==> lz4_writes(after) == lz4_writes(enc).push(data@),
        r is Err ==> (lz4_writes(enc).len() == 0 ==> lz4_frame(data@) is None),
{
    let mut enc = enc;
    match std::io::Write::write_all(&mut enc, data) {
        Ok(()) => Ok(enc),
        Err(cause) => Err(cause),
    }
}

/// `lz4::Encoder::finish`, which ends the frame and gives the vector back.
/// Trusted, of an encoder that took its content in one write: where it
/// succeeds, the vector is the frame of that content, the crate's decoder
/// reads it back as exactly that content, and the decoder accepts nothing
/// shorter; where it fails, the encoder makes no frame of that content.
#[verifier::external_body]
fn lz4_finish(enc: ::lz4::Encoder<Vec<u8>>) -> (r: Result<Vec<u8>, std::io::Error>)
    ensures
        r matches Ok(frame) ==> (lz4_writes(enc).len() == 1 ==> lz4_frames(
            lz4_writes(enc)[0],
            frame@,
        )),
        r is Err ==> (lz4_writes(enc).len() == 1 ==> lz4_frame(lz4_writes(enc)[0]) is None),
{
    match enc.finish() {
        (frame, Ok(())) => Ok(frame),
        (_, Err(cause)) => Err(cause),
    }
}

/// `lz4::Decoder::new` over a slice. Trusted: the decoder it returns has all
/// of the frame's content still to give, as far as `frame` holds one; where
/// it fails, the decoder makes nothing of `frame`.
#[verifier::external_body]
fn lz4_reader<'a>(frame: &'a [u8]) -> (r: Result<::lz4::Decoder<&'a [u8]>, std::io::Error>)
    ensures
        r matches Ok(dec) ==> lz4_rest(dec) == lz4_content(frame@),
        r is Err ==> lz4_content(frame@) is None,
{
    ::lz4::Decoder::new(frame)
}

/// `std::io::Read::read_to_end` on an `lz4::Decoder`, into a fresh vector.
/// Trusted: where it succeeds, what the decoder had to give before the call is
/// what it handed out followed by what it has to give after, and the decoder
/// is drained: it stands at the end of its frame, or its input stopped short
/// of it. The call succeeds in both cases: only [`lz4_reader_finish`] tells
/// them apart. Where it fails, the decoder's input held no whole, valid
/// frame.
#[verifier::external_body]
fn lz4_read_to_end<'a>(dec: ::lz4::Decoder<&'a [u8]>) -> (r: Result<
    (Vec<u8>, ::lz4::Decoder<&'a [u8]>),
    std::io::Error,
>)
    ensures
        r matches Ok((bytes, after)) ==> lz4_rest(dec) == (match lz4_rest(after) {
            Some(more) => Some(bytes@ + more),
            None => None,
        }),
        r matches Ok((bytes, after)) ==> lz4_drained(after),
        r is Err ==> lz4_rest(dec) is None,
{
    let mut dec = dec;
    let mut bytes = Vec::new();
    match std::io::Read::read_to_end(&mut dec, &mut bytes) {
        Ok(_) => Ok((bytes, dec)),
        Err(cause) => Err(cause),
    }
}

/// `lz4::Decoder::finish`, which succeeds exactly where the decoder stands at
/// the end of its frame. Trusted: where it succeeds, the decoder has nothing
/// left to give and its frame was whole; where it fails on a drained decoder,
/// the input stopped short of the end of the frame.
#[verifier::external_body]
fn lz4_reader_finish(dec: ::lz4::Decoder<&[u8]>) -> (r: Result<(), std::io::Error>)
    ensures
        r is Ok ==> lz4_rest(dec) == Some(Seq::<u8>::empty()),
        r is Err ==> (lz4_drained(dec) ==> lz4_rest(dec) is None),
{
    dec.finish().1
}

/// Compresses `envelope` into one LZ4 frame: opens an encoder, writes the
/// envelope through it in one piece and finishes the frame before the bytes
/// are taken. It fails only where the encoder does.
pub fn save_lz4(envelope: &[u8]) -> (r: Result<Vec<u8>, CompressionError>)
    ensures
        match r {
            Ok(contents) => lz4_frames(envelope@, contents@),
            Err(e) => lz4_frame(envelope@) is None && e.scheme == CompressionScheme::Lz4,
        },
{
    let enc = tagged(CompressionScheme::Lz4, lz4_writer())?;
    let enc = tagged(CompressionScheme::Lz4, lz4_write_all(enc, envelope))?;
    tagged(CompressionScheme::Lz4, lz4_finish(enc))
}

/// Decompresses the LZ4 frame in `contents`: opens a decoder, reads all it
/// gives and checks that the frame was read to its end, so that a file cut
/// short is an error and never a shorter envelope. It fails exactly where the
/// contents hold no whole, valid frame.
pub fn load_lz4(contents: &[u8]) -> (r: Result<Vec<u8>, CompressionError>)
    ensures
        match r {
            Ok(envelope) => lz4_content(contents@) == Some(envelope@),
            Err(e) => lz4_content(contents@) is None && e.scheme == CompressionScheme::Lz4,
        },
{
    let dec = tagged(CompressionScheme::Lz4, lz4_reader(contents))?;
    let (envelope, dec) = tagged(CompressionScheme::Lz4, lz4_read_to_end(dec))?;
    tagged(CompressionScheme::Lz4, lz4_reader_finish(dec))?;
    assert(envelope@ + Seq::<u8>::empty() == envelope@);
    Ok(envelope)
}

} // verus!
