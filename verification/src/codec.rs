//! The compression adapters, one module per scheme, and the failure they share.
//!
//! Every adapter offers the same pair: one function that turns an envelope
//! into the bytes of a file, and one that turns the bytes of a file back into
//! the envelope. The compressed schemes drive an outside codec; the steps of
//! that codec are trusted, their order is verified here.

use crate::scheme::CompressionScheme;
use vstd::prelude::*;

pub mod gzip;
pub mod lz4;
pub mod raw;
pub mod xz;
pub mod zstd;

verus! {

/// `std::io::Error`, in which every codec reports a failure. Nothing is
/// claimed of what it holds: it is carried to the caller as it came.
#[verifier::external_type_specification]
#[verifier::external_body]
pub struct ExIoError(std::io::Error);

/// A failure inside a codec: a stream that could not be opened, written,
/// finished or read.
#[derive(Debug)]
pub struct CompressionError {
    /// The scheme whose codec failed.
    pub scheme: CompressionScheme,
    /// What the codec reported.
    pub cause: std::io::Error,
}

/// Attributes the outcome of a codec step to `scheme`: a success passes
/// through, a failure becomes a [`CompressionError`] that names the scheme and
/// keeps the cause.
pub fn tagged<T>(scheme: CompressionScheme, outcome: Result<T, std::io::Error>) -> (r: Result<
    T,
    CompressionError,
>)
    ensures
        r == (match outcome {
            Ok(value) => Ok(value),
            Err(cause) => Err(CompressionError { scheme, cause }),
        }),
{
    match outcome {
        Ok(value) => Ok(value),
        Err(cause) => Err(CompressionError { scheme, cause }),
    }
}

/// The bytes that `envelope` is stored as under `scheme`, or nothing where
/// the scheme's encoder fails on it. Without compression they are the
/// envelope; under a codec they are what the codec's encoder makes of it, at
/// the level that is fixed for the codec.
pub open spec fn framed(scheme: CompressionScheme, envelope: Seq<u8>) -> Option<Seq<u8>> {
    match scheme {
        CompressionScheme::Raw => Some(envelope),
        CompressionScheme::Lz4 => lz4::lz4_frame(envelope),
        CompressionScheme::Zstd => zstd::zstd_frame(zstd::ZSTD_LEVEL as int, envelope),
        CompressionScheme::Gzip => gzip::gz_member(envelope),
        CompressionScheme::Xz => xz::xz_stream(xz::XZ_LEVEL as int, envelope),
    }
}

/// The envelope that `contents` holds under `scheme`, or nothing where the
/// scheme's decoder does not accept them. Without compression the contents
/// are the envelope; under a codec they are what the codec's decoder makes of
/// them.
pub open spec fn envelope_of(scheme: CompressionScheme, contents: Seq<u8>) -> Option<Seq<u8>> {
    match scheme {
        CompressionScheme::Raw => Some(contents),
        CompressionScheme::Lz4 => lz4::lz4_content(contents),
        CompressionScheme::Zstd => zstd::zstd_content(contents),
        CompressionScheme::Gzip => gzip::gz_content(contents),
        CompressionScheme::Xz => xz::xz_content(contents),
    }
}

/// No shorter beginning of `contents` holds an envelope under `scheme`.
pub open spec fn whole_only_at_end(scheme: CompressionScheme, contents: Seq<u8>) -> bool {
    forall|k: int|
        0 <= k < contents.len() ==> (#[trigger] envelope_of(scheme, contents.take(k))) is None
}

/// `contents` store `envelope` under `scheme`: they are the bytes that the
/// envelope is stored as, they hold the envelope, and under a codec nothing
/// shorter holds any.
pub open spec fn stores(scheme: CompressionScheme, envelope: Seq<u8>, contents: Seq<u8>) -> bool {
    &&& framed(scheme, envelope) == Some(contents)
    &&& envelope_of(scheme, contents) == Some(envelope)
    &&& scheme != CompressionScheme::Raw ==> whole_only_at_end(scheme, contents)
}

/// Frames `envelope` under `scheme`. Without compression this cannot fail and
/// returns the envelope, byte for byte. Under a codec it returns what the
/// codec's encoder makes of the envelope, and fails exactly where the encoder
/// does; the failure is returned as it came, under the scheme's name.
pub fn compress(scheme: CompressionScheme, envelope: &[u8]) -> (r: Result<Vec<u8>, CompressionError>)
    ensures
        match r {
            Ok(contents) => stores(scheme, envelope@, contents@),
            Err(e) => framed(scheme, envelope@) is None && e.scheme == scheme,
        },
{
    match scheme {
        CompressionScheme::Raw => Ok(raw::save_raw(envelope)),
        CompressionScheme::Lz4 => lz4::save_lz4(envelope),
        CompressionScheme::Zstd => zstd::save_zstd(envelope),
        CompressionScheme::Gzip => gzip::save_gz(envelope),
        CompressionScheme::Xz => xz::save_xz(envelope),
    }
}

/// Takes the envelope out of `contents`, framed under `scheme`. Without
/// compression this cannot fail and returns the contents, byte for byte.
/// Under a codec it returns what the codec's decoder makes of the contents,
/// read to the end of the frame, and fails exactly where the decoder accepts
/// no whole frame; the failure is returned as it came, under the scheme's
/// name.
pub fn decompress(scheme: CompressionScheme, contents: &[u8]) -> (r: Result<
    Vec<u8>,
    CompressionError,
>)
    ensures
        match r {
            Ok(envelope) => envelope_of(scheme, contents@) == Some(envelope@),
            Err(e) => envelope_of(scheme, contents@) is None && e.scheme == scheme,
        },
{
    match scheme {
        CompressionScheme::Raw => Ok(raw::load_raw(contents)),
        CompressionScheme::Lz4 => lz4::load_lz4(contents),
        CompressionScheme::Zstd => zstd::load_zstd(contents),
        CompressionScheme::Gzip => gzip::load_gz(contents),
        CompressionScheme::Xz => xz::load_xz(contents),
    }
}

/// Without compression nothing is added: the contents that store an envelope
/// are that envelope, and every envelope is stored.
pub proof fn lemma_raw_is_identity(envelope: Seq<u8>, contents: Seq<u8>)
    ensures
        stores(CompressionScheme::Raw, envelope, contents) <==> contents == envelope,
        envelope_of(CompressionScheme::Raw, contents) == Some(contents),
        framed(CompressionScheme::Raw, envelope) == Some(envelope),
{
}

/// Storing is a function: under one scheme an envelope is stored as the same
/// bytes every time.
pub proof fn lemma_stored_alike(
    scheme: CompressionScheme,
    envelope: Seq<u8>,
    first: Seq<u8>,
    second: Seq<u8>,
)
    requires
        stores(scheme, envelope, first),
        stores(scheme, envelope, second),
    ensures
        first == second,
{
}

/// A file cut short is rejected: under a codec, no shorter beginning of the
/// contents that store an envelope is accepted by [`decompress`].
pub proof fn lemma_cut_short_is_rejected(
    scheme: CompressionScheme,
    envelope: Seq<u8>,
    contents: Seq<u8>,
    kept: int,
)
    requires
        scheme != CompressionScheme::Raw,
        stores(scheme, envelope, contents),
        0 <= kept < contents.len(),
    ensures
        envelope_of(scheme, contents.take(kept)) is None,
{
}

} // verus!
