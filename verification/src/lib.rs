//! Extension-driven persistence: a path's suffix selects how an envelope of
//! bytes is compressed on its way to a file and decompressed on its way back.
//!
//! The library is the part between the serializer and the file. [`save`]
//! takes the envelope that a value was serialized to and returns the bytes to
//! store at a path; [`load`] takes the bytes found at a path and returns the
//! envelope to deserialize. Which codec stands in between is decided by
//! [`scheme::classify`] from the path alone, never from the bytes.

pub mod codec;
pub mod scheme;

use crate::codec::{compress, decompress, envelope_of, framed, stores, CompressionError};
use crate::scheme::{
    classify, classify_spec, lemma_classify_appended, lemma_table_exact, CompressionScheme,
};
use vstd::prelude::*;

verus! {

/// The bytes to store at `path` for `envelope`.
///
/// The scheme is the one that the path's suffix selects. A path without a
/// suffix, or with one that selects no codec, always succeeds and stores the
/// envelope itself. Under a codec the result is what the codec's encoder
/// makes of the envelope, finished before its bytes are returned; the call
/// fails exactly where the encoder does, and then returns the failure and no
/// bytes.
pub fn save(path: &str, envelope: &[u8]) -> (r: Result<Vec<u8>, CompressionError>)
    ensures
        match r {
            Ok(contents) => stores(classify_spec(path@), envelope@, contents@),
            Err(e) => framed(classify_spec(path@), envelope@) is None && e.scheme == classify_spec(
                path@,
            ),
        },
{
    compress(classify(path), envelope)
}

/// The envelope held by `contents`, the bytes found at `path`.
///
/// The scheme is the one that the path's suffix selects. A path without a
/// suffix, or with one that selects no codec, always succeeds and returns the
/// contents themselves. Under a codec the result is what the codec's decoder
/// makes of the contents, read to the end of the compressed stream; the call
/// fails exactly where the decoder accepts no whole stream, and then returns
/// the failure and no partial envelope.
pub fn load(path: &str, contents: &[u8]) -> (r: Result<Vec<u8>, CompressionError>)
    ensures
        match r {
            Ok(envelope) => envelope_of(classify_spec(path@), contents@) == Some(envelope@),
            Err(e) => envelope_of(classify_spec(path@), contents@) is None && e.scheme
                == classify_spec(path@),
        },
{
    decompress(classify(path), contents)
}

/// Round trip: on what [`save`] returned, [`load`] succeeds and returns the
/// envelope that was saved, at the same path and at any path of the same
/// scheme.
pub proof fn lemma_load_inverts_save(
    saved_at: Seq<char>,
    loaded_at: Seq<char>,
    envelope: Seq<u8>,
    contents: Seq<u8>,
)
    requires
        classify_spec(saved_at) == classify_spec(loaded_at),
        stores(classify_spec(saved_at), envelope, contents),
    ensures
        envelope_of(classify_spec(loaded_at), contents) == Some(envelope),
{
}

/// Saving again changes nothing: at one path, and at any two paths of the
/// same scheme, the same envelope is stored as the same bytes.
pub proof fn lemma_save_again_stores_alike(
    first_at: Seq<char>,
    second_at: Seq<char>,
    envelope: Seq<u8>,
    first: Seq<u8>,
    second: Seq<u8>,
)
    requires
        classify_spec(first_at) == classify_spec(second_at),
        stores(classify_spec(first_at), envelope, first),
        stores(classify_spec(second_at), envelope, second),
    ensures
        first == second,
{
}

/// Corruption by truncation: at a path that selects a codec, [`load`] fails
/// on every shorter beginning of what [`save`] returned.
pub proof fn lemma_load_rejects_cut_file(
    path: Seq<char>,
    envelope: Seq<u8>,
    contents: Seq<u8>,
    kept: int,
)
    requires
        classify_spec(path) != CompressionScheme::Raw,
        stores(classify_spec(path), envelope, contents),
        0 <= kept < contents.len(),
    ensures
        envelope_of(classify_spec(path), contents.take(kept)) is None,
{
}

/// Fallback: at two paths that both select no codec, the same envelope is
/// stored as the same bytes, and these are the envelope.
pub proof fn lemma_raw_paths_store_alike(
    first: Seq<char>,
    second: Seq<char>,
    envelope: Seq<u8>,
    at_first: Seq<u8>,
    at_second: Seq<u8>,
)
    requires
        classify_spec(first) == CompressionScheme::Raw,
        classify_spec(second) == CompressionScheme::Raw,
        stores(classify_spec(first), envelope, at_first),
        stores(classify_spec(second), envelope, at_second),
    ensures
        at_first == envelope,
        at_second == at_first,
{
}

/// Fallback by suffix: behind a suffix that is none of the four tokens,
/// saving cannot fail and what is stored is the envelope, whatever the rest
/// of the path.
pub proof fn lemma_unknown_suffix_stores_envelope(
    stem: Seq<char>,
    ext: Seq<char>,
    envelope: Seq<u8>,
)
    requires
        !ext.contains('.'),
        !ext.contains('/'),
        ext != "lz4"@ && ext != "zstd"@ && ext != "gz"@ && ext != "xz"@,
    ensures
        classify_spec(stem + seq!['.'] + ext) == CompressionScheme::Raw,
        framed(classify_spec(stem + seq!['.'] + ext), envelope) == Some(envelope),
        stores(classify_spec(stem + seq!['.'] + ext), envelope, envelope),
{
    lemma_classify_appended(stem, ext);
    lemma_table_exact(ext);
}

} // verus!
