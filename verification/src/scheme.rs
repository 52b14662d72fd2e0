//! The closed set of compression schemes and the classifier that picks one
//! from a path's suffix.
//!
//! A path is read as a sequence of characters. Its last segment is what
//! follows the last `/`; its suffix is what follows the last `.` of that
//! segment. Nothing else of the path takes part: classification is a total
//! function of the suffix.

use vstd::prelude::*;

verus! {

broadcast use vstd::string::group_string_axioms;

/// How the bytes of a file are framed.
#[derive(Clone, Copy, Debug, PartialEq, Eq, Structural)]
pub enum CompressionScheme {
    /// No compression: the file is the envelope.
    Raw,
    /// LZ4 frame compression.
    Lz4,
    /// Zstandard compression.
    Zstd,
    /// gzip compression.
    Gzip,
    /// LZMA2 compression in an xz container.
    Xz,
}

/// The last segment of `path`: what follows its last `/`, or all of it where
/// it holds none.
pub open spec fn last_segment(path: Seq<char>) -> Seq<char> {
    match path.index_of_last('/') {
        Some(slash) => path.skip(slash + 1),
        None => path,
    }
}

/// The suffix of `path`: what follows the last `.` of its last segment.
/// A last segment without a `.` has no suffix; one that ends in a `.` has the
/// empty suffix.
pub open spec fn suffix(path: Seq<char>) -> Option<Seq<char>> {
    let name = last_segment(path);
    match name.index_of_last('.') {
        Some(dot) => Some(name.skip(dot + 1)),
        None => None,
    }
}

/// The scheme that a suffix selects. The four tokens are matched exactly and
/// with their case; every other suffix selects no compression.
pub open spec fn scheme_of_suffix(ext: Seq<char>) -> CompressionScheme {
    if ext == "lz4"@ {
        CompressionScheme::Lz4
    } else if ext == "zstd"@ {
        CompressionScheme::Zstd
    } else if ext == "gz"@ {
        CompressionScheme::Gzip
    } else if ext == "xz"@ {
        CompressionScheme::Xz
    } else {
        CompressionScheme::Raw
    }
}

/// The scheme of a path: that of its suffix, and no compression where it has
/// none.
pub open spec fn classify_spec(path: Seq<char>) -> CompressionScheme {
    match suffix(path) {
        Some(ext) => scheme_of_suffix(ext),
        None => CompressionScheme::Raw,
    }
}

/// `path` is some stem, a `.`, and then `ext`, where `ext` holds neither a
/// `.` nor a `/`.
pub open spec fn ends_in(path: Seq<char>, ext: Seq<char>) -> bool {
    &&& path.len() > ext.len()
    &&& path[path.len() - ext.len() - 1] == '.'
    &&& path.skip(path.len() - ext.len()) == ext
    &&& !ext.contains('.')
    &&& !ext.contains('/')
}

/// From `start` on, `path` holds neither a `.` nor a `/`.
pub open spec fn plain_from(path: Seq<char>, start: int) -> bool {
    forall|j: int| start <= j < path.len() ==> path[j] != '.' && path[j] != '/'
}

/// A `.` followed by plain characters to the end of the path sets off the
/// suffix.
pub proof fn lemma_suffix_behind_dot(path: Seq<char>, start: int)
    requires
        0 < start <= path.len(),
        path[start - 1] == '.',
        plain_from(path, start),
    ensures
        suffix(path) == Some(path.skip(start)),
{
    path.index_of_last_ensures('/');
    let name = last_segment(path);
    let offset: int = match path.index_of_last('/') {
        Some(slash) => slash + 1,
        None => 0,
    };
    assert(offset <= start - 1);
    assert(name[start - 1 - offset] == '.');
    name.index_of_last_ensures('.');
    assert(name.index_of_last('.') == Some(start - 1 - offset));
}

/// A path whose last `/` is followed by plain characters only, or that holds
/// plain characters only, has no suffix.
pub proof fn lemma_no_suffix(path: Seq<char>, start: int)
    requires
        0 <= start <= path.len(),
        start > 0 ==> path[start - 1] == '/',
        plain_from(path, start),
    ensures
        suffix(path) is None,
{
    path.index_of_last_ensures('/');
    if start > 0 {
        assert(path.index_of_last('/') == Some(start - 1));
    }
    last_segment(path).index_of_last_ensures('.');
}

/// The suffix, said without looking for it: `ext` is the suffix of `path`
/// exactly where `path` ends in a `.` and then `ext`, and `ext` holds neither
/// a `.` nor a `/`.
pub proof fn lemma_suffix_characterized(path: Seq<char>, ext: Seq<char>)
    ensures
        suffix(path) == Some(ext) <==> ends_in(path, ext),
{
    if ends_in(path, ext) {
        let start = path.len() - ext.len();
        assert(plain_from(path, start)) by {
            assert forall|j: int| start <= j < path.len() implies path[j] != '.' && path[j]
                != '/' by {
                assert(path[j] == ext[j - start]);
            }
        }
        lemma_suffix_behind_dot(path, start);
    }
    if suffix(path) == Some(ext) {
        path.index_of_last_ensures('/');
        last_segment(path).index_of_last_ensures('.');
        assert(path.skip(path.len() - ext.len()) == ext);
    }
}

/// Whatever stands before it, a `.` followed by `ext` makes `ext` the
/// suffix, and the scheme is the one that the table gives for `ext`.
pub proof fn lemma_classify_appended(stem: Seq<char>, ext: Seq<char>)
    requires
        !ext.contains('.'),
        !ext.contains('/'),
    ensures
        suffix(stem + seq!['.'] + ext) == Some(ext),
        classify_spec(stem + seq!['.'] + ext) == scheme_of_suffix(ext),
{
    let path = stem + seq!['.'] + ext;
    assert(path.skip(path.len() - ext.len()) == ext);
    lemma_suffix_characterized(path, ext);
}

/// The table is exact: a suffix selects a codec only where it is that
/// codec's token, letter for letter.
pub proof fn lemma_table_exact(ext: Seq<char>)
    ensures
        scheme_of_suffix(ext) == CompressionScheme::Lz4 <==> ext == "lz4"@,
        scheme_of_suffix(ext) == CompressionScheme::Zstd <==> ext == "zstd"@,
        scheme_of_suffix(ext) == CompressionScheme::Gzip <==> ext == "gz"@,
        scheme_of_suffix(ext) == CompressionScheme::Xz <==> ext == "xz"@,
        scheme_of_suffix(ext) == CompressionScheme::Raw <==> ext != "lz4"@ && ext != "zstd"@ && ext
            != "gz"@ && ext != "xz"@,
{
    reveal_strlit("lz4");
    reveal_strlit("zstd");
    reveal_strlit("gz");
    reveal_strlit("xz");
    assert("lz4"@.len() == 3 && "zstd"@.len() == 4 && "gz"@.len() == 2 && "xz"@.len() == 2);
    assert("gz"@[0] == 'g' && "xz"@[0] == 'x');
}

/// Each token, put behind a `.` at the end of any path, selects its codec.
pub proof fn lemma_tokens_select(stem: Seq<char>)
    ensures
        classify_spec(stem + seq!['.'] + "lz4"@) == CompressionScheme::Lz4,
        classify_spec(stem + seq!['.'] + "zstd"@) == CompressionScheme::Zstd,
        classify_spec(stem + seq!['.'] + "gz"@) == CompressionScheme::Gzip,
        classify_spec(stem + seq!['.'] + "xz"@) == CompressionScheme::Xz,
{
    reveal_strlit("lz4");
    reveal_strlit("zstd");
    reveal_strlit("gz");
    reveal_strlit("xz");
    lemma_table_exact("lz4"@);
    lemma_table_exact("zstd"@);
    lemma_table_exact("gz"@);
    lemma_table_exact("xz"@);
    lemma_classify_appended(stem, "lz4"@);
    lemma_classify_appended(stem, "zstd"@);
    lemma_classify_appended(stem, "gz"@);
    lemma_classify_appended(stem, "xz"@);
}

/// A path is compressed only where it ends in a `.` and a token: a path
/// without a suffix, and one whose suffix is no token, is stored raw.
pub proof fn lemma_compressed_only_by_token(path: Seq<char>)
    ensures
        classify_spec(path) == CompressionScheme::Lz4 <==> ends_in(path, "lz4"@),
        classify_spec(path) == CompressionScheme::Zstd <==> ends_in(path, "zstd"@),
        classify_spec(path) == CompressionScheme::Gzip <==> ends_in(path, "gz"@),
        classify_spec(path) == CompressionScheme::Xz <==> ends_in(path, "xz"@),
        classify_spec(path) == CompressionScheme::Raw <==> !ends_in(path, "lz4"@) && !ends_in(
            path,
            "zstd"@,
        ) && !ends_in(path, "gz"@) && !ends_in(path, "xz"@),
{
    lemma_suffix_characterized(path, "lz4"@);
    lemma_suffix_characterized(path, "zstd"@);
    lemma_suffix_characterized(path, "gz"@);
    lemma_suffix_characterized(path, "xz"@);
    if suffix(path) is Some {
        lemma_table_exact(suffix(path).unwrap());
    }
}

/// Classification is a function of the suffix alone: two paths with the same
/// suffix, or both without one, have the same scheme.
pub proof fn lemma_scheme_follows_suffix(first: Seq<char>, second: Seq<char>)
    requires
        suffix(first) == suffix(second),
    ensures
        classify_spec(first) == classify_spec(second),
{
}

/// The directories of a path take no part: only its last segment is
/// classified.
pub proof fn lemma_directories_ignored(dir: Seq<char>, name: Seq<char>)
    requires
        !name.contains('/'),
    ensures
        last_segment(dir + seq!['/'] + name) == name,
        suffix(dir + seq!['/'] + name) == suffix(name),
        classify_spec(dir + seq!['/'] + name) == classify_spec(name),
{
    let path = dir + seq!['/'] + name;
    let cut = dir.len() as int;
    assert(path[cut] == '/');
    path.index_of_last_ensures('/');
    assert(path.index_of_last('/') == Some(cut));
    assert(path.skip(cut + 1) == name);
    name.index_of_last_ensures('/');
}

/// The characters of a string, in order.
fn chars_of(text: &str) -> (chars: Vec<char>)
    ensures
        chars@ == text@,
{
    let mut chars: Vec<char> = Vec::new();
    for c in it: text.chars()
        invariant
            it.seq() == text@,
            chars@ == it.seq().take(it.index()),
    {
        chars.push(c);
    }
    chars
}

/// Whether `chars` from `start` on spells `token`.
fn tail_is(chars: &Vec<char>, start: usize, token: &str) -> (same: bool)
    requires
        start <= chars.len(),
    ensures
        same == (chars@.skip(start as int) == token@),
{
    let expected = chars_of(token);
    let ghost tail = chars@.skip(start as int);
    if chars.len() - start != expected.len() {
        return false;
    }
    let mut k: usize = 0;
    while k < expected.len()
        invariant
            k <= expected.len(),
            start <= chars.len(),
            chars.len() - start == expected.len(),
            expected@ == token@,
            tail == chars@.skip(start as int),
            forall|j: int| 0 <= j < k ==> tail[j] == token@[j],
        decreases expected.len() - k,
    {
        if chars[start + k] != expected[k] {
            return false;
        }
        k += 1;
    }
    assert(tail =~= token@);
    true
}

/// The table of tokens, applied to what `chars` holds from `start` on.
fn scheme_of_tail(chars: &Vec<char>, start: usize) -> (scheme: CompressionScheme)
    requires
        start <= chars.len(),
    ensures
        scheme == scheme_of_suffix(chars@.skip(start as int)),
{
    if tail_is(chars, start, "lz4") {
        CompressionScheme::Lz4
    } else if tail_is(chars, start, "zstd") {
        CompressionScheme::Zstd
    } else if tail_is(chars, start, "gz") {
        CompressionScheme::Gzip
    } else if tail_is(chars, start, "xz") {
        CompressionScheme::Xz
    } else {
        CompressionScheme::Raw
    }
}

impl CompressionScheme {
    /// The scheme that the suffix `ext` selects: the four tokens `lz4`,
    /// `zstd`, `gz` and `xz` select their codec, anything else selects no
    /// compression.
    pub fn from_suffix(ext: &str) -> (scheme: CompressionScheme)
        ensures
            scheme == scheme_of_suffix(ext@),
    {
        let chars = chars_of(ext);
        assert(chars@.skip(0) == chars@);
        scheme_of_tail(&chars, 0)
    }
}

/// Classifies a path by its suffix. Total: every path has exactly one
/// scheme, and a path without a suffix, or with one that is none of the four
/// tokens, has [`CompressionScheme::Raw`].
pub fn classify(path: &str) -> (scheme: CompressionScheme)
    ensures
        scheme == classify_spec(path@),
{
    let chars = chars_of(path);
    let mut i: usize = chars.len();
    while i > 0
        invariant
            i <= chars.len(),
            chars@ == path@,
            plain_from(path@, i as int),
        decreases i,
    {
        let c = chars[i - 1];
        if c == '/' {
            proof {
                lemma_no_suffix(path@, i as int);
            }
            return CompressionScheme::Raw;
        }
        if c == '.' {
            proof {
                lemma_suffix_behind_dot(path@, i as int);
            }
            return scheme_of_tail(&chars, i);
        }
        i -= 1;
    }
    proof {
        lemma_no_suffix(path@, 0);
    }
    CompressionScheme::Raw
}

} // verus!
