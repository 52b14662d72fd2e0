//! The scheme without compression: the file is the envelope.

use vstd::prelude::*;
use vstd::slice::slice_to_vec;

verus! {

/// The bytes to store for `envelope` when nothing compresses it: the envelope
/// itself, with no framing added.
pub fn save_raw(envelope: &[u8]) -> (contents: Vec<u8>)
    ensures
        contents@ == envelope@,
{
    slice_to_vec(envelope)
}

/// The envelope held by an uncompressed file: all of its bytes.
pub fn load_raw(contents: &[u8]) -> (envelope: Vec<u8>)
    ensures
        envelope@ == contents@,
{
    slice_to_vec(contents)
}

} // verus!
