//! How many bytes one read of the response body asks for.

use vstd::prelude::*;

verus! {

/// Number of reads a body of known length is divided into.
pub const READS_PER_BODY: u64 = 99;

/// Bytes asked for per read when the body's length is unknown.
pub const FALLBACK_CHUNK_SIZE: u64 = 1024;

/// The chunk size for a body of the given declared length.
pub open spec fn spec_chunk_size(content_length: Option<u64>) -> int {
    match content_length {
        Some(length) => if length / READS_PER_BODY >= 1 {
            (length / READS_PER_BODY) as int
        } else {
            1
        },
        None => FALLBACK_CHUNK_SIZE as int,
    }
}

/// Derives the chunk size from the declared content length: one ninety-ninth
/// of it, rounded down and never less than one byte, or the fallback when the
/// length is unknown.
pub fn chunk_size(content_length: Option<u64>) -> (size: u64)
    ensures
        size == spec_chunk_size(content_length),
        size >= 1,
        content_length matches Some(length) ==> (length >= READS_PER_BODY ==> size == length
            / READS_PER_BODY),
{
    match content_length {
        Some(length) => {
            let share: u64 = length / READS_PER_BODY;
            if share >= 1 {
                share
            } else {
                1
            }
        },
        None => FALLBACK_CHUNK_SIZE,
    }
}

} // verus!
