//! Decoder for a captured state dump: a flat sequence of frames, each a
//! 32-bit little-endian key length, the key bytes, a 32-bit little-endian
//! value length, and the value bytes, packed back to back to exactly the
//! end of the input. Trailing or missing bytes are a decode error; partial
//! decodes are not tolerated.

use vstd::prelude::*;

use crate::error::PipelineError;
use crate::overlay::{pairs_view, PairsView};

verus! {

/// The pairs a well-formed dump encodes, or nothing when the bytes do not
/// parse to exactly a whole number of frames.
pub open spec fn spec_decode_snapshot(s: Seq<u8>) -> Option<PairsView>
    decreases s.len(),
{
    if s.len() == 0 {
        Some(Seq::empty())
    } else if s.len() < 4 {
        None
    } else {
        let klen = vstd::bytes::spec_u32_from_le_bytes(s.subrange(0, 4)) as int;
        if s.len() - 4 < klen {
            None
        } else if s.len() - 4 - klen < 4 {
            None
        } else {
            let vlen = vstd::bytes::spec_u32_from_le_bytes(
                s.subrange(4 + klen, 8 + klen),
            ) as int;
            if s.len() - 8 - klen < vlen {
                None
            } else {
                let key = s.subrange(4, 4 + klen);
                let value = s.subrange(8 + klen, 8 + klen + vlen);
                match spec_decode_snapshot(s.subrange(8 + klen + vlen, s.len() as int)) {
                    Some(rest) => Some(seq![(key, value)] + rest),
                    None => None,
                }
            }
        }
    }
}

/// Decodes a captured dump into its key/value pairs, or fails when the
/// bytes are not exactly a whole number of frames.
pub fn decode_snapshot(s: &[u8]) -> (r: Result<Vec<(Vec<u8>, Vec<u8>)>, PipelineError>)
    ensures
        (match spec_decode_snapshot(s@) {
            Some(ps) => r matches Ok(v) && pairs_view(v@) == ps,
            None => r == Err::<Vec<(Vec<u8>, Vec<u8>)>, _>(PipelineError::Decode),
        }),
    decreases s@.len(),
{
    if s.len() == 0 {
        let v: Vec<(Vec<u8>, Vec<u8>)> = Vec::new();
        proof {
            assert(pairs_view(v@) =~= Seq::<(Seq<u8>, Seq<u8>)>::empty());
        }
        return Ok(v);
    }
    if s.len() < 4 {
        return Err(PipelineError::Decode);
    }
    let klen = vstd::bytes::u32_from_le_bytes(vstd::slice::slice_subrange(s, 0, 4)) as usize;
    if s.len() - 4 < klen {
        return Err(PipelineError::Decode);
    }
    if s.len() - 4 - klen < 4 {
        return Err(PipelineError::Decode);
    }
    let vlen = vstd::bytes::u32_from_le_bytes(
        vstd::slice::slice_subrange(s, 4 + klen, 8 + klen),
    ) as usize;
    if s.len() - 8 - klen < vlen {
        return Err(PipelineError::Decode);
    }
    let key = vstd::slice::slice_to_vec(vstd::slice::slice_subrange(s, 4, 4 + klen));
    let value = vstd::slice::slice_to_vec(
        vstd::slice::slice_subrange(s, 8 + klen, 8 + klen + vlen),
    );
    let tail = vstd::slice::slice_subrange(s, 8 + klen + vlen, s.len());
    match decode_snapshot(tail) {
        Ok(mut rest) => {
            let ghost rest_view = pairs_view(rest@);
            let mut out: Vec<(Vec<u8>, Vec<u8>)> = Vec::new();
            out.push((key, value));
            out.append(&mut rest);
            proof {
                assert(pairs_view(out@) =~= seq![
                    (s@.subrange(4, 4 + klen as int), s@.subrange(
                        8 + klen as int,
                        8 + klen as int + vlen as int,
                    )),
                ] + rest_view);
            }
            Ok(out)
        },
        Err(e) => Err(e),
    }
}

} // verus!
