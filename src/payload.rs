//! Heart-rate measurement payloads.
use vstd::prelude::*;

verus! {

/// What a heart-rate notification payload carries: the beats-per-minute
/// reading in its second byte, or nothing when the payload is too short.
pub open spec fn decoded(payload: Seq<u8>) -> Option<u8> {
    if payload.len() >= 2 {
        Some(payload[1])
    } else {
        None
    }
}

/// Reads the beats-per-minute value of a notification payload.
pub fn decode(payload: &Vec<u8>) -> (r: Option<u8>)
    ensures
        r == decoded(payload@),
{
    if payload.len() >= 2 {
        Some(payload[1])
    } else {
        None
    }
}

/// A payload of two bytes or more decodes to its second byte, whatever follows it.
pub proof fn lemma_decode_ignores_tail(payload: Seq<u8>, tail: Seq<u8>)
    requires
        payload.len() >= 2,
    ensures
        decoded(payload) == Some(payload[1]),
        decoded(payload + tail) == decoded(payload),
{
    assert((payload + tail)[1] == payload[1]);
}

} // verus!
