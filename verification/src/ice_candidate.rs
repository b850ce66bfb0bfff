use vstd::prelude::*;
use vstd::utf8::{decode_utf8, valid_utf8};

use crate::byte_slice::{decode_text, lemma_decoded_text_empty, AppByteSlice};

verus! {

/// An ICE candidate as the call manager takes it.
pub struct IceCandidate {
    pub sdp_mid: String,
    pub sdp_mline_index: i32,
    pub sdp: String,
}

impl IceCandidate {
    pub fn new(sdp_mid: String, sdp_mline_index: i32, sdp: String) -> (r: Self)
        ensures
            r.sdp_mid@ == sdp_mid@,
            r.sdp_mline_index == sdp_mline_index,
            r.sdp@ == sdp@,
    {
        IceCandidate { sdp_mid, sdp_mline_index, sdp }
    }
}

/// An ICE candidate as the application passes it: its media stream
/// identification and its SDP line as raw bytes, and the index of its media line.
#[allow(non_snake_case)]
pub struct AppIceCandidate {
    pub sdpMid: AppByteSlice,
    pub sdpMLineIndex: i32,
    pub sdp: AppByteSlice,
}

/// True when `bytes` carry text that is usable in a candidate: well-formed
/// UTF-8 that is not empty.
pub open spec fn is_candidate_text(bytes: Seq<u8>) -> bool {
    valid_utf8(bytes) && bytes.len() > 0
}

/// True when the application's candidate can be handed on: both its media
/// stream identification and its SDP line are non-empty UTF-8 text.
pub open spec fn is_usable_candidate(candidate: AppIceCandidate) -> bool {
    is_candidate_text(candidate.sdpMid@) && is_candidate_text(candidate.sdp@)
}

/// The ICE candidate the call manager is given for the application's candidate:
/// `None` where its SDP line or its media stream identification is not UTF-8 or
/// is empty; else the two decoded texts, with the media line index unchanged.
pub fn ice_candidate_from_app(candidate: &AppIceCandidate) -> (r: Option<IceCandidate>)
    ensures
        r is Some <==> is_usable_candidate(*candidate),
        r matches Some(ice) ==> {
            &&& ice.sdp_mid@ == decode_utf8(candidate.sdpMid@)
            &&& ice.sdp_mline_index == candidate.sdpMLineIndex
            &&& ice.sdp@ == decode_utf8(candidate.sdp@)
        },
{
    let sdp = match decode_text(&candidate.sdp) {
        Some(text) => text,
        None => String::new(),
    };
    let sdp_mid = match decode_text(&candidate.sdpMid) {
        Some(text) => text,
        None => String::new(),
    };
    proof {
        if valid_utf8(candidate.sdp@) {
            lemma_decoded_text_empty(candidate.sdp@);
        }
        if valid_utf8(candidate.sdpMid@) {
            lemma_decoded_text_empty(candidate.sdpMid@);
        }
    }
    if sdp.as_str().is_empty() || sdp_mid.as_str().is_empty() {
        return None;
    }
    Some(IceCandidate::new(sdp_mid, candidate.sdpMLineIndex, sdp))
}

} // verus!
