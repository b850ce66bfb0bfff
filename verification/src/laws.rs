use vstd::prelude::*;
use vstd::utf8::{encode_utf8, valid_utf8};

use crate::byte_slice::lemma_decoded_text_empty;
use crate::ice_candidate::{is_usable_candidate, AppIceCandidate, IceCandidate};
use crate::request::{
    is_request_for, is_unusable_candidate_entry, reply_for, success_reply, Entry, Outcome, Request,
    SuccessReply,
};

verus! {

/// Whatever the request, a failure of the call manager is answered with the
/// null address.
pub proof fn law_failure_is_null(request: Request)
    ensures
        reply_for(request, Outcome::Failed) == 0,
{
}

/// A successful initialization is answered with a non-null address.
pub proof fn law_initialize_success_is_non_null(produced: usize)
    ensures
        reply_for(Request::Initialize, Outcome::Succeeded(produced)) != 0,
{
}

/// Creating a call manager, and asking for the active connection or the active
/// call context, hand back on success exactly the address the call manager
/// produced, whatever that address is.
pub proof fn law_produced_address_is_handed_back(request: Request, produced: usize)
    requires
        request is Create || request is GetActiveConnection || request is GetActiveCallContext,
    ensures
        reply_for(request, Outcome::Succeeded(produced)) == produced,
{
}

/// The application can tell success from failure by the address it gets back,
/// wherever the address a success hands back is not itself null: the call
/// manager's address for the requests that echo it, the address produced for
/// the requests that produce one.
pub proof fn law_non_null_iff_success(request: Request, outcome: Outcome)
    requires
        success_reply(request) matches SuccessReply::Echo(call_manager) ==> call_manager != 0,
        success_reply(request) is Produced ==> (outcome matches Outcome::Succeeded(produced) ==> produced != 0),
    ensures
        reply_for(request, outcome) != 0 <==> outcome is Succeeded,
{
}

/// An entry point that is given the address of a call manager and does not
/// ask for the active connection or call context hands that same address back
/// when the call manager succeeds.
pub proof fn law_success_returns_call_manager(entry: Entry, request: Request, produced: usize)
    requires
        is_request_for(entry, Some(request)),
        !(entry is Initialize),
        !(entry is Create),
        !(entry is GetActiveConnection),
        !(entry is GetActiveCallContext),
    ensures
        reply_for(request, Outcome::Succeeded(produced)) == match entry {
            Entry::Call { call_manager, .. } => call_manager,
            Entry::Proceed { call_manager, .. } => call_manager,
            Entry::MessageSent { call_manager, .. } => call_manager,
            Entry::MessageSendFailure { call_manager, .. } => call_manager,
            Entry::Hangup { call_manager } => call_manager,
            Entry::ReceivedAnswer { call_manager, .. } => call_manager,
            Entry::ReceivedOffer { call_manager, .. } => call_manager,
            Entry::ReceivedIceCandidate { call_manager, .. } => call_manager,
            Entry::ReceivedHangup { call_manager, .. } => call_manager,
            Entry::ReceivedBusy { call_manager, .. } => call_manager,
            Entry::Accept { call_manager, .. } => call_manager,
            Entry::SetVideoEnable { call_manager, .. } => call_manager,
            Entry::Drop { call_manager, .. } => call_manager,
            Entry::Reset { call_manager } => call_manager,
            Entry::Close { call_manager } => call_manager,
            _ => 0,
        },
{
}

/// Only the entry points that receive data from the remote side (an answer, an
/// offer, an ICE candidate) ever turn a call down without asking the call
/// manager; all others always make their request.
pub proof fn law_only_received_data_is_turned_down(entry: Entry)
    requires
        is_request_for(entry, None),
    ensures
        entry is ReceivedAnswer || entry is ReceivedOffer || entry is ReceivedIceCandidate,
{
}

/// The warning is given exactly when an ICE candidate is turned down; turning
/// down an answer or an offer gives none.
pub proof fn law_warning_exactly_for_turned_down_candidates(entry: Entry, request: Option<Request>)
    requires
        is_request_for(entry, request),
    ensures
        is_unusable_candidate_entry(entry) <==> (entry is ReceivedIceCandidate && request is None),
{
}

/// A session description is turned down exactly when its bytes are not UTF-8,
/// and the text handed on encodes back to the very bytes received.
pub proof fn law_session_description_is_the_bytes_received(entry: Entry, request: Option<Request>)
    requires
        is_request_for(entry, request),
        entry is ReceivedAnswer || entry is ReceivedOffer,
    ensures
        match entry {
            Entry::ReceivedAnswer { answer, .. } => {
                &&& request is Some <==> valid_utf8(answer@)
                &&& request matches Some(Request::ReceivedAnswer { session_desc, .. })
                    ==> encode_utf8(session_desc@) == answer@
            },
            Entry::ReceivedOffer { offer, .. } => {
                &&& request is Some <==> valid_utf8(offer@)
                &&& request matches Some(Request::ReceivedOffer { session_desc, .. })
                    ==> encode_utf8(session_desc@) == offer@
            },
            _ => true,
        },
{
    match entry {
        Entry::ReceivedAnswer { answer, .. } => {
            if valid_utf8(answer@) {
                vstd::utf8::decode_utf8_encode_utf8(answer@);
            }
        },
        Entry::ReceivedOffer { offer, .. } => {
            if valid_utf8(offer@) {
                vstd::utf8::decode_utf8_encode_utf8(offer@);
            }
        },
        _ => {},
    }
}

/// An ICE candidate is handed on exactly when both its texts are non-empty
/// UTF-8; then it is handed on alone, with neither text empty, each encoding
/// back to the bytes received, and its media line index unchanged.
pub proof fn law_candidate_handed_on_intact(
    call_manager: usize,
    call_id: u64,
    remote_device: u32,
    candidate: AppIceCandidate,
    request: Option<Request>,
)
    requires
        is_request_for(
            Entry::ReceivedIceCandidate { call_manager, call_id, remote_device, candidate },
            request,
        ),
    ensures
        request is Some <==> is_usable_candidate(candidate),
        request matches Some(Request::ReceivedIceCandidates { candidates, .. }) ==> {
            let ice: IceCandidate = candidates@[0];
            &&& candidates@.len() == 1
            &&& ice.sdp_mid@.len() > 0
            &&& ice.sdp@.len() > 0
            &&& encode_utf8(ice.sdp_mid@) == candidate.sdpMid@
            &&& encode_utf8(ice.sdp@) == candidate.sdp@
            &&& ice.sdp_mline_index == candidate.sdpMLineIndex
        },
{
    if is_usable_candidate(candidate) {
        lemma_decoded_text_empty(candidate.sdpMid@);
        lemma_decoded_text_empty(candidate.sdp@);
        vstd::utf8::decode_utf8_encode_utf8(candidate.sdpMid@);
        vstd::utf8::decode_utf8_encode_utf8(candidate.sdp@);
    }
}

} // verus!
