use vstd::prelude::*;
use vstd::utf8::{decode_utf8, valid_utf8};

use crate::byte_slice::{decode_text, AppByteSlice};
use crate::ice_candidate::{ice_candidate_from_app, is_usable_candidate, AppIceCandidate, IceCandidate};

verus! {

/// A call through one of the entry points of the interface, with the plain
/// values the application passed. Addresses stand for the application's and the
/// call manager's objects; 0 is the null address.
pub enum Entry {
    Initialize,
    Create { app_call_manager: usize },
    Call { call_manager: usize, app_remote: usize },
    Proceed { call_manager: usize, call_id: u64, remote_devices: Vec<u32> },
    MessageSent { call_manager: usize, call_id: u64 },
    MessageSendFailure { call_manager: usize, call_id: u64 },
    Hangup { call_manager: usize },
    ReceivedAnswer { call_manager: usize, call_id: u64, remote_device: u32, answer: AppByteSlice },
    ReceivedOffer {
        call_manager: usize,
        call_id: u64,
        app_remote: usize,
        remote_device: u32,
        offer: AppByteSlice,
        timestamp: u64,
    },
    ReceivedIceCandidate {
        call_manager: usize,
        call_id: u64,
        remote_device: u32,
        candidate: AppIceCandidate,
    },
    ReceivedHangup { call_manager: usize, call_id: u64, remote_device: u32 },
    ReceivedBusy { call_manager: usize, call_id: u64, remote_device: u32 },
    Accept { call_manager: usize, call_id: u64 },
    GetActiveConnection { call_manager: usize },
    GetActiveCallContext { call_manager: usize },
    SetVideoEnable { call_manager: usize, enable: bool },
    Drop { call_manager: usize, call_id: u64 },
    Reset { call_manager: usize },
    Close { call_manager: usize },
}

/// What the call manager is asked to do on behalf of an entry point.
pub enum Request {
    Initialize,
    Create { app_call_manager: usize },
    Call { call_manager: usize, app_remote: usize },
    Proceed { call_manager: usize, call_id: u64, remote_devices: Vec<u32> },
    MessageSent { call_manager: usize, call_id: u64 },
    MessageSendFailure { call_manager: usize, call_id: u64 },
    Hangup { call_manager: usize },
    ReceivedAnswer { call_manager: usize, call_id: u64, remote_device: u32, session_desc: String },
    ReceivedOffer {
        call_manager: usize,
        call_id: u64,
        app_remote: usize,
        remote_device: u32,
        session_desc: String,
        timestamp: u64,
    },
    ReceivedIceCandidates {
        call_manager: usize,
        call_id: u64,
        remote_device: u32,
        candidates: Vec<IceCandidate>,
    },
    ReceivedHangup { call_manager: usize, call_id: u64, remote_device: u32 },
    ReceivedBusy { call_manager: usize, call_id: u64, remote_device: u32 },
    Accept { call_manager: usize, call_id: u64 },
    GetActiveConnection { call_manager: usize },
    GetActiveCallContext { call_manager: usize },
    SetVideoEnable { call_manager: usize, enable: bool },
    Drop { call_manager: usize, call_id: u64 },
    Reset { call_manager: usize },
    Close { call_manager: usize },
}

/// How the call manager answered a request.
pub enum Outcome {
    /// The request failed.
    Failed,
    /// The request succeeded; the value is the address it produced, where it
    /// produces one (a new call manager, the active connection or call
    /// context), and is not looked at otherwise.
    Succeeded(usize),
}

/// True when `request` is what the call manager is asked for `entry`, and
/// `None` when the entry point turns the call down without asking anything.
/// Every identifier and address is handed on unchanged; the device list is
/// copied; a session description is the UTF-8 decoding of the bytes received,
/// and the call is turned down where they are not UTF-8; an ICE candidate is
/// handed on alone, as `ice_candidate_from_app` builds it, and the call is turned
/// down where that gives none.
pub open spec fn is_request_for(entry: Entry, request: Option<Request>) -> bool {
    match entry {
        Entry::Initialize => request == Some(Request::Initialize),
        Entry::Create { app_call_manager } => request == Some(Request::Create { app_call_manager }),
        Entry::Call { call_manager, app_remote } => request == Some(
            Request::Call { call_manager, app_remote },
        ),
        Entry::Proceed { call_manager, call_id, remote_devices } => {
            &&& request matches Some(Request::Proceed { call_manager: m, call_id: c, remote_devices: d })
            &&& m == call_manager && c == call_id && d@ == remote_devices@
        },
        Entry::MessageSent { call_manager, call_id } => request == Some(
            Request::MessageSent { call_manager, call_id },
        ),
        Entry::MessageSendFailure { call_manager, call_id } => request == Some(
            Request::MessageSendFailure { call_manager, call_id },
        ),
        Entry::Hangup { call_manager } => request == Some(Request::Hangup { call_manager }),
        Entry::ReceivedAnswer { call_manager, call_id, remote_device, answer } => {
            if valid_utf8(answer@) {
                &&& request matches Some(
                    Request::ReceivedAnswer { call_manager: m, call_id: c, remote_device: d, session_desc: s },
                )
                &&& m == call_manager && c == call_id && d == remote_device
                &&& s@ == decode_utf8(answer@)
            } else {
                request is None
            }
        },
        Entry::ReceivedOffer { call_manager, call_id, app_remote, remote_device, offer, timestamp } => {
            if valid_utf8(offer@) {
                &&& request matches Some(
                    Request::ReceivedOffer {
                        call_manager: m,
                        call_id: c,
                        app_remote: a,
                        remote_device: d,
                        session_desc: s,
                        timestamp: t,
                    },
                )
                &&& m == call_manager && c == call_id && a == app_remote && d == remote_device
                &&& s@ == decode_utf8(offer@)
                &&& t == timestamp
            } else {
                request is None
            }
        },
        Entry::ReceivedIceCandidate { call_manager, call_id, remote_device, candidate } => {
            if is_usable_candidate(candidate) {
                &&& request matches Some(
                    Request::ReceivedIceCandidates { call_manager: m, call_id: c, remote_device: d, candidates: v },
                )
                &&& m == call_manager && c == call_id && d == remote_device
                &&& v@.len() == 1
                &&& v@[0].sdp_mid@ == decode_utf8(candidate.sdpMid@)
                &&& v@[0].sdp_mline_index == candidate.sdpMLineIndex
                &&& v@[0].sdp@ == decode_utf8(candidate.sdp@)
            } else {
                request is None
            }
        },
        Entry::ReceivedHangup { call_manager, call_id, remote_device } => request == Some(
            Request::ReceivedHangup { call_manager, call_id, remote_device },
        ),
        Entry::ReceivedBusy { call_manager, call_id, remote_device } => request == Some(
            Request::ReceivedBusy { call_manager, call_id, remote_device },
        ),
        Entry::Accept { call_manager, call_id } => request == Some(
            Request::Accept { call_manager, call_id },
        ),
        Entry::GetActiveConnection { call_manager } => request == Some(
            Request::GetActiveConnection { call_manager },
        ),
        Entry::GetActiveCallContext { call_manager } => request == Some(
            Request::GetActiveCallContext { call_manager },
        ),
        Entry::SetVideoEnable { call_manager, enable } => request == Some(
            Request::SetVideoEnable { call_manager, enable },
        ),
        Entry::Drop { call_manager, call_id } => request == Some(
            Request::Drop { call_manager, call_id },
        ),
        Entry::Reset { call_manager } => request == Some(Request::Reset { call_manager }),
        Entry::Close { call_manager } => request == Some(Request::Close { call_manager }),
    }
}

/// The request an entry point makes of the call manager, or `None` where it
/// turns the call down and answers the application with the null address.
pub fn dispatch(entry: Entry) -> (r: Option<Request>)
    ensures
        is_request_for(entry, r),
{
    match entry {
        Entry::Initialize => Some(Request::Initialize),
        Entry::Create { app_call_manager } => Some(Request::Create { app_call_manager }),
        Entry::Call { call_manager, app_remote } => Some(Request::Call { call_manager, app_remote }),
        Entry::Proceed { call_manager, call_id, remote_devices } => Some(
            Request::Proceed { call_manager, call_id, remote_devices },
        ),
        Entry::MessageSent { call_manager, call_id } => Some(
            Request::MessageSent { call_manager, call_id },
        ),
        Entry::MessageSendFailure { call_manager, call_id } => Some(
            Request::MessageSendFailure { call_manager, call_id },
        ),
        Entry::Hangup { call_manager } => Some(Request::Hangup { call_manager }),
        Entry::ReceivedAnswer { call_manager, call_id, remote_device, answer } => {
            match decode_text(&answer) {
                Some(session_desc) => Some(
                    Request::ReceivedAnswer { call_manager, call_id, remote_device, session_desc },
                ),
                None => None,
            }
        },
        Entry::ReceivedOffer { call_manager, call_id, app_remote, remote_device, offer, timestamp } => {
            match decode_text(&offer) {
                Some(session_desc) => Some(
                    Request::ReceivedOffer {
                        call_manager,
                        call_id,
                        app_remote,
                        remote_device,
                        session_desc,
                        timestamp,
                    },
                ),
                None => None,
            }
        },
        Entry::ReceivedIceCandidate { call_manager, call_id, remote_device, candidate } => {
            match ice_candidate_from_app(&candidate) {
                Some(ice_candidate) => {
                    let mut candidates: Vec<IceCandidate> = Vec::new();
                    candidates.push(ice_candidate);
                    Some(Request::ReceivedIceCandidates { call_manager, call_id, remote_device, candidates })
                },
                None => None,
            }
        },
        Entry::ReceivedHangup { call_manager, call_id, remote_device } => Some(
            Request::ReceivedHangup { call_manager, call_id, remote_device },
        ),
        Entry::ReceivedBusy { call_manager, call_id, remote_device } => Some(
            Request::ReceivedBusy { call_manager, call_id, remote_device },
        ),
        Entry::Accept { call_manager, call_id } => Some(Request::Accept { call_manager, call_id }),
        Entry::GetActiveConnection { call_manager } => Some(
            Request::GetActiveConnection { call_manager },
        ),
        Entry::GetActiveCallContext { call_manager } => Some(
            Request::GetActiveCallContext { call_manager },
        ),
        Entry::SetVideoEnable { call_manager, enable } => Some(
            Request::SetVideoEnable { call_manager, enable },
        ),
        Entry::Drop { call_manager, call_id } => Some(Request::Drop { call_manager, call_id }),
        Entry::Reset { call_manager } => Some(Request::Reset { call_manager }),
        Entry::Close { call_manager } => Some(Request::Close { call_manager }),
    }
}

/// The warning logged when an ICE candidate is turned down.
pub open spec fn no_valid_candidates_warning() -> Seq<char> {
    "ringrtcReceivedIceCandidates: No valid candidates!"@
}

/// True when `entry` is an ICE candidate that is turned down, the one case in
/// which turning a call down is accompanied by a warning.
pub open spec fn is_unusable_candidate_entry(entry: Entry) -> bool {
    entry matches Entry::ReceivedIceCandidate { candidate, .. } && !is_usable_candidate(candidate)
}

/// The warning to log for `entry`: the text of `no_valid_candidates_warning`
/// where it is an ICE candidate that is turned down, and none otherwise.
pub fn turn_down_warning(entry: &Entry) -> (r: Option<String>)
    ensures
        r is Some <==> is_unusable_candidate_entry(*entry),
        r matches Some(warning) ==> warning@ == no_valid_candidates_warning(),
{
    match entry {
        Entry::ReceivedIceCandidate { candidate, .. } => {
            if ice_candidate_from_app(candidate).is_none() {
                Some("ringrtcReceivedIceCandidates: No valid candidates!".to_owned())
            } else {
                None
            }
        },
        _ => None,
    }
}

/// The kind of address an entry point hands back when the call manager has
/// done what it asked.
pub enum SuccessReply {
    /// The address 1, a non-null marker of success.
    Marker,
    /// The address the call manager produced.
    Produced,
    /// The call manager's own address, the one the request is about.
    Echo(usize),
}

/// What an entry point hands back on success of `request`: initialization
/// answers with a non-null marker; creating a call manager and asking for the
/// active connection or call context answer with the address produced; every
/// other request answers with the address of the call manager it is about.
pub open spec fn success_reply(request: Request) -> SuccessReply {
    match request {
        Request::Initialize => SuccessReply::Marker,
        Request::Create { .. } => SuccessReply::Produced,
        Request::GetActiveConnection { .. } => SuccessReply::Produced,
        Request::GetActiveCallContext { .. } => SuccessReply::Produced,
        Request::Call { call_manager, .. } => SuccessReply::Echo(call_manager),
        Request::Proceed { call_manager, .. } => SuccessReply::Echo(call_manager),
        Request::MessageSent { call_manager, .. } => SuccessReply::Echo(call_manager),
        Request::MessageSendFailure { call_manager, .. } => SuccessReply::Echo(call_manager),
        Request::Hangup { call_manager } => SuccessReply::Echo(call_manager),
        Request::ReceivedAnswer { call_manager, .. } => SuccessReply::Echo(call_manager),
        Request::ReceivedOffer { call_manager, .. } => SuccessReply::Echo(call_manager),
        Request::ReceivedIceCandidates { call_manager, .. } => SuccessReply::Echo(call_manager),
        Request::ReceivedHangup { call_manager, .. } => SuccessReply::Echo(call_manager),
        Request::ReceivedBusy { call_manager, .. } => SuccessReply::Echo(call_manager),
        Request::Accept { call_manager, .. } => SuccessReply::Echo(call_manager),
        Request::SetVideoEnable { call_manager, .. } => SuccessReply::Echo(call_manager),
        Request::Drop { call_manager, .. } => SuccessReply::Echo(call_manager),
        Request::Reset { call_manager } => SuccessReply::Echo(call_manager),
        Request::Close { call_manager } => SuccessReply::Echo(call_manager),
    }
}

/// The address an entry point hands back to the application once the call
/// manager answered `request` with `outcome`: the null address on failure.
pub open spec fn reply_for(request: Request, outcome: Outcome) -> usize {
    match outcome {
        Outcome::Failed => 0,
        Outcome::Succeeded(produced) => match success_reply(request) {
            SuccessReply::Marker => 1,
            SuccessReply::Produced => produced,
            SuccessReply::Echo(call_manager) => call_manager,
        },
    }
}

/// The address handed back to the application for the call manager's answer.
pub fn reply(request: &Request, outcome: Outcome) -> (r: usize)
    ensures
        r == reply_for(*request, outcome),
        outcome is Failed ==> r == 0,
        outcome matches Outcome::Succeeded(produced) ==> {
            &&& request is Initialize ==> r == 1
            &&& (request is Create || request is GetActiveConnection || request is GetActiveCallContext)
                ==> r == produced
        },
{
    let produced = match outcome {
        Outcome::Failed => {
            return 0;
        },
        Outcome::Succeeded(produced) => produced,
    };
    match request {
        Request::Initialize => 1,
        Request::Create { .. } => produced,
        Request::GetActiveConnection { .. } => produced,
        Request::GetActiveCallContext { .. } => produced,
        Request::Call { call_manager, .. } => *call_manager,
        Request::Proceed { call_manager, .. } => *call_manager,
        Request::MessageSent { call_manager, .. } => *call_manager,
        Request::MessageSendFailure { call_manager, .. } => *call_manager,
        Request::Hangup { call_manager } => *call_manager,
        Request::ReceivedAnswer { call_manager, .. } => *call_manager,
        Request::ReceivedOffer { call_manager, .. } => *call_manager,
        Request::ReceivedIceCandidates { call_manager, .. } => *call_manager,
        Request::ReceivedHangup { call_manager, .. } => *call_manager,
        Request::ReceivedBusy { call_manager, .. } => *call_manager,
        Request::Accept { call_manager, .. } => *call_manager,
        Request::SetVideoEnable { call_manager, .. } => *call_manager,
        Request::Drop { call_manager, .. } => *call_manager,
        Request::Reset { call_manager } => *call_manager,
        Request::Close { call_manager } => *call_manager,
    }
}

} // verus!
