use ringrtc::byte_slice::AppByteSlice;
use ringrtc::ice_candidate::AppIceCandidate;
use ringrtc::request::{dispatch, reply, turn_down_warning, Entry, Outcome, Request};

const CALL_MANAGER: usize = 0x7000;

fn slice(bytes: &[u8]) -> AppByteSlice {
    AppByteSlice::new(bytes.to_vec())
}

/// Every entry point that never turns a call down, with the address its
/// success is answered with.
fn plain_entries() -> Vec<(Entry, Option<usize>)> {
    vec![
        (Entry::Call { call_manager: CALL_MANAGER, app_remote: 0x10 }, Some(CALL_MANAGER)),
        (Entry::Proceed { call_manager: CALL_MANAGER, call_id: 1, remote_devices: vec![1, 2] }, Some(CALL_MANAGER)),
        (Entry::MessageSent { call_manager: CALL_MANAGER, call_id: 1 }, Some(CALL_MANAGER)),
        (Entry::MessageSendFailure { call_manager: CALL_MANAGER, call_id: 1 }, Some(CALL_MANAGER)),
        (Entry::Hangup { call_manager: CALL_MANAGER }, Some(CALL_MANAGER)),
        (Entry::ReceivedHangup { call_manager: CALL_MANAGER, call_id: 1, remote_device: 2 }, Some(CALL_MANAGER)),
        (Entry::ReceivedBusy { call_manager: CALL_MANAGER, call_id: 1, remote_device: 2 }, Some(CALL_MANAGER)),
        (Entry::Accept { call_manager: CALL_MANAGER, call_id: 1 }, Some(CALL_MANAGER)),
        (Entry::SetVideoEnable { call_manager: CALL_MANAGER, enable: true }, Some(CALL_MANAGER)),
        (Entry::Drop { call_manager: CALL_MANAGER, call_id: 1 }, Some(CALL_MANAGER)),
        (Entry::Reset { call_manager: CALL_MANAGER }, Some(CALL_MANAGER)),
        (Entry::Close { call_manager: CALL_MANAGER }, Some(CALL_MANAGER)),
        (Entry::Create { app_call_manager: 0x20 }, None),
        (Entry::GetActiveConnection { call_manager: CALL_MANAGER }, None),
        (Entry::GetActiveCallContext { call_manager: CALL_MANAGER }, None),
    ]
}

#[test]
fn initialize_success_is_marked_non_null() {
    let request = dispatch(Entry::Initialize).unwrap();
    assert!(matches!(request, Request::Initialize));
    assert_eq!(reply(&request, Outcome::Succeeded(0)), 1);
    assert_eq!(reply(&request, Outcome::Failed), 0);
}

#[test]
fn create_answers_with_the_new_call_manager() {
    let request = dispatch(Entry::Create { app_call_manager: 0x20 }).unwrap();
    assert!(matches!(request, Request::Create { app_call_manager: 0x20 }));
    assert_eq!(reply(&request, Outcome::Succeeded(0x9000)), 0x9000);
    assert_eq!(reply(&request, Outcome::Failed), 0);
}

#[test]
fn active_connection_and_context_answer_with_what_was_produced() {
    let request = dispatch(Entry::GetActiveConnection { call_manager: CALL_MANAGER }).unwrap();
    assert_eq!(reply(&request, Outcome::Succeeded(0xabc)), 0xabc);
    let request = dispatch(Entry::GetActiveCallContext { call_manager: CALL_MANAGER }).unwrap();
    assert_eq!(reply(&request, Outcome::Succeeded(0xdef)), 0xdef);
    assert_eq!(reply(&request, Outcome::Failed), 0);
}

#[test]
fn plain_entries_always_make_a_request() {
    for (entry, echo) in plain_entries() {
        let request = dispatch(entry).unwrap();
        assert_eq!(reply(&request, Outcome::Failed), 0);
        let answer = reply(&request, Outcome::Succeeded(0x4242));
        match echo {
            Some(call_manager) => assert_eq!(answer, call_manager),
            None => assert_eq!(answer, 0x4242),
        }
    }
}

#[test]
fn requests_keep_identifiers() {
    match dispatch(Entry::Call { call_manager: 5, app_remote: 6 }) {
        Some(Request::Call { call_manager: 5, app_remote: 6 }) => {},
        _ => panic!("wrong request"),
    }
    match dispatch(Entry::ReceivedHangup { call_manager: 5, call_id: 77, remote_device: 3 }) {
        Some(Request::ReceivedHangup { call_manager: 5, call_id: 77, remote_device: 3 }) => {},
        _ => panic!("wrong request"),
    }
    match dispatch(Entry::SetVideoEnable { call_manager: 5, enable: false }) {
        Some(Request::SetVideoEnable { call_manager: 5, enable: false }) => {},
        _ => panic!("wrong request"),
    }
}

#[test]
fn proceed_hands_on_the_device_list() {
    match dispatch(Entry::Proceed { call_manager: 5, call_id: 9, remote_devices: vec![1, 4, 2] }) {
        Some(Request::Proceed { call_manager, call_id, remote_devices }) => {
            assert_eq!(call_manager, 5);
            assert_eq!(call_id, 9);
            assert_eq!(remote_devices, vec![1, 4, 2]);
        },
        _ => panic!("wrong request"),
    }
    match dispatch(Entry::Proceed { call_manager: 5, call_id: 9, remote_devices: vec![] }) {
        Some(Request::Proceed { remote_devices, .. }) => assert!(remote_devices.is_empty()),
        _ => panic!("wrong request"),
    }
}

#[test]
fn well_formed_answer_is_handed_on() {
    let entry = Entry::ReceivedAnswer {
        call_manager: CALL_MANAGER,
        call_id: 11,
        remote_device: 2,
        answer: slice(b"v=0 answer"),
    };
    let request = dispatch(entry).unwrap();
    match &request {
        Request::ReceivedAnswer { call_manager, call_id, remote_device, session_desc } => {
            assert_eq!(*call_manager, CALL_MANAGER);
            assert_eq!(*call_id, 11);
            assert_eq!(*remote_device, 2);
            assert_eq!(session_desc, "v=0 answer");
        },
        _ => panic!("wrong request"),
    }
    assert_eq!(reply(&request, Outcome::Succeeded(0)), CALL_MANAGER);
    assert_eq!(reply(&request, Outcome::Failed), 0);
}

#[test]
fn malformed_answer_is_turned_down() {
    let entry = Entry::ReceivedAnswer {
        call_manager: CALL_MANAGER,
        call_id: 11,
        remote_device: 2,
        answer: slice(&[0x76, 0x3d, 0xfe]),
    };
    assert!(dispatch(entry).is_none());
}

#[test]
fn empty_answer_is_handed_on() {
    let entry = Entry::ReceivedAnswer { call_manager: CALL_MANAGER, call_id: 1, remote_device: 1, answer: slice(b"") };
    match dispatch(entry) {
        Some(Request::ReceivedAnswer { session_desc, .. }) => assert_eq!(session_desc, ""),
        _ => panic!("wrong request"),
    }
}

#[test]
fn well_formed_offer_is_handed_on() {
    let entry = Entry::ReceivedOffer {
        call_manager: CALL_MANAGER,
        call_id: 12,
        app_remote: 0x55,
        remote_device: 4,
        offer: slice("v=0 caf\u{e9}".as_bytes()),
        timestamp: 1_600_000_000,
    };
    match dispatch(entry) {
        Some(Request::ReceivedOffer { call_manager, call_id, app_remote, remote_device, session_desc, timestamp }) => {
            assert_eq!(call_manager, CALL_MANAGER);
            assert_eq!(call_id, 12);
            assert_eq!(app_remote, 0x55);
            assert_eq!(remote_device, 4);
            assert_eq!(session_desc, "v=0 caf\u{e9}");
            assert_eq!(timestamp, 1_600_000_000);
        },
        _ => panic!("wrong request"),
    }
}

#[test]
fn malformed_offer_is_turned_down() {
    let entry = Entry::ReceivedOffer {
        call_manager: CALL_MANAGER,
        call_id: 12,
        app_remote: 0x55,
        remote_device: 4,
        offer: slice(&[0xe2, 0x82]),
        timestamp: 5,
    };
    assert!(dispatch(entry).is_none());
}

#[test]
fn usable_ice_candidate_is_handed_on_alone() {
    let entry = Entry::ReceivedIceCandidate {
        call_manager: CALL_MANAGER,
        call_id: 13,
        remote_device: 6,
        candidate: AppIceCandidate { sdpMid: slice(b"0"), sdpMLineIndex: 0, sdp: slice(b"candidate:1 1 UDP 2 10.0.0.1 5000 typ host") },
    };
    let request = dispatch(entry).unwrap();
    match &request {
        Request::ReceivedIceCandidates { call_manager, call_id, remote_device, candidates } => {
            assert_eq!(*call_manager, CALL_MANAGER);
            assert_eq!(*call_id, 13);
            assert_eq!(*remote_device, 6);
            assert_eq!(candidates.len(), 1);
            assert_eq!(candidates[0].sdp_mid, "0");
            assert_eq!(candidates[0].sdp_mline_index, 0);
            assert_eq!(candidates[0].sdp, "candidate:1 1 UDP 2 10.0.0.1 5000 typ host");
        },
        _ => panic!("wrong request"),
    }
    assert_eq!(reply(&request, Outcome::Succeeded(0)), CALL_MANAGER);
}

#[test]
fn unusable_ice_candidates_are_turned_down() {
    let cases: Vec<(&[u8], &[u8])> = vec![
        (b"", b"candidate:1"),
        (b"0", b""),
        (&[0xff], b"candidate:1"),
        (b"0", &[0xc0, 0x80]),
    ];
    for (sdp_mid, sdp) in cases {
        let entry = Entry::ReceivedIceCandidate {
            call_manager: CALL_MANAGER,
            call_id: 1,
            remote_device: 1,
            candidate: AppIceCandidate { sdpMid: slice(sdp_mid), sdpMLineIndex: 1, sdp: slice(sdp) },
        };
        assert!(dispatch(entry).is_none());
    }
}

#[test]
fn null_call_manager_success_looks_like_failure() {
    // The success of a request about the null call manager is answered with
    // the null address, as a failure is.
    let request = dispatch(Entry::Hangup { call_manager: 0 }).unwrap();
    assert_eq!(reply(&request, Outcome::Succeeded(0x1)), 0);
    assert_eq!(reply(&request, Outcome::Failed), 0);
}

#[test]
fn handed_on_description_encodes_back_to_the_bytes_received() {
    let bytes: Vec<u8> = vec![0x76, 0x3d, 0x30, 0x20, 0xe2, 0x82, 0xac, 0xf0, 0x9f, 0x93, 0x9e];
    let entry = Entry::ReceivedOffer {
        call_manager: CALL_MANAGER,
        call_id: 2,
        app_remote: 3,
        remote_device: 4,
        offer: slice(&bytes),
        timestamp: 5,
    };
    match dispatch(entry) {
        Some(Request::ReceivedOffer { session_desc, .. }) => assert_eq!(session_desc.as_bytes(), &bytes[..]),
        _ => panic!("wrong request"),
    }
}

#[test]
fn turned_down_candidate_comes_with_the_warning() {
    let entry = Entry::ReceivedIceCandidate {
        call_manager: CALL_MANAGER,
        call_id: 1,
        remote_device: 1,
        candidate: AppIceCandidate { sdpMid: slice(b"0"), sdpMLineIndex: 0, sdp: slice(b"") },
    };
    assert_eq!(
        turn_down_warning(&entry).unwrap(),
        "ringrtcReceivedIceCandidates: No valid candidates!"
    );
    assert!(dispatch(entry).is_none());
}

#[test]
fn other_entries_give_no_warning() {
    let usable = Entry::ReceivedIceCandidate {
        call_manager: CALL_MANAGER,
        call_id: 1,
        remote_device: 1,
        candidate: AppIceCandidate { sdpMid: slice(b"0"), sdpMLineIndex: 0, sdp: slice(b"candidate:1") },
    };
    assert!(turn_down_warning(&usable).is_none());
    let malformed_answer = Entry::ReceivedAnswer {
        call_manager: CALL_MANAGER,
        call_id: 1,
        remote_device: 1,
        answer: slice(&[0xff]),
    };
    assert!(turn_down_warning(&malformed_answer).is_none());
    for (entry, _) in plain_entries() {
        assert!(turn_down_warning(&entry).is_none());
    }
}
