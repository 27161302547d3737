use libsignal_dezire::vxeddsa::{gen_keypair, vxeddsa_sign, KeyPair};
use prekey_service::bundle::{request_bundle, BundleRequest};
use prekey_service::encoding::{decode_32, decode_base64, encode_base64};
use prekey_service::error::{AuthFailure, BadInput, Field, Missing, ServiceError};
use prekey_service::records::{OneTimePreKey, PublishedIdentity};
use prekey_service::registration::{begin_registration, confirm_registration, Confirmation};
use prekey_service::routing::{route, Route};

fn raw_public(kp: &KeyPair) -> [u8; 32] {
    let mut k = [0u8; 32];
    k.copy_from_slice(&kp.public[1..]);
    k
}

struct Member {
    record: PublishedIdentity,
    prekey: KeyPair,
}

fn member(phone: &str, opks: &[&str]) -> Member {
    let identity = gen_keypair();
    let prekey = gen_keypair();
    let spk = raw_public(&prekey);
    let out = vxeddsa_sign(&identity.secret, &spk).unwrap();
    let record = PublishedIdentity {
        phone: phone.to_string(),
        identity_key: encode_base64(&raw_public(&identity)),
        signed_prekey: encode_base64(&spk),
        signature: encode_base64(&out.signature),
        created_at: 1,
        one_time_prekeys: opks.iter().map(|k| k.to_string()).collect(),
    };
    Member { record, prekey }
}

fn signed_request(requester: &Member, target: &str) -> BundleRequest {
    let out = vxeddsa_sign(&requester.prekey.secret, target.as_bytes()).unwrap();
    BundleRequest {
        phone: requester.record.phone.clone(),
        signature: encode_base64(&out.signature),
        vrf: encode_base64(&out.vrf),
    }
}

#[test]
fn bundle_releases_last_one_time_prekey() {
    let alice = member("+15551111", &[]);
    let bob = member("+15552222", &["k0", "k1", "k2"]);
    let req = signed_request(&alice, "+15552222");
    let b = request_bundle("+15552222", &req, Some(&alice.record), Some(&bob.record)).unwrap();
    assert_eq!(b.identity_key, bob.record.identity_key);
    assert_eq!(b.signed_prekey, bob.record.signed_prekey);
    assert_eq!(b.signature, bob.record.signature);
    let opk = b.opk.unwrap();
    assert_eq!(opk.id, 2);
    assert_eq!(opk.key, "k2");
}

#[test]
fn bundle_with_tampered_signature_is_unauthorized() {
    let alice = member("+15551111", &[]);
    let bob = member("+15552222", &["k0"]);
    let req = signed_request(&alice, "+15552222");
    let sig = decode_base64(&req.signature).unwrap();
    for bit in [0usize, 7, 100, 300, 511, 600, 767] {
        let mut tampered = sig.clone();
        tampered[bit / 8] ^= 1 << (bit % 8);
        let bad = BundleRequest {
            phone: req.phone.clone(),
            signature: encode_base64(&tampered),
            vrf: req.vrf.clone(),
        };
        let r = request_bundle("+15552222", &bad, Some(&alice.record), Some(&bob.record));
        match r {
            Err(e) => assert_eq!(e.status(), 401),
            Ok(_) => panic!("a tampered signature released a bundle"),
        }
    }
}

#[test]
fn bundle_signature_is_bound_to_target() {
    let alice = member("+15551111", &[]);
    let bob = member("+15552222", &["k0"]);
    let carol = member("+15553333", &["c0"]);
    let req = signed_request(&alice, "+15552222");
    let r = request_bundle("+15553333", &req, Some(&alice.record), Some(&carol.record));
    assert!(matches!(r, Err(ServiceError::Unauthorized(AuthFailure::InvalidSignature))));
    assert!(request_bundle("+15552222", &req, Some(&alice.record), Some(&bob.record)).is_ok());
}

#[test]
fn bundle_with_wrong_vrf_is_vrf_mismatch() {
    let alice = member("+15551111", &[]);
    let bob = member("+15552222", &[]);
    let mut req = signed_request(&alice, "+15552222");
    let mut vrf = decode_32(&req.vrf, Field::Vrf).unwrap();
    vrf[31] ^= 0x80;
    req.vrf = encode_base64(&vrf);
    let r = request_bundle("+15552222", &req, Some(&alice.record), Some(&bob.record));
    assert!(matches!(r, Err(ServiceError::Unauthorized(AuthFailure::VrfMismatch))));
}

#[test]
fn bundle_for_exhausted_target_has_no_opk() {
    let alice = member("+15551111", &[]);
    let bob = member("+15552222", &[]);
    let req = signed_request(&alice, "+15552222");
    let b = request_bundle("+15552222", &req, Some(&alice.record), Some(&bob.record)).unwrap();
    assert!(b.opk.is_none());
}

#[test]
fn bundle_missing_target_phone_is_bad_request() {
    let alice = member("+15551111", &[]);
    let req = signed_request(&alice, "");
    let r = request_bundle("", &req, Some(&alice.record), None);
    assert!(matches!(r, Err(ServiceError::BadRequest(BadInput::MissingPhone))));
}

#[test]
fn bundle_unknown_requester_is_not_found() {
    let alice = member("+15551111", &[]);
    let bob = member("+15552222", &[]);
    let req = signed_request(&alice, "+15552222");
    let r = request_bundle("+15552222", &req, None, Some(&bob.record));
    assert!(matches!(r, Err(ServiceError::NotFound(Missing::Requester))));
    let r = request_bundle("+15552222", &req, Some(&bob.record), Some(&bob.record));
    assert!(matches!(r, Err(ServiceError::NotFound(Missing::Requester))));
}

#[test]
fn bundle_unknown_target_reported_only_after_authentication() {
    let alice = member("+15551111", &[]);
    let req = signed_request(&alice, "+15552222");
    let r = request_bundle("+15552222", &req, Some(&alice.record), None);
    assert!(matches!(r, Err(ServiceError::NotFound(Missing::Target))));
    assert_eq!(r.unwrap_err().status(), 404);
    let other = signed_request(&alice, "+15559999");
    let r = request_bundle("+15552222", &other, Some(&alice.record), None);
    assert!(matches!(r, Err(ServiceError::Unauthorized(_))));
}

#[test]
fn bundle_with_short_vrf_is_bad_request() {
    let alice = member("+15551111", &[]);
    let bob = member("+15552222", &[]);
    let mut req = signed_request(&alice, "+15552222");
    req.vrf = encode_base64(&[0u8; 31]);
    let r = request_bundle("+15552222", &req, Some(&alice.record), Some(&bob.record));
    assert!(matches!(r, Err(ServiceError::BadRequest(BadInput::WrongLength(Field::Vrf)))));
}

#[test]
fn concurrent_requests_dispense_each_key_once() {
    let alice = member("+15551111", &[]);
    let dave = member("+15554444", &[]);
    let mut bob = member("+15552222", &["k0", "k1"]);
    let snapshot = bob.record.clone();
    let ra = signed_request(&alice, "+15552222");
    let rd = signed_request(&dave, "+15552222");
    let mut served: Vec<Option<OneTimePreKey>> = Vec::new();
    for (req, who) in [(&ra, &alice), (&rd, &dave), (&ra, &alice), (&rd, &dave)] {
        let b = request_bundle("+15552222", req, Some(&who.record), Some(&snapshot)).unwrap();
        let opk = b.opk.clone().unwrap();
        if bob.record.remove_dispensed(&opk) {
            served.push(b.opk);
        } else {
            let b = b.without_one_time_prekey();
            assert!(b.opk.is_none());
            served.push(None);
        }
    }
    let taken: Vec<usize> = served.iter().flatten().map(|o| o.id).collect();
    assert_eq!(taken, vec![1]);
    assert_eq!(bob.record.one_time_prekeys, vec!["k0".to_string()]);
    let fresh = request_bundle("+15552222", &ra, Some(&alice.record), Some(&bob.record)).unwrap();
    let opk = fresh.opk.unwrap();
    assert_eq!((opk.id, opk.key.as_str()), (0, "k0"));
    assert!(bob.record.remove_dispensed(&opk));
    assert!(!bob.record.remove_dispensed(&opk));
    assert!(bob.record.one_time_prekeys.is_empty());
}

#[test]
fn base64_round_trip() {
    for text in ["", "QQ==", "QUI=", "QUJD", "AAECAwQFBgcICQoLDA0ODw==", "+/+/"] {
        let bytes = decode_base64(text).unwrap();
        assert_eq!(encode_base64(&bytes), text);
    }
    assert_eq!(encode_base64(b"AB"), "QUI=");
    assert_eq!(decode_base64("QUI=").unwrap(), b"AB".to_vec());
    assert!(decode_base64("QR==").is_none());
    assert!(decode_base64("QQ").is_none());
    assert!(decode_base64("Q===").is_none());
    assert!(matches!(decode_32("QQ==", Field::SignedPreKey), Err(BadInput::WrongLength(Field::SignedPreKey))));
    assert!(matches!(decode_32("%%%%", Field::SignedPreKey), Err(BadInput::Undecodable(Field::SignedPreKey))));
}

#[test]
fn routes_select_operations() {
    assert_eq!(route("POST", "/register/phone"), Route::BeginRegistration);
    assert_eq!(route("POST", "/register/otp"), Route::ConfirmRegistration);
    assert_eq!(route("POST", "/bundle/+15550000"), Route::RequestBundle);
    assert_eq!(route("POST", "/bundle/"), Route::RequestBundle);
    assert_eq!(route("POST", "/bundle"), Route::Unknown);
    assert_eq!(route("GET", "/register/phone"), Route::Unknown);
    assert_eq!(route("POST", "/register/phone/x"), Route::Unknown);
}

#[test]
fn registration_then_three_bundle_requests() {
    let phone = "+15550000";
    let identity = gen_keypair();
    let prekey = gen_keypair();
    let spk = raw_public(&prekey);
    let pending =
        begin_registration(phone.to_string(), encode_base64(&raw_public(&identity)), 1_000).unwrap();
    let proof = vxeddsa_sign(&identity.secret, &spk).unwrap();
    let c = Confirmation {
        phone: phone.to_string(),
        passcode: pending.passcode.to_string(),
        signed_prekey: encode_base64(&spk),
        signature: encode_base64(&proof.signature),
        vrf: encode_base64(&proof.vrf),
        one_time_prekeys: vec!["b3BrMA==".to_string(), "b3BrMQ==".to_string()],
    };
    let mut record = confirm_registration(Some(pending), c, 1_000_000).unwrap();
    assert_eq!(record.one_time_prekeys.len(), 2);

    let peer = member("+15557777", &[]);
    let req = signed_request(&peer, phone);

    let first = request_bundle(phone, &req, Some(&peer.record), Some(&record)).unwrap();
    let opk = first.opk.unwrap();
    assert_eq!(opk.id, 1);
    assert_eq!(opk.key, "b3BrMQ==");
    assert!(record.remove_dispensed(&opk));
    assert_eq!(record.one_time_prekeys.len(), 1);

    let second = request_bundle(phone, &req, Some(&peer.record), Some(&record)).unwrap();
    let opk = second.opk.unwrap();
    assert_eq!(opk.id, 0);
    assert!(record.remove_dispensed(&opk));

    let third = request_bundle(phone, &req, Some(&peer.record), Some(&record)).unwrap();
    assert!(third.opk.is_none());
}

#[test]
fn error_statuses() {
    assert_eq!(ServiceError::BadRequest(BadInput::MissingPhone).status(), 400);
    assert_eq!(ServiceError::Unauthorized(AuthFailure::VrfMismatch).status(), 401);
    assert_eq!(ServiceError::Forbidden.status(), 403);
    assert_eq!(ServiceError::NotFound(Missing::Target).status(), 404);
}
