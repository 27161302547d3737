use vstd::prelude::*;
use vstd::utf8::encode_utf8;
use crate::encoding::{decode_32, decode_96, fixed_decoding};
use crate::error::{BadInput, Field, Missing, ServiceError, status_of};
use crate::text::same_text;
use crate::records::{bundle_of, PreKeyBundle, PublishedIdentity};
use crate::verification::{check_ownership, ownership_outcome, signal_key, usable_key, vxeddsa_output};

verus! {

/// A bundle request: who asks, and their proof over the target's phone identity.
pub struct BundleRequest {
    pub phone: String,
    pub signature: String,
    pub vrf: String,
}

/// The message a requester signs to ask for a target's bundle: the target's phone identity as
/// UTF-8 bytes.
pub open spec fn request_message(target: Seq<char>) -> Seq<u8> {
    encode_utf8(target)
}

/// The record passed for `phone`, if it is that phone's record.
pub open spec fn record_for(record: Option<PublishedIdentity>, phone: Seq<char>) -> Option<
    PublishedIdentity,
> {
    match record {
        Some(r) => if r.phone@ == phone {
            Some(r)
        } else {
            None
        },
        None => None,
    }
}

/// The decoded requester's signed prekey, signature and verifier output, or the first field
/// that fails to decode.
pub open spec fn request_material(requester: PublishedIdentity, req: BundleRequest) -> Result<
    (Seq<u8>, Seq<u8>, Seq<u8>),
    BadInput,
> {
    match fixed_decoding(requester.signed_prekey@, 32, Field::SignedPreKey) {
        Err(e) => Err(e),
        Ok(spk) => match fixed_decoding(req.signature@, 96, Field::Signature) {
            Err(e) => Err(e),
            Ok(sig) => match fixed_decoding(req.vrf@, 32, Field::Vrf) {
                Err(e) => Err(e),
                Ok(vrf) => Ok((spk, sig, vrf)),
            },
        },
    }
}

/// The outcome of a bundle request for `target`, given the stored records of the requester and
/// of the target, if any. The target's absence is reported only after authentication.
pub open spec fn bundle_outcome(
    target: Seq<char>,
    req: BundleRequest,
    requester: Option<PublishedIdentity>,
    target_record: Option<PublishedIdentity>,
) -> Result<PreKeyBundle, ServiceError> {
    if target.len() == 0 {
        Err(ServiceError::BadRequest(BadInput::MissingPhone))
    } else {
        match record_for(requester, req.phone@) {
            None => Err(ServiceError::NotFound(Missing::Requester)),
            Some(rq) => match request_material(rq, req) {
                Err(e) => Err(ServiceError::BadRequest(e)),
                Ok((spk, sig, vrf)) => match ownership_outcome(
                    spk,
                    request_message(target),
                    sig,
                    vrf,
                    Field::SignedPreKey,
                ) {
                    Err(e) => Err(e),
                    Ok(_) => match record_for(target_record, target) {
                        None => Err(ServiceError::NotFound(Missing::Target)),
                        Some(t) => Ok(bundle_of(t)),
                    },
                },
            },
        }
    }
}

/// The key material of a bundle request, decoded: the requester's signed prekey and their
/// proof over the target.
pub struct DecodedRequest {
    pub signed_prekey: [u8; 32],
    pub signature: [u8; 96],
    pub vrf: [u8; 32],
}

/// Decodes the key material of a bundle request, in one step before any check uses it.
pub fn decode_request(requester: &PublishedIdentity, req: &BundleRequest) -> (r: Result<
    DecodedRequest,
    BadInput,
>)
    ensures
        match r {
            Ok(d) => request_material(*requester, *req) == Ok::<_, BadInput>(
                (d.signed_prekey@, d.signature@, d.vrf@),
            ),
            Err(e) => request_material(*requester, *req) == Err::<(Seq<u8>, Seq<u8>, Seq<u8>), _>(e),
        },
{
    let signed_prekey = decode_32(requester.signed_prekey.as_str(), Field::SignedPreKey)?;
    let signature = decode_96(req.signature.as_str(), Field::Signature)?;
    let vrf = decode_32(req.vrf.as_str(), Field::Vrf)?;
    Ok(DecodedRequest { signed_prekey, signature, vrf })
}

/// The record behind an optional reference.
pub open spec fn deref_record(record: Option<&PublishedIdentity>) -> Option<PublishedIdentity> {
    match record {
        Some(r) => Some(*r),
        None => None,
    }
}

/// Answers a bundle request for `target`. The requester proves who they are with a signature
/// over the target's phone identity, made with their own signed prekey; only then is the
/// target's bundle, with its last one-time prekey if any, released.
pub fn request_bundle(
    target: &str,
    req: &BundleRequest,
    requester: Option<&PublishedIdentity>,
    target_record: Option<&PublishedIdentity>,
) -> (r: Result<PreKeyBundle, ServiceError>)
    ensures
        r == bundle_outcome(target@, *req, deref_record(requester), deref_record(target_record)),
{
    if target.is_empty() {
        return Err(ServiceError::BadRequest(BadInput::MissingPhone));
    }
    let rq = match requester {
        Some(rq) => rq,
        None => return Err(ServiceError::NotFound(Missing::Requester)),
    };
    if rq.phone != req.phone {
        return Err(ServiceError::NotFound(Missing::Requester));
    }
    let d = match decode_request(rq, req) {
        Err(e) => return Err(ServiceError::BadRequest(e)),
        Ok(d) => d,
    };
    check_ownership(&d.signed_prekey, target.as_bytes(), &d.signature, &d.vrf, Field::SignedPreKey)?;
    match target_record {
        Some(t) => {
            if !same_text(t.phone.as_str(), target) {
                return Err(ServiceError::NotFound(Missing::Target));
            }
            Ok(t.bundle())
        },
        None => Err(ServiceError::NotFound(Missing::Target)),
    }
}

/// A request whose signature does not verify against the requester's signed prekey, or yields
/// another verifier output than the submitted one, is refused as unauthorized (401): no bundle
/// is released, whether or not the target exists.
pub proof fn lemma_unproven_request_is_unauthorized(
    target: Seq<char>,
    req: BundleRequest,
    requester: PublishedIdentity,
    target_record: Option<PublishedIdentity>,
)
    requires
        target.len() > 0,
        requester.phone@ == req.phone@,
        request_material(requester, req) is Ok,
        usable_key(request_material(requester, req)->Ok_0.0),
        vxeddsa_output(
            signal_key(request_material(requester, req)->Ok_0.0),
            request_message(target),
            request_material(requester, req)->Ok_0.1,
        ) != Some(request_material(requester, req)->Ok_0.2),
    ensures
        bundle_outcome(target, req, Some(requester), target_record) is Err,
        status_of(bundle_outcome(target, req, Some(requester), target_record)->Err_0) == 401,
{
}

/// A released bundle carries no one-time prekey exactly when the target has none left;
/// otherwise it carries the last one, with its index.
pub proof fn lemma_exhausted_target_has_no_opk(
    target: Seq<char>,
    req: BundleRequest,
    requester: Option<PublishedIdentity>,
    t: PublishedIdentity,
)
    requires
        bundle_outcome(target, req, requester, Some(t)) is Ok,
    ensures
        bundle_outcome(target, req, requester, Some(t))->Ok_0.opk is None
            <==> t.one_time_prekeys@.len() == 0,
        t.one_time_prekeys@.len() > 0 ==> {
            let opk = bundle_outcome(target, req, requester, Some(t))->Ok_0.opk->Some_0;
            &&& opk.id == (t.one_time_prekeys@.len() - 1) as usize
            &&& opk.key == t.one_time_prekeys@.last()
        },
{
}

} // verus!

