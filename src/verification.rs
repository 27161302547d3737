use vstd::prelude::*;
use curve25519_dalek::montgomery::MontgomeryPoint;
use libsignal_dezire::vxeddsa::vxeddsa_verify;
use crate::error::{AuthFailure, BadInput, Field, ServiceError};

verus! {

/// Whether the Montgomery u-coordinate `u` maps to an Edwards point (with sign bit 0).
pub uninterp spec fn has_edwards_form(u: Seq<u8>) -> bool;

/// The verifier output of a VXEdDSA signature, or `None` when the signature is invalid.
pub uninterp spec fn vxeddsa_output(
    public_key: Seq<u8>,
    message: Seq<u8>,
    signature: Seq<u8>,
) -> Option<Seq<u8>>;

/// Relies on curve25519_dalek's `MontgomeryPoint::to_edwards` with sign 0: `Some` exactly when
/// the u-coordinate has an Edwards form.
#[verifier::external_body]
fn montgomery_maps_to_edwards(u: &[u8; 32]) -> (r: bool)
    ensures
        r == has_edwards_form(u@),
{
    MontgomeryPoint(*u).to_edwards(0).is_some()
}

/// Relies on libsignal_dezire's `vxeddsa::vxeddsa_verify`: the verifier output of a valid
/// signature, `None` for an invalid one, as a deterministic function of its arguments. For a key
/// with type byte 0x05 it converts the masked u-coordinate with `MontgomeryPoint::to_edwards(0)`
/// and panics where that fails: `requires` leaves those keys out. (Its other conversion, of an
/// Elligator output, always lands on the curve.)
#[verifier::external_body]
fn vxeddsa_verify_encoded(public_key: &[u8; 33], message: &[u8], signature: &[u8; 96]) -> (r: Option<
    [u8; 32],
>)
    requires
        public_key@[0] == 5 ==> has_edwards_form(masked_u(public_key@.subrange(1, 33))),
    ensures
        match r {
            Some(o) => vxeddsa_output(public_key@, message@, signature@) == Some(o@),
            None => vxeddsa_output(public_key@, message@, signature@) is None,
        },
{
    vxeddsa_verify(public_key, message, signature)
}

/// A u-coordinate with the high bit of its last byte cleared.
pub open spec fn masked_u(key: Seq<u8>) -> Seq<u8> {
    key.update(31, key[31] & 127u8)
}

/// The Signal encoding of a Curve25519 public key: the type byte 0x05, then the 32 key bytes.
pub open spec fn signal_key(key: Seq<u8>) -> Seq<u8> {
    seq![5u8] + key
}

/// Whether a 32-byte public key can be handed to the verifier.
pub open spec fn usable_key(key: Seq<u8>) -> bool {
    has_edwards_form(masked_u(key))
}

/// What the verifier's answer means for a claimed verifier output.
pub open spec fn verdict(output: Option<Seq<u8>>, vrf: Seq<u8>) -> Result<(), AuthFailure> {
    match output {
        None => Err(AuthFailure::InvalidSignature),
        Some(o) => if o == vrf {
            Ok(())
        } else {
            Err(AuthFailure::VrfMismatch)
        },
    }
}

/// The outcome of checking that `signature` over `message` was made with the private key of
/// the 32-byte public key `key`, and yields the verifier output `vrf`.
pub open spec fn ownership_outcome(
    key: Seq<u8>,
    message: Seq<u8>,
    signature: Seq<u8>,
    vrf: Seq<u8>,
    field: Field,
) -> Result<(), ServiceError> {
    if !usable_key(key) {
        Err(ServiceError::BadRequest(BadInput::UnusableKey(field)))
    } else {
        match verdict(vxeddsa_output(signal_key(key), message, signature), vrf) {
            Ok(_) => Ok(()),
            Err(a) => Err(ServiceError::Unauthorized(a)),
        }
    }
}

/// Whether two 32-byte strings are equal.
pub fn bytes_equal(a: &[u8; 32], b: &[u8; 32]) -> (r: bool)
    ensures
        r == (a@ == b@),
{
    let mut i: usize = 0;
    while i < 32
        invariant
            0 <= i <= 32,
            a@.len() == 32,
            b@.len() == 32,
            forall|j: int| 0 <= j < i ==> a@[j] == b@[j],
        decreases 32 - i,
    {
        if a[i] != b[i] {
            assert(a@[i as int] != b@[i as int]);
            return false;
        }
        i = i + 1;
    }
    assert(a@ =~= b@);
    true
}

/// Judges the verifier's answer against the claimed verifier output.
pub fn judge(output: Option<[u8; 32]>, vrf: &[u8; 32]) -> (r: Result<(), AuthFailure>)
    ensures
        r == verdict(
            match output {
                Some(o) => Some(o@),
                None => None,
            },
            vrf@,
        ),
{
    match output {
        None => Err(AuthFailure::InvalidSignature),
        Some(o) => if bytes_equal(&o, vrf) {
            Ok(())
        } else {
            Err(AuthFailure::VrfMismatch)
        },
    }
}

/// The u-coordinate of a key with the high bit of its last byte cleared.
fn mask_u(key: &[u8; 32]) -> (r: [u8; 32])
    ensures
        r@ == masked_u(key@),
{
    let mut m: [u8; 32] = *key;
    let last: u8 = key[31] & 127u8;
    m[31] = last;
    assert(m@ =~= masked_u(key@));
    m
}

/// The Signal encoding of a 32-byte Curve25519 public key.
pub fn encode_signal_key(key: &[u8; 32]) -> (r: [u8; 33])
    ensures
        r@ == signal_key(key@),
{
    let mut e: [u8; 33] = [5u8; 33];
    let mut i: usize = 0;
    while i < 32
        invariant
            0 <= i <= 32,
            key@.len() == 32,
            e@.len() == 33,
            e@[0] == 5u8,
            forall|j: int| 0 <= j < i ==> e@[j + 1] == key@[j],
        decreases 32 - i,
    {
        e[i + 1] = key[i];
        i = i + 1;
    }
    assert(e@ =~= signal_key(key@));
    e
}

/// Checks a proof of ownership of `key`: the signature over `message` must verify and yield
/// the claimed verifier output. `field` names where the key came from.
pub fn check_ownership(
    key: &[u8; 32],
    message: &[u8],
    signature: &[u8; 96],
    vrf: &[u8; 32],
    field: Field,
) -> (r: Result<(), ServiceError>)
    ensures
        r == ownership_outcome(key@, message@, signature@, vrf@, field),
{
    let masked = mask_u(key);
    if !montgomery_maps_to_edwards(&masked) {
        return Err(ServiceError::BadRequest(BadInput::UnusableKey(field)));
    }
    let encoded = encode_signal_key(key);
    assert(encoded@.subrange(1, 33) =~= key@);
    let output = vxeddsa_verify_encoded(&encoded, message, signature);
    match judge(output, vrf) {
        Ok(_) => Ok(()),
        Err(a) => Err(ServiceError::Unauthorized(a)),
    }
}

} // verus!
