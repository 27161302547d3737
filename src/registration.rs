use vstd::prelude::*;
use rand::rngs::OsRng;
use rand::Rng;
use crate::encoding::{decode_32, decode_96, fixed_decoding};
use crate::error::{BadInput, Field, Missing, ServiceError, status_of};
use crate::records::{PendingRegistration, PublishedIdentity};
use crate::verification::{check_ownership, ownership_outcome, signal_key, usable_key, vxeddsa_output};

verus! {

/// Smallest passcode issued.
pub const PASSCODE_LOW: u32 = 100000;

/// Bound, not reached, of the passcodes issued.
pub const PASSCODE_HIGH: u32 = 999999;

/// Lifetime of a pending registration, in seconds.
pub const PENDING_LIFETIME_SECS: u64 = 3600;

/// Relies on rand's `Rng::gen_range` over `OsRng`, the operating system's secure source:
/// a value of the half-open range, which must not be empty (it panics on an empty one).
#[verifier::external_body]
fn secure_random_in(low: u32, high: u32) -> (r: u32)
    requires
        low < high,
    ensures
        low <= r < high,
{
    OsRng.gen_range(low..high)
}

/// A confirmation request: the passcode received, and the key material to publish.
pub struct Confirmation {
    pub phone: String,
    pub passcode: String,
    pub signed_prekey: String,
    pub signature: String,
    pub vrf: String,
    pub one_time_prekeys: Vec<String>,
}

/// The character of a decimal digit.
pub open spec fn digit_char(d: nat) -> char {
    if d == 0 { '0' }
    else if d == 1 { '1' }
    else if d == 2 { '2' }
    else if d == 3 { '3' }
    else if d == 4 { '4' }
    else if d == 5 { '5' }
    else if d == 6 { '6' }
    else if d == 7 { '7' }
    else if d == 8 { '8' }
    else { '9' }
}

/// The decimal text of a number, without leading zeros.
pub open spec fn decimal(n: nat) -> Seq<char>
    decreases n,
{
    if n < 10 {
        seq![digit_char(n)]
    } else {
        decimal(n / 10).push(digit_char(n % 10))
    }
}

/// When a pending registration made at `now` expires: one lifetime later, or at the end of time.
pub open spec fn expiry(now: u64) -> u64 {
    if now + PENDING_LIFETIME_SECS <= u64::MAX {
        (now + PENDING_LIFETIME_SECS) as u64
    } else {
        u64::MAX
    }
}

/// The pending registration that a start with passcode `passcode` at `now` writes.
pub open spec fn pending_outcome(phone: String, identity_key: String, passcode: u32, now: u64) -> Result<
    PendingRegistration,
    ServiceError,
> {
    if phone@.len() == 0 {
        Err(ServiceError::BadRequest(BadInput::MissingPhone))
    } else {
        Ok(PendingRegistration { phone, identity_key, passcode, expires_at: expiry(now) })
    }
}

/// The decoded key material of a confirmation: identity key, signed prekey, signature and
/// verifier output, or the first field that fails to decode.
pub open spec fn confirmation_material(p: PendingRegistration, c: Confirmation) -> Result<
    (Seq<u8>, Seq<u8>, Seq<u8>, Seq<u8>),
    BadInput,
> {
    match fixed_decoding(p.identity_key@, 32, Field::IdentityKey) {
        Err(e) => Err(e),
        Ok(ik) => match fixed_decoding(c.signed_prekey@, 32, Field::SignedPreKey) {
            Err(e) => Err(e),
            Ok(spk) => match fixed_decoding(c.signature@, 96, Field::Signature) {
                Err(e) => Err(e),
                Ok(sig) => match fixed_decoding(c.vrf@, 32, Field::Vrf) {
                    Err(e) => Err(e),
                    Ok(vrf) => Ok((ik, spk, sig, vrf)),
                },
            },
        },
    }
}

/// The directory entry that a successful confirmation writes.
pub open spec fn published(p: PendingRegistration, c: Confirmation, now: u64) -> PublishedIdentity {
    PublishedIdentity {
        phone: c.phone,
        identity_key: p.identity_key,
        signed_prekey: c.signed_prekey,
        signature: c.signature,
        created_at: now,
        one_time_prekeys: c.one_time_prekeys,
    }
}

/// Whether `pending` is the pending registration of the confirming phone.
pub open spec fn pending_for(pending: Option<PendingRegistration>, c: Confirmation) -> bool {
    pending is Some && pending->Some_0.phone@ == c.phone@
}

/// The outcome of confirming a registration at `now` (milliseconds), given the pending record
/// stored for the phone, if any.
pub open spec fn confirm_outcome(
    pending: Option<PendingRegistration>,
    c: Confirmation,
    now: u64,
) -> Result<PublishedIdentity, ServiceError> {
    if !pending_for(pending, c) {
        Err(ServiceError::NotFound(Missing::PendingRegistration))
    } else {
        let p = pending->Some_0;
        if c.passcode@ != decimal(p.passcode as nat) {
            Err(ServiceError::Forbidden)
        } else {
            match confirmation_material(p, c) {
                Err(e) => Err(ServiceError::BadRequest(e)),
                Ok((ik, spk, sig, vrf)) => match ownership_outcome(
                    ik,
                    spk,
                    sig,
                    vrf,
                    Field::IdentityKey,
                ) {
                    Err(e) => Err(e),
                    Ok(_) => Ok(published(p, c, now)),
                },
            }
        }
    }
}

fn digit_of(d: u32) -> (c: char)
    requires
        d < 10,
    ensures
        c == digit_char(d as nat),
{
    if d == 0 { '0' }
    else if d == 1 { '1' }
    else if d == 2 { '2' }
    else if d == 3 { '3' }
    else if d == 4 { '4' }
    else if d == 5 { '5' }
    else if d == 6 { '6' }
    else if d == 7 { '7' }
    else if d == 8 { '8' }
    else { '9' }
}

/// The decimal digits of a number.
pub fn decimal_digits(n: u32) -> (r: Vec<char>)
    ensures
        r@ == decimal(n as nat),
    decreases n,
{
    if n < 10 {
        let mut v: Vec<char> = Vec::new();
        v.push(digit_of(n));
        v
    } else {
        let mut v = decimal_digits(n / 10);
        v.push(digit_of(n % 10));
        v
    }
}

/// Whether a submitted passcode is exactly the decimal text of the issued one.
pub fn passcode_matches(submitted: &str, passcode: u32) -> (r: bool)
    ensures
        r == (submitted@ == decimal(passcode as nat)),
{
    let digits = decimal_digits(passcode);
    let n = submitted.unicode_len();
    if n != digits.len() {
        return false;
    }
    let mut i: usize = 0;
    while i < n
        invariant
            n == submitted@.len(),
            n == digits@.len(),
            digits@ == decimal(passcode as nat),
            0 <= i <= n,
            forall|j: int| 0 <= j < i ==> submitted@[j] == digits@[j],
        decreases n - i,
    {
        let c = submitted.get_char(i);
        let d = digits[i];
        if c != d {
            assert(submitted@[i as int] != digits@[i as int]);
            return false;
        }
        i = i + 1;
    }
    assert(submitted@ =~= digits@);
    true
}

/// The pending registration for `phone`, issued at `now` (seconds) with the given passcode.
pub fn pending_registration(phone: String, identity_key: String, passcode: u32, now: u64) -> (r: Result<
    PendingRegistration,
    ServiceError,
>)
    ensures
        r == pending_outcome(phone, identity_key, passcode, now),
{
    if phone.as_str().is_empty() {
        return Err(ServiceError::BadRequest(BadInput::MissingPhone));
    }
    let expires_at = if now <= u64::MAX - PENDING_LIFETIME_SECS {
        now + PENDING_LIFETIME_SECS
    } else {
        u64::MAX
    };
    Ok(PendingRegistration { phone, identity_key, passcode, expires_at })
}

/// Starts the registration of `phone` at `now` (seconds): draws a fresh passcode and returns the
/// pending record to store in place of any earlier one.
pub fn begin_registration(phone: String, identity_key: String, now: u64) -> (r: Result<
    PendingRegistration,
    ServiceError,
>)
    ensures
        r is Err <==> phone@.len() == 0,
        r is Err ==> r == Err::<PendingRegistration, ServiceError>(
            ServiceError::BadRequest(BadInput::MissingPhone),
        ),
        r is Ok ==> PASSCODE_LOW <= r->Ok_0.passcode < PASSCODE_HIGH,
        r is Ok ==> r == pending_outcome(phone, identity_key, r->Ok_0.passcode, now),
{
    if phone.as_str().is_empty() {
        return Err(ServiceError::BadRequest(BadInput::MissingPhone));
    }
    let passcode = secure_random_in(PASSCODE_LOW, PASSCODE_HIGH);
    pending_registration(phone, identity_key, passcode, now)
}

/// The key material of a confirmation, decoded.
pub struct DecodedConfirmation {
    pub identity_key: [u8; 32],
    pub signed_prekey: [u8; 32],
    pub signature: [u8; 96],
    pub vrf: [u8; 32],
}

/// Decodes the key material of a confirmation, in one step before any check uses it.
pub fn decode_confirmation(p: &PendingRegistration, c: &Confirmation) -> (r: Result<
    DecodedConfirmation,
    BadInput,
>)
    ensures
        match r {
            Ok(d) => confirmation_material(*p, *c) == Ok::<_, BadInput>(
                (d.identity_key@, d.signed_prekey@, d.signature@, d.vrf@),
            ),
            Err(e) => confirmation_material(*p, *c) == Err::<(Seq<u8>, Seq<u8>, Seq<u8>, Seq<u8>), _>(e),
        },
{
    let identity_key = decode_32(p.identity_key.as_str(), Field::IdentityKey)?;
    let signed_prekey = decode_32(c.signed_prekey.as_str(), Field::SignedPreKey)?;
    let signature = decode_96(c.signature.as_str(), Field::Signature)?;
    let vrf = decode_32(c.vrf.as_str(), Field::Vrf)?;
    Ok(DecodedConfirmation { identity_key, signed_prekey, signature, vrf })
}

/// Confirms a registration at `now` (milliseconds): the passcode must match the pending one and
/// the signature over the signed prekey must verify against the pending identity key with the
/// claimed verifier output. Returns the directory entry to write.
pub fn confirm_registration(pending: Option<PendingRegistration>, c: Confirmation, now: u64) -> (r:
    Result<PublishedIdentity, ServiceError>)
    ensures
        r == confirm_outcome(pending, c, now),
{
    let p = match pending {
        None => return Err(ServiceError::NotFound(Missing::PendingRegistration)),
        Some(p) => p,
    };
    if p.phone != c.phone {
        return Err(ServiceError::NotFound(Missing::PendingRegistration));
    }
    if !passcode_matches(c.passcode.as_str(), p.passcode) {
        return Err(ServiceError::Forbidden);
    }
    let d = match decode_confirmation(&p, &c) {
        Err(e) => return Err(ServiceError::BadRequest(e)),
        Ok(d) => d,
    };
    check_ownership(
        &d.identity_key,
        d.signed_prekey.as_slice(),
        &d.signature,
        &d.vrf,
        Field::IdentityKey,
    )?;
    Ok(PublishedIdentity {
        phone: c.phone,
        identity_key: p.identity_key,
        signed_prekey: c.signed_prekey,
        signature: c.signature,
        created_at: now,
        one_time_prekeys: c.one_time_prekeys,
    })
}

/// Confirming with a passcode other than the issued one is refused as forbidden (403), so no
/// directory entry is produced.
pub proof fn lemma_wrong_passcode_is_forbidden(p: PendingRegistration, c: Confirmation, now: u64)
    requires
        p.phone@ == c.phone@,
        c.passcode@ != decimal(p.passcode as nat),
    ensures
        confirm_outcome(Some(p), c, now) == Err::<PublishedIdentity, ServiceError>(
            ServiceError::Forbidden,
        ),
        status_of(ServiceError::Forbidden) == 403,
{
}

/// A confirmation publishes a directory entry exactly when the passcode matches the pending one,
/// all key material decodes, and the signature over the signed prekey verifies against the
/// pending identity key with the submitted verifier output; the entry is then the submitted one.
pub proof fn lemma_published_iff_proven(
    pending: Option<PendingRegistration>,
    c: Confirmation,
    now: u64,
)
    ensures
        confirm_outcome(pending, c, now) is Ok <==> {
            &&& pending_for(pending, c)
            &&& c.passcode@ == decimal(pending->Some_0.passcode as nat)
            &&& confirmation_material(pending->Some_0, c) is Ok
            &&& usable_key(confirmation_material(pending->Some_0, c)->Ok_0.0)
            &&& vxeddsa_output(
                signal_key(confirmation_material(pending->Some_0, c)->Ok_0.0),
                confirmation_material(pending->Some_0, c)->Ok_0.1,
                confirmation_material(pending->Some_0, c)->Ok_0.2,
            ) == Some(confirmation_material(pending->Some_0, c)->Ok_0.3)
        },
        confirm_outcome(pending, c, now) is Ok ==> confirm_outcome(pending, c, now)->Ok_0
            == published(pending->Some_0, c, now),
{
}

} // verus!
