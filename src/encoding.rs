use vstd::prelude::*;
use base64::engine::general_purpose::STANDARD;
use base64::Engine;
use crate::error::{BadInput, Field};

verus! {

/// The padded, standard-alphabet base64 text of a byte string.
pub uninterp spec fn base64_text(bytes: Seq<u8>) -> Seq<char>;

#[verifier::external_type_specification]
#[verifier::external_body]
pub struct ExDecodeError(base64::DecodeError);

/// Relies on base64's `Engine::encode` with the STANDARD engine (padded, standard alphabet).
#[verifier::external_body]
fn standard_encode(bytes: &[u8]) -> (r: String)
    ensures
        r@ == base64_text(bytes@),
{
    STANDARD.encode(bytes)
}

/// Relies on base64's `Engine::decode` with the STANDARD engine, whose configuration requires
/// canonical padding and zero trailing bits: a text decodes exactly when it is the encoding of
/// some byte string, and then to that byte string.
#[verifier::external_body]
fn standard_decode(text: &str) -> (r: Result<Vec<u8>, base64::DecodeError>)
    ensures
        r is Ok ==> base64_text(r->Ok_0@) == text@,
        r is Ok ==> forall|b: Seq<u8>| #[trigger] base64_text(b) == text@ ==> b == r->Ok_0@,
        r is Err ==> forall|b: Seq<u8>| #[trigger] base64_text(b) != text@,
{
    STANDARD.decode(text)
}

/// The byte string whose base64 text is `text`, if there is one.
pub open spec fn base64_decoding(text: Seq<char>) -> Option<Seq<u8>> {
    if exists|b: Seq<u8>| #[trigger] base64_text(b) == text {
        Some(choose|b: Seq<u8>| #[trigger] base64_text(b) == text)
    } else {
        None
    }
}

/// Decoding of a field that must hold exactly `len` bytes.
pub open spec fn fixed_decoding(text: Seq<char>, len: nat, field: Field) -> Result<Seq<u8>, BadInput> {
    match base64_decoding(text) {
        None => Err(BadInput::Undecodable(field)),
        Some(b) => if b.len() == len {
            Ok(b)
        } else {
            Err(BadInput::WrongLength(field))
        },
    }
}

/// Encodes bytes as standard padded base64.
pub fn encode_base64(bytes: &[u8]) -> (r: String)
    ensures
        r@ == base64_text(bytes@),
{
    standard_encode(bytes)
}

/// Decodes standard padded base64; `None` when the text is not the encoding of any bytes.
pub fn decode_base64(text: &str) -> (r: Option<Vec<u8>>)
    ensures
        match r {
            Some(v) => base64_decoding(text@) == Some(v@),
            None => base64_decoding(text@) is None,
        },
{
    match standard_decode(text) {
        Ok(v) => {
            assert(base64_text(v@) == text@);
            Some(v)
        },
        Err(_) => None,
    }
}

/// Decoding, then encoding again, gives back the text: every text that decodes is the
/// canonical encoding of what it decodes to.
pub proof fn lemma_decode_encode_round_trip(text: Seq<char>)
    requires
        base64_decoding(text) is Some,
    ensures
        base64_text(base64_decoding(text)->Some_0) == text,
{
}

/// A text that `fixed_decoding` accepts re-encodes to itself, and has the required length.
pub proof fn lemma_fixed_decoding_round_trip(text: Seq<char>, len: nat, field: Field)
    requires
        fixed_decoding(text, len, field) is Ok,
    ensures
        base64_text(fixed_decoding(text, len, field)->Ok_0) == text,
        fixed_decoding(text, len, field)->Ok_0.len() == len,
{
}

/// Decodes a field that must hold exactly 32 bytes.
pub fn decode_32(text: &str, field: Field) -> (r: Result<[u8; 32], BadInput>)
    ensures
        match r {
            Ok(a) => fixed_decoding(text@, 32, field) == Ok::<Seq<u8>, BadInput>(a@),
            Err(e) => fixed_decoding(text@, 32, field) == Err::<Seq<u8>, BadInput>(e),
        },
{
    match decode_base64(text) {
        None => Err(BadInput::Undecodable(field)),
        Some(v) => {
            if v.len() != 32 {
                return Err(BadInput::WrongLength(field));
            }
            let mut a: [u8; 32] = [0u8; 32];
            let mut i: usize = 0;
            while i < 32
                invariant
                    v@.len() == 32,
                    0 <= i <= 32,
                    forall|j: int| 0 <= j < i ==> a@[j] == v@[j],
                decreases 32 - i,
            {
                a[i] = v[i];
                i = i + 1;
            }
            assert(a@ =~= v@);
            Ok(a)
        },
    }
}

/// Decodes a field that must hold exactly 96 bytes.
pub fn decode_96(text: &str, field: Field) -> (r: Result<[u8; 96], BadInput>)
    ensures
        match r {
            Ok(a) => fixed_decoding(text@, 96, field) == Ok::<Seq<u8>, BadInput>(a@),
            Err(e) => fixed_decoding(text@, 96, field) == Err::<Seq<u8>, BadInput>(e),
        },
{
    match decode_base64(text) {
        None => Err(BadInput::Undecodable(field)),
        Some(v) => {
            if v.len() != 96 {
                return Err(BadInput::WrongLength(field));
            }
            let mut a: [u8; 96] = [0u8; 96];
            let mut i: usize = 0;
            while i < 96
                invariant
                    v@.len() == 96,
                    0 <= i <= 96,
                    forall|j: int| 0 <= j < i ==> a@[j] == v@[j],
                decreases 96 - i,
            {
                a[i] = v[i];
                i = i + 1;
            }
            assert(a@ =~= v@);
            Ok(a)
        },
    }
}

} // verus!
