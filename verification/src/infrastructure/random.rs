//! Entropy-backed registration material.
use vstd::prelude::*;
use base64::engine::general_purpose::URL_SAFE_NO_PAD;
use base64::Engine;
use crate::application::email_reservation::service::RegistrationMaterialGenerator;
use crate::domain::user_account_id::{uuid_variant, uuid_version, UserAccountId};
use crate::infrastructure::verification_code_generator::verification_code;

verus! {

/// The text that base64's `URL_SAFE_NO_PAD` engine encodes `bytes` to (URL-safe alphabet,
/// no padding).
pub uninterp spec fn url_safe_no_pad(bytes: Seq<u8>) -> Seq<char>;

/// `base64::engine::general_purpose::URL_SAFE_NO_PAD.encode`; its result is named, not restated.
#[verifier::external_body]
fn encode_url_safe_no_pad(bytes: &[u8; 32]) -> (text: String)
    ensures
        text@ == url_safe_no_pad(bytes@),
{
    URL_SAFE_NO_PAD.encode(bytes)
}

/// `rand::random::<[u8; 32]>`: 32 bytes from rand's thread-local cryptographic generator.
/// Which bytes come back is not stated.
#[verifier::external_body]
fn random_token_bytes() -> (bytes: [u8; 32]) {
    rand::random::<[u8; 32]>()
}

/// Registration material from the system's entropy: random v4 account identifiers, random
/// seven-digit codes and 256-bit account creation tokens.
pub struct RandomRegistrationMaterialGenerator;

impl RegistrationMaterialGenerator for RandomRegistrationMaterialGenerator {
    fn account_id(&self) -> (id: UserAccountId)
        ensures
            uuid_version(id.uuid()) == 4,
            uuid_variant(id.uuid()) == 2,
    {
        UserAccountId::new()
    }

    fn verification_code(&self) -> (code: u32)
        ensures
            1_000_000 <= code < 10_000_000,
    {
        verification_code()
    }

    fn account_creation_token(&self) -> (token: String)
        ensures
            exists|bytes: Seq<u8>| bytes.len() == 32 && token@ == url_safe_no_pad(bytes),
    {
        let bytes = random_token_bytes();
        let token = encode_url_safe_no_pad(&bytes);
        assert(bytes@.len() == 32);
        token
    }
}

} // verus!
