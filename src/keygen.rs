//! The key generator: the calls into pgp that build, fingerprint, copy,
//! sign and armor a key.
//!
//! A [`GeneratedKey`] can only be made by the functions of this module, and
//! they make it only from parameters that [`key_params`] built, with pgp's
//! default key version 4. Every key the rest of the library handles is such
//! a key, which is what the fingerprint and signing calls below rely on.
use vstd::prelude::*;
use crate::timestamp::Timestamp;
use pgp::composed::key::{KeyType, SecretKey, SecretKeyParams, SecretKeyParamsBuilder, SecretKeyParamsBuilderError};
use pgp::composed::signed_key::SignedSecretKey;
use pgp::types::KeyTrait;

verus! {

#[verifier::external_type_specification]
#[verifier::external_body]
pub struct ExSecretKey(SecretKey);

#[verifier::external_type_specification]
#[verifier::external_body]
pub struct ExSecretKeyParams(SecretKeyParams);

#[verifier::external_type_specification]
#[verifier::external_body]
pub struct ExSecretKeyParamsBuilderError(SecretKeyParamsBuilderError);

#[verifier::external_type_specification]
#[verifier::external_body]
pub struct ExSignedSecretKey(SignedSecretKey);

#[verifier::external_type_specification]
#[verifier::external_body]
pub struct ExPgpError(pgp::errors::Error);

/// Parameters for one version 4 EdDSA key, with the user id and creation
/// time they were built from.
pub struct KeyParams {
    params: SecretKeyParams,
    identity: String,
    created_at: i64,
}

/// A version 4 EdDSA key generated from [`KeyParams`], with the user id and
/// creation time it was generated with.
pub struct GeneratedKey {
    key: SecretKey,
    identity: String,
    created_at: i64,
}

impl KeyParams {
    pub closed spec fn spec_identity(&self) -> Seq<char> {
        self.identity@
    }

    pub closed spec fn spec_created_at(&self) -> int {
        self.created_at as int
    }
}

impl GeneratedKey {
    pub closed spec fn spec_identity(&self) -> Seq<char> {
        self.identity@
    }

    pub closed spec fn spec_created_at(&self) -> int {
        self.created_at as int
    }
}

/// Relies on pgp's `SecretKeyParamsBuilder` (its setters and `build`): an
/// EdDSA signing and certifying key for user id `uid`, created at
/// `created_at` seconds after the epoch, of the builder's default version 4.
/// With the key type and the user id set and encryption left unset, the
/// builder's validation accepts. `DateTime::from_timestamp` gives a date for
/// every time in range.
#[verifier::external_body]
pub(crate) fn key_params(uid: &str, created_at: i64) -> (r: Result<KeyParams, SecretKeyParamsBuilderError>)
    requires
        Timestamp::in_range(created_at as int),
    ensures
        r matches Ok(p) ==> p.spec_identity() == uid@ && p.spec_created_at() == created_at,
        r is Ok,
{
    let mut b = SecretKeyParamsBuilder::default();
    b.key_type(KeyType::EdDSA).can_create_certificates(true).can_sign(true);
    b.primary_user_id(uid.into());
    b.created_at(chrono::DateTime::from_timestamp(created_at, 0).unwrap());
    b.build().map(|params| KeyParams { params, identity: uid.to_owned(), created_at })
}

/// Relies on pgp's `SecretKeyParams::generate`: draws a fresh key from the
/// system's randomness. Nothing is promised of the key or of success.
#[verifier::external_body]
pub(crate) fn generate_key(p: KeyParams) -> (r: Result<GeneratedKey, pgp::errors::Error>)
    ensures
        r matches Ok(k) ==> k.spec_identity() == p.spec_identity() && k.spec_created_at()
            == p.spec_created_at(),
{
    let (identity, created_at) = (p.identity, p.created_at);
    p.params.generate().map(|key| GeneratedKey { key, identity, created_at })
}

/// Relies on pgp's `KeyTrait::fingerprint` for secret keys: a version 4 key's
/// fingerprint is a SHA-1 digest of 20 bytes.
#[verifier::external_body]
pub(crate) fn key_fingerprint(k: &GeneratedKey) -> (r: Vec<u8>)
    ensures
        r@.len() == 20,
{
    k.key.fingerprint()
}

/// Relies on pgp's `SecretKey::sign`: self-signs a copy of a version 4 key,
/// with an empty passphrase.
#[verifier::external_body]
pub(crate) fn sign_key(k: &GeneratedKey) -> (r: Result<SignedSecretKey, pgp::errors::Error>) {
    k.key.clone().sign(String::new)
}

/// Relies on pgp's `SignedSecretKey::to_armored_string`, without extra headers.
#[verifier::external_body]
pub(crate) fn armor_key(key: &SignedSecretKey) -> (r: Result<String, pgp::errors::Error>) {
    key.to_armored_string(None)
}

/// Relies on the `Clone` impl that pgp derives for `SecretKey`.
#[verifier::external_body]
pub(crate) fn copy_key(k: &GeneratedKey) -> (r: GeneratedKey)
    ensures
        r.spec_identity() == k.spec_identity(),
        r.spec_created_at() == k.spec_created_at(),
{
    GeneratedKey { key: k.key.clone(), identity: k.identity.clone(), created_at: k.created_at }
}

} // verus!
