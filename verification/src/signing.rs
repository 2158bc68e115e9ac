//! Signing-backend calls used by the bootstrap: deriving the admin public
//! key, issuing the bearer token, and signing the batch body. All three are
//! deterministic functions of their inputs, named here so that contracts can
//! speak of them.
//!
//! The backend's hex decoder reads the key string two characters at a time
//! and fails to return on an odd-length string of hex digits; every entry
//! point below therefore either requires or tests an even length.

use vstd::prelude::*;

use crate::error::SetupError;
use cylinder::Context;
use vstd::string::StrSliceExecFns;
use vstd::string::StringExecFns;

verus! {

/// The public key, as hex, that the signing backend derives from a private
/// key given as hex; `None` when the backend rejects the key.
pub uninterp spec fn public_key_of(private_key_hex: Seq<char>) -> Option<Seq<char>>;

/// The bearer token that the signing backend issues for a private key given
/// as hex; `None` when the backend rejects the key.
pub uninterp spec fn jwt_of(private_key_hex: Seq<char>) -> Option<Seq<char>>;

/// The signature the signing backend produces over a message with a private
/// key given as hex; `None` when the backend rejects the key.
pub uninterp spec fn signature_of(private_key_hex: Seq<char>, message: Seq<u8>) -> Option<Seq<u8>>;

/// Relies on cylinder's secp256k1 context: `PrivateKey::new_from_hex`,
/// `Context::new_signer`, `Signer::public_key` and `PublicKey::as_hex`
/// derive the hex public key deterministically from the private key hex.
/// The even length keeps the backend's two-characters-at-a-time hex decoder
/// inside its domain.
#[verifier::external_body]
pub fn derive_public_key(private_key_hex: &str) -> (r: Result<String, SetupError>)
    requires
        private_key_hex@.len() % 2 == 0,
    ensures
        r is Ok <==> public_key_of(private_key_hex@) is Some,
        r matches Ok(pk) ==> Some(pk@) == public_key_of(private_key_hex@),
        r matches Err(e) ==> e is InvalidPrivateKey || e is SigningFailed,
{
    let context = cylinder::secp256k1::Secp256k1Context::new();
    let private_key = cylinder::PrivateKey::new_from_hex(private_key_hex)
        .map_err(|err| SetupError::InvalidPrivateKey(format!("{}", err)))?;
    let signer = context.new_signer(private_key);
    signer
        .public_key()
        .map(|pk| pk.as_hex())
        .map_err(|err| SetupError::SigningFailed(format!("{}", err)))
}

/// Relies on cylinder's JWT builder with no custom header or claims: the
/// token is a function of the signing key alone, since cylinder's secp256k1
/// signing uses deterministic (RFC 6979) nonces. Building fails exactly
/// when deriving the public key does — both fail only in the same key
/// parse, and signing a 32-byte digest with a parsed key cannot fail.
#[verifier::external_body]
pub fn build_jwt(private_key_hex: &str) -> (r: Result<String, SetupError>)
    requires
        private_key_hex@.len() % 2 == 0,
    ensures
        r is Ok <==> jwt_of(private_key_hex@) is Some,
        r is Ok <==> public_key_of(private_key_hex@) is Some,
        r matches Ok(t) ==> Some(t@) == jwt_of(private_key_hex@),
        r matches Err(e) ==> e is InvalidPrivateKey || e is SigningFailed,
{
    let context = cylinder::secp256k1::Secp256k1Context::new();
    let private_key = cylinder::PrivateKey::new_from_hex(private_key_hex)
        .map_err(|err| SetupError::InvalidPrivateKey(format!("{}", err)))?;
    let signer = context.new_signer(private_key);
    cylinder::jwt::JsonWebTokenBuilder::new()
        .build(&*signer)
        .map_err(|err| SetupError::SigningFailed(format!("{}", err)))
}

/// Relies on cylinder's secp256k1 `Signer::sign`: the message is hashed with
/// SHA-256 and signed with deterministic (RFC 6979) nonces, so the compact
/// signature is a function of the key and the message alone. Signing fails
/// exactly when deriving the public key does.
#[verifier::external_body]
pub fn sign_message(private_key_hex: &str, message: &Vec<u8>) -> (r: Result<Vec<u8>, SetupError>)
    requires
        private_key_hex@.len() % 2 == 0,
    ensures
        r is Ok <==> signature_of(private_key_hex@, message@) is Some,
        r is Ok <==> public_key_of(private_key_hex@) is Some,
        r matches Ok(s) ==> Some(s@) == signature_of(private_key_hex@, message@),
        r matches Err(e) ==> e is InvalidPrivateKey || e is SigningFailed,
{
    let context = cylinder::secp256k1::Secp256k1Context::new();
    let private_key = cylinder::PrivateKey::new_from_hex(private_key_hex)
        .map_err(|err| SetupError::InvalidPrivateKey(format!("{}", err)))?;
    let signer = context.new_signer(private_key);
    signer
        .sign(message)
        .map(|signature| signature.take_bytes())
        .map_err(|err| SetupError::SigningFailed(format!("{}", err)))
}

/// Whether the key string has the even length the backend's hex decoder
/// expects.
pub fn key_length_even(private_key_hex: &str) -> (r: bool)
    ensures
        r == (private_key_hex@.len() % 2 == 0),
{
    private_key_hex.unicode_len() % 2 == 0
}

/// The authorization header accompanying a bootstrap submission: the bearer
/// token issued by the signing backend, under the `Bearer Cylinder:` scheme.
/// An odd-length key string is rejected before the backend sees it.
pub fn bearer_auth_header(private_key_hex: &str) -> (r: Result<String, SetupError>)
    ensures
        private_key_hex@.len() % 2 != 0 ==> (r matches Err(e) && e is InvalidPrivateKey),
        private_key_hex@.len() % 2 == 0 ==> {
            &&& (jwt_of(private_key_hex@) is Some <==> public_key_of(private_key_hex@) is Some)
            &&& (r is Ok <==> jwt_of(private_key_hex@) is Some)
            &&& (r matches Ok(h) ==> jwt_of(private_key_hex@) matches Some(t) && h@
                == "Bearer Cylinder:"@ + t)
            &&& (r matches Err(e) ==> e is InvalidPrivateKey || e is SigningFailed)
        },
{
    if !key_length_even(private_key_hex) {
        return Err(
            SetupError::InvalidPrivateKey("the key hex must have an even length".to_owned()),
        );
    }
    match build_jwt(private_key_hex) {
        Ok(token) => Ok("Bearer Cylinder:".to_owned().concat(token.as_str())),
        Err(e) => Err(e),
    }
}

} // verus!
