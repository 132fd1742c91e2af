//! The key discovery document.

use vstd::prelude::*;
use vstd::string::*;
use rsa::RsaPrivateKey;
use crate::error::AppError;
use crate::http::{is_reply, Reply, ReplyView};
use crate::jwt::signer::{
    public_exponent,
    public_exponent_bytes,
    public_modulus,
    public_modulus_bytes,
    signing_header_view,
    KEY_ID,
};

verus! {

/// One public key in the form of a JSON Web Key.
#[derive(Debug, Clone, PartialEq, Eq)]
pub struct Jwk {
    pub alg: String,
    pub kty: String,
    /// What the key is for. In the document the member is named `use`.
    pub key_use: String,
    pub kid: String,
    /// The modulus, base64url-encoded without padding.
    pub n: String,
    /// The public exponent, base64url-encoded without padding.
    pub e: String,
}

/// A [`Jwk`] with its texts as sequences of characters.
pub struct JwkView {
    pub alg: Seq<char>,
    pub kty: Seq<char>,
    pub key_use: Seq<char>,
    pub kid: Seq<char>,
    pub n: Seq<char>,
    pub e: Seq<char>,
}

impl DeepView for Jwk {
    type V = JwkView;

    open spec fn deep_view(&self) -> JwkView {
        JwkView {
            alg: self.alg@,
            kty: self.kty@,
            key_use: self.key_use@,
            kid: self.kid@,
            n: self.n@,
            e: self.e@,
        }
    }
}

/// The key discovery document: a set of public keys.
#[derive(Debug, Clone, PartialEq, Eq)]
pub struct JwkSet {
    pub keys: Vec<Jwk>,
}

/// A [`JwkSet`] with its texts as sequences of characters.
pub struct JwkSetView {
    pub keys: Seq<JwkView>,
}

impl View for JwkSet {
    type V = JwkSetView;

    open spec fn view(&self) -> JwkSetView {
        JwkSetView { keys: self.keys.deep_view() }
    }
}

/// What `base64_url::encode` makes of bytes: their encoding in the URL-safe
/// alphabet, without padding.
pub uninterp spec fn base64url_text(bytes: Seq<u8>) -> Seq<char>;

/// Calls `base64_url::encode`. Trusted: the text is the one that bears the
/// name [`base64url_text`], a function of the bytes alone.
#[verifier::external_body]
fn base64url(bytes: &Vec<u8>) -> (text: String)
    ensures
        text@ == base64url_text(bytes@),
{
    base64_url::encode(bytes)
}

/// The document for a public key whose modulus and exponent are encoded as
/// `n` and `e`: one key for RS256 signatures, under the identifier of the
/// signing key.
pub open spec fn key_set_view(n: Seq<char>, e: Seq<char>) -> JwkSetView {
    JwkSetView {
        keys: seq![
            JwkView { alg: "RS256"@, kty: "RSA"@, key_use: "sig"@, kid: KEY_ID@, n: n, e: e },
        ],
    }
}

/// The document for a public key with the given modulus and exponent.
pub open spec fn key_set_of_components(modulus: Seq<u8>, exponent: Seq<u8>) -> JwkSetView {
    key_set_view(base64url_text(modulus), base64url_text(exponent))
}

/// The document that publishes the public half of a key. Of the key it
/// holds the modulus and the public exponent, and nothing else.
pub open spec fn published_keys_view(key: RsaPrivateKey) -> JwkSetView {
    key_set_of_components(public_modulus_bytes(key), public_exponent_bytes(key))
}

/// Makes the document for a public key whose modulus and exponent are
/// encoded as `n` and `e`.
pub fn key_set(n: String, e: String) -> (keys: JwkSet)
    ensures
        keys@ == key_set_view(n@, e@),
{
    let mut keys: Vec<Jwk> = Vec::new();
    keys.push(
        Jwk {
            alg: String::from_str("RS256"),
            kty: String::from_str("RSA"),
            key_use: String::from_str("sig"),
            kid: String::from_str(KEY_ID),
            n,
            e,
        },
    );
    let set = JwkSet { keys };
    assert(set@.keys =~= key_set_view(n@, e@).keys);
    set
}

/// Makes the document for a public key with the given modulus and exponent,
/// each in big-endian bytes.
pub fn key_set_from_components(modulus: &Vec<u8>, exponent: &Vec<u8>) -> (keys: JwkSet)
    ensures
        keys@ == key_set_of_components(modulus@, exponent@),
{
    key_set(base64url(modulus), base64url(exponent))
}

/// Makes the document that publishes the public half of a key.
pub fn published_keys(key: &RsaPrivateKey) -> (keys: JwkSet)
    ensures
        keys@ == published_keys_view(*key),
{
    let modulus = public_modulus(key);
    let exponent = public_exponent(key);
    key_set_from_components(&modulus, &exponent)
}

/// Answers a request for the key discovery document, given the outcome of
/// asking for the signing key: the document with the public half of that
/// key, or the failure with which the key could not be had.
pub fn jwks_handler(key: Result<RsaPrivateKey, AppError>) -> (reply: Result<Reply, AppError>)
    ensures
        match key {
            Ok(loaded) => is_reply(reply, Ok(ReplyView::Jwks(published_keys_view(loaded)))),
            Err(failure) => is_reply(reply, Err(failure@)),
        },
{
    match key {
        Ok(loaded) => Ok(Reply::Jwks(published_keys(&loaded))),
        Err(failure) => Err(failure),
    }
}

/// The published document holds exactly one key, and its identifier is the
/// one in the header of every token that is signed.
pub proof fn published_key_id_is_signing_key_id(key: RsaPrivateKey)
    ensures
        published_keys_view(key).keys.len() == 1,
        signing_header_view().kid == Some(published_keys_view(key).keys[0].kid),
        published_keys_view(key).keys[0].alg == "RS256"@,
        published_keys_view(key).keys[0].kty == "RSA"@,
        published_keys_view(key).keys[0].key_use == "sig"@,
{
}

/// The published document shows nothing of a key but its public half: two
/// keys with the same modulus and the same public exponent are published as
/// the same document, whatever else they hold.
pub proof fn published_document_shows_the_public_half_only(key: RsaPrivateKey, other: RsaPrivateKey)
    requires
        public_modulus_bytes(key) == public_modulus_bytes(other),
        public_exponent_bytes(key) == public_exponent_bytes(other),
    ensures
        published_keys_view(key) == published_keys_view(other),
{
}

} // verus!
