//! The signing key and the signature of a token.
//!
//! The cryptography is the work of the `rsa` and `jsonwebtoken` crates. What
//! this module states of them is trusted, and each trusted item says so.

use vstd::prelude::*;
use vstd::string::*;
use rsa::pkcs1::{DecodeRsaPrivateKey, EncodeRsaPrivateKey, LineEnding};
use rsa::traits::PublicKeyParts;
use rsa::{RsaPrivateKey, RsaPublicKey};
use jsonwebtoken::{Algorithm, EncodingKey, Header};
use crate::error::{AppError, AppErrorView, OUT_OF_ORDER};
use crate::jwt::claims::{claim_members, ClaimValue, ClaimValueView, CustomClaims, CustomClaimsView};

verus! {

/// The identifier of the signing key, in the header of every token and in the
/// published key set.
pub const KEY_ID: &'static str = "jwtRS256";

/// The size of a generated modulus, in bits.
pub const KEY_BITS: usize = 8192;

/// The store of durable storage in which the key is kept.
pub const KEY_STORE: &'static str = "KEYS_STORE";

/// The name under which the key is kept in its store.
pub const KEY_NAME: &'static str = "JWT_PRIVATE_KEY";

/// An RSA private key of the `rsa` crate. Verus sees nothing inside it.
#[verifier::external_type_specification]
#[verifier::external_body]
pub struct ExRsaPrivateKey(rsa::RsaPrivateKey);

/// A signing key of the `jsonwebtoken` crate. Verus sees nothing inside it.
#[verifier::external_type_specification]
#[verifier::external_body]
pub struct ExEncodingKey(jsonwebtoken::EncodingKey);

/// What `to_pkcs1_pem` makes of a key with CRLF line endings: the PEM text of
/// its PKCS#1 encoding, or the message of the error.
pub uninterp spec fn pkcs1_pem_text(key: RsaPrivateKey) -> Result<Seq<char>, Seq<char>>;

/// What `from_pkcs1_pem` makes of a text: the key that it encodes, or the
/// message of the error.
pub uninterp spec fn pkcs1_pem_key(text: Seq<char>) -> Result<RsaPrivateKey, Seq<char>>;

/// The number of bits of a key's modulus.
pub uninterp spec fn modulus_bits(key: RsaPrivateKey) -> nat;

/// The modulus of a key's public half, in big-endian bytes.
pub uninterp spec fn public_modulus_bytes(key: RsaPrivateKey) -> Seq<u8>;

/// The exponent of a key's public half, in big-endian bytes.
pub uninterp spec fn public_exponent_bytes(key: RsaPrivateKey) -> Seq<u8>;

/// What `EncodingKey::from_rsa_pem` makes of the bytes of a text: the signing
/// key, or the message of the error.
pub uninterp spec fn rsa_encoding_key(pem: Seq<char>) -> Result<EncodingKey, Seq<char>>;

/// What `jsonwebtoken::encode` makes of a header, the members of a payload
/// and a signing key: the compact token, or the message of the error.
pub uninterp spec fn jwt_text(
    header: JwtHeaderView,
    members: Seq<(Seq<char>, ClaimValueView)>,
    key: EncodingKey,
) -> Result<Seq<char>, Seq<char>>;

/// An outcome with its texts as sequences of characters.
pub open spec fn text_outcome(outcome: Result<String, String>) -> Result<Seq<char>, Seq<char>> {
    match outcome {
        Ok(text) => Ok(text@),
        Err(detail) => Err(detail@),
    }
}

/// An outcome with the message of its failure as a sequence of characters.
pub open spec fn value_outcome<T>(outcome: Result<T, String>) -> Result<T, Seq<char>> {
    match outcome {
        Ok(value) => Ok(value),
        Err(detail) => Err(detail@),
    }
}

/// Calls `RsaPrivateKey::new` of the `rsa` crate with the operating system's
/// random source. Trusted. The key is random, and all that is claimed of it
/// is its size: the crate draws primes until their product has exactly the
/// number of bits that was asked for. Sizes below 64 bits are left out, for
/// which the crate may refuse or hand a degenerate size to its prime search.
#[verifier::external_body]
fn generate_rsa_key(bits: usize) -> (generated: Result<RsaPrivateKey, String>)
    requires
        bits >= 64,
    ensures
        generated is Ok ==> modulus_bits(generated->Ok_0) == bits,
{
    RsaPrivateKey::new(&mut rand::rngs::OsRng, bits).map_err(|e| e.to_string())
}

/// Calls `to_pkcs1_pem` of the `rsa` crate with CRLF line endings. Trusted:
/// the outcome is the one that bears the name [`pkcs1_pem_text`], a function
/// of the key alone.
#[verifier::external_body]
fn encode_pkcs1_pem(key: &RsaPrivateKey) -> (encoded: Result<String, String>)
    ensures
        text_outcome(encoded) == pkcs1_pem_text(*key),
{
    key.to_pkcs1_pem(LineEnding::CRLF).map(|pem| pem.to_string()).map_err(|e| e.to_string())
}

/// Calls `from_pkcs1_pem` of the `rsa` crate. Trusted: the outcome is the one
/// that bears the name [`pkcs1_pem_key`], a function of the text alone.
#[verifier::external_body]
fn decode_pkcs1_pem(text: &str) -> (decoded: Result<RsaPrivateKey, String>)
    ensures
        value_outcome(decoded) == pkcs1_pem_key(text@),
{
    RsaPrivateKey::from_pkcs1_pem(text).map_err(|e| e.to_string())
}

/// Takes the public half of a key with `RsaPublicKey::from`, its modulus with
/// `n` and the modulus' bytes with `to_bytes_be`, all of the `rsa` crate.
/// Trusted: the bytes are those that bear the name [`public_modulus_bytes`].
#[verifier::external_body]
pub(crate) fn public_modulus(key: &RsaPrivateKey) -> (bytes: Vec<u8>)
    ensures
        bytes@ == public_modulus_bytes(*key),
{
    RsaPublicKey::from(key).n().to_bytes_be()
}

/// Takes the public half of a key with `RsaPublicKey::from`, its exponent
/// with `e` and the exponent's bytes with `to_bytes_be`, all of the `rsa`
/// crate. Trusted: the bytes are those that bear the name
/// [`public_exponent_bytes`].
#[verifier::external_body]
pub(crate) fn public_exponent(key: &RsaPrivateKey) -> (bytes: Vec<u8>)
    ensures
        bytes@ == public_exponent_bytes(*key),
{
    RsaPublicKey::from(key).e().to_bytes_be()
}

/// Calls `EncodingKey::from_rsa_pem` of the `jsonwebtoken` crate on the bytes
/// of a PEM text. Trusted: the outcome is the one that bears the name
/// [`rsa_encoding_key`], a function of the text alone.
#[verifier::external_body]
fn encoding_key_from_pem(pem: &str) -> (made: Result<EncodingKey, String>)
    ensures
        value_outcome(made) == rsa_encoding_key(pem@),
{
    EncodingKey::from_rsa_pem(pem.as_bytes()).map_err(|e| e.to_string())
}

/// Where a caller stands that asks for the signing key.
#[derive(Debug, PartialEq, Eq)]
pub enum KeyState {
    /// Nothing has happened yet.
    Start,
    /// Durable storage has been asked for the key.
    Reading,
    /// Durable storage held no key. This one was generated, and storage has
    /// been asked to keep its text unless it holds a key by now.
    Writing { key: RsaPrivateKey },
    /// The caller has its answer.
    Done,
}

/// What durable storage did with a text that it was asked to keep unless it
/// held one.
#[derive(Debug, Clone, PartialEq, Eq)]
pub enum WriteOutcome {
    /// It held none and keeps the new one.
    Stored,
    /// It held this one already and keeps it.
    Kept(String),
}

/// A [`WriteOutcome`] with its text as a sequence of characters.
pub enum WriteOutcomeView {
    Stored,
    Kept(Seq<char>),
}

impl View for WriteOutcome {
    type V = WriteOutcomeView;

    open spec fn view(&self) -> WriteOutcomeView {
        match self {
            WriteOutcome::Stored => WriteOutcomeView::Stored,
            WriteOutcome::Kept(text) => WriteOutcomeView::Kept(text@),
        }
    }
}

/// What happened since the last step of a caller that asks for the key.
#[derive(Debug, PartialEq, Eq)]
pub enum KeyEvent {
    /// The caller asks for the key.
    Begin,
    /// Durable storage was read: it holds this text, or none, or the read
    /// failed with this message.
    Read(Result<Option<String>, String>),
    /// Durable storage was asked to keep a text unless it held one: what it
    /// did, or the message with which it failed.
    Written(Result<WriteOutcome, String>),
}

/// A [`KeyEvent`] with its texts as sequences of characters.
pub enum KeyEventView {
    Begin,
    Read(Result<Option<Seq<char>>, Seq<char>>),
    Written(Result<WriteOutcomeView, Seq<char>>),
}

impl View for KeyEvent {
    type V = KeyEventView;

    open spec fn view(&self) -> KeyEventView {
        match self {
            KeyEvent::Begin => KeyEventView::Begin,
            KeyEvent::Read(Ok(held)) => KeyEventView::Read(Ok(crate::text::opt_text(*held))),
            KeyEvent::Read(Err(detail)) => KeyEventView::Read(Err(detail@)),
            KeyEvent::Written(Ok(outcome)) => KeyEventView::Written(Ok(outcome@)),
            KeyEvent::Written(Err(detail)) => KeyEventView::Written(Err(detail@)),
        }
    }
}

/// What a caller that asks for the key wants done next.
#[derive(Debug, PartialEq, Eq)]
pub enum KeyAction {
    /// Read the entry of this name from durable storage.
    Read { name: String },
    /// Keep this text under this name in durable storage unless an entry of
    /// the name exists, in one indivisible step.
    Write { name: String, pem: String },
    /// The signing key.
    Return(RsaPrivateKey),
    /// The failure with which the call ends.
    Fail(AppError),
}

/// A [`KeyAction`] with its texts as sequences of characters.
pub enum KeyActionView {
    Read { name: Seq<char> },
    Write { name: Seq<char>, pem: Seq<char> },
    Return(RsaPrivateKey),
    Fail(AppErrorView),
}

impl View for KeyAction {
    type V = KeyActionView;

    open spec fn view(&self) -> KeyActionView {
        match self {
            KeyAction::Read { name } => KeyActionView::Read { name: name@ },
            KeyAction::Write { name, pem } => KeyActionView::Write { name: name@, pem: pem@ },
            KeyAction::Return(key) => KeyActionView::Return(*key),
            KeyAction::Fail(failure) => KeyActionView::Fail(failure@),
        }
    }
}

/// What a caller makes of a text that durable storage holds: the key that
/// the text encodes, or a failure of key generation where it encodes none.
pub open spec fn adopted(text: Seq<char>) -> KeyActionView {
    adopted_key(pkcs1_pem_key(text))
}

/// What a caller makes of the outcome of decoding the held text.
pub open spec fn adopted_key(decoded: Result<RsaPrivateKey, Seq<char>>) -> KeyActionView {
    match decoded {
        Ok(key) => KeyActionView::Return(key),
        Err(detail) => KeyActionView::Fail(AppErrorView::Keygen(detail)),
    }
}

/// The step of a caller that found no key, given the outcome of generating
/// one.
pub open spec fn after_generation(generated: Result<RsaPrivateKey, Seq<char>>) -> (
    KeyState,
    KeyActionView,
) {
    match generated {
        Err(detail) => (KeyState::Done, KeyActionView::Fail(AppErrorView::Keygen(detail))),
        Ok(key) => after_encoding(key, pkcs1_pem_text(key)),
    }
}

/// The step of a caller that generated a key, given the outcome of encoding
/// it.
pub open spec fn after_encoding(key: RsaPrivateKey, pem: Result<Seq<char>, Seq<char>>) -> (
    KeyState,
    KeyActionView,
) {
    match pem {
        Err(detail) => (KeyState::Done, KeyActionView::Fail(AppErrorView::Keygen(detail))),
        Ok(text) => (KeyState::Writing { key }, KeyActionView::Write { name: KEY_NAME@, pem: text }),
    }
}

/// Whether `generated` can be the outcome of generating a key: a key of
/// [`KEY_BITS`] bits, or a failure.
pub open spec fn is_generated(generated: Result<RsaPrivateKey, Seq<char>>) -> bool {
    generated matches Ok(key) ==> modulus_bits(key) == KEY_BITS
}

/// Whether a caller in `state` that learns of `event` may go on in `next`
/// and ask for `action`.
///
/// A caller first reads durable storage. A key that storage holds is
/// decoded and returned, and none is generated. Only where storage holds
/// none does the caller generate one, of which nothing is known but its
/// size and that its text is what it asks storage to keep. If storage kept
/// it, the caller returns the generated key. If storage held one by then, the caller drops
/// its own and returns the one that storage holds. A failure of storage is
/// an internal failure, one of generating, encoding or decoding a key is a
/// failure of key generation.
pub open spec fn key_step(state: KeyState, event: KeyEventView, next: KeyState, action: KeyActionView) -> bool {
    match (state, event) {
        (KeyState::Start, KeyEventView::Begin) => {
            &&& next == KeyState::Reading
            &&& action == KeyActionView::Read { name: KEY_NAME@ }
        },
        (KeyState::Reading, KeyEventView::Read(Err(detail))) => {
            &&& next == KeyState::Done
            &&& action == KeyActionView::Fail(AppErrorView::Unexpected(detail))
        },
        (KeyState::Reading, KeyEventView::Read(Ok(Some(text)))) => {
            &&& next == KeyState::Done
            &&& action == adopted(text)
        },
        (KeyState::Reading, KeyEventView::Read(Ok(None))) => exists|
            generated: Result<RsaPrivateKey, Seq<char>>,
        |
            is_generated(generated) && #[trigger] after_generation(generated) == (next, action),
        (KeyState::Writing { key }, KeyEventView::Written(Err(detail))) => {
            &&& next == KeyState::Done
            &&& action == KeyActionView::Fail(AppErrorView::Unexpected(detail))
        },
        (KeyState::Writing { key }, KeyEventView::Written(Ok(WriteOutcomeView::Stored))) => {
            &&& next == KeyState::Done
            &&& action == KeyActionView::Return(key)
        },
        (KeyState::Writing { key }, KeyEventView::Written(Ok(WriteOutcomeView::Kept(text)))) => {
            &&& next == KeyState::Done
            &&& action == adopted(text)
        },
        _ => {
            &&& next == KeyState::Done
            &&& action == KeyActionView::Fail(AppErrorView::Unexpected(OUT_OF_ORDER@))
        },
    }
}

/// Ends the call with the outcome of decoding the text that storage holds.
pub fn adopt_key(decoded: Result<RsaPrivateKey, String>) -> (action: KeyAction)
    ensures
        action@ == adopted_key(value_outcome(decoded)),
{
    match decoded {
        Ok(key) => KeyAction::Return(key),
        Err(detail) => KeyAction::Fail(AppError::Keygen(detail)),
    }
}

/// Ends the call with the key that a text of durable storage encodes.
pub fn adopt(text: &str) -> (action: KeyAction)
    ensures
        action@ == adopted(text@),
{
    adopt_key(decode_pkcs1_pem(text))
}

/// Goes on with a generated key, given the outcome of encoding it: asks
/// storage to keep the text unless it holds one.
pub fn key_encoded(key: RsaPrivateKey, pem: Result<String, String>) -> (step: (KeyState, KeyAction))
    ensures
        (step.0, step.1@) == after_encoding(key, text_outcome(pem)),
{
    match pem {
        Err(detail) => (KeyState::Done, KeyAction::Fail(AppError::Keygen(detail))),
        Ok(text) => (
            KeyState::Writing { key },
            KeyAction::Write { name: String::from_str(KEY_NAME), pem: text },
        ),
    }
}

/// Goes on with the outcome of generating a key: encodes the key and asks
/// storage to keep the text.
pub fn key_generated(generated: Result<RsaPrivateKey, String>) -> (step: (KeyState, KeyAction))
    ensures
        (step.0, step.1@) == after_generation(value_outcome(generated)),
{
    match generated {
        Err(detail) => (KeyState::Done, KeyAction::Fail(AppError::Keygen(detail))),
        Ok(key) => {
            let pem = encode_pkcs1_pem(&key);
            key_encoded(key, pem)
        },
    }
}

fn out_of_order() -> (step: (KeyState, KeyAction))
    ensures
        step.0 == KeyState::Done,
        step.1@ == KeyActionView::Fail(AppErrorView::Unexpected(OUT_OF_ORDER@)),
{
    (KeyState::Done, KeyAction::Fail(AppError::Unexpected(String::from_str(OUT_OF_ORDER))))
}

/// One step of a caller that asks for the signing key: loads the key that
/// durable storage holds, or generates one of [`KEY_BITS`] bits where it
/// holds none and has storage keep it.
///
/// The caller starts in [`KeyState::Start`] with [`KeyEvent::Begin`],
/// performs each action that asks something of durable storage, and hands
/// the answer back as the next event, until the action is
/// [`KeyAction::Return`] or [`KeyAction::Fail`].
pub fn load_or_generate_private_key(state: KeyState, event: KeyEvent) -> (step: (KeyState, KeyAction))
    ensures
        key_step(state, event@, step.0, step.1@),
{
    match (state, event) {
        (KeyState::Start, KeyEvent::Begin) => (
            KeyState::Reading,
            KeyAction::Read { name: String::from_str(KEY_NAME) },
        ),
        (KeyState::Reading, KeyEvent::Read(Err(detail))) => (
            KeyState::Done,
            KeyAction::Fail(AppError::Unexpected(detail)),
        ),
        (KeyState::Reading, KeyEvent::Read(Ok(Some(text)))) => (KeyState::Done, adopt(text.as_str())),
        (KeyState::Reading, KeyEvent::Read(Ok(None))) => {
            let generated = generate_rsa_key(KEY_BITS);
            let step = key_generated(generated);
            assert(is_generated(value_outcome(generated)) && after_generation(
                value_outcome(generated),
            ) == (step.0, step.1@));
            step
        },
        (KeyState::Writing { key }, KeyEvent::Written(Err(detail))) => (
            KeyState::Done,
            KeyAction::Fail(AppError::Unexpected(detail)),
        ),
        (KeyState::Writing { key }, KeyEvent::Written(Ok(WriteOutcome::Stored))) => (
            KeyState::Done,
            KeyAction::Return(key),
        ),
        (KeyState::Writing { key }, KeyEvent::Written(Ok(WriteOutcome::Kept(text)))) => (
            KeyState::Done,
            adopt(text.as_str()),
        ),
        _ => out_of_order(),
    }
}

/// The algorithm of a signature.
#[derive(Debug, Clone, Copy, PartialEq, Eq, Structural)]
pub enum SigningAlgorithm {
    /// RSASSA-PKCS1-v1_5 with SHA-256.
    Rs256,
}

/// The header of a token: the algorithm of its signature and the identifier
/// of the key.
#[derive(Debug, Clone, PartialEq, Eq)]
pub struct JwtHeader {
    pub alg: SigningAlgorithm,
    pub kid: Option<String>,
}

/// A [`JwtHeader`] with its text as a sequence of characters.
pub struct JwtHeaderView {
    pub alg: SigningAlgorithm,
    pub kid: Option<Seq<char>>,
}

impl View for JwtHeader {
    type V = JwtHeaderView;

    open spec fn view(&self) -> JwtHeaderView {
        JwtHeaderView { alg: self.alg, kid: crate::text::opt_text(self.kid) }
    }
}

/// The header of every token that the bridge signs.
pub open spec fn signing_header_view() -> JwtHeaderView {
    JwtHeaderView { alg: SigningAlgorithm::Rs256, kid: Some(KEY_ID@) }
}

/// The header of every token that the bridge signs.
pub fn signing_header() -> (header: JwtHeader)
    ensures
        header@ == signing_header_view(),
{
    JwtHeader { alg: SigningAlgorithm::Rs256, kid: Some(String::from_str(KEY_ID)) }
}

/// Calls `jsonwebtoken::encode` with a header made by `Header::new`, to which
/// the key identifier is added, and with the members as one JSON object.
/// Trusted: the outcome is the one that bears the name [`jwt_text`]. It is a
/// function of the arguments alone because RSASSA-PKCS1-v1_5 pads without
/// chance: the random source that the crate hands to the signing primitive
/// blinds the private-key operation and does not reach the signature.
#[verifier::external_body]
fn jwt_encode(header: &JwtHeader, members: &Vec<(String, ClaimValue)>, key: &EncodingKey) -> (token:
    Result<String, String>)
    ensures
        text_outcome(token) == jwt_text(header@, members.deep_view(), *key),
{
    let mut outside = Header::new(match header.alg {
        SigningAlgorithm::Rs256 => Algorithm::RS256,
    });
    outside.kid = header.kid.clone();
    let json = |value: &ClaimValue| match value {
        ClaimValue::Null => serde_json::Value::Null,
        ClaimValue::Number(number) => serde_json::Value::from(*number),
        ClaimValue::Text(text) => serde_json::Value::from(text.as_str()),
        ClaimValue::List(list) => serde_json::Value::from(list.clone()),
    };
    let payload: serde_json::Map<String, serde_json::Value> =
        members.iter().map(|(name, value)| (name.clone(), json(value))).collect();
    jsonwebtoken::encode(&outside, &payload, key).map_err(|e| e.to_string())
}

/// What signing makes of a key and claims: the token, or the failure.
///
/// The key is encoded as PEM, the signing key is made from that text, and the
/// claims are signed under the header of [`signing_header_view`]. A failure
/// to encode the key is one of key generation. A failure to make the signing
/// key or to sign is one of the token.
pub open spec fn signed_token(key: RsaPrivateKey, claims: CustomClaimsView) -> Result<
    Seq<char>,
    AppErrorView,
> {
    signed_with_pem(pkcs1_pem_text(key), claims)
}

/// What signing makes of the outcome of encoding the key.
pub open spec fn signed_with_pem(pem: Result<Seq<char>, Seq<char>>, claims: CustomClaimsView) -> Result<
    Seq<char>,
    AppErrorView,
> {
    match pem {
        Err(detail) => Err(AppErrorView::Keygen(detail)),
        Ok(text) => signed_with_encoding_key(rsa_encoding_key(text), claims),
    }
}

/// What signing makes of the outcome of making the signing key.
pub open spec fn signed_with_encoding_key(
    encoding_key: Result<EncodingKey, Seq<char>>,
    claims: CustomClaimsView,
) -> Result<Seq<char>, AppErrorView> {
    match encoding_key {
        Err(detail) => Err(AppErrorView::Jwt(detail)),
        Ok(made) => token_outcome(jwt_text(signing_header_view(), claim_members(claims), made)),
    }
}

/// What signing makes of the outcome of the encoder.
pub open spec fn token_outcome(encoded: Result<Seq<char>, Seq<char>>) -> Result<Seq<char>, AppErrorView> {
    match encoded {
        Ok(token) => Ok(token),
        Err(detail) => Err(AppErrorView::Jwt(detail)),
    }
}

/// Whether `result` is the outcome `expected`, with texts and failures
/// compared by their views.
pub open spec fn is_text_outcome(result: Result<String, AppError>, expected: Result<Seq<char>, AppErrorView>) -> bool {
    match expected {
        Ok(text) => result matches Ok(t) && t@ == text,
        Err(failure) => result matches Err(e) && e@ == failure,
    }
}

/// Turns the outcome of the encoder into the outcome of signing.
pub fn finish_token(encoded: Result<String, String>) -> (token: Result<String, AppError>)
    ensures
        is_text_outcome(token, token_outcome(text_outcome(encoded))),
{
    match encoded {
        Ok(token) => Ok(token),
        Err(detail) => Err(AppError::Jwt(detail)),
    }
}

/// Signs the claims with a signing key, given the outcome of making that
/// key.
pub fn sign_with_encoding_key(encoding_key: Result<EncodingKey, String>, claims: CustomClaims) -> (token:
    Result<String, AppError>)
    ensures
        is_text_outcome(token, signed_with_encoding_key(value_outcome(encoding_key), claims@)),
{
    match encoding_key {
        Err(detail) => Err(AppError::Jwt(detail)),
        Ok(made) => {
            let header = signing_header();
            let members = claims.members();
            finish_token(jwt_encode(&header, &members, &made))
        },
    }
}

/// Signs the claims with the key of a PEM text, given the outcome of encoding
/// the key as that text.
pub fn sign_with_pem(pem: Result<String, String>, claims: CustomClaims) -> (token: Result<String, AppError>)
    ensures
        is_text_outcome(token, signed_with_pem(text_outcome(pem), claims@)),
{
    match pem {
        Err(detail) => Err(AppError::Keygen(detail)),
        Ok(text) => sign_with_encoding_key(encoding_key_from_pem(text.as_str()), claims),
    }
}

/// Signs the claims with the key: RS256 under the key identifier
/// [`KEY_ID`].
pub fn generate_jwt_with_key(key: &RsaPrivateKey, claims: CustomClaims) -> (token: Result<String, AppError>)
    ensures
        is_text_outcome(token, signed_token(*key, claims@)),
{
    sign_with_pem(encode_pkcs1_pem(key), claims)
}

} // verus!
