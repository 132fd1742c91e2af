//! The exchange of an authorization code for a signed identity token.
//!
//! The exchange alternates between requests to the upstream provider and
//! decisions on what came back. [`token_handler`] holds the decisions as one
//! step from a state and an event to the next state and an action. Whoever
//! runs the exchange performs the action and hands the outcome back as the
//! next event.

use vstd::prelude::*;
use vstd::string::*;
use rsa::RsaPrivateKey;
use crate::config::{api_base_text, Config, ConfigView};
use crate::discord::client::{fetch_discord_data, fetch_outcome};
use crate::discord::models::{
    DiscordGuild,
    DiscordTokenResponse,
    DiscordTokenResponseView,
    DiscordUserInfo,
    DiscordUserInfoView,
};
use crate::error::{AppError, AppErrorView, OUT_OF_ORDER};
use crate::http::{
    field_text,
    form_urlencode,
    form_urlencoded_text,
    sent_view,
    Fetched,
    FetchedView,
    FormEntry,
    FormEntryView,
    Method,
    Reply,
    ReplyView,
    UpstreamRequest,
    UpstreamRequestView,
};
use crate::jwt::claims::{map_claims, mapped_claims, CustomClaims, CustomClaimsView, TOKEN_TTL};
use crate::jwt::signer::{generate_jwt_with_key, signed_token};
use crate::text::{concat, opt_text, pair};

verus! {

/// The body of the answer to a successful exchange: what the upstream
/// provider returned, with the scope replaced, and the signed identity
/// token.
#[derive(Debug, Clone, PartialEq, Eq)]
pub struct TokenReply {
    pub access_token: String,
    pub token_type: String,
    pub expires_in: i64,
    pub refresh_token: String,
    pub scope: String,
    pub id_token: String,
}

/// A [`TokenReply`] with its texts as sequences of characters.
pub struct TokenReplyView {
    pub access_token: Seq<char>,
    pub token_type: Seq<char>,
    pub expires_in: i64,
    pub refresh_token: Seq<char>,
    pub scope: Seq<char>,
    pub id_token: Seq<char>,
}

impl View for TokenReply {
    type V = TokenReplyView;

    open spec fn view(&self) -> TokenReplyView {
        TokenReplyView {
            access_token: self.access_token@,
            token_type: self.token_type@,
            expires_in: self.expires_in,
            refresh_token: self.refresh_token@,
            scope: self.scope@,
            id_token: self.id_token@,
        }
    }
}

/// The two entries of the submitted form that the exchange reads.
#[derive(Debug, Clone, PartialEq, Eq)]
pub struct TokenForm {
    pub code: Option<FormEntry>,
    pub code_verifier: Option<FormEntry>,
}

/// A [`TokenForm`] with its texts as sequences of characters.
pub struct TokenFormView {
    pub code: Option<FormEntryView>,
    pub code_verifier: Option<FormEntryView>,
}

impl View for TokenForm {
    type V = TokenFormView;

    open spec fn view(&self) -> TokenFormView {
        TokenFormView { code: self.code.deep_view(), code_verifier: self.code_verifier.deep_view() }
    }
}

/// Where an exchange stands.
#[derive(Debug, Clone, PartialEq, Eq)]
pub enum TokenState {
    /// The form has not been read yet.
    Start,
    /// The upstream provider has been asked to exchange the code.
    AwaitingToken,
    /// The upstream provider has been asked for the user's profile.
    AwaitingProfile { token: DiscordTokenResponse },
    /// The upstream provider has been asked for the user's groups.
    AwaitingGuilds { token: DiscordTokenResponse, user: DiscordUserInfo },
    /// The claims are made, and the signing key has been asked for.
    AwaitingKey { token: DiscordTokenResponse, claims: CustomClaims },
    /// The exchange has its answer.
    Done,
}

/// A [`TokenState`] with its texts as sequences of characters.
pub enum TokenStateView {
    Start,
    AwaitingToken,
    AwaitingProfile { token: DiscordTokenResponseView },
    AwaitingGuilds { token: DiscordTokenResponseView, user: DiscordUserInfoView },
    AwaitingKey { token: DiscordTokenResponseView, claims: CustomClaimsView },
    Done,
}

impl View for TokenState {
    type V = TokenStateView;

    open spec fn view(&self) -> TokenStateView {
        match self {
            TokenState::Start => TokenStateView::Start,
            TokenState::AwaitingToken => TokenStateView::AwaitingToken,
            TokenState::AwaitingProfile { token } => TokenStateView::AwaitingProfile { token: token@ },
            TokenState::AwaitingGuilds { token, user } => TokenStateView::AwaitingGuilds {
                token: token@,
                user: user@,
            },
            TokenState::AwaitingKey { token, claims } => TokenStateView::AwaitingKey {
                token: token@,
                claims: claims@,
            },
            TokenState::Done => TokenStateView::Done,
        }
    }
}

/// What happened since the last step of an exchange.
#[derive(Debug, PartialEq, Eq)]
pub enum TokenEvent {
    /// The submitted form was read, or could not be read.
    Form(Result<TokenForm, String>),
    /// The outcome of asking the upstream provider to exchange the code.
    Token(Result<Fetched<DiscordTokenResponse>, String>),
    /// The outcome of asking the upstream provider for the profile.
    Profile(Result<Fetched<DiscordUserInfo>, String>),
    /// The outcome of asking the upstream provider for the groups, and the
    /// second, counted from the epoch, at which it came.
    Guilds { sent: Result<Fetched<Vec<DiscordGuild>>, String>, now: usize },
    /// The outcome of asking for the signing key.
    Key(Result<RsaPrivateKey, AppError>),
}

/// A [`TokenEvent`] with its texts as sequences of characters.
pub enum TokenEventView {
    Form(Result<TokenFormView, Seq<char>>),
    Token(Result<FetchedView<DiscordTokenResponseView>, Seq<char>>),
    Profile(Result<FetchedView<DiscordUserInfoView>, Seq<char>>),
    Guilds { sent: Result<FetchedView<Seq<DiscordGuild>>, Seq<char>>, now: usize },
    Key(Result<RsaPrivateKey, AppErrorView>),
}

impl View for TokenEvent {
    type V = TokenEventView;

    open spec fn view(&self) -> TokenEventView {
        match self {
            TokenEvent::Form(Ok(form)) => TokenEventView::Form(Ok(form@)),
            TokenEvent::Form(Err(detail)) => TokenEventView::Form(Err(detail@)),
            TokenEvent::Token(sent) => TokenEventView::Token(sent_view(*sent)),
            TokenEvent::Profile(sent) => TokenEventView::Profile(sent_view(*sent)),
            TokenEvent::Guilds { sent, now } => TokenEventView::Guilds {
                sent: sent_view(*sent),
                now: *now,
            },
            TokenEvent::Key(Ok(key)) => TokenEventView::Key(Ok(*key)),
            TokenEvent::Key(Err(failure)) => TokenEventView::Key(Err(failure@)),
        }
    }
}

impl TokenEventView {
    /// Whether the time of the event leaves room for the lifetime of a
    /// token. Only the event that carries a time can fail this.
    pub open spec fn in_range(self) -> bool {
        self matches TokenEventView::Guilds { now, .. } ==> now + TOKEN_TTL <= usize::MAX
    }
}

impl TokenEvent {
    /// Whether the time of the event leaves room for the lifetime of a
    /// token.
    pub fn in_range(&self) -> (fits: bool)
        ensures
            fits == self@.in_range(),
    {
        match self {
            TokenEvent::Guilds { sent: _, now } => *now <= usize::MAX - TOKEN_TTL,
            _ => true,
        }
    }
}

/// What an exchange wants done next.
#[derive(Debug, PartialEq, Eq)]
pub enum TokenAction {
    /// Send this request to the upstream provider.
    Fetch(UpstreamRequest),
    /// Ask for the signing key.
    LoadKey,
    /// Answer with this reply.
    Respond(Reply),
    /// End with this failure.
    Fail(AppError),
}

/// A [`TokenAction`] with its texts as sequences of characters.
pub enum TokenActionView {
    Fetch(UpstreamRequestView),
    LoadKey,
    Respond(ReplyView),
    Fail(AppErrorView),
}

impl View for TokenAction {
    type V = TokenActionView;

    open spec fn view(&self) -> TokenActionView {
        match self {
            TokenAction::Fetch(request) => TokenActionView::Fetch(request@),
            TokenAction::LoadKey => TokenActionView::LoadKey,
            TokenAction::Respond(reply) => TokenActionView::Respond(reply@),
            TokenAction::Fail(failure) => TokenActionView::Fail(failure@),
        }
    }
}

/// The parameters with which the code is exchanged, in order. The verifier
/// of the proof key follows only where the form has it.
pub open spec fn token_params(config: ConfigView, code: Seq<char>, verifier: Option<Seq<char>>) -> Seq<
    (Seq<char>, Seq<char>),
> {
    seq![
        ("client_id"@, config.client_id),
        ("client_secret"@, config.client_secret),
        ("redirect_uri"@, config.redirect_url),
        ("code"@, code),
        ("grant_type"@, "authorization_code"@),
        ("scope"@, "identify email"@),
    ] + match verifier {
        Some(value) => seq![("code_verifier"@, value)],
        None => Seq::empty(),
    }
}

/// The request that exchanges the code: a form posted to the token endpoint
/// of the upstream provider.
pub open spec fn token_request_view(config: ConfigView, code: Seq<char>, verifier: Option<Seq<char>>) -> UpstreamRequestView {
    UpstreamRequestView {
        method: Method::Post,
        url: api_base_text() + "/oauth2/token"@,
        headers: seq![("Content-Type"@, "application/x-www-form-urlencoded"@)],
        body: Some(form_urlencoded_text(token_params(config, code, verifier))),
    }
}

/// The request that reads `endpoint` of the upstream provider with the
/// access token as bearer credential.
pub open spec fn discord_get_view(endpoint: Seq<char>, access_token: Seq<char>) -> UpstreamRequestView {
    UpstreamRequestView {
        method: Method::Get,
        url: api_base_text() + endpoint,
        headers: seq![("Authorization"@, "Bearer "@ + access_token)],
        body: None,
    }
}

/// The body of the answer to a successful exchange.
pub open spec fn token_reply_view(token: DiscordTokenResponseView, id_token: Seq<char>) -> TokenReplyView {
    TokenReplyView {
        access_token: token.access_token,
        token_type: token.token_type,
        expires_in: token.expires_in,
        refresh_token: token.refresh_token,
        scope: "identify email"@,
        id_token,
    }
}

/// The groups that an exchange goes on with: those that were fetched, or
/// none where they could not be fetched.
pub open spec fn tolerated_guilds(sent: Result<FetchedView<Seq<DiscordGuild>>, Seq<char>>) -> Seq<
    DiscordGuild,
> {
    match fetch_outcome(sent) {
        Ok(guilds) => guilds,
        Err(_) => Seq::empty(),
    }
}

/// The end of an exchange with a failure.
pub open spec fn failed(failure: AppErrorView) -> (TokenStateView, TokenActionView) {
    (TokenStateView::Done, TokenActionView::Fail(failure))
}

/// The end of an exchange that turns the caller away.
pub open spec fn turned_away(message: Seq<char>) -> (TokenStateView, TokenActionView) {
    (TokenStateView::Done, TokenActionView::Respond(ReplyView::BadRequest(message)))
}

/// The end of an exchange, given the outcome of signing.
pub open spec fn answered(token: DiscordTokenResponseView, signed: Result<Seq<char>, AppErrorView>) -> (
    TokenStateView,
    TokenActionView,
) {
    match signed {
        Err(failure) => failed(failure),
        Ok(id_token) => (
            TokenStateView::Done,
            TokenActionView::Respond(ReplyView::Token(token_reply_view(token, id_token))),
        ),
    }
}

/// The step of an exchange: the state in which it goes on and the action
/// that it wants done, for the state in which it is and the event of which
/// it learns.
///
/// 1. A form that could not be read is a validation failure. A form without
///    a code, or with an empty one, is turned away, and nothing is asked of
///    the upstream provider. Otherwise the code is exchanged.
/// 2. If the code was exchanged, the profile is asked for with the access
///    token. Otherwise the exchange fails.
/// 3. If the profile came and is verified, the groups are asked for. An
///    unverified profile is turned away. Without a profile the exchange
///    fails.
/// 4. Whether the groups came or not, the claims are made, without groups
///    where they did not come, and the signing key is asked for.
/// 5. With the key the claims are signed, and the exchange is answered with
///    what the upstream provider returned for the code, the scope replaced,
///    and the signed token. Without the key, or if signing fails, the
///    exchange fails.
///
/// An event for which the state has no use ends the exchange with an
/// internal failure.
pub open spec fn token_step(config: ConfigView, state: TokenStateView, event: TokenEventView) -> (
    TokenStateView,
    TokenActionView,
) {
    match (state, event) {
        (TokenStateView::Start, TokenEventView::Form(Err(detail))) => failed(
            AppErrorView::Validation(detail),
        ),
        (TokenStateView::Start, TokenEventView::Form(Ok(form))) => match field_text(form.code) {
            Some(code) => if code.len() > 0 {
                (
                    TokenStateView::AwaitingToken,
                    TokenActionView::Fetch(
                        token_request_view(config, code, field_text(form.code_verifier)),
                    ),
                )
            } else {
                turned_away("Missing code."@)
            },
            None => turned_away("Missing code."@),
        },
        (TokenStateView::AwaitingToken, TokenEventView::Token(sent)) => match fetch_outcome(sent) {
            Err(failure) => failed(failure),
            Ok(token) => (
                TokenStateView::AwaitingProfile { token },
                TokenActionView::Fetch(discord_get_view("/users/@me"@, token.access_token)),
            ),
        },
        (TokenStateView::AwaitingProfile { token }, TokenEventView::Profile(sent)) => match fetch_outcome(
            sent,
        ) {
            Err(failure) => failed(failure),
            Ok(user) => if user.is_verified() {
                (
                    TokenStateView::AwaitingGuilds { token, user },
                    TokenActionView::Fetch(discord_get_view("/users/@me/guilds"@, token.access_token)),
                )
            } else {
                turned_away("User not verified."@)
            },
        },
        (TokenStateView::AwaitingGuilds { token, user }, TokenEventView::Guilds { sent, now }) => (
            TokenStateView::AwaitingKey {
                token,
                claims: mapped_claims(
                    user,
                    tolerated_guilds(sent),
                    config.issuer,
                    config.client_id,
                    now,
                ),
            },
            TokenActionView::LoadKey,
        ),
        (TokenStateView::AwaitingKey { token, claims }, TokenEventView::Key(Err(failure))) => failed(
            failure,
        ),
        (TokenStateView::AwaitingKey { token, claims }, TokenEventView::Key(Ok(key))) => answered(
            token,
            signed_token(key, claims),
        ),
        _ => failed(AppErrorView::Unexpected(OUT_OF_ORDER@)),
    }
}

/// Lists the parameters with which the code is exchanged.
pub fn build_token_params(config: &Config, code: &str, verifier: &Option<String>) -> (params: Vec<
    (String, String),
>)
    ensures
        params.deep_view() == token_params(config@, code@, opt_text(*verifier)),
{
    let mut params: Vec<(String, String)> = Vec::new();
    params.push(pair("client_id", config.client_id.as_str()));
    params.push(pair("client_secret", config.client_secret.as_str()));
    params.push(pair("redirect_uri", config.redirect_url.as_str()));
    params.push(pair("code", code));
    params.push(pair("grant_type", "authorization_code"));
    params.push(pair("scope", "identify email"));
    match verifier {
        Some(value) => {
            params.push(pair("code_verifier", value.as_str()));
        },
        None => {},
    }
    assert(params.deep_view() =~= token_params(config@, code@, opt_text(*verifier)));
    params
}

/// Makes the request that posts an encoded form to the token endpoint,
/// given the outcome of encoding the form.
pub fn post_form(encoded: Result<String, String>) -> (request: Result<UpstreamRequest, AppError>)
    ensures
        match encoded {
            Ok(body) => request matches Ok(made) && made@ == (UpstreamRequestView {
                method: Method::Post,
                url: api_base_text() + "/oauth2/token"@,
                headers: seq![("Content-Type"@, "application/x-www-form-urlencoded"@)],
                body: Some(body@),
            }),
            Err(detail) => request matches Err(e) && e@ == AppErrorView::Unexpected(detail@),
        },
{
    match encoded {
        Err(detail) => Err(AppError::Unexpected(detail)),
        Ok(body) => {
            let mut headers: Vec<(String, String)> = Vec::new();
            headers.push(pair("Content-Type", "application/x-www-form-urlencoded"));
            let request = UpstreamRequest {
                method: Method::Post,
                url: concat(Config::discord_api_base(), "/oauth2/token"),
                headers,
                body: Some(body),
            };
            assert(request@.headers =~= seq![
                ("Content-Type"@, "application/x-www-form-urlencoded"@),
            ]);
            Ok(request)
        },
    }
}

/// Makes the request that exchanges the code.
pub fn token_request(config: &Config, code: &str, verifier: &Option<String>) -> (request: Result<
    UpstreamRequest,
    AppError,
>)
    ensures
        request matches Ok(made) && made@ == token_request_view(
            config@,
            code@,
            opt_text(*verifier),
        ),
{
    let params = build_token_params(config, code, verifier);
    post_form(form_urlencode(&params))
}

/// Makes the request that reads `endpoint` of the upstream provider with
/// the access token as bearer credential.
pub fn discord_get(endpoint: &str, access_token: &str) -> (request: UpstreamRequest)
    ensures
        request@ == discord_get_view(endpoint@, access_token@),
{
    let mut headers: Vec<(String, String)> = Vec::new();
    let credential = concat("Bearer ", access_token);
    headers.push(pair("Authorization", credential.as_str()));
    let request = UpstreamRequest {
        method: Method::Get,
        url: concat(Config::discord_api_base(), endpoint),
        headers,
        body: None,
    };
    assert(request@.headers =~= seq![("Authorization"@, "Bearer "@ + access_token@)]);
    request
}

/// The text of a form entry if there is one and it is a text field.
pub fn field_value(entry: Option<FormEntry>) -> (value: Option<String>)
    ensures
        opt_text(value) == field_text(entry.deep_view()),
{
    match entry {
        Some(FormEntry::Field(value)) => Some(value),
        _ => None,
    }
}

/// Makes the body of the answer to a successful exchange.
pub fn token_reply(token: DiscordTokenResponse, id_token: String) -> (reply: TokenReply)
    ensures
        reply@ == token_reply_view(token@, id_token@),
{
    TokenReply {
        access_token: token.access_token,
        token_type: token.token_type,
        expires_in: token.expires_in,
        refresh_token: token.refresh_token,
        scope: String::from_str("identify email"),
        id_token,
    }
}

/// Ends the exchange, given the outcome of signing.
pub fn answer(token: DiscordTokenResponse, signed: Result<String, AppError>) -> (step: (
    TokenState,
    TokenAction,
))
    ensures
        (step.0@, step.1@) == answered(
            token@,
            match signed {
                Ok(id_token) => Ok(id_token@),
                Err(failure) => Err(failure@),
            },
        ),
{
    match signed {
        Err(failure) => (TokenState::Done, TokenAction::Fail(failure)),
        Ok(id_token) => (
            TokenState::Done,
            TokenAction::Respond(Reply::Token(token_reply(token, id_token))),
        ),
    }
}

fn fail(failure: AppError) -> (step: (TokenState, TokenAction))
    ensures
        (step.0@, step.1@) == failed(failure@),
{
    (TokenState::Done, TokenAction::Fail(failure))
}

fn turn_away(message: &str) -> (step: (TokenState, TokenAction))
    ensures
        (step.0@, step.1@) == turned_away(message@),
{
    (TokenState::Done, TokenAction::Respond(Reply::BadRequest(String::from_str(message))))
}

fn start(config: &Config, form: Result<TokenForm, String>) -> (step: (TokenState, TokenAction))
    ensures
        (step.0@, step.1@) == token_step(
            config@,
            TokenStateView::Start,
            (TokenEvent::Form(form))@,
        ),
{
    match form {
        Err(detail) => fail(AppError::Validation(detail)),
        Ok(form) => {
            let verifier = field_value(form.code_verifier);
            match field_value(form.code) {
                Some(code) => {
                    if code.as_str().is_empty() {
                        turn_away("Missing code.")
                    } else {
                        match token_request(config, code.as_str(), &verifier) {
                            Ok(request) => (TokenState::AwaitingToken, TokenAction::Fetch(request)),
                            Err(failure) => fail(failure),
                        }
                    }
                },
                None => turn_away("Missing code."),
            }
        },
    }
}

/// One step of the exchange, as [`token_step`] says.
///
/// The exchange starts in [`TokenState::Start`] with the submitted form,
/// performs each action that asks for a request or for the signing key, and
/// hands the outcome back as the next event, until the action is
/// [`TokenAction::Respond`] or [`TokenAction::Fail`]. The time of the event
/// that carries one must leave room for the lifetime of a token.
pub fn token_handler(config: &Config, state: TokenState, event: TokenEvent) -> (step: (
    TokenState,
    TokenAction,
))
    requires
        event@.in_range(),
    ensures
        (step.0@, step.1@) == token_step(config@, state@, event@),
{
    match (state, event) {
        (TokenState::Start, TokenEvent::Form(form)) => start(config, form),
        (TokenState::AwaitingToken, TokenEvent::Token(sent)) => {
            match fetch_discord_data(sent) {
                Err(failure) => fail(failure),
                Ok(token) => {
                    let request = discord_get("/users/@me", token.access_token.as_str());
                    (TokenState::AwaitingProfile { token }, TokenAction::Fetch(request))
                },
            }
        },
        (TokenState::AwaitingProfile { token }, TokenEvent::Profile(sent)) => {
            match fetch_discord_data(sent) {
                Err(failure) => fail(failure),
                Ok(user) => {
                    if user.is_verified() {
                        let request = discord_get("/users/@me/guilds", token.access_token.as_str());
                        (TokenState::AwaitingGuilds { token, user }, TokenAction::Fetch(request))
                    } else {
                        turn_away("User not verified.")
                    }
                },
            }
        },
        (TokenState::AwaitingGuilds { token, user }, TokenEvent::Guilds { sent, now }) => {
            let guilds = match fetch_discord_data(sent) {
                Ok(guilds) => guilds,
                Err(_) => Vec::new(),
            };
            let claims = map_claims(
                &user,
                &guilds,
                config.issuer.as_str(),
                config.client_id.as_str(),
                now,
            );
            (TokenState::AwaitingKey { token, claims }, TokenAction::LoadKey)
        },
        (TokenState::AwaitingKey { token, claims }, TokenEvent::Key(key)) => {
            match key {
                Err(failure) => fail(failure),
                Ok(loaded) => answer(token, generate_jwt_with_key(&loaded, claims)),
            }
        },
        _ => fail(AppError::Unexpected(String::from_str(OUT_OF_ORDER))),
    }
}

/// An exchange whose profile came without the provider's word that it is
/// verified, be it that the profile says it is not or that it does not
/// say, is turned away with status 400. The exchange is over then: no key
/// is asked for, no token is signed, and whatever event follows only fails.
pub proof fn unverified_profile_is_turned_away(
    config: ConfigView,
    token: DiscordTokenResponseView,
    sent: Result<FetchedView<DiscordUserInfoView>, Seq<char>>,
    later: TokenEventView,
)
    requires
        fetch_outcome(sent) matches Ok(user) && user.verified != Some(true),
    ensures
        token_step(config, TokenStateView::AwaitingProfile { token }, TokenEventView::Profile(sent))
            == turned_away("User not verified."@),
        turned_away("User not verified."@).1 matches TokenActionView::Respond(reply) && reply.status()
            == 400 && !(reply is Token),
        token_step(config, turned_away("User not verified."@).0, later).1 is Fail,
{
}

/// An exchange whose groups could not be fetched goes on all the same: its
/// claims are those of the profile with an empty list of groups, and with
/// the key and a signature it is answered like any other.
pub proof fn failed_groups_are_tolerated(
    config: ConfigView,
    token: DiscordTokenResponseView,
    user: DiscordUserInfoView,
    sent: Result<FetchedView<Seq<DiscordGuild>>, Seq<char>>,
    now: usize,
    key: RsaPrivateKey,
)
    requires
        fetch_outcome(sent) is Err,
    ensures
        ({
            let claims = mapped_claims(
                user,
                Seq::<DiscordGuild>::empty(),
                config.issuer,
                config.client_id,
                now,
            );
            &&& token_step(
                config,
                TokenStateView::AwaitingGuilds { token, user },
                TokenEventView::Guilds { sent, now },
            ) == (TokenStateView::AwaitingKey { token, claims }, TokenActionView::LoadKey)
            &&& claims.guilds == Seq::<Seq<char>>::empty()
            &&& signed_token(key, claims) matches Ok(id_token) ==> token_step(
                config,
                TokenStateView::AwaitingKey { token, claims },
                TokenEventView::Key(Ok(key)),
            ) == (
                TokenStateView::Done,
                TokenActionView::Respond(ReplyView::Token(token_reply_view(token, id_token))),
            )
        }),
{
    let claims = mapped_claims(user, Seq::<DiscordGuild>::empty(), config.issuer, config.client_id, now);
    assert(claims.guilds =~= Seq::<Seq<char>>::empty());
}

} // verus!
