use discord_oidc::config::Config;
use discord_oidc::discord::models::{DiscordGuild, DiscordTokenResponse, DiscordUserInfo};
use discord_oidc::error::AppError;
use discord_oidc::http::{Fetched, FormEntry, Method, Reply, UpstreamRequest};
use discord_oidc::jwt::claims::map_claims;
use discord_oidc::routes::token::{
    answer, discord_get, field_value, post_form, token_handler, token_request, TokenAction,
    TokenEvent, TokenForm, TokenReply, TokenState,
};
use rand::SeedableRng;

fn config() -> Config {
    Config {
        client_id: "client".to_string(),
        client_secret: "secret".to_string(),
        redirect_url: "https://app.example/callback".to_string(),
        issuer: "https://cloudflare.com".to_string(),
    }
}

fn upstream_token() -> DiscordTokenResponse {
    DiscordTokenResponse {
        access_token: "access".to_string(),
        token_type: "Bearer".to_string(),
        expires_in: 604800,
        refresh_token: "refresh".to_string(),
        scope: "identify email guilds".to_string(),
    }
}

fn profile(verified: Option<bool>) -> DiscordUserInfo {
    DiscordUserInfo {
        id: "80351110224678912".to_string(),
        username: "name".to_string(),
        discriminator: "0".to_string(),
        email: Some("name@example.com".to_string()),
        verified,
        global_name: Some("Display Name".to_string()),
    }
}

fn form(code: Option<&str>, verifier: Option<&str>) -> TokenEvent {
    TokenEvent::Form(Ok(TokenForm {
        code: code.map(|c| FormEntry::Field(c.to_string())),
        code_verifier: verifier.map(|v| FormEntry::Field(v.to_string())),
    }))
}

fn get(url: &str) -> UpstreamRequest {
    UpstreamRequest {
        method: Method::Get,
        url: url.to_string(),
        headers: vec![("Authorization".to_string(), "Bearer access".to_string())],
        body: None,
    }
}

fn missing_code() -> (TokenState, TokenAction) {
    (TokenState::Done, TokenAction::Respond(Reply::BadRequest("Missing code.".to_string())))
}

#[test]
fn code_is_posted_to_the_token_endpoint() {
    let step = token_handler(&config(), TokenState::Start, form(Some("abc/123"), None));
    let request = UpstreamRequest {
        method: Method::Post,
        url: "https://discord.com/api/v10/oauth2/token".to_string(),
        headers: vec![("Content-Type".to_string(), "application/x-www-form-urlencoded".to_string())],
        body: Some(
            "client_id=client&client_secret=secret&redirect_uri=https%3A%2F%2Fapp.example%2Fcallback&code=abc%2F123&grant_type=authorization_code&scope=identify+email"
                .to_string(),
        ),
    };
    assert_eq!(step, (TokenState::AwaitingToken, TokenAction::Fetch(request)));
}

#[test]
fn verifier_follows_the_code_where_the_form_has_it() {
    let step = token_handler(&config(), TokenState::Start, form(Some("abc"), Some("verifier~1")));
    match step.1 {
        TokenAction::Fetch(request) => assert_eq!(
            request.body,
            Some(
                "client_id=client&client_secret=secret&redirect_uri=https%3A%2F%2Fapp.example%2Fcallback&code=abc&grant_type=authorization_code&scope=identify+email&code_verifier=verifier%7E1"
                    .to_string()
            )
        ),
        other => panic!("no request: {:?}", other),
    }
    let empty = token_request(&config(), "abc", &Some(String::new())).unwrap();
    assert!(empty.body.unwrap().ends_with("&scope=identify+email&code_verifier="));
}

#[test]
fn missing_or_empty_code_is_turned_away() {
    assert_eq!(token_handler(&config(), TokenState::Start, form(None, Some("v"))), missing_code());
    assert_eq!(token_handler(&config(), TokenState::Start, form(Some(""), None)), missing_code());
    let file = TokenEvent::Form(Ok(TokenForm { code: Some(FormEntry::File), code_verifier: None }));
    assert_eq!(token_handler(&config(), TokenState::Start, file), missing_code());
    assert_eq!(missing_code().1, TokenAction::Respond(Reply::BadRequest("Missing code.".to_string())));
    assert_eq!(field_value(Some(FormEntry::File)), None);
    assert_eq!(field_value(Some(FormEntry::Field("x".to_string()))), Some("x".to_string()));
    assert_eq!(field_value(None), None);
}

#[test]
fn unreadable_form_is_a_validation_failure() {
    let step = token_handler(&config(), TokenState::Start, TokenEvent::Form(Err("no body".to_string())));
    assert_eq!(step, (TokenState::Done, TokenAction::Fail(AppError::Validation("no body".to_string()))));
}

#[test]
fn profile_is_fetched_with_the_access_token() {
    let sent = Ok(Fetched { status: 200, body: Ok(upstream_token()) });
    let step = token_handler(&config(), TokenState::AwaitingToken, TokenEvent::Token(sent));
    assert_eq!(
        step,
        (
            TokenState::AwaitingProfile { token: upstream_token() },
            TokenAction::Fetch(get("https://discord.com/api/v10/users/@me"))
        )
    );
    assert_eq!(discord_get("/users/@me", "access"), get("https://discord.com/api/v10/users/@me"));
}

#[test]
fn failed_code_exchange_ends_the_exchange() {
    let refused = Ok(Fetched { status: 400, body: Err("unused".to_string()) });
    assert_eq!(
        token_handler(&config(), TokenState::AwaitingToken, TokenEvent::Token(refused)),
        (
            TokenState::Done,
            TokenAction::Fail(AppError::DiscordApi("Discord API error: status 400".to_string()))
        )
    );
    let garbled = Ok(Fetched { status: 200, body: Err("expected value".to_string()) });
    assert_eq!(
        token_handler(&config(), TokenState::AwaitingToken, TokenEvent::Token(garbled)),
        (TokenState::Done, TokenAction::Fail(AppError::DiscordApi("Invalid JSON: expected value".to_string())))
    );
    let unsent = Err("network".to_string());
    assert_eq!(
        token_handler(&config(), TokenState::AwaitingToken, TokenEvent::Token(unsent)),
        (TokenState::Done, TokenAction::Fail(AppError::DiscordApi("network".to_string())))
    );
}

#[test]
fn groups_are_fetched_for_a_verified_profile() {
    let sent = Ok(Fetched { status: 200, body: Ok(profile(Some(true))) });
    let state = TokenState::AwaitingProfile { token: upstream_token() };
    assert_eq!(
        token_handler(&config(), state, TokenEvent::Profile(sent)),
        (
            TokenState::AwaitingGuilds { token: upstream_token(), user: profile(Some(true)) },
            TokenAction::Fetch(get("https://discord.com/api/v10/users/@me/guilds"))
        )
    );
}

#[test]
fn unverified_profile_is_turned_away() {
    for verified in [Some(false), None] {
        let sent = Ok(Fetched { status: 200, body: Ok(profile(verified)) });
        let state = TokenState::AwaitingProfile { token: upstream_token() };
        let step = token_handler(&config(), state, TokenEvent::Profile(sent));
        assert_eq!(
            step,
            (TokenState::Done, TokenAction::Respond(Reply::BadRequest("User not verified.".to_string())))
        );
        if let TokenAction::Respond(reply) = step.1 {
            assert_eq!(reply.status(), 400);
        }
    }
}

#[test]
fn failed_profile_fetch_ends_the_exchange() {
    let sent = Ok(Fetched { status: 401, body: Err("unused".to_string()) });
    let state = TokenState::AwaitingProfile { token: upstream_token() };
    assert_eq!(
        token_handler(&config(), state, TokenEvent::Profile(sent)),
        (
            TokenState::Done,
            TokenAction::Fail(AppError::DiscordApi("Discord API error: status 401".to_string()))
        )
    );
}

#[test]
fn claims_name_the_groups_that_came() {
    let guilds = vec![DiscordGuild { id: "g1".to_string() }, DiscordGuild { id: "g2".to_string() }];
    let sent = Ok(Fetched { status: 200, body: Ok(guilds.clone()) });
    let state = TokenState::AwaitingGuilds { token: upstream_token(), user: profile(Some(true)) };
    let step = token_handler(&config(), state, TokenEvent::Guilds { sent, now: 1_700_000_000 });
    let claims =
        map_claims(&profile(Some(true)), &guilds, "https://cloudflare.com", "client", 1_700_000_000);
    assert_eq!(claims.guilds, vec!["g1".to_string(), "g2".to_string()]);
    assert_eq!(claims.exp, 1_700_003_600);
    assert_eq!(claims.aud, "client");
    assert_eq!(claims.iss, "https://cloudflare.com");
    assert_eq!(step, (TokenState::AwaitingKey { token: upstream_token(), claims }, TokenAction::LoadKey));
}

#[test]
fn failed_groups_fetch_leaves_the_groups_empty() {
    let failures: Vec<Result<Fetched<Vec<DiscordGuild>>, String>> = vec![
        Err("network".to_string()),
        Ok(Fetched { status: 429, body: Ok(vec![DiscordGuild { id: "ignored".to_string() }]) }),
        Ok(Fetched { status: 200, body: Err("expected a sequence".to_string()) }),
    ];
    for sent in failures {
        let state = TokenState::AwaitingGuilds { token: upstream_token(), user: profile(Some(true)) };
        let (state, action) = token_handler(&config(), state, TokenEvent::Guilds { sent, now: 50 });
        assert_eq!(action, TokenAction::LoadKey);
        match state {
            TokenState::AwaitingKey { token, claims } => {
                assert_eq!(token, upstream_token());
                assert_eq!(claims.guilds, Vec::<String>::new());
                assert_eq!(claims.sub, "80351110224678912");
                assert_eq!(claims.exp, 3650);
            }
            other => panic!("exchange did not go on: {:?}", other),
        }
    }
}

#[test]
fn time_must_leave_room_for_the_lifetime() {
    let early = TokenEvent::Guilds { sent: Err("x".to_string()), now: usize::MAX - 3600 };
    assert!(early.in_range());
    let late = TokenEvent::Guilds { sent: Err("x".to_string()), now: usize::MAX - 3599 };
    assert!(!late.in_range());
    assert!(form(None, None).in_range());
}

#[test]
fn missing_key_ends_the_exchange() {
    let claims = map_claims(&profile(Some(true)), &Vec::new(), "https://cloudflare.com", "client", 0);
    let state = TokenState::AwaitingKey { token: upstream_token(), claims };
    let step = token_handler(
        &config(),
        state,
        TokenEvent::Key(Err(AppError::Keygen("bad label".to_string()))),
    );
    assert_eq!(step, (TokenState::Done, TokenAction::Fail(AppError::Keygen("bad label".to_string()))));
}

#[test]
fn exchange_is_answered_with_the_signed_token() {
    let mut rng = rand::rngs::StdRng::seed_from_u64(5);
    let key = rsa::RsaPrivateKey::new(&mut rng, 2048).unwrap();
    let claims = map_claims(&profile(Some(true)), &Vec::new(), "https://cloudflare.com", "client", 100);
    let id_token = discord_oidc::jwt::signer::generate_jwt_with_key(&key, claims.clone()).unwrap();
    let state = TokenState::AwaitingKey { token: upstream_token(), claims };
    let step = token_handler(&config(), state, TokenEvent::Key(Ok(key)));
    let reply = TokenReply {
        access_token: "access".to_string(),
        token_type: "Bearer".to_string(),
        expires_in: 604800,
        refresh_token: "refresh".to_string(),
        scope: "identify email".to_string(),
        id_token,
    };
    assert_eq!(reply.id_token.split('.').count(), 3);
    assert_eq!(step, (TokenState::Done, TokenAction::Respond(Reply::Token(reply.clone()))));
    assert_eq!(Reply::Token(reply).status(), 200);
}

#[test]
fn exchange_without_groups_runs_to_its_answer() {
    let config = config();
    let (state, action) = token_handler(&config, TokenState::Start, form(Some("abc"), None));
    assert!(matches!(action, TokenAction::Fetch(_)));

    let sent = Ok(Fetched { status: 200, body: Ok(upstream_token()) });
    let (state, action) = token_handler(&config, state, TokenEvent::Token(sent));
    assert_eq!(action, TokenAction::Fetch(get("https://discord.com/api/v10/users/@me")));

    let sent = Ok(Fetched { status: 200, body: Ok(profile(Some(true))) });
    let (state, action) = token_handler(&config, state, TokenEvent::Profile(sent));
    assert_eq!(action, TokenAction::Fetch(get("https://discord.com/api/v10/users/@me/guilds")));

    let issued = std::time::SystemTime::now()
        .duration_since(std::time::UNIX_EPOCH)
        .unwrap()
        .as_secs() as usize;
    let sent = Ok(Fetched { status: 500, body: Err("unused".to_string()) });
    let (state, action) = token_handler(&config, state, TokenEvent::Guilds { sent, now: issued });
    assert_eq!(action, TokenAction::LoadKey);

    let mut rng = rand::rngs::StdRng::seed_from_u64(5);
    let key = rsa::RsaPrivateKey::new(&mut rng, 2048).unwrap();
    let published = discord_oidc::routes::jwks::published_keys(&key);
    let (state, action) = token_handler(&config, state, TokenEvent::Key(Ok(key)));
    assert_eq!(state, TokenState::Done);
    let reply = match action {
        TokenAction::Respond(Reply::Token(reply)) => reply,
        other => panic!("no answer: {:?}", other),
    };
    assert_eq!(reply.access_token, "access");
    assert_eq!(reply.scope, "identify email");

    let decoding_key =
        jsonwebtoken::DecodingKey::from_rsa_components(&published.keys[0].n, &published.keys[0].e)
            .unwrap();
    let mut validation = jsonwebtoken::Validation::new(jsonwebtoken::Algorithm::RS256);
    validation.set_audience(&["client"]);
    validation.set_issuer(&["https://cloudflare.com"]);
    let decoded =
        jsonwebtoken::decode::<serde_json::Value>(&reply.id_token, &decoding_key, &validation).unwrap();
    assert_eq!(decoded.claims["guilds"], serde_json::Value::Array(Vec::new()));
    assert_eq!(decoded.claims["sub"], "80351110224678912");
    assert_eq!(decoded.claims["preferred_username"], "name");
    assert_eq!(decoded.claims["name"], "Display Name");
    assert_eq!(decoded.claims["exp"], (issued + 3600) as u64);
}

#[test]
fn signing_failure_ends_the_exchange() {
    assert_eq!(
        answer(upstream_token(), Err(AppError::Jwt("InvalidRsaKey".to_string()))),
        (TokenState::Done, TokenAction::Fail(AppError::Jwt("InvalidRsaKey".to_string())))
    );
    let answered = answer(upstream_token(), Ok("h.p.s".to_string()));
    match answered.1 {
        TokenAction::Respond(Reply::Token(reply)) => {
            assert_eq!(reply.scope, "identify email");
            assert_eq!(reply.id_token, "h.p.s");
            assert_eq!(reply.expires_in, 604800);
        }
        other => panic!("no answer: {:?}", other),
    }
}

#[test]
fn exchange_out_of_order_is_an_internal_failure() {
    let out_of_order =
        (TokenState::Done, TokenAction::Fail(AppError::Unexpected("event out of order".to_string())));
    assert_eq!(token_handler(&config(), TokenState::Done, form(Some("abc"), None)), out_of_order);
    assert_eq!(token_handler(&config(), TokenState::AwaitingToken, form(Some("abc"), None)), out_of_order);
    let sent = Ok(Fetched { status: 200, body: Ok(upstream_token()) });
    assert_eq!(token_handler(&config(), TokenState::Start, TokenEvent::Token(sent)), out_of_order);
}

#[test]
fn failed_form_encoding_is_an_internal_failure() {
    assert_eq!(
        post_form(Err("unsupported value".to_string())),
        Err(AppError::Unexpected("unsupported value".to_string()))
    );
}
