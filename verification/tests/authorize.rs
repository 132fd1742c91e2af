use discord_oidc::config::Config;
use discord_oidc::error::AppError;
use discord_oidc::http::Reply;
use discord_oidc::routes::authorize::{
    authorize_handler, last_query_value, parse_query, redirect_to, scope_for, validate_scopemode,
};

fn config() -> Config {
    Config {
        client_id: "client".to_string(),
        client_secret: "secret".to_string(),
        redirect_url: "https://app.example/callback".to_string(),
        issuer: "https://cloudflare.com".to_string(),
    }
}

fn query(pairs: &[(&str, &str)]) -> Result<Vec<(String, String)>, String> {
    Ok(pairs.iter().map(|(name, value)| (name.to_string(), value.to_string())).collect())
}

fn matching(extra: &[(&str, &str)]) -> Result<Vec<(String, String)>, String> {
    let mut pairs = vec![("client_id", "client"), ("redirect_uri", "https://app.example/callback")];
    pairs.extend_from_slice(extra);
    query(&pairs)
}

const PREFIX: &str = "https://discord.com/oauth2/authorize?client_id=client&redirect_uri=https%3A%2F%2Fapp.example%2Fcallback&response_type=code";

#[test]
fn guilds_mode_asks_for_the_guilds_scope() {
    let reply = authorize_handler(Some("guilds".to_string()), matching(&[]), &config());
    assert_eq!(
        reply,
        Ok(Reply::Redirect(format!("{}&scope=identify+email+guilds&state=&prompt=none", PREFIX)))
    );
    assert_eq!(reply.unwrap().status(), 302);
}

#[test]
fn email_mode_asks_for_the_email_scope() {
    let reply = authorize_handler(Some("email".to_string()), matching(&[("state", "xyz")]), &config());
    assert_eq!(
        reply,
        Ok(Reply::Redirect(format!("{}&scope=identify+email&state=xyz&prompt=none", PREFIX)))
    );
}

#[test]
fn other_scope_mode_is_turned_away() {
    for mode in [Some("admin"), Some(""), Some("Guilds"), Some("guilds "), None] {
        let reply = authorize_handler(mode.map(|m| m.to_string()), matching(&[]), &config());
        assert_eq!(reply, Ok(Reply::BadRequest("Invalid scopemode".to_string())));
        assert_eq!(reply.unwrap().status(), 400);
    }
}

#[test]
fn scope_mode_is_judged_before_the_address() {
    let unreadable = Err("relative URL without a base".to_string());
    assert_eq!(
        authorize_handler(Some("admin".to_string()), unreadable.clone(), &config()),
        Ok(Reply::BadRequest("Invalid scopemode".to_string()))
    );
    assert_eq!(
        authorize_handler(Some("email".to_string()), unreadable, &config()),
        Err(AppError::Unexpected("relative URL without a base".to_string()))
    );
}

#[test]
fn other_client_is_turned_away() {
    let other = query(&[("client_id", "other"), ("redirect_uri", "https://app.example/callback")]);
    assert_eq!(
        authorize_handler(Some("guilds".to_string()), other.clone(), &config()),
        Ok(Reply::BadRequest("Bad request".to_string()))
    );
    let missing = query(&[("redirect_uri", "https://app.example/callback")]);
    assert_eq!(
        authorize_handler(Some("email".to_string()), missing, &config()),
        Ok(Reply::BadRequest("Bad request".to_string()))
    );
    assert_eq!(
        authorize_handler(Some("neither".to_string()), other, &config()),
        Ok(Reply::BadRequest("Invalid scopemode".to_string()))
    );
}

#[test]
fn other_redirect_address_is_turned_away() {
    for address in ["https://evil.example/callback", "https://app.example/callback/", ""] {
        let other = query(&[("client_id", "client"), ("redirect_uri", address)]);
        assert_eq!(
            authorize_handler(Some("guilds".to_string()), other, &config()),
            Ok(Reply::BadRequest("Bad request".to_string()))
        );
    }
    let missing = query(&[("client_id", "client")]);
    assert_eq!(
        authorize_handler(Some("guilds".to_string()), missing, &config()),
        Ok(Reply::BadRequest("Bad request".to_string()))
    );
}

#[test]
fn last_occurrence_of_a_parameter_counts() {
    let twice = query(&[
        ("client_id", "other"),
        ("client_id", "client"),
        ("redirect_uri", "https://app.example/callback"),
        ("state", "first"),
        ("state", "second"),
    ]);
    assert_eq!(
        authorize_handler(Some("email".to_string()), twice, &config()),
        Ok(Reply::Redirect(format!("{}&scope=identify+email&state=second&prompt=none", PREFIX)))
    );
    let pairs = query(&[("a", "1"), ("b", "2"), ("a", "3")]).unwrap();
    assert_eq!(last_query_value(&pairs, "a"), Some("3".to_string()));
    assert_eq!(last_query_value(&pairs, "b"), Some("2".to_string()));
    assert_eq!(last_query_value(&pairs, "c"), None);
    assert_eq!(last_query_value(&Vec::new(), "a"), None);
}

#[test]
fn proof_key_is_passed_through() {
    let both = matching(&[
        ("code_challenge", "E9Melhoa2OwvFrEMTJguCHaoeK1t8URWbuGJSstw-cM"),
        ("code_challenge_method", "S256"),
    ]);
    assert_eq!(
        authorize_handler(Some("email".to_string()), both, &config()),
        Ok(Reply::Redirect(format!(
            "{}&scope=identify+email&state=&prompt=none&code_challenge=E9Melhoa2OwvFrEMTJguCHaoeK1t8URWbuGJSstw-cM&code_challenge_method=S256",
            PREFIX
        )))
    );
    let method_only = matching(&[("code_challenge_method", "plain")]);
    assert_eq!(
        authorize_handler(Some("email".to_string()), method_only, &config()),
        Ok(Reply::Redirect(format!(
            "{}&scope=identify+email&state=&prompt=none&code_challenge_method=plain",
            PREFIX
        )))
    );
    let empty_challenge = matching(&[("code_challenge", "")]);
    assert_eq!(
        authorize_handler(Some("email".to_string()), empty_challenge, &config()),
        Ok(Reply::Redirect(format!("{}&scope=identify+email&state=&prompt=none&code_challenge=", PREFIX)))
    );
}

#[test]
fn absent_proof_key_leaves_no_parameter() {
    let reply = authorize_handler(Some("guilds".to_string()), matching(&[("state", "s")]), &config());
    match reply {
        Ok(Reply::Redirect(location)) => {
            assert!(!location.contains("code_challenge"));
            assert!(location.ends_with("&state=s&prompt=none"));
        }
        other => panic!("no redirect: {:?}", other),
    }
}

#[test]
fn parameters_are_form_encoded() {
    let reply = authorize_handler(
        Some("email".to_string()),
        matching(&[("state", "a b&c=d/é")]),
        &config(),
    );
    assert_eq!(
        reply,
        Ok(Reply::Redirect(format!(
            "{}&scope=identify+email&state=a+b%26c%3Dd%2F%C3%A9&prompt=none",
            PREFIX
        )))
    );
}

#[test]
fn query_is_read_into_a_request() {
    let pairs = query(&[("state", "s"), ("code_challenge", "c"), ("unknown", "u")]).unwrap();
    let request = parse_query(&pairs);
    assert_eq!(request.client_id, "");
    assert_eq!(request.redirect_uri, "");
    assert_eq!(request.state, "s");
    assert_eq!(request.code_challenge, Some("c".to_string()));
    assert_eq!(request.code_challenge_method, None);
}

#[test]
fn scope_follows_the_mode() {
    assert!(validate_scopemode("guilds"));
    assert!(validate_scopemode("email"));
    assert!(!validate_scopemode("identify"));
    assert_eq!(scope_for("guilds"), "identify email guilds");
    assert_eq!(scope_for("email"), "identify email");
}

#[test]
fn failed_encoding_is_an_internal_failure() {
    assert_eq!(
        redirect_to(Err("unsupported pair".to_string())),
        Err(AppError::Unexpected("unsupported pair".to_string()))
    );
    assert_eq!(
        redirect_to(Ok("a=b".to_string())),
        Ok(Reply::Redirect("https://discord.com/oauth2/authorize?a=b".to_string()))
    );
}
