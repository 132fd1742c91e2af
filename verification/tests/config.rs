use discord_oidc::config::Config;
use discord_oidc::error::AppError;

#[test]
fn scope_modes_are_guilds_and_email() {
    assert_eq!(Config::valid_scopemodes(), &["guilds", "email"]);
}

#[test]
fn api_base_is_version_ten() {
    assert_eq!(Config::discord_api_base(), "https://discord.com/api/v10");
}

#[test]
fn config_takes_the_three_settings_and_fixes_the_issuer() {
    let config = Config::from_env::<String>(
        Ok("client".to_string()),
        Ok("secret".to_string()),
        Ok("https://app.example/callback".to_string()),
    )
    .unwrap();
    assert_eq!(config.client_id, "client");
    assert_eq!(config.client_secret, "secret");
    assert_eq!(config.redirect_url, "https://app.example/callback");
    assert_eq!(config.issuer, "https://cloudflare.com");
}

#[test]
fn config_fails_with_the_first_setting_that_is_missing() {
    let missing_secret = Config::from_env(
        Ok("client".to_string()),
        Err("no secret".to_string()),
        Err("no redirect".to_string()),
    );
    assert_eq!(missing_secret, Err("no secret".to_string()));
    let missing_client = Config::from_env(
        Err("no client".to_string()),
        Err("no secret".to_string()),
        Ok("https://app.example/callback".to_string()),
    );
    assert_eq!(missing_client, Err("no client".to_string()));
    let missing_redirect =
        Config::from_env(Ok("client".to_string()), Ok("secret".to_string()), Err(7u8));
    assert_eq!(missing_redirect, Err(7u8));
}

#[test]
fn error_text_names_the_kind() {
    assert_eq!(AppError::DiscordApi("down".to_string()).to_string(), "Discord API error: down");
    assert_eq!(AppError::Jwt("bad key".to_string()).to_string(), "JWT error: bad key");
    assert_eq!(AppError::Validation("no form".to_string()).to_string(), "Validation error: no form");
    assert_eq!(AppError::Keygen("no entropy".to_string()).to_string(), "Key generation error: no entropy");
    assert_eq!(AppError::Unexpected("kv".to_string()).to_string(), "Unexpected error: kv");
    assert_eq!(AppError::Unexpected(String::new()).to_string(), "Unexpected error: ");
}
