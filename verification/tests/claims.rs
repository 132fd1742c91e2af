use discord_oidc::discord::models::{DiscordGuild, DiscordUserInfo};
use discord_oidc::jwt::claims::{
    display_name, map_claims, preferred_username, ClaimValue, CustomClaims, ExtraClaims, TOKEN_TTL,
};

fn user(discriminator: &str, global_name: Option<&str>) -> DiscordUserInfo {
    DiscordUserInfo {
        id: "80351110224678912".to_string(),
        username: "name".to_string(),
        discriminator: discriminator.to_string(),
        email: Some("name@example.com".to_string()),
        verified: Some(true),
        global_name: global_name.map(|n| n.to_string()),
    }
}

#[test]
fn discriminator_zero_leaves_the_username_alone() {
    assert_eq!(preferred_username(&user("0", None)), "name");
}

#[test]
fn other_discriminator_follows_the_username() {
    assert_eq!(preferred_username(&user("1234", None)), "name#1234");
    assert_eq!(preferred_username(&user("0000", None)), "name#0000");
    assert_eq!(preferred_username(&user("", None)), "name#");
}

#[test]
fn display_name_falls_back_to_the_username() {
    assert_eq!(display_name(&user("0", Some("Display Name"))), "Display Name");
    assert_eq!(display_name(&user("0", None)), "name");
}

#[test]
fn token_lives_for_an_hour() {
    assert_eq!(TOKEN_TTL, 3600);
    let claims = map_claims(&user("0", None), &Vec::new(), "issuer", "audience", 1_700_000_000);
    assert_eq!(claims.exp, 1_700_003_600);
}

#[test]
fn claims_follow_from_the_profile() {
    let guilds = vec![DiscordGuild { id: "g2".to_string() }, DiscordGuild { id: "g1".to_string() }];
    let claims =
        map_claims(&user("1234", Some("Display Name")), &guilds, "https://issuer.example", "client", 1000);
    assert_eq!(
        claims,
        CustomClaims {
            sub: "80351110224678912".to_string(),
            iss: "https://issuer.example".to_string(),
            aud: "client".to_string(),
            exp: 4600,
            email: Some("name@example.com".to_string()),
            preferred_username: "name#1234".to_string(),
            global_name: Some("Display Name".to_string()),
            name: "Display Name".to_string(),
            guilds: vec!["g2".to_string(), "g1".to_string()],
            extra: ExtraClaims {
                id: "80351110224678912".to_string(),
                username: "name".to_string(),
                discriminator: "1234".to_string(),
            },
        }
    );
}

#[test]
fn subject_is_the_same_at_another_time() {
    let first = map_claims(&user("0", None), &Vec::new(), "issuer", "audience", 10);
    let guilds = vec![DiscordGuild { id: "g".to_string() }];
    let second = map_claims(&user("0", None), &guilds, "issuer", "audience", 20_000);
    assert_eq!(first.sub, "80351110224678912");
    assert_eq!(first.sub, second.sub);
}

#[test]
fn from_user_info_takes_the_names_as_given() {
    let claims = CustomClaims::from_user_info(
        &user("7", None),
        "preferred".to_string(),
        "shown".to_string(),
        vec!["g".to_string()],
        "issuer",
        "audience",
        0,
    );
    assert_eq!(claims.preferred_username, "preferred");
    assert_eq!(claims.name, "shown");
    assert_eq!(claims.global_name, None);
    assert_eq!(claims.exp, 3600);
    assert_eq!(claims.guilds, vec!["g".to_string()]);
}

#[test]
fn payload_members_stand_side_by_side() {
    let mut profile = user("1234", None);
    profile.email = None;
    let guilds = vec![DiscordGuild { id: "g1".to_string() }];
    let claims = map_claims(&profile, &guilds, "issuer", "audience", 5);
    let text = |t: &str| ClaimValue::Text(t.to_string());
    assert_eq!(
        claims.members(),
        vec![
            ("sub".to_string(), text("80351110224678912")),
            ("iss".to_string(), text("issuer")),
            ("aud".to_string(), text("audience")),
            ("exp".to_string(), ClaimValue::Number(3605)),
            ("email".to_string(), ClaimValue::Null),
            ("preferred_username".to_string(), text("name#1234")),
            ("global_name".to_string(), ClaimValue::Null),
            ("name".to_string(), text("name")),
            ("guilds".to_string(), ClaimValue::List(vec!["g1".to_string()])),
            ("id".to_string(), text("80351110224678912")),
            ("username".to_string(), text("name")),
            ("discriminator".to_string(), text("1234")),
        ]
    );
}
