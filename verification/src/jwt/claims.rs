//! The claims of an identity token and how they follow from a profile.

use vstd::prelude::*;
use vstd::string::*;
use crate::discord::models::{guild_ids, guild_ids_text, DiscordGuild, DiscordUserInfo, DiscordUserInfoView};
use crate::text::opt_text;

verus! {

/// The number of seconds for which a token is valid.
pub const TOKEN_TTL: usize = 3600;

/// The provider's own identifiers of the user, for relying parties that need
/// them.
#[derive(Debug, Clone, PartialEq, Eq)]
pub struct ExtraClaims {
    pub id: String,
    pub username: String,
    pub discriminator: String,
}

/// An [`ExtraClaims`] with its texts as sequences of characters.
pub struct ExtraClaimsView {
    pub id: Seq<char>,
    pub username: Seq<char>,
    pub discriminator: Seq<char>,
}

impl View for ExtraClaims {
    type V = ExtraClaimsView;

    open spec fn view(&self) -> ExtraClaimsView {
        ExtraClaimsView {
            id: self.id@,
            username: self.username@,
            discriminator: self.discriminator@,
        }
    }
}

/// The claims of an identity token.
#[derive(Debug, Clone, PartialEq, Eq)]
pub struct CustomClaims {
    /// The subject: the provider's identifier of the user.
    pub sub: String,
    /// The issuer.
    pub iss: String,
    /// The audience: the client that the token is meant for.
    pub aud: String,
    /// The second, counted from the epoch, at which the token expires.
    pub exp: usize,
    pub email: Option<String>,
    pub preferred_username: String,
    pub global_name: Option<String>,
    /// The name to display.
    pub name: String,
    /// The groups that the user belongs to, in the provider's order.
    pub guilds: Vec<String>,
    /// The provider's own identifiers. In the token they stand beside the
    /// other claims, not below a member of their own.
    pub extra: ExtraClaims,
}

/// A [`CustomClaims`] with its texts as sequences of characters.
pub struct CustomClaimsView {
    pub sub: Seq<char>,
    pub iss: Seq<char>,
    pub aud: Seq<char>,
    pub exp: usize,
    pub email: Option<Seq<char>>,
    pub preferred_username: Seq<char>,
    pub global_name: Option<Seq<char>>,
    pub name: Seq<char>,
    pub guilds: Seq<Seq<char>>,
    pub extra: ExtraClaimsView,
}

impl View for CustomClaims {
    type V = CustomClaimsView;

    open spec fn view(&self) -> CustomClaimsView {
        CustomClaimsView {
            sub: self.sub@,
            iss: self.iss@,
            aud: self.aud@,
            exp: self.exp,
            email: opt_text(self.email),
            preferred_username: self.preferred_username@,
            global_name: opt_text(self.global_name),
            name: self.name@,
            guilds: self.guilds.deep_view(),
            extra: self.extra@,
        }
    }
}

/// The value of one member of a token's payload.
#[derive(Debug, Clone, PartialEq, Eq)]
pub enum ClaimValue {
    Null,
    Number(usize),
    Text(String),
    List(Vec<String>),
}

/// A [`ClaimValue`] with its texts as sequences of characters.
pub enum ClaimValueView {
    Null,
    Number(usize),
    Text(Seq<char>),
    List(Seq<Seq<char>>),
}

impl DeepView for ClaimValue {
    type V = ClaimValueView;

    open spec fn deep_view(&self) -> ClaimValueView {
        match self {
            ClaimValue::Null => ClaimValueView::Null,
            ClaimValue::Number(number) => ClaimValueView::Number(*number),
            ClaimValue::Text(text) => ClaimValueView::Text(text@),
            ClaimValue::List(list) => ClaimValueView::List(list.deep_view()),
        }
    }
}

/// The member value for an optional text: the text, or null.
pub open spec fn optional_member(text: Option<Seq<char>>) -> ClaimValueView {
    match text {
        Some(t) => ClaimValueView::Text(t),
        None => ClaimValueView::Null,
    }
}

/// The members of the payload that carries the claims, by name and in order.
/// The provider's own identifiers stand beside the standard claims.
pub open spec fn claim_members(claims: CustomClaimsView) -> Seq<(Seq<char>, ClaimValueView)> {
    seq![
        ("sub"@, ClaimValueView::Text(claims.sub)),
        ("iss"@, ClaimValueView::Text(claims.iss)),
        ("aud"@, ClaimValueView::Text(claims.aud)),
        ("exp"@, ClaimValueView::Number(claims.exp)),
        ("email"@, optional_member(claims.email)),
        ("preferred_username"@, ClaimValueView::Text(claims.preferred_username)),
        ("global_name"@, optional_member(claims.global_name)),
        ("name"@, ClaimValueView::Text(claims.name)),
        ("guilds"@, ClaimValueView::List(claims.guilds)),
        ("id"@, ClaimValueView::Text(claims.extra.id)),
        ("username"@, ClaimValueView::Text(claims.extra.username)),
        ("discriminator"@, ClaimValueView::Text(claims.extra.discriminator)),
    ]
}

fn optional_value(text: &Option<String>) -> (value: ClaimValue)
    ensures
        value.deep_view() == optional_member(opt_text(*text)),
{
    match text {
        Some(t) => ClaimValue::Text(t.clone()),
        None => ClaimValue::Null,
    }
}

/// The user name that a profile stands for. A discriminator of `0` marks an
/// account without one, and the name stands alone. Any other discriminator
/// follows the name after a `#`.
pub open spec fn preferred_username_text(user: DiscordUserInfoView) -> Seq<char> {
    if user.discriminator == "0"@ {
        user.username
    } else {
        user.username + "#"@ + user.discriminator
    }
}

/// The name to display for a profile: its display name, or the user name
/// where it has none.
pub open spec fn display_name_text(user: DiscordUserInfoView) -> Seq<char> {
    match user.global_name {
        Some(name) => name,
        None => user.username,
    }
}

/// The claims for a profile, given the two names derived from it, the groups,
/// the issuer, the audience and the second at which they are made.
pub open spec fn claims_of(
    user: DiscordUserInfoView,
    preferred_username: Seq<char>,
    display_name: Seq<char>,
    guilds: Seq<Seq<char>>,
    issuer: Seq<char>,
    audience: Seq<char>,
    now: usize,
) -> CustomClaimsView {
    CustomClaimsView {
        sub: user.id,
        iss: issuer,
        aud: audience,
        exp: (now + TOKEN_TTL) as usize,
        email: user.email,
        preferred_username,
        global_name: user.global_name,
        name: display_name,
        guilds,
        extra: ExtraClaimsView {
            id: user.id,
            username: user.username,
            discriminator: user.discriminator,
        },
    }
}

/// The claims that a profile and a list of groups are mapped to.
pub open spec fn mapped_claims(
    user: DiscordUserInfoView,
    guilds: Seq<DiscordGuild>,
    issuer: Seq<char>,
    audience: Seq<char>,
    now: usize,
) -> CustomClaimsView {
    claims_of(
        user,
        preferred_username_text(user),
        display_name_text(user),
        guild_ids_text(guilds),
        issuer,
        audience,
        now,
    )
}

/// The user name that a profile stands for.
pub fn preferred_username(user: &DiscordUserInfo) -> (name: String)
    ensures
        name@ == preferred_username_text(user@),
{
    if user.discriminator.as_str().eq("0") {
        user.username.clone()
    } else {
        let mut name = user.username.clone();
        name.append("#");
        name.append(user.discriminator.as_str());
        name
    }
}

/// The name to display for a profile.
pub fn display_name(user: &DiscordUserInfo) -> (name: String)
    ensures
        name@ == display_name_text(user@),
{
    match &user.global_name {
        Some(name) => name.clone(),
        None => user.username.clone(),
    }
}

impl CustomClaims {
    /// The members of the payload that carries these claims.
    pub fn members(&self) -> (members: Vec<(String, ClaimValue)>)
        ensures
            members.deep_view() == claim_members(self@),
    {
        let mut members: Vec<(String, ClaimValue)> = Vec::new();
        members.push((String::from_str("sub"), ClaimValue::Text(self.sub.clone())));
        members.push((String::from_str("iss"), ClaimValue::Text(self.iss.clone())));
        members.push((String::from_str("aud"), ClaimValue::Text(self.aud.clone())));
        members.push((String::from_str("exp"), ClaimValue::Number(self.exp)));
        members.push((String::from_str("email"), optional_value(&self.email)));
        members.push(
            (String::from_str("preferred_username"), ClaimValue::Text(self.preferred_username.clone())),
        );
        members.push((String::from_str("global_name"), optional_value(&self.global_name)));
        members.push((String::from_str("name"), ClaimValue::Text(self.name.clone())));
        members.push((String::from_str("guilds"), ClaimValue::List(self.guilds.clone())));
        members.push((String::from_str("id"), ClaimValue::Text(self.extra.id.clone())));
        members.push((String::from_str("username"), ClaimValue::Text(self.extra.username.clone())));
        members.push(
            (String::from_str("discriminator"), ClaimValue::Text(self.extra.discriminator.clone())),
        );
        assert(members.deep_view() =~= claim_members(self@));
        members
    }

    /// Makes the claims for a profile at the second `now`. The subject is the
    /// provider's identifier of the user, unchanged, and the token expires
    /// [`TOKEN_TTL`] seconds after `now`.
    pub fn from_user_info(
        user: &DiscordUserInfo,
        preferred_username: String,
        display_name: String,
        guilds: Vec<String>,
        issuer: &str,
        audience: &str,
        now: usize,
    ) -> (claims: CustomClaims)
        requires
            now + TOKEN_TTL <= usize::MAX,
        ensures
            claims@ == claims_of(
                user@,
                preferred_username@,
                display_name@,
                guilds.deep_view(),
                issuer@,
                audience@,
                now,
            ),
    {
        CustomClaims {
            sub: user.id.clone(),
            iss: String::from_str(issuer),
            aud: String::from_str(audience),
            exp: now + TOKEN_TTL,
            email: user.email.clone(),
            preferred_username,
            global_name: user.global_name.clone(),
            name: display_name,
            guilds,
            extra: ExtraClaims {
                id: user.id.clone(),
                username: user.username.clone(),
                discriminator: user.discriminator.clone(),
            },
        }
    }
}

/// Maps a profile and the user's groups to the claims of a token made at the
/// second `now`.
pub fn map_claims(
    user: &DiscordUserInfo,
    guilds: &Vec<DiscordGuild>,
    issuer: &str,
    audience: &str,
    now: usize,
) -> (claims: CustomClaims)
    requires
        now + TOKEN_TTL <= usize::MAX,
    ensures
        claims@ == mapped_claims(user@, guilds@, issuer@, audience@, now),
{
    CustomClaims::from_user_info(
        user,
        preferred_username(user),
        display_name(user),
        guild_ids(guilds),
        issuer,
        audience,
        now,
    )
}

/// The derived user name is the user name alone exactly for the
/// discriminator `0`, and otherwise the user name, a `#` and the
/// discriminator.
pub proof fn preferred_username_by_discriminator(user: DiscordUserInfoView)
    ensures
        user.discriminator == "0"@ ==> preferred_username_text(user) == user.username,
        user.discriminator != "0"@ ==> preferred_username_text(user) == user.username + "#"@
            + user.discriminator,
        user.discriminator != "0"@ ==> preferred_username_text(user) != user.username,
{
    reveal_strlit("#");
    if user.discriminator != "0"@ {
        assert((user.username + "#"@ + user.discriminator).len() > user.username.len());
    }
}

/// The subject of the claims is the provider's identifier of the user,
/// whatever the time, the groups, the issuer and the audience: two tokens
/// for one user name the same subject, and it is not empty unless the
/// provider's identifier is.
pub proof fn subject_is_stable(
    user: DiscordUserInfoView,
    guilds_a: Seq<DiscordGuild>,
    guilds_b: Seq<DiscordGuild>,
    issuer_a: Seq<char>,
    issuer_b: Seq<char>,
    audience_a: Seq<char>,
    audience_b: Seq<char>,
    now_a: usize,
    now_b: usize,
)
    ensures
        mapped_claims(user, guilds_a, issuer_a, audience_a, now_a).sub == user.id,
        user.id.len() > 0 ==> mapped_claims(user, guilds_a, issuer_a, audience_a, now_a).sub.len() > 0,
        mapped_claims(user, guilds_a, issuer_a, audience_a, now_a).sub == mapped_claims(
            user,
            guilds_b,
            issuer_b,
            audience_b,
            now_b,
        ).sub,
{
}

/// What is signed is what the claims say: the payload names the subject, the
/// issuer, the audience and the expiry of the claims, each under its
/// standard name, and no two members of the payload bear the same name, so
/// that none of them gives way to another when the members become one
/// object.
pub proof fn payload_carries_the_claims(claims: CustomClaimsView)
    ensures
        claim_members(claims).len() == 12,
        claim_members(claims)[0] == ("sub"@, ClaimValueView::Text(claims.sub)),
        claim_members(claims)[1] == ("iss"@, ClaimValueView::Text(claims.iss)),
        claim_members(claims)[2] == ("aud"@, ClaimValueView::Text(claims.aud)),
        claim_members(claims)[3] == ("exp"@, ClaimValueView::Number(claims.exp)),
        forall|i: int, j: int|
            0 <= i < j < 12 ==> #[trigger] claim_members(claims)[i].0 != #[trigger] claim_members(
                claims,
            )[j].0,
{
    reveal_strlit("sub");
    reveal_strlit("iss");
    reveal_strlit("aud");
    reveal_strlit("exp");
    reveal_strlit("email");
    reveal_strlit("preferred_username");
    reveal_strlit("global_name");
    reveal_strlit("name");
    reveal_strlit("guilds");
    reveal_strlit("id");
    reveal_strlit("username");
    reveal_strlit("discriminator");
    assert("sub"@.len() == 3 && "iss"@.len() == 3 && "aud"@.len() == 3 && "exp"@.len() == 3);
    assert("email"@.len() == 5 && "preferred_username"@.len() == 18 && "global_name"@.len() == 11);
    assert("name"@.len() == 4 && "guilds"@.len() == 6 && "id"@.len() == 2);
    assert("username"@.len() == 8 && "discriminator"@.len() == 13);
    assert("sub"@[0] == 's' && "iss"@[0] == 'i' && "aud"@[0] == 'a' && "exp"@[0] == 'e');
}

} // verus!
