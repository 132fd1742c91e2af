//! The records that the upstream provider returns.

use vstd::prelude::*;
use crate::text::opt_text;

verus! {

/// The provider's answer to the exchange of an authorization code.
#[derive(Debug, Clone, PartialEq, Eq)]
pub struct DiscordTokenResponse {
    pub access_token: String,
    pub token_type: String,
    pub expires_in: i64,
    pub refresh_token: String,
    pub scope: String,
}

/// A [`DiscordTokenResponse`] with its texts as sequences of characters.
pub struct DiscordTokenResponseView {
    pub access_token: Seq<char>,
    pub token_type: Seq<char>,
    pub expires_in: i64,
    pub refresh_token: Seq<char>,
    pub scope: Seq<char>,
}

impl View for DiscordTokenResponse {
    type V = DiscordTokenResponseView;

    open spec fn view(&self) -> DiscordTokenResponseView {
        DiscordTokenResponseView {
            access_token: self.access_token@,
            token_type: self.token_type@,
            expires_in: self.expires_in,
            refresh_token: self.refresh_token@,
            scope: self.scope@,
        }
    }
}

/// The provider's profile of the signed-in user.
#[derive(Debug, Clone, PartialEq, Eq)]
pub struct DiscordUserInfo {
    pub id: String,
    pub username: String,
    pub discriminator: String,
    pub email: Option<String>,
    pub verified: Option<bool>,
    pub global_name: Option<String>,
}

/// A [`DiscordUserInfo`] with its texts as sequences of characters.
pub struct DiscordUserInfoView {
    pub id: Seq<char>,
    pub username: Seq<char>,
    pub discriminator: Seq<char>,
    pub email: Option<Seq<char>>,
    pub verified: Option<bool>,
    pub global_name: Option<Seq<char>>,
}

impl View for DiscordUserInfo {
    type V = DiscordUserInfoView;

    open spec fn view(&self) -> DiscordUserInfoView {
        DiscordUserInfoView {
            id: self.id@,
            username: self.username@,
            discriminator: self.discriminator@,
            email: opt_text(self.email),
            verified: self.verified,
            global_name: opt_text(self.global_name),
        }
    }
}

impl DiscordUserInfoView {
    /// Whether the provider vouches for the user's e-mail address. A profile
    /// that does not say counts as unverified.
    pub open spec fn is_verified(self) -> bool {
        self.verified == Some(true)
    }
}

impl DiscordUserInfo {
    /// Whether the provider vouches for the user's e-mail address.
    pub fn is_verified(&self) -> (verified: bool)
        ensures
            verified == self@.is_verified(),
    {
        match self.verified {
            Some(flag) => flag,
            None => false,
        }
    }
}

/// One group that the user belongs to.
#[derive(Debug, Clone, PartialEq, Eq)]
pub struct DiscordGuild {
    pub id: String,
}

impl View for DiscordGuild {
    type V = Seq<char>;

    open spec fn view(&self) -> Seq<char> {
        self.id@
    }
}

/// The identifiers of a list of groups, in the order of the list.
pub open spec fn guild_ids_text(guilds: Seq<DiscordGuild>) -> Seq<Seq<char>> {
    Seq::new(guilds.len(), |i: int| guilds[i].id@)
}

/// Collects the identifiers of the groups, in the order in which the
/// provider listed them.
pub fn guild_ids(guilds: &Vec<DiscordGuild>) -> (ids: Vec<String>)
    ensures
        ids.deep_view() == guild_ids_text(guilds@),
{
    let mut ids: Vec<String> = Vec::new();
    let mut i: usize = 0;
    while i < guilds.len()
        invariant
            i <= guilds.len(),
            ids.len() == i,
            forall|j: int| 0 <= j < i ==> ids@[j]@ == guilds@[j].id@,
        decreases guilds.len() - i,
    {
        ids.push(guilds[i].id.clone());
        i += 1;
    }
    assert(ids.deep_view() =~= guild_ids_text(guilds@));
    ids
}

} // verus!
