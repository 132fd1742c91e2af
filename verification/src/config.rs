//! Static configuration of the bridge.

use vstd::prelude::*;
use vstd::string::*;

verus! {

/// What the bridge is configured with: its registration at the upstream
/// provider and the issuer that it names in the tokens it signs.
#[derive(Debug, Clone, PartialEq, Eq)]
pub struct Config {
    pub client_id: String,
    pub client_secret: String,
    pub redirect_url: String,
    pub issuer: String,
}

/// A [`Config`] with its fields as sequences of characters.
pub struct ConfigView {
    pub client_id: Seq<char>,
    pub client_secret: Seq<char>,
    pub redirect_url: Seq<char>,
    pub issuer: Seq<char>,
}

impl View for Config {
    type V = ConfigView;

    open spec fn view(&self) -> ConfigView {
        ConfigView {
            client_id: self.client_id@,
            client_secret: self.client_secret@,
            redirect_url: self.redirect_url@,
            issuer: self.issuer@,
        }
    }
}

/// The issuer that every token names.
pub open spec fn issuer_text() -> Seq<char> {
    "https://cloudflare.com"@
}

/// The address under which the upstream provider serves its API.
pub open spec fn api_base_text() -> Seq<char> {
    "https://discord.com/api/v10"@
}

/// Whether `mode` is one of the scope modes that an authorization request
/// may name.
pub open spec fn is_valid_scopemode(mode: Seq<char>) -> bool {
    mode == "guilds"@ || mode == "email"@
}

impl Config {
    /// Builds the configuration from the three settings of the environment,
    /// each given as the outcome of reading it: the client identifier, the
    /// client secret and the redirect address, in this order. The first
    /// setting that could not be read decides the failure. The issuer is
    /// fixed.
    pub fn from_env<E>(
        client_id: Result<String, E>,
        client_secret: Result<String, E>,
        redirect_url: Result<String, E>,
    ) -> (config: Result<Config, E>)
        ensures
            match (client_id, client_secret, redirect_url) {
                (Ok(id), Ok(secret), Ok(url)) => config matches Ok(c) && c@ == (ConfigView {
                    client_id: id@,
                    client_secret: secret@,
                    redirect_url: url@,
                    issuer: issuer_text(),
                }),
                (Ok(_), Ok(_), Err(e)) => config == Err::<Config, E>(e),
                (Ok(_), Err(e), _) => config == Err::<Config, E>(e),
                (Err(e), _, _) => config == Err::<Config, E>(e),
            },
    {
        let client_id = match client_id {
            Ok(value) => value,
            Err(e) => {
                return Err(e);
            },
        };
        let client_secret = match client_secret {
            Ok(value) => value,
            Err(e) => {
                return Err(e);
            },
        };
        let redirect_url = match redirect_url {
            Ok(value) => value,
            Err(e) => {
                return Err(e);
            },
        };
        Ok(
            Config {
                client_id,
                client_secret,
                redirect_url,
                issuer: String::from_str("https://cloudflare.com"),
            },
        )
    }

    /// The scope modes that an authorization request may name.
    pub fn valid_scopemodes() -> (modes: &'static [&'static str])
        ensures
            modes@.len() == 2,
            modes@[0]@ == "guilds"@,
            modes@[1]@ == "email"@,
            forall|mode: Seq<char>|
                is_valid_scopemode(mode) <==> exists|i: int|
                    0 <= i < modes@.len() && #[trigger] modes@[i]@ == mode,
    {
        let modes: &'static [&'static str] = &["guilds", "email"];
        assert forall|mode: Seq<char>| is_valid_scopemode(mode) implies exists|i: int|
            0 <= i < modes@.len() && #[trigger] modes@[i]@ == mode by {
            if mode == "guilds"@ {
                assert(modes@[0]@ == mode);
            } else {
                assert(modes@[1]@ == mode);
            }
        }
        modes
    }

    /// The address under which the upstream provider serves its API.
    pub fn discord_api_base() -> (base: &'static str)
        ensures
            base@ == api_base_text(),
    {
        "https://discord.com/api/v10"
    }
}

} // verus!
