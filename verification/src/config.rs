//! The configuration of the two programs, made from what the environment
//! holds.

use vstd::prelude::*;
use vstd::string::*;

verus! {

/// Where the search engine is looked for when nothing else is said.
pub const DEFAULT_MEILISEARCH_URL: &'static str = "http://localhost:7700";

/// The key that the search engine is given.
pub const MEILISEARCH_API_KEY: &'static str = "test";

/// The application id that `text` is the numeral of, if it is one.
pub uninterp spec fn application_id_of(text: Seq<char>) -> Option<u64>;

/// `<twilight_model::id::Id<ApplicationMarker> as FromStr>::from_str`, the
/// id handed out as its number: whether `text` parses, and to which id, is a
/// matter of `text` alone, and an id is never zero (it holds a
/// `NonZeroU64`).
#[verifier::external_body]
fn parse_application_id(text: &str) -> (id: Option<u64>)
    ensures
        id == application_id_of(text@),
        id matches Some(value) ==> value != 0,
{
    match text.parse::<twilight_model::id::Id<twilight_model::id::marker::ApplicationMarker>>() {
        Ok(id) => Some(id.get()),
        Err(_) => None,
    }
}

/// What the programs need to know of their surroundings.
#[derive(Debug, Clone, PartialEq, Eq)]
pub struct Config {
    pub discord_token: String,
    /// The application's id; never zero.
    pub discord_id: u64,
    pub meilisearch_url: String,
    pub meilisearch_api_key: String,
}

/// A [`Config`] with its texts as sequences of characters.
pub struct ConfigView {
    pub discord_token: Seq<char>,
    pub discord_id: u64,
    pub meilisearch_url: Seq<char>,
    pub meilisearch_api_key: Seq<char>,
}

impl View for Config {
    type V = ConfigView;

    open spec fn view(&self) -> ConfigView {
        ConfigView {
            discord_token: self.discord_token@,
            discord_id: self.discord_id,
            meilisearch_url: self.meilisearch_url@,
            meilisearch_api_key: self.meilisearch_api_key@,
        }
    }
}

/// Whether a configuration can be made of these values: the token and the
/// application id must be there, and the id must be one.
pub open spec fn loadable(discord_token: Option<String>, discord_app_id: Option<String>) -> bool {
    &&& discord_token is Some
    &&& discord_app_id is Some
    &&& application_id_of(discord_app_id->0@) is Some
}

/// The configuration that these values make: the token as it is, the
/// application id parsed, the engine's address or, without one, the
/// default, and the fixed key.
pub open spec fn loaded(
    discord_token: Option<String>,
    discord_app_id: Option<String>,
    meilisearch_url: Option<String>,
) -> ConfigView {
    ConfigView {
        discord_token: discord_token->0@,
        discord_id: application_id_of(discord_app_id->0@)->0,
        meilisearch_url: match meilisearch_url {
            Some(url) => url@,
            None => DEFAULT_MEILISEARCH_URL@,
        },
        meilisearch_api_key: MEILISEARCH_API_KEY@,
    }
}

impl Config {
    /// Whether the configuration is one that [`Config::load`] can make.
    pub open spec fn wf(&self) -> bool {
        self.discord_id != 0
    }

    /// Makes the configuration of the values of `DISCORD_TOKEN`,
    /// `DISCORD_APP_ID` and `MEILISEARCH_URL`, each `None` where the
    /// variable is not set.
    pub fn load(
        discord_token: Option<String>,
        discord_app_id: Option<String>,
        meilisearch_url: Option<String>,
    ) -> (config: Config)
        requires
            loadable(discord_token, discord_app_id),
        ensures
            config@ == loaded(discord_token, discord_app_id, meilisearch_url),
            config.wf(),
    {
        let discord_id = parse_application_id(discord_app_id.unwrap().as_str()).unwrap();
        let meilisearch_url = match meilisearch_url {
            Some(url) => url,
            None => String::from_str(DEFAULT_MEILISEARCH_URL),
        };
        Config {
            discord_token: discord_token.unwrap(),
            discord_id,
            meilisearch_url,
            meilisearch_api_key: String::from_str(MEILISEARCH_API_KEY),
        }
    }

    /// As [`Config::load`], for values of which nothing is known: `None`
    /// where no configuration can be made of them.
    pub fn try_load(
        discord_token: Option<String>,
        discord_app_id: Option<String>,
        meilisearch_url: Option<String>,
    ) -> (config: Option<Config>)
        ensures
            config is Some <==> loadable(discord_token, discord_app_id),
            config matches Some(config) ==> config@ == loaded(
                discord_token,
                discord_app_id,
                meilisearch_url,
            ) && config.wf(),
    {
        if discord_token.is_none() {
            return None;
        }
        let parses = match &discord_app_id {
            Some(text) => parse_application_id(text.as_str()).is_some(),
            None => false,
        };
        if parses {
            Some(Config::load(discord_token, discord_app_id, meilisearch_url))
        } else {
            None
        }
    }
}

} // verus!
