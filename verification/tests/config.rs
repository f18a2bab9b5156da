use xkcd::config::{Config, DEFAULT_MEILISEARCH_URL, MEILISEARCH_API_KEY};

fn some(text: &str) -> Option<String> {
    Some(String::from(text))
}

#[test]
fn defaults_of_the_configuration_are_fixed() {
    assert_eq!(DEFAULT_MEILISEARCH_URL, "http://localhost:7700");
    assert_eq!(MEILISEARCH_API_KEY, "test");
}

#[test]
fn load_takes_every_value_given() {
    let config = Config::load(some("token"), some("1234567890"), some("http://search:7700"));
    assert_eq!(
        config,
        Config {
            discord_token: String::from("token"),
            discord_id: 1234567890,
            meilisearch_url: String::from("http://search:7700"),
            meilisearch_api_key: String::from("test"),
        }
    );
}

#[test]
fn load_falls_back_to_the_default_address() {
    let config = Config::load(some("token"), some("42"), None);
    assert_eq!(config.meilisearch_url, "http://localhost:7700");
    assert_eq!(config.discord_id, 42);
    assert_eq!(config.discord_token, "token");
    assert_eq!(config.meilisearch_api_key, "test");
}

#[test]
fn try_load_agrees_with_load_where_load_is_defined() {
    assert_eq!(
        Config::try_load(some("token"), some("18446744073709551615"), None),
        Some(Config::load(some("token"), some("18446744073709551615"), None))
    );
    assert_eq!(
        Config::try_load(some("t"), some("7"), some("http://search:7700")),
        Some(Config {
            discord_token: String::from("t"),
            discord_id: 7,
            meilisearch_url: String::from("http://search:7700"),
            meilisearch_api_key: String::from("test"),
        })
    );
}

#[test]
fn try_load_needs_the_token() {
    assert_eq!(Config::try_load(None, some("42"), None), None);
}

#[test]
fn try_load_needs_the_application_id() {
    assert_eq!(Config::try_load(some("token"), None, None), None);
}

#[test]
fn try_load_refuses_what_is_no_application_id() {
    assert_eq!(Config::try_load(some("token"), some("0"), None), None);
    assert_eq!(Config::try_load(some("token"), some(""), None), None);
    assert_eq!(Config::try_load(some("token"), some("abc"), None), None);
    assert_eq!(Config::try_load(some("token"), some("-5"), None), None);
    assert_eq!(Config::try_load(some("token"), some("4 2"), None), None);
    assert_eq!(Config::try_load(some("token"), some("18446744073709551616"), None), None);
}

#[test]
fn application_id_is_parsed_not_copied() {
    let config = Config::try_load(some("token"), some("0042"), None);
    assert_eq!(config.map(|config| config.discord_id), Some(42));
}
