use monorail::config::{config_limit, ConfigError, ConfigMeta};

fn pair(key: &str, value: u32) -> ConfigMeta<u32> {
    ConfigMeta::NameValue { ident: Some(key.to_string()), value }
}

#[test]
fn no_settings_give_no_limit() {
    assert_eq!(config_limit::<u32>(vec![]), Ok(None));
}

#[test]
fn every_limit_key_sets_the_limit_and_the_last_wins() {
    assert_eq!(config_limit(vec![pair("cores", 4)]), Ok(Some(4)));
    assert_eq!(config_limit(vec![pair("core_override", 3)]), Ok(Some(3)));
    assert_eq!(config_limit(vec![pair("cores", 4), pair("limit", 2)]), Ok(Some(2)));
}

#[test]
fn unknown_keys_and_other_items_are_refused() {
    assert_eq!(
        config_limit(vec![pair("cores", 4), pair("threads", 2), ConfigMeta::Other]),
        Err(ConfigError::UnknownKey(1, "threads".to_string()))
    );
    assert_eq!(
        config_limit(vec![ConfigMeta::Other, pair("threads", 2)]),
        Err(ConfigError::ExpectedKeyValue(0))
    );
}

#[test]
fn pairs_without_a_single_identifier_are_skipped() {
    let skipped = ConfigMeta::NameValue { ident: None, value: 9 };
    assert_eq!(config_limit(vec![pair("cores", 4), skipped]), Ok(Some(4)));
}
