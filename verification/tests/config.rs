use gateway_config::config::{
    data_directory_under, default_clients_port, default_mix_port, default_root_directory_under,
    try_default_root_directory, Config, ConfigError, Gateway, NYM_API, NYXD_URL,
    STATISTICS_SERVICE_DOMAIN_ADDRESS,
};
use gateway_config::{missing_string_value, IpAddress};
use bip39::Mnemonic;
use std::time::Duration;
use url::Url;

fn sample_mnemonic() -> Mnemonic {
    Mnemonic::from_entropy(&[7u8; 32]).unwrap()
}

fn sample_config() -> Config {
    Config::default_with(
        Url::parse("https://stats.example:8090").unwrap(),
        Url::parse("https://api.example/api/").unwrap(),
        Url::parse("https://rpc.example").unwrap(),
        sample_mnemonic(),
        "/srv/nym/gateways".to_string(),
    )
}

#[test]
fn missing_value_text() {
    assert_eq!(missing_string_value(), "MISSING VALUE");
}

#[test]
fn default_ports_are_1789_and_9000() {
    assert_eq!(default_mix_port(), 1789);
    assert_eq!(default_clients_port(), 9000);
    let c = sample_config();
    assert_eq!(c.get_mix_port(), 1789);
    assert_eq!(c.get_clients_port(), 9000);
}

#[test]
fn default_settings() {
    let c = sample_config();
    assert_eq!(c.get_version(), "0.1.0");
    assert_eq!(c.get_listening_address(), IpAddress::V4([0, 0, 0, 0]));
    assert_eq!(c.get_announce_address(), "127.0.0.1");
    assert!(!c.get_only_coconut_credentials());
    assert!(!c.get_enabled_statistics());
    assert_eq!(c.get_private_identity_key_file(), "");
    assert_eq!(c.get_persistent_store_path(), "");
    assert_eq!(c.get_statistics_service_url().as_str(), "https://stats.example:8090/");
    assert_eq!(c.get_nym_api_endpoints(), vec![Url::parse("https://api.example/api/").unwrap()]);
    assert_eq!(c.get_nyxd_urls(), vec![Url::parse("https://rpc.example").unwrap()]);
    assert_eq!(c.get_cosmos_mnemonic(), sample_mnemonic());
    assert_eq!(c.get_wallet_address(), None);
    assert_eq!(c.root_directory(), "/srv/nym/gateways");
    assert_eq!(c.get_packet_forwarding_initial_backoff(), Duration::from_millis(10_000));
    assert_eq!(c.get_packet_forwarding_maximum_backoff(), Duration::from_millis(300_000));
    assert_eq!(c.get_initial_connection_timeout(), Duration::from_millis(1_500));
    assert_eq!(c.get_maximum_connection_buffer_size(), 128);
    assert_eq!(c.get_message_retrieval_limit(), 100);
    assert!(c.get_use_legacy_sphinx_framing());
    assert_eq!(c.debug.presence_sending_delay, Duration::from_millis(10_000));
    assert_eq!(c.debug.stored_messages_filename_length, 16);
}

#[test]
fn with_id_places_keys_in_data_directory() {
    let c = sample_config().with_id_under("gw1".to_string(), "/srv/nym/gateways");
    assert_eq!(c.gateway.id, "gw1");
    assert_eq!(c.get_private_sphinx_key_file(), "/srv/nym/gateways/gw1/data/private_sphinx.pem");
    assert_eq!(c.get_public_sphinx_key_file(), "/srv/nym/gateways/gw1/data/public_sphinx.pem");
    assert_eq!(c.get_private_identity_key_file(), "/srv/nym/gateways/gw1/data/private_identity.pem");
    assert_eq!(c.get_public_identity_key_file(), "/srv/nym/gateways/gw1/data/public_identity.pem");
    assert_eq!(c.get_persistent_store_path(), "/srv/nym/gateways/gw1/data/db.sqlite");
    assert_eq!(c.data_directory(), "/srv/nym/gateways/gw1/data");
    assert_eq!(c.config_directory(), "/srv/nym/gateways/gw1/config");
    assert_eq!(c.get_config_file_save_location(), "/srv/nym/gateways/gw1/config/config.toml");
}

#[test]
fn with_id_keeps_paths_already_given() {
    let c = sample_config()
        .with_custom_persistent_store("/var/db.sqlite".to_string())
        .with_id_under("first".to_string(), "/r");
    assert_eq!(c.get_persistent_store_path(), "/var/db.sqlite");
    let again = c.with_id("second".to_string()).unwrap();
    assert_eq!(again.gateway.id, "second");
    assert_eq!(again.get_private_sphinx_key_file(), "/r/first/data/private_sphinx.pem");
    assert_eq!(again.get_persistent_store_path(), "/var/db.sqlite");
}

#[test]
fn with_id_uses_home_directory_when_paths_are_unset() {
    let home = dirs::home_dir().unwrap();
    let c = sample_config().with_id("gw2".to_string()).unwrap();
    let expected = home.join(".nym").join("gateways").join("gw2").join("data").join("db.sqlite");
    assert_eq!(c.get_persistent_store_path(), expected.to_str().unwrap());
}

#[test]
fn default_root_is_under_home() {
    let home = dirs::home_dir().unwrap();
    let root = try_default_root_directory().unwrap();
    assert_eq!(root, home.join(".nym").join("gateways").to_str().unwrap());
    assert_eq!(default_root_directory_under("/home/a"), "/home/a/.nym/gateways");
    assert_eq!(data_directory_under("/r", "id"), "/r/id/data");
    assert_eq!(Gateway::default_database_path("/r", "id"), "/r/id/data/db.sqlite");
}

#[test]
fn new_config_uses_builtin_defaults() {
    let c = Config::new("gateway".to_string()).unwrap();
    assert_eq!(c.gateway.id, "gateway");
    assert_eq!(c.get_statistics_service_url(), Url::parse(STATISTICS_SERVICE_DOMAIN_ADDRESS).unwrap());
    assert_eq!(c.get_nym_api_endpoints(), vec![Url::parse(NYM_API).unwrap()]);
    assert_eq!(c.get_nyxd_urls(), vec![Url::parse(NYXD_URL).unwrap()]);
    assert_eq!(c.get_nym_api_endpoints()[0].as_str(), "https://validator.nymtech.net/api/");
    assert_eq!(c.get_cosmos_mnemonic().word_count(), 24);
    let root = try_default_root_directory().unwrap();
    assert_eq!(c.root_directory(), root);
    assert_eq!(c.get_private_sphinx_key_file(), format!("{root}/gateway/data/private_sphinx.pem"));
    assert_eq!(c.get_config_file_save_location(), format!("{root}/gateway/config/config.toml"));
    assert_eq!(c.get_packet_forwarding_initial_backoff(), Duration::from_millis(10_000));
}

#[test]
fn try_default_gives_empty_id_and_unset_paths() {
    let c = Config::try_default().unwrap();
    assert_eq!(c.gateway.id, "");
    assert!(c.has_unset_key_path());
    assert_eq!(c.get_mix_port(), 1789);
    let other = Config::try_default().unwrap();
    // A fresh mnemonic each time.
    assert_ne!(c.get_cosmos_mnemonic(), other.get_cosmos_mnemonic());
}

#[test]
fn builders_read_back() {
    let url = Url::parse("https://other.example/").unwrap();
    let c = sample_config()
        .with_only_coconut_credentials(true)
        .with_enabled_statistics(true)
        .with_custom_statistics_service_url(url.clone())
        .with_custom_nym_apis(vec![url.clone(), url.clone()])
        .with_custom_validator_nyxd(vec![])
        .with_cosmos_mnemonic(Mnemonic::from_entropy(&[1u8; 16]).unwrap())
        .with_mix_port(1)
        .with_clients_port(2)
        .with_custom_persistent_store("/db".to_string())
        .with_custom_version("9.9.9".to_string())
        .with_wallet_address("n1abc".to_string());
    assert!(c.get_only_coconut_credentials());
    assert!(c.get_enabled_statistics());
    assert_eq!(c.get_statistics_service_url(), url);
    assert_eq!(c.get_nym_api_endpoints().len(), 2);
    assert!(c.get_nyxd_urls().is_empty());
    assert_eq!(c.get_cosmos_mnemonic().word_count(), 12);
    assert_eq!(c.get_mix_port(), 1);
    assert_eq!(c.get_clients_port(), 2);
    assert_eq!(c.get_persistent_store_path(), "/db");
    assert_eq!(c.get_version(), "9.9.9");
    assert_eq!(c.get_wallet_address(), Some("n1abc".to_string()));
}

#[test]
fn announce_host_follows_listening_address() {
    let c = sample_config()
        .with_listening_address(IpAddress::V6([0x2001, 0xdb8, 0, 0, 0, 0, 0, 1]))
        .announce_host_from_listening_host();
    assert_eq!(c.get_announce_address(), "2001:db8::1");
    let c = c.with_listening_address(IpAddress::V4([10, 0, 0, 7])).announce_host_from_listening_host();
    assert_eq!(c.get_announce_address(), "10.0.0.7");
    let c = c.with_announce_address("gw.example".to_string());
    assert_eq!(c.get_announce_address(), "gw.example");
}

#[test]
fn config_error_variants() {
    assert_ne!(ConfigError::InvalidDefaultUrl, ConfigError::HomeDirectoryUnavailable);
}
