use restaurant::client::settings::{
    config_path as client_config_path, Auth, Client, Settings as ClientSettings, API,
};
use restaurant::cmd::Dbio;
use restaurant::settings::{config_path, field_or_empty, Settings};

#[test]
fn settings_test_settings_new_given_config_provided_when_init_then_fields_obtained() {
    let config: Settings = Settings::new(
        Some("127.0.0.1".to_string()),
        Some("8080".to_string()),
        Some("postgresql://postgres".to_string()),
        Some("postgres".to_string()),
        Some("127.0.0.1".to_string()),
        Some("5432".to_string()),
        Some("restaurant".to_string()),
    );
    assert!(config.server.get_ip().len() > 0);
    assert!(config.server.get_port().len() > 0);
    assert_eq!("postgresql://postgres", config.database.get_prefix());
    assert!(config.database.get_ip().len() > 0);
    assert!(config.database.get_port().len() > 0);
    assert_eq!("restaurant", config.database.get_db_name());
}

#[test]
fn client_settings_given_config_provided_when_init_then_fields_obtained() {
    let config = ClientSettings::new(
        Client::new(Some("http://127.0.0.1:8080".to_string()), Some(5)),
        API::new(
            Some("/api/place/order".to_string()),
            Some("/api/delete/order".to_string()),
            Some("/api/update/order".to_string()),
            Some("/api/status/order".to_string()),
        ),
        Auth::new(Some("name".to_string()), Some("word".to_string())),
    );
    assert!(config.client.get_base_url().len() > 0);
    assert!(config.client.get_timeout() > 0);
    assert_eq!("/api/place/order", config.api.get_place_order_api());
    assert_eq!("/api/delete/order", config.api.get_delete_order_api());
    assert_eq!("/api/update/order", config.api.get_update_order_api());
    assert_eq!("/api/status/order", config.api.get_status_order_api());
    assert!(config.auth.get_username().len() > 0);
    assert!(config.auth.get_password().len() > 0);
}

#[test]
fn a_setting_that_was_not_found_is_empty() {
    let config = Settings::new(None, Some("80".to_string()), None, None, None, None, None);
    assert_eq!("", config.server.get_ip());
    assert_eq!("80", config.server.get_port());
    assert_eq!("", config.database.get_prefix());
    assert_eq!("", config.database.get_password());
    assert_eq!("", config.database.get_ip());
    assert_eq!("", config.database.get_port());
    assert_eq!("", config.database.get_db_name());
    assert_eq!("", field_or_empty(None));
    assert_eq!("x", field_or_empty(Some("x".to_string())));
    let client = Client::new(None, None);
    assert_eq!("", client.get_base_url());
    assert_eq!(0, client.get_timeout());
    let api = API::new(None, None, None, None);
    assert_eq!("", api.get_place_order_api());
    assert_eq!("", api.get_status_order_api());
    let auth = Auth::new(None, None);
    assert_eq!("", auth.get_username());
    assert_eq!("", auth.get_password());
}

#[test]
fn the_settings_file_is_looked_for_from_either_directory() {
    assert_eq!("config\\production.toml", config_path(true));
    assert_eq!("server\\config\\production.toml", config_path(false));
    assert_eq!("config\\production.toml", client_config_path(true));
    assert_eq!("client\\config\\production.toml", client_config_path(false));
}

#[test]
fn the_database_address_is_put_together_from_the_settings() {
    let config = Settings::new(
        Some("0.0.0.0".to_string()),
        Some("8080".to_string()),
        Some("postgresql://postgres".to_string()),
        Some("pw".to_string()),
        Some("db.local".to_string()),
        Some("5432".to_string()),
        Some("restaurant".to_string()),
    );
    let dbio = Dbio::new(&config);
    assert_eq!("postgresql://postgres:pw@db.local:5432/restaurant", dbio.get_db_path());
    let bare = Dbio::new(&Settings::new(None, None, None, None, None, None, None));
    assert_eq!(":@:/", bare.get_db_path());
}
