use consulrs::client::{middleware_for, ConsulClientSettings, EnvSettings};

#[test]
fn explicit_settings_win_over_environment() {
    let env = EnvSettings {
        http_addr: Some(String::from("http://env:8500")),
        http_token: Some(String::from("env-token")),
        ..Default::default()
    };
    let settings = ConsulClientSettings::builder()
        .address("http://explicit:8500")
        .token("explicit-token")
        .build(env);
    assert_eq!(settings.address, "http://explicit:8500");
    assert_eq!(settings.token.as_deref(), Some("explicit-token"));
}

#[test]
fn environment_fills_unset_settings() {
    let env = EnvSettings {
        http_addr: Some(String::from("http://env:8500")),
        http_token: Some(String::from("env-token")),
        client_cert: Some(String::from("/certs/client.pem")),
        client_key: Some(String::from("/certs/client.key")),
        ..Default::default()
    };
    let settings = ConsulClientSettings::builder().build(env);
    assert_eq!(settings.address, "http://env:8500");
    assert_eq!(settings.token.as_deref(), Some("env-token"));
    assert_eq!(settings.client_cert.as_deref(), Some("/certs/client.pem"));
    assert_eq!(settings.client_key.as_deref(), Some("/certs/client.key"));
}

#[test]
fn documented_defaults_apply_when_nothing_is_set() {
    let settings = ConsulClientSettings::builder().build(EnvSettings::default());
    assert_eq!(settings.address, "http://127.0.0.1:8500");
    assert_eq!(settings.token, None);
    assert!(settings.verify);
    assert_eq!(settings.version, 1);
    assert!(settings.ca_certs.is_empty());
}

#[test]
fn verify_reads_only_the_word_false_as_off() {
    let off = ConsulClientSettings::builder()
        .build(EnvSettings { ssl_verify: Some(String::from("false")), ..Default::default() });
    assert!(!off.verify);
    let on = ConsulClientSettings::builder()
        .build(EnvSettings { ssl_verify: Some(String::from("durr")), ..Default::default() });
    assert!(on.verify);
    let on_true = ConsulClientSettings::builder()
        .build(EnvSettings { ssl_verify: Some(String::from("true")), ..Default::default() });
    assert!(on_true.verify);
}

#[test]
fn environment_ca_certs_combine_file_and_directory() {
    let env = EnvSettings {
        cacert: Some(String::from("/ca/root.pem")),
        capath_entries: vec![String::from("/ca/dir/a.pem"), String::from("/ca/dir/b.pem")],
        ..Default::default()
    };
    let settings = ConsulClientSettings::builder().build(env);
    assert_eq!(
        settings.ca_certs,
        vec![
            String::from("/ca/root.pem"),
            String::from("/ca/dir/a.pem"),
            String::from("/ca/dir/b.pem"),
        ]
    );
}

#[test]
fn middleware_carries_version_and_token() {
    let settings = ConsulClientSettings::builder()
        .token("tok")
        .version(2)
        .build(EnvSettings::default());
    let mw = middleware_for(&settings, None);
    assert_eq!(mw.version, "v2");
    assert_eq!(mw.token.as_deref(), Some("tok"));
    assert!(mw.features.is_none());
}

#[test]
fn decimal_rendering_handles_large_numbers() {
    assert_eq!(consulrs::text::u64_to_string(0), "0");
    assert_eq!(consulrs::text::u64_to_string(10), "10");
    assert_eq!(consulrs::text::u64_to_string(1234567890), "1234567890");
}
