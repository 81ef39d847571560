//! `app/etc/env.php` and its secrets.

use mdoctor::env_parser::{
    assemble_env, matching_bracket_slice, pair_cache_hosts, parse_env_php, redis_address,
    BackendParts, EnvParts, ParsedEnv,
};
use mdoctor::model::{MagentoMode, SecretValue};

#[test]
fn test_parse_env_php_sample() {
    let sample = r#"<?php
return [
    'backend' => ['frontName' => 'admin'],
    'crypt' => ['key' => 'topsecretkey123'],
    'db' => [
        'connection' => [
            'default' => [
                'host' => '127.0.0.1',
                'dbname' => 'magento_test',
                'username' => 'db_user',
                'password' => 'super_secret_db_pass',
            ]
        ]
    ],
    'MAGE_MODE' => 'production',
    'session' => [
        'save' => 'redis',
        'redis' => [
            'host' => '127.0.0.1',
            'database' => '2'
        ]
    ],
    'cache' => [
        'frontend' => [
            'default' => ['backend_options' => ['database' => '0']],
            'page_cache' => ['backend_options' => ['database' => '1']]
        ]
    ]
];
"#;
    let parsed = parse_env_php(sample);
    assert_eq!(parsed.mode, MagentoMode::Production);
    assert_eq!(parsed.config.db_host.as_deref(), Some("127.0.0.1"));
    assert_eq!(parsed.config.db_name.as_deref(), Some("magento_test"));
    assert_eq!(parsed.config.db_user.as_deref(), Some("db_user"));
    assert_eq!(parsed.config.db_password_secret, SecretValue::Present);
    assert_eq!(parsed.config.crypt_key_secret, SecretValue::Present);
    assert_eq!(parsed.config.redis_session_db.as_deref(), Some("2"));
    assert_eq!(parsed.config.redis_cache_db.as_deref(), Some("0"));
    assert_eq!(parsed.config.redis_page_cache_db.as_deref(), Some("1"));
    assert!(!format!("{:?}", parsed.config).contains("secret_db_pass"));
    assert!(!format!("{:?}", parsed.config).contains("topsecretkey123"));
}

#[test]
fn test_parse_http_cache_hosts() {
    let sample = r#"<?php
return [
    'http_cache_hosts' => [
        ['host' => 'varnish-1.internal', 'port' => '6081'],
        ['host' => 'varnish-2.internal', 'port' => '6081'],
    ],
    'MAGE_MODE' => 'production',
];
"#;
    let parsed = parse_env_php(sample);
    assert_eq!(
        parsed.config.http_cache_hosts,
        vec!["varnish-1.internal:6081".to_string(), "varnish-2.internal:6081".to_string()]
    );
}

#[test]
fn test_no_http_cache_hosts_means_not_configured_for_varnish() {
    let parsed = parse_env_php("<?php\nreturn ['MAGE_MODE' => 'production'];\n");
    assert!(parsed.config.http_cache_hosts.is_empty());
}

#[test]
fn test_parse_redis_password_distinct_from_db_password() {
    let sample = r#"<?php
return [
    'db' => ['connection' => ['default' => [
        'host' => 'db-1', 'dbname' => 'm2', 'username' => 'm2', 'password' => 'db_secret',
    ]]],
    'cache' => ['frontend' => ['default' => ['backend_options' => [
        'server' => 'cache-1', 'port' => '6379', 'database' => '0', 'password' => 'redis_secret',
    ]]]],
];
"#;
    let parsed = parse_env_php(sample);
    assert_eq!(parsed.raw_db_password.as_deref(), Some("db_secret"));
    assert_eq!(parsed.raw_redis_password.as_deref(), Some("redis_secret"));
    assert_eq!(parsed.config.redis_cache_host.as_deref(), Some("cache-1:6379"));
}

#[test]
fn modes_are_read_whatever_their_case() {
    let mode = |word: &str| parse_env_php(&format!("'MAGE_MODE' => '{}'", word)).mode;
    assert_eq!(mode("Developer"), MagentoMode::Developer);
    assert_eq!(mode("default"), MagentoMode::DefaultMode);
    assert_eq!(mode("maintenance"), MagentoMode::Maintenance);
    assert_eq!(mode("staging"), MagentoMode::Unknown);
    assert_eq!(parse_env_php("").mode, MagentoMode::Unknown);
}

#[test]
fn nothing_in_the_file_means_nothing_in_the_config() {
    let parsed = parse_env_php("<?php return [];");
    assert_eq!(parsed.config.db_password_secret, SecretValue::Missing);
    assert_eq!(parsed.config.crypt_key_secret, SecretValue::Missing);
    assert_eq!(parsed.raw_db_password, None);
    assert_eq!(parsed.raw_redis_password, None);
    assert_eq!(ParsedEnv::default().config.db_host, None);
}

#[test]
fn a_blank_password_is_missing() {
    let parts = EnvParts { db_password: Some("  ".into()), ..Default::default() };
    let env = assemble_env(&parts);
    assert_eq!(env.config.db_password_secret, SecretValue::Missing);
    assert_eq!(env.raw_db_password, None);
}

#[test]
fn a_session_store_without_a_host_is_local() {
    let parts = EnvParts {
        session: BackendParts { port: Some("6380".into()), ..Default::default() },
        ..Default::default()
    };
    let env = assemble_env(&parts);
    assert_eq!(env.config.redis_session_host.as_deref(), Some("127.0.0.1:6380"));
}

#[test]
fn backend_addresses_keep_sockets_and_ports() {
    let s = |t: &str| Some(t.to_string());
    assert_eq!(redis_address(&s("/run/r.sock"), &s("6379")).as_deref(), Some("/run/r.sock"));
    assert_eq!(redis_address(&s("a:1"), &s("2")).as_deref(), Some("a:1"));
    assert_eq!(redis_address(&s("a"), &None).as_deref(), Some("a"));
    assert_eq!(redis_address(&None, &None), None);
}

#[test]
fn brackets_are_matched() {
    assert_eq!(matching_bracket_slice("x => [a, [b], c], [d]").as_deref(), Some("a, [b], c"));
    assert_eq!(matching_bracket_slice("[a, [b]").as_deref(), None);
    assert_eq!(matching_bracket_slice("none").as_deref(), None);
}

#[test]
fn cache_hosts_take_the_port_of_their_place() {
    let hosts = vec!["a".to_string(), "b:1".to_string(), "c".to_string()];
    let ports = vec!["6081".to_string(), "6082".to_string()];
    assert_eq!(
        pair_cache_hosts(&hosts, &ports),
        vec!["a:6081".to_string(), "b:1".to_string(), "c".to_string()]
    );
}
