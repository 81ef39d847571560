//! Endpoint flags, and how they go together with a file.

use mdoctor::endpoints::{Endpoint, EndpointError, RemoteTargets};
use mdoctor::flags::{resolve_targets, EndpointArgs};

fn none() -> EndpointArgs {
    EndpointArgs {
        varnish: None,
        fpm_status: None,
        fpm_conf: None,
        nginx_status: None,
        redis_cache: None,
        redis_session: None,
        redis_page_cache: None,
        redis_password: None,
        opensearch: None,
        opensearch_auth: None,
        storefront_url: None,
    }
}

#[test]
fn flags_get_the_ports_of_their_services() {
    let t = EndpointArgs {
        varnish: Some("v".into()),
        redis_cache: Some("r".into()),
        opensearch: Some("o".into()),
        fpm_status: Some("http://w/status".into()),
        ..none()
    }
    .to_targets()
    .unwrap();
    assert_eq!(t.varnish.unwrap().port, 6081);
    assert_eq!(t.redis_cache.unwrap().port, 6379);
    assert_eq!(t.opensearch.unwrap().port, 9200);
    assert_eq!(t.fpm_status_url.unwrap().port, 80);
    assert!(t.redis_session.is_none());
}

#[test]
fn the_first_malformed_flag_is_reported() {
    let err = EndpointArgs {
        redis_session: Some("host:notaport".into()),
        storefront_url: Some("https://shop/".into()),
        ..none()
    }
    .to_targets()
    .unwrap_err();
    assert_eq!(err, "--redis-session: invalid port in 'host:notaport'");
    let err = EndpointArgs { storefront_url: Some("https://shop/".into()), ..none() }
        .to_targets()
        .unwrap_err();
    assert!(err.starts_with("--storefront-url: unsupported URL scheme 'https'"));
}

#[test]
fn flags_win_over_the_file() {
    let file = RemoteTargets {
        redis_cache: Some(Endpoint::parse("from-file", 6379).unwrap()),
        opensearch: Some(Endpoint::parse("search-file", 9200).unwrap()),
        ..Default::default()
    };
    let args = EndpointArgs { redis_cache: Some("from-cli".into()), ..none() };
    let t = resolve_targets(&args, Some(Ok(file))).unwrap();
    assert_eq!(t.redis_cache.unwrap().host, "from-cli");
    assert_eq!(t.opensearch.unwrap().host, "search-file");
    let alone = resolve_targets(&args, None).unwrap();
    assert_eq!(alone.redis_cache.unwrap().host, "from-cli");
}

#[test]
fn an_unusable_file_is_an_error() {
    let lost = EndpointError::Read { path: "x.toml".into(), source: "not found".into() };
    let err = resolve_targets(&none(), Some(Err(lost))).unwrap_err();
    assert_eq!(err, "cannot read endpoint config x.toml: not found");
}
