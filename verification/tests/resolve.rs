use proxyparser::PacFetch;
use proxyparser::ResolveError;
use proxyparser::directive::ProxyDirective;
use proxyparser::directive::ProxyScheme;
use proxyparser::env_proxy::EnvSnapshot;
use proxyparser::env_proxy::get_env_proxy;
use proxyparser::find_proxy_for_url;
use proxyparser::log::LogConfig;
use proxyparser::log::LogLevel;
use proxyparser::log::get_log_level;
use proxyparser::log::set_log_level;
use proxyparser::log::should_log;
use proxyparser::pac::PacError;
use proxyparser::system_proxy::SystemProxyResult;
use proxyparser::system_proxy::get_system_proxy;

fn no_env() -> EnvSnapshot {
    EnvSnapshot {
        http_proxy: None,
        https_proxy: None,
        ftp_proxy: None,
        socks_proxy: None,
        no_proxy: None,
    }
}

fn manual(scheme: ProxyScheme, host: &str, port: u16) -> ProxyDirective {
    ProxyDirective::Manual { scheme, host: host.to_string(), port }
}

#[test]
fn no_proxy_suffix_wins_over_everything() {
    let env = EnvSnapshot {
        http_proxy: Some("http://p:8080".to_string()),
        https_proxy: Some("http://p:8080".to_string()),
        no_proxy: Some("example.com".to_string()),
        ..no_env()
    };
    let system = Some("http://sysproxy:3128".to_string());
    let pac = PacFetch::Script("PROXY 10.0.0.1:3128".to_string());
    let got = find_proxy_for_url("https://sub.example.com/path", &env, &system, &pac).unwrap();
    assert_eq!(got, ProxyDirective::Direct);
    assert_eq!(got.to_proxy_string(), "DIRECT");
}

#[test]
fn no_proxy_matches_the_host_not_the_url() {
    let env = EnvSnapshot {
        no_proxy: Some(" other.net , sub.example.com ".to_string()),
        ..no_env()
    };
    let got = find_proxy_for_url("https://sub.example.com/path", &env, &None, &PacFetch::NotAttempted);
    assert_eq!(got.unwrap(), ProxyDirective::Direct);
}

#[test]
fn http_proxy_matches_http_urls() {
    let env = EnvSnapshot { http_proxy: Some("http://p:8080".to_string()), ..no_env() };
    let got = get_env_proxy("http://www.example.com/", &env);
    assert_eq!(got, Some(manual(ProxyScheme::Http, "p", 8080)));
}

#[test]
fn http_proxy_does_not_claim_https_urls() {
    let env = EnvSnapshot { http_proxy: Some("http://p:8080".to_string()), ..no_env() };
    assert_eq!(get_env_proxy("https://www.example.com/", &env), None);
    let got = find_proxy_for_url("https://www.example.com/", &env, &None, &PacFetch::NotAttempted);
    assert_eq!(got.unwrap(), ProxyDirective::Direct);
}

#[test]
fn https_proxy_claims_https_urls() {
    let env = EnvSnapshot {
        http_proxy: Some("http://p:8080".to_string()),
        https_proxy: Some("http://q:8443".to_string()),
        ..no_env()
    };
    let got = get_env_proxy("https://www.example.com/", &env);
    assert_eq!(got, Some(manual(ProxyScheme::Http, "q", 8443)));
}

#[test]
fn scheme_matching_uses_the_parsed_scheme() {
    let env = EnvSnapshot { http_proxy: Some("http://p:8080".to_string()), ..no_env() };
    let got = get_env_proxy("HTTP://WWW.EXAMPLE.COM/", &env);
    assert_eq!(got, Some(manual(ProxyScheme::Http, "p", 8080)));
}

#[test]
fn socks_and_ftp_have_their_own_variables() {
    let env = EnvSnapshot {
        socks_proxy: Some("socks5://s:1080".to_string()),
        ftp_proxy: Some("ftp-gw:2121".to_string()),
        ..no_env()
    };
    assert_eq!(
        get_env_proxy("socks5://host/", &env),
        Some(manual(ProxyScheme::Socks5, "s", 1080))
    );
    assert_eq!(
        get_env_proxy("ftp://host/", &env),
        Some(manual(ProxyScheme::Http, "ftp-gw", 2121))
    );
}

#[test]
fn empty_and_unparsable_values_stay_silent() {
    let env = EnvSnapshot { http_proxy: Some(String::new()), ..no_env() };
    assert_eq!(get_env_proxy("http://host/", &env), None);
    let env2 = EnvSnapshot { http_proxy: Some("just-a-host".to_string()), ..no_env() };
    assert_eq!(get_env_proxy("http://host/", &env2), None);
}

#[test]
fn env_values_may_carry_a_trailing_slash() {
    let env = EnvSnapshot { http_proxy: Some("http://p:8080/".to_string()), ..no_env() };
    assert_eq!(get_env_proxy("http://host/", &env), Some(manual(ProxyScheme::Http, "p", 8080)));
}

#[test]
fn system_answers_are_classified() {
    assert_eq!(get_system_proxy(&None), SystemProxyResult::NotConfigured);
    assert_eq!(
        get_system_proxy(&Some("http://127.0.0.1:8080".to_string())),
        SystemProxyResult::ManualProxy(manual(ProxyScheme::Http, "127.0.0.1", 8080))
    );
    assert_eq!(
        get_system_proxy(&Some("http://conf.corp/proxy.pac".to_string())),
        SystemProxyResult::AutoConfigUrl("http://conf.corp/proxy.pac".to_string())
    );
    assert_eq!(
        get_system_proxy(&Some("???".to_string())),
        SystemProxyResult::NotConfigured
    );
}

#[test]
fn a_manual_system_proxy_is_used_when_env_is_silent() {
    let system = Some("http://127.0.0.1:8080".to_string());
    let got = find_proxy_for_url("http://host/", &no_env(), &system, &PacFetch::NotAttempted);
    assert_eq!(got.unwrap(), manual(ProxyScheme::Http, "127.0.0.1", 8080));
}

#[test]
fn a_pac_script_result_is_normalized() {
    let system = Some("http://conf.corp/proxy.pac".to_string());
    let pac = PacFetch::Script("PROXY 10.0.0.1:3128; DIRECT".to_string());
    let got = find_proxy_for_url("http://host/", &no_env(), &system, &pac).unwrap();
    assert_eq!(got.to_proxy_string(), "http://10.0.0.1:3128");
}

#[test]
fn pac_failure_still_resolves_to_direct() {
    let system = Some("http://conf.corp/proxy.pac".to_string());
    for pac in [
        PacFetch::Failed(PacError::Download),
        PacFetch::Failed(PacError::HttpStatus(500)),
        PacFetch::Failed(PacError::Timeout),
        PacFetch::Failed(PacError::ScriptFailure),
        PacFetch::NotAttempted,
    ] {
        let got = find_proxy_for_url("http://host/", &no_env(), &system, &pac).unwrap();
        assert_eq!(got.to_proxy_string(), "DIRECT");
    }
}

#[test]
fn nothing_configured_means_direct() {
    let got = find_proxy_for_url("https://www.google.com", &no_env(), &None, &PacFetch::NotAttempted);
    assert_eq!(got.unwrap(), ProxyDirective::Direct);
}

#[test]
fn only_an_unparsable_url_is_an_error() {
    let got = find_proxy_for_url("not a url", &no_env(), &None, &PacFetch::NotAttempted);
    assert_eq!(got, Err(ResolveError::InvalidUrl));
    let got2 = find_proxy_for_url("data:text/plain,hi", &no_env(), &None, &PacFetch::NotAttempted);
    assert_eq!(got2, Err(ResolveError::InvalidUrl));
}

#[test]
fn log_level_is_plain_passed_state() {
    let mut cfg = LogConfig::default();
    assert_eq!(get_log_level(&cfg), LogLevel::Info);
    assert!(should_log(&cfg, LogLevel::Warn));
    assert!(!should_log(&cfg, LogLevel::Debug));
    set_log_level(&mut cfg, LogLevel::Error);
    assert_eq!(get_log_level(&cfg), LogLevel::Error);
    assert!(!should_log(&cfg, LogLevel::Info));
    assert!(should_log(&cfg, LogLevel::Error));
}
