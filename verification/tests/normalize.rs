use proxyparser::directive::ProxyDirective;
use proxyparser::directive::ProxyScheme;
use proxyparser::pac::find_proxy_via_pac;
use proxyparser::pac::is_pac_url;
use proxyparser::pac::normalize_pac_result;

fn manual(scheme: ProxyScheme, host: &str, port: u16) -> ProxyDirective {
    ProxyDirective::Manual { scheme, host: host.to_string(), port }
}

#[test]
fn normalize_takes_the_first_proxy_segment() {
    assert_eq!(
        normalize_pac_result("PROXY 1.2.3.4:8080; DIRECT"),
        manual(ProxyScheme::Http, "1.2.3.4", 8080)
    );
}

#[test]
fn normalize_direct_and_garbage_fall_open() {
    assert_eq!(normalize_pac_result("DIRECT"), ProxyDirective::Direct);
    assert_eq!(normalize_pac_result("  direct  "), ProxyDirective::Direct);
    assert_eq!(normalize_pac_result(""), ProxyDirective::Direct);
    assert_eq!(normalize_pac_result("garbage"), ProxyDirective::Direct);
    assert_eq!(normalize_pac_result("PROXY ; DIRECT"), ProxyDirective::Direct);
}

#[test]
fn normalize_skips_direct_and_scans_on() {
    assert_eq!(
        normalize_pac_result("DIRECT; PROXY cache.corp:3128"),
        manual(ProxyScheme::Http, "cache.corp", 3128)
    );
}

#[test]
fn normalize_knows_every_keyword() {
    assert_eq!(
        normalize_pac_result("HTTPS secure.corp:443"),
        manual(ProxyScheme::Https, "secure.corp", 443)
    );
    assert_eq!(
        normalize_pac_result("SOCKS5 s5.corp:1080"),
        manual(ProxyScheme::Socks5, "s5.corp", 1080)
    );
    assert_eq!(
        normalize_pac_result("SOCKS s4.corp:1080"),
        manual(ProxyScheme::Socks5, "s4.corp", 1080)
    );
}

#[test]
fn normalize_accepts_a_bare_endpoint() {
    assert_eq!(
        normalize_pac_result("cache.corp:3128"),
        manual(ProxyScheme::Http, "cache.corp", 3128)
    );
    assert_eq!(normalize_pac_result("http://cache.corp:3128"), ProxyDirective::Direct);
}

#[test]
fn normalize_rejects_ports_that_are_none() {
    assert_eq!(normalize_pac_result("PROXY host:"), ProxyDirective::Direct);
    assert_eq!(normalize_pac_result("PROXY host:99999"), ProxyDirective::Direct);
    assert_eq!(
        normalize_pac_result("PROXY bad:port; PROXY good.corp:8080"),
        manual(ProxyScheme::Http, "good.corp", 8080)
    );
}

#[test]
fn rendering_round_trips_the_decision() {
    assert_eq!(ProxyDirective::Direct.to_proxy_string(), "DIRECT");
    assert_eq!(
        manual(ProxyScheme::Http, "1.2.3.4", 8080).to_proxy_string(),
        "http://1.2.3.4:8080"
    );
    assert_eq!(
        manual(ProxyScheme::Https, "secure.corp", 443).to_proxy_string(),
        "https://secure.corp:443"
    );
    assert_eq!(
        manual(ProxyScheme::Socks5, "s5.corp", 1080).to_proxy_string(),
        "socks5://s5.corp:1080"
    );
}

#[test]
fn parsing_a_rendered_manual_directive_restores_it() {
    let cases = [
        manual(ProxyScheme::Http, "p", 8080),
        manual(ProxyScheme::Https, "a:b", 443),
        manual(ProxyScheme::Socks5, "s5.corp", 1080),
    ];
    for d in cases {
        let rendered = d.to_proxy_string();
        let chars: Vec<char> = rendered.chars().collect();
        assert_eq!(proxyparser::directive::parse_proxy_value(&chars), Some(d));
    }
}

#[test]
fn pac_urls_are_recognized_by_name() {
    assert!(is_pac_url("http://conf.corp/proxy.pac"));
    assert!(is_pac_url("http://conf.corp/AnyThing.PAC"));
    assert!(is_pac_url("http://conf.corp/wpad.dat?x=1"));
    assert!(!is_pac_url("http://proxy.corp:8080"));
}

#[test]
fn pac_evaluation_outcome_feeds_normalization() {
    assert_eq!(
        find_proxy_via_pac(Some("PROXY 1.2.3.4:8080; DIRECT")),
        Some(manual(ProxyScheme::Http, "1.2.3.4", 8080))
    );
    assert_eq!(find_proxy_via_pac(None), None);
}
