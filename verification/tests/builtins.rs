use proxyparser::builtins::Weekday;
use proxyparser::builtins::date_range;
use proxyparser::builtins::dns_domain_is;
use proxyparser::builtins::dns_domain_levels;
use proxyparser::builtins::is_plain_host_name;
use proxyparser::builtins::local_host_or_domain_is;
use proxyparser::builtins::sh_exp_match;
use proxyparser::builtins::time_range;
use proxyparser::builtins::weekday_range;
use proxyparser::ipv4::is_in_net;

#[test]
fn sh_exp_match_needs_the_leading_dot() {
    assert!(sh_exp_match("www.example.com", "*.example.com"));
    assert!(!sh_exp_match("example.com", "*.example.com"));
}

#[test]
fn sh_exp_match_star_and_question() {
    assert!(sh_exp_match("anything", "*"));
    assert!(sh_exp_match("", "*"));
    assert!(sh_exp_match("abc", "a?c"));
    assert!(!sh_exp_match("abbc", "a?c"));
    assert!(sh_exp_match("http://host/path", "http://*/path"));
    assert!(!sh_exp_match("http://host/other", "http://*/path"));
}

#[test]
fn sh_exp_match_is_anchored_and_literal() {
    assert!(!sh_exp_match("www.example.com.evil.net", "*.example.com"));
    assert!(sh_exp_match("a|b", "a|b"));
    assert!(!sh_exp_match("ab", "a|b"));
    assert!(!sh_exp_match("aXb", "a(b"));
    assert!(sh_exp_match("a(b", "a(b"));
}

#[test]
fn dns_domain_is_wants_a_boundary() {
    assert!(dns_domain_is("www.example.com", "example.com"));
    assert!(!dns_domain_is("wwwexample.com", "example.com"));
    assert!(dns_domain_is("example.com", "example.com"));
    assert!(!dns_domain_is("com", "example.com"));
}

#[test]
fn is_in_net_masks_the_address() {
    assert!(is_in_net("192.168.1.5", "192.168.1.0", "255.255.255.0"));
    assert!(!is_in_net("192.168.2.5", "192.168.1.0", "255.255.255.0"));
    assert!(is_in_net("10.9.8.7", "10.0.0.0", "255.0.0.0"));
    assert!(is_in_net("1.2.3.4", "5.6.7.8", "0.0.0.0"));
}

#[test]
fn is_in_net_rejects_what_does_not_parse() {
    assert!(!is_in_net("not-an-ip", "192.168.1.0", "255.255.255.0"));
    assert!(!is_in_net("192.168.1.5", "192.168.1", "255.255.255.0"));
    assert!(!is_in_net("192.168.1.5", "192.168.1.0", "255.255.256.0"));
    assert!(!is_in_net("192.168.01.5", "192.168.1.0", "255.255.255.0"));
    assert!(!is_in_net("1.2.3.4.5", "1.2.3.4", "255.255.255.255"));
}

#[test]
fn plain_host_names_have_no_dot() {
    assert!(is_plain_host_name("intranet"));
    assert!(!is_plain_host_name("www.example.com"));
}

#[test]
fn local_host_or_domain_matches_itself_or_below() {
    assert!(local_host_or_domain_is("example.com", "example.com"));
    assert!(local_host_or_domain_is("www.example.com", "example.com"));
    assert!(!local_host_or_domain_is("wwwexample.com", "example.com"));
}

#[test]
fn domain_levels_count_dots() {
    assert_eq!(dns_domain_levels("www.example.com"), 2);
    assert_eq!(dns_domain_levels("intranet"), 0);
    assert_eq!(dns_domain_levels(""), 0);
}

#[test]
fn weekday_range_wraps_past_the_weekend() {
    assert!(weekday_range(Weekday::Saturday, "SAT", Some("MON")));
    assert!(weekday_range(Weekday::Sunday, "SAT", Some("MON")));
    assert!(weekday_range(Weekday::Monday, "SAT", Some("MON")));
    assert!(!weekday_range(Weekday::Wednesday, "SAT", Some("MON")));
}

#[test]
fn weekday_range_single_day_and_plain_range() {
    assert!(weekday_range(Weekday::Friday, "FRI", None));
    assert!(!weekday_range(Weekday::Thursday, "FRI", None));
    assert!(weekday_range(Weekday::Tuesday, "MON", Some("WED")));
    assert!(!weekday_range(Weekday::Thursday, "MON", Some("WED")));
    assert!(weekday_range(Weekday::Friday, "fri", None));
}

#[test]
fn weekday_range_ignores_a_gmt_marker() {
    assert!(weekday_range(Weekday::Friday, "FRI", Some("GMT")));
    assert!(!weekday_range(Weekday::Thursday, "FRI", Some("GMT")));
}

#[test]
fn date_and_time_ranges_are_stubbed_true() {
    assert!(date_range());
    assert!(time_range());
}
