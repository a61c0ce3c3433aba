//! The resolved proxy decision: a direct connection, or one proxy endpoint
//! tagged with the protocol spoken to it; with the parsers that read
//! `host:port` texts and proxy-URL values into it, and the renderer that
//! prints it back.
use vstd::prelude::*;
use crate::numbers::dec_digits;
use crate::numbers::is_digit;
use crate::numbers::lemma_dec_digits_value;
use crate::numbers::parse_port;
use crate::numbers::port_of;
use crate::numbers::push_decimal;
use crate::text::is_space;
use crate::text::lemma_trim_seq_id;
use crate::text::chars_to_string;
use crate::text::lemma_rfind_char_at;
use crate::text::push_all;
use crate::text::rfind_char;
use crate::text::seq_starts_with;
use crate::text::starts_with;
use crate::text::str_chars;
use crate::text::subvec;
use crate::text::trim;
use crate::text::trim_seq;

verus! {

/// The protocol spoken to a manually configured proxy.
#[derive(Clone, Copy, Debug, PartialEq, Eq, Structural)]
pub enum ProxyScheme {
    Http,
    Https,
    Socks5,
}

/// One resolved proxy decision.
#[derive(Clone, Debug, PartialEq, Eq)]
pub enum ProxyDirective {
    Direct,
    Manual { scheme: ProxyScheme, host: String, port: u16 },
}

/// The mathematical shape of a directive: the host as a character sequence.
pub enum DirectiveView {
    Direct,
    Manual { scheme: ProxyScheme, host: Seq<char>, port: u16 },
}

impl View for ProxyDirective {
    type V = DirectiveView;

    open spec fn view(&self) -> DirectiveView {
        match self {
            ProxyDirective::Direct => DirectiveView::Direct,
            ProxyDirective::Manual { scheme, host, port } => DirectiveView::Manual {
                scheme: *scheme,
                host: host@,
                port: *port,
            },
        }
    }
}

/// A directive is well formed when a manual proxy names a non-empty host.
pub open spec fn directive_wf(d: DirectiveView) -> bool {
    match d {
        DirectiveView::Direct => true,
        DirectiveView::Manual { host, .. } => host.len() > 0,
    }
}

pub open spec fn scheme_prefix(s: ProxyScheme) -> Seq<char> {
    match s {
        ProxyScheme::Http => "http://"@,
        ProxyScheme::Https => "https://"@,
        ProxyScheme::Socks5 => "socks5://"@,
    }
}

/// The one-line rendering handed back to callers: `DIRECT`, or
/// `<scheme>://host:port`.
pub open spec fn directive_str(d: DirectiveView) -> Seq<char> {
    match d {
        DirectiveView::Direct => "DIRECT"@,
        DirectiveView::Manual { scheme, host, port } => scheme_prefix(scheme) + host + seq![':']
            + dec_digits(port as int),
    }
}

/// The view of an optional directive.
pub open spec fn opt_directive_view(o: Option<ProxyDirective>) -> Option<DirectiveView> {
    match o {
        Some(d) => Some(d@),
        None => None,
    }
}

impl ProxyDirective {
    /// Renders the directive as the string surfaced to callers.
    pub fn to_proxy_string(&self) -> (r: String)
        ensures
            r@ == directive_str(self@),
    {
        match self {
            ProxyDirective::Direct => "DIRECT".to_owned(),
            ProxyDirective::Manual { scheme, host, port } => {
                let prefix: &str = match scheme {
                    ProxyScheme::Http => "http://",
                    ProxyScheme::Https => "https://",
                    ProxyScheme::Socks5 => "socks5://",
                };
                let mut v = str_chars(prefix);
                let host_chars = str_chars(host.as_str());
                push_all(&mut v, &host_chars);
                v.push(':');
                push_decimal(&mut v, *port);
                proof {
                    assert(v@ =~= directive_str(self@));
                }
                chars_to_string(&v)
            },
        }
    }
}

/// The directive a `host:port` text denotes for scheme `sch`, when well
/// formed: a non-empty host before the last colon, a valid port after it.
pub open spec fn host_port_of(sch: ProxyScheme, s: Seq<char>) -> Option<DirectiveView> {
    let i = rfind_char(s, ':');
    if i >= 1 {
        match port_of(s.skip(i + 1)) {
            Some(p) => Some(DirectiveView::Manual { scheme: sch, host: s.take(i), port: p }),
            None => None,
        }
    } else {
        None
    }
}

/// Parses a `host:port` text into a manual directive for scheme `sch`.
pub fn parse_host_port(sch: ProxyScheme, v: &Vec<char>) -> (r: Option<ProxyDirective>)
    ensures
        opt_directive_view(r) == host_port_of(sch, v@),
        r matches Some(d) ==> directive_wf(d@),
{
    let n: usize = v.len();
    let mut i: usize = n;
    while i > 0 && v[i - 1] != ':'
        invariant
            i <= n,
            n == v@.len(),
            forall|j: int| i <= j < n ==> v@[j] != ':',
        decreases i,
    {
        i -= 1;
    }
    proof {
        lemma_rfind_char_at(v@, ':', i - 1);
    }
    if i <= 1 {
        return None;
    }
    let port_part = subvec(v, i, n);
    proof {
        assert(port_part@ =~= v@.skip(i - 1 + 1));
    }
    match parse_port(&port_part) {
        Some(p) => {
            let host_part = subvec(v, 0, i - 1);
            proof {
                assert(host_part@ =~= v@.take(i - 1));
            }
            let host = chars_to_string(&host_part);
            Some(ProxyDirective::Manual { scheme: sch, host, port: p })
        },
        None => None,
    }
}

/// The directive an environment-style proxy value denotes: an optional
/// scheme prefix, then `host:port`, with at most one trailing slash.
pub open spec fn proxy_value_of(s: Seq<char>) -> Option<DirectiveView> {
    let t = trim_seq(s);
    let sch = if seq_starts_with(t, "http://"@) {
        ProxyScheme::Http
    } else if seq_starts_with(t, "https://"@) {
        ProxyScheme::Https
    } else if seq_starts_with(t, "socks5://"@) {
        ProxyScheme::Socks5
    } else if seq_starts_with(t, "socks://"@) {
        ProxyScheme::Socks5
    } else {
        ProxyScheme::Http
    };
    let rest = t.skip(scheme_prefix_len(t));
    let bare = if rest.len() > 0 && rest.last() == '/' {
        rest.drop_last()
    } else {
        rest
    };
    host_port_of(sch, bare)
}

/// How many leading characters of `t` are a recognized scheme prefix.
pub open spec fn scheme_prefix_len(t: Seq<char>) -> int {
    if seq_starts_with(t, "http://"@) {
        7
    } else if seq_starts_with(t, "https://"@) {
        8
    } else if seq_starts_with(t, "socks5://"@) {
        9
    } else if seq_starts_with(t, "socks://"@) {
        8
    } else {
        0
    }
}

/// Rendering a manual directive and reading the text back restores it
/// exactly: `parse_proxy_value`'s meaning inverts `to_proxy_string`'s on
/// every well-formed manual directive.
pub proof fn lemma_render_parse_round_trip(d: DirectiveView)
    requires
        directive_wf(d),
        d is Manual,
    ensures
        proxy_value_of(directive_str(d)) == Some(d),
{
    reveal_strlit("http://");
    reveal_strlit("https://");
    reveal_strlit("socks5://");
    reveal_strlit("socks://");
    match d {
        DirectiveView::Direct => {},
        DirectiveView::Manual { scheme, host, port } => {
            let pre = scheme_prefix(scheme);
            let s = directive_str(d);
            lemma_dec_digits_value(port as int);
            let digs = dec_digits(port as int);
            assert(s == pre + host + seq![':'] + digs);
            assert(s.len() == pre.len() + host.len() + 1 + digs.len());
            // The rendering starts with a letter and ends with a digit, so
            // trimming leaves it alone.
            assert(s[0] == pre[0]);
            assert(s.last() == digs.last());
            assert(is_digit(digs.last()));
            assert(!is_space(s[0]));
            assert(!is_space(s.last()));
            lemma_trim_seq_id(s);
            // The scheme prefix chain picks out exactly the rendered one.
            match scheme {
                ProxyScheme::Http => {
                    assert(s.subrange(0, 7) =~= pre);
                    assert(seq_starts_with(s, "http://"@));
                },
                ProxyScheme::Https => {
                    assert(s.subrange(0, 8) =~= pre);
                    assert(seq_starts_with(s, "https://"@));
                    assert(s[4] == 's' && "http://"@[4] == ':');
                    assert(!seq_starts_with(s, "http://"@));
                },
                ProxyScheme::Socks5 => {
                    assert(s.subrange(0, 9) =~= pre);
                    assert(seq_starts_with(s, "socks5://"@));
                    assert(s[0] == 's' && "http://"@[0] == 'h' && "https://"@[0] == 'h');
                    assert(!seq_starts_with(s, "http://"@));
                    assert(!seq_starts_with(s, "https://"@));
                },
            }
            assert(scheme_prefix_len(s) == pre.len());
            let rest = s.skip(pre.len() as int);
            assert(rest =~= host + seq![':'] + digs);
            // The last character is a digit, not a slash to drop.
            assert(rest.last() == digs.last());
            assert(rest.last() != '/');
            // The separating colon is the last one: everything after it is
            // a digit.
            assert(rest[host.len() as int] == ':');
            assert forall|j: int| host.len() < j < rest.len() implies rest[j] != ':' by {
                assert(rest[j] == digs[j - host.len() - 1]);
                assert(is_digit(digs[j - host.len() - 1]));
            }
            lemma_rfind_char_at(rest, ':', host.len() as int);
            assert(rest.skip(host.len() as int + 1) =~= digs);
            assert(port_of(digs) == Some(port));
            assert(rest.take(host.len() as int) =~= host);
        },
    }
}

/// Parses a proxy value such as `http://p:8080` into a manual directive.
pub fn parse_proxy_value(v: &Vec<char>) -> (r: Option<ProxyDirective>)
    ensures
        opt_directive_view(r) == proxy_value_of(v@),
        r matches Some(d) ==> directive_wf(d@),
{
    let t = trim(v);
    proof {
        reveal_strlit("http://");
        reveal_strlit("https://");
        reveal_strlit("socks5://");
        reveal_strlit("socks://");
    }
    let p_http = str_chars("http://");
    let p_https = str_chars("https://");
    let p_socks5 = str_chars("socks5://");
    let p_socks = str_chars("socks://");
    let mut sch = ProxyScheme::Http;
    let mut plen: usize = 0;
    if starts_with(&t, &p_http) {
        sch = ProxyScheme::Http;
        plen = 7;
    } else if starts_with(&t, &p_https) {
        sch = ProxyScheme::Https;
        plen = 8;
    } else if starts_with(&t, &p_socks5) {
        sch = ProxyScheme::Socks5;
        plen = 9;
    } else if starts_with(&t, &p_socks) {
        sch = ProxyScheme::Socks5;
        plen = 8;
    }
    proof {
        assert(plen == scheme_prefix_len(t@));
    }
    let mut rest = subvec(&t, plen, t.len());
    proof {
        assert(rest@ =~= t@.skip(plen as int));
    }
    if rest.len() > 0 && rest[rest.len() - 1] == '/' {
        let ghost before = rest@;
        rest.pop();
        proof {
            assert(rest@ =~= before.drop_last());
        }
    }
    parse_host_port(sch, &rest)
}

} // verus!
