//! PAC scripts from the library's side of the sandbox: recognizing a PAC
//! URL, the errors an evaluation can end in, and the normalization of the
//! string a script's `FindProxyForURL` returns into one directive.
use vstd::prelude::*;
use crate::directive::DirectiveView;
use crate::directive::ProxyDirective;
use crate::directive::ProxyScheme;
use crate::directive::directive_wf;
use crate::directive::host_port_of;
use crate::directive::opt_directive_view;
use crate::directive::parse_host_port;
use crate::text::chars_eq;
use crate::text::contains_seq;
use crate::text::contains_sub;
use crate::text::ends_with;
use crate::text::has_char;
use crate::text::lower_seq;
use crate::text::seq_ends_with;
use crate::text::seq_starts_with;
use crate::text::split_on;
use crate::text::split_seq;
use crate::text::starts_with;
use crate::text::str_chars;
use crate::text::subvec;
use crate::text::to_lower_vec;
use crate::text::to_upper_vec;
use crate::text::trim;
use crate::text::trim_seq;
use crate::text::upper_seq;

verus! {

/// Why a PAC evaluation produced no directive.
#[derive(Clone, Copy, Debug, PartialEq, Eq, Structural)]
pub enum PacError {
    /// The script could not be fetched at all.
    Download,
    /// The fetch answered with a status outside the success range.
    HttpStatus(u16),
    /// The script failed to parse or run, or offered no callable
    /// `FindProxyForURL`.
    ScriptFailure,
    /// The evaluation exceeded its wall-clock budget.
    Timeout,
}

/// Whether a system-handed string names a PAC script rather than a manual
/// proxy: it ends in `.pac`, or mentions one of the conventional script
/// file names.
pub open spec fn is_pac_url_spec(s: Seq<char>) -> bool {
    let l = lower_seq(s);
    seq_ends_with(l, ".pac"@) || contains_seq(l, "proxy.pac"@) || contains_seq(l, "wpad.dat"@)
}

pub fn is_pac_url(s: &str) -> (r: bool)
    ensures
        r == is_pac_url_spec(s@),
{
    let l = to_lower_vec(&str_chars(s));
    if ends_with(&l, &str_chars(".pac")) {
        return true;
    }
    if contains_sub(&l, &str_chars("proxy.pac")) {
        return true;
    }
    contains_sub(&l, &str_chars("wpad.dat"))
}

/// One semicolon segment of a PAC return string read as a directive.
/// `None` both for an explicit `DIRECT` (the scan goes on past it) and for
/// a segment that denotes nothing.
pub open spec fn segment_directive(seg: Seq<char>) -> Option<DirectiveView> {
    if upper_seq(seg) == "DIRECT"@ {
        None
    } else if seq_starts_with(seg, "PROXY "@) {
        host_port_of(ProxyScheme::Http, trim_seq(seg.skip(6)))
    } else if seq_starts_with(seg, "HTTPS "@) {
        host_port_of(ProxyScheme::Https, trim_seq(seg.skip(6)))
    } else if seq_starts_with(seg, "SOCKS5 "@) {
        host_port_of(ProxyScheme::Socks5, trim_seq(seg.skip(7)))
    } else if seq_starts_with(seg, "SOCKS "@) {
        host_port_of(ProxyScheme::Socks5, trim_seq(seg.skip(6)))
    } else if seg.contains(':') && !contains_seq(seg, "://"@) {
        host_port_of(ProxyScheme::Http, seg)
    } else {
        None
    }
}

/// The first segment that denotes a proxy wins; none at all falls open to
/// a direct connection.
pub open spec fn scan_segments(segs: Seq<Seq<char>>) -> DirectiveView
    decreases segs.len(),
{
    if segs.len() == 0 {
        DirectiveView::Direct
    } else {
        match segment_directive(trim_seq(segs[0])) {
            Some(d) => d,
            None => scan_segments(segs.drop_first()),
        }
    }
}

/// The normalization of a whole PAC return string: a lone `DIRECT` stands;
/// otherwise the first semicolon segment that denotes a proxy wins; a
/// string denoting nothing falls open to `Direct`, never to an error.
pub open spec fn normalize_spec(raw: Seq<char>) -> DirectiveView {
    let t = trim_seq(raw);
    if upper_seq(t) == "DIRECT"@ {
        DirectiveView::Direct
    } else {
        scan_segments(split_seq(t, ';'))
    }
}

fn segment_to_directive(seg: &Vec<char>) -> (r: Option<ProxyDirective>)
    ensures
        opt_directive_view(r) == segment_directive(seg@),
        r matches Some(d) ==> directive_wf(d@),
{
    if chars_eq(&to_upper_vec(seg), &str_chars("DIRECT")) {
        return None;
    }
    proof {
        reveal_strlit("PROXY ");
        reveal_strlit("HTTPS ");
        reveal_strlit("SOCKS5 ");
        reveal_strlit("SOCKS ");
    }
    if starts_with(seg, &str_chars("PROXY ")) {
        let rest = trim(&subvec(seg, 6, seg.len()));
        proof {
            assert(seg@.subrange(6, seg@.len() as int) =~= seg@.skip(6));
        }
        return parse_host_port(ProxyScheme::Http, &rest);
    }
    if starts_with(seg, &str_chars("HTTPS ")) {
        let rest = trim(&subvec(seg, 6, seg.len()));
        proof {
            assert(seg@.subrange(6, seg@.len() as int) =~= seg@.skip(6));
        }
        return parse_host_port(ProxyScheme::Https, &rest);
    }
    if starts_with(seg, &str_chars("SOCKS5 ")) {
        let rest = trim(&subvec(seg, 7, seg.len()));
        proof {
            assert(seg@.subrange(7, seg@.len() as int) =~= seg@.skip(7));
        }
        return parse_host_port(ProxyScheme::Socks5, &rest);
    }
    if starts_with(seg, &str_chars("SOCKS ")) {
        let rest = trim(&subvec(seg, 6, seg.len()));
        proof {
            assert(seg@.subrange(6, seg@.len() as int) =~= seg@.skip(6));
        }
        return parse_host_port(ProxyScheme::Socks5, &rest);
    }
    if has_char(seg, ':') && !contains_sub(seg, &str_chars("://")) {
        return parse_host_port(ProxyScheme::Http, seg);
    }
    None
}

/// Normalizes the string a PAC script returned into one directive.
pub fn normalize_pac_result(raw: &str) -> (d: ProxyDirective)
    ensures
        d@ == normalize_spec(raw@),
        directive_wf(d@),
{
    let v = str_chars(raw);
    let t = trim(&v);
    if chars_eq(&to_upper_vec(&t), &str_chars("DIRECT")) {
        return ProxyDirective::Direct;
    }
    let parts = split_on(&t, ';');
    let ghost all = split_seq(trim_seq(raw@), ';');
    proof {
        assert(parts.deep_view().len() == parts@.len());
        assert(all.skip(0) =~~= all);
    }
    let mut k: usize = 0;
    while k < parts.len()
        invariant
            k <= parts@.len(),
            parts.deep_view() == all,
            all == split_seq(trim_seq(raw@), ';'),
            upper_seq(trim_seq(raw@)) != "DIRECT"@,
            scan_segments(all) == scan_segments(all.skip(k as int)),
        decreases parts@.len() - k,
    {
        let seg = trim(&parts[k]);
        proof {
            assert(parts@[k as int]@ =~= all[k as int]);
            assert(all.skip(k as int)[0] == all[k as int]);
            assert(all.skip(k as int).drop_first() =~~= all.skip(k + 1));
        }
        match segment_to_directive(&seg) {
            Some(d) => {
                return d;
            },
            None => {},
        }
        k += 1;
    }
    proof {
        assert(all.skip(parts@.len() as int).len() == 0);
    }
    ProxyDirective::Direct
}

/// The directive a PAC evaluation yields: the script's return string
/// normalized, or nothing when the evaluation produced no string.
pub fn find_proxy_via_pac(raw: Option<&str>) -> (r: Option<ProxyDirective>)
    ensures
        match raw {
            Some(s) => opt_directive_view(r) == Some(normalize_spec(s@)),
            None => r is None,
        },
        r matches Some(d) ==> directive_wf(d@),
{
    match raw {
        Some(s) => Some(normalize_pac_result(s)),
        None => None,
    }
}

} // verus!
