//! The environment stage of resolution, the highest-priority source: the
//! `no_proxy` suffix list first, then the variable matching the URL's
//! scheme.
use vstd::prelude::*;
use crate::directive::DirectiveView;
use crate::directive::ProxyDirective;
use crate::directive::directive_wf;
use crate::directive::opt_directive_view;
use crate::directive::parse_proxy_value;
use crate::directive::proxy_value_of;
use crate::text::chars_eq;
use crate::text::ends_with;
use crate::text::seq_ends_with;
use crate::text::seq_starts_with;
use crate::text::split_on;
use crate::text::split_seq;
use crate::text::starts_with;
use crate::text::str_chars;
use crate::text::trim;
use crate::text::trim_seq;
use crate::urlinfo::split_target_url;
use crate::urlinfo::url_host_of;
use crate::urlinfo::url_scheme_of;
use crate::urlinfo::url_splits;

verus! {

/// The proxy-related environment variables, read once by the caller at the
/// start of a resolution. Each field holds the variable's value, taken
/// from the lower-case name or, failing that, the upper-case one.
pub struct EnvSnapshot {
    pub http_proxy: Option<String>,
    pub https_proxy: Option<String>,
    pub ftp_proxy: Option<String>,
    pub socks_proxy: Option<String>,
    pub no_proxy: Option<String>,
}

/// The mathematical shape of the snapshot.
pub struct EnvSnapshotView {
    pub http_proxy: Option<Seq<char>>,
    pub https_proxy: Option<Seq<char>>,
    pub ftp_proxy: Option<Seq<char>>,
    pub socks_proxy: Option<Seq<char>>,
    pub no_proxy: Option<Seq<char>>,
}

/// The view of an optional text value.
pub open spec fn opt_str_view(o: Option<String>) -> Option<Seq<char>> {
    match o {
        Some(s) => Some(s@),
        None => None,
    }
}

impl View for EnvSnapshot {
    type V = EnvSnapshotView;

    open spec fn view(&self) -> EnvSnapshotView {
        EnvSnapshotView {
            http_proxy: opt_str_view(self.http_proxy),
            https_proxy: opt_str_view(self.https_proxy),
            ftp_proxy: opt_str_view(self.ftp_proxy),
            socks_proxy: opt_str_view(self.socks_proxy),
            no_proxy: opt_str_view(self.no_proxy),
        }
    }
}

/// Whether the host ends with some non-empty entry of the list, each entry
/// trimmed of surrounding whitespace: a plain suffix match, not aware of
/// label boundaries.
pub open spec fn any_suffix_entry(host: Seq<char>, entries: Seq<Seq<char>>) -> bool
    decreases entries.len(),
{
    if entries.len() == 0 {
        false
    } else {
        let e = trim_seq(entries[0]);
        (e.len() > 0 && seq_ends_with(host, e)) || any_suffix_entry(host, entries.drop_first())
    }
}

/// Whether the host is exempted by a comma-separated `no_proxy` value.
pub open spec fn host_in_no_proxy(host: Seq<char>, np: Seq<char>) -> bool {
    any_suffix_entry(host, split_seq(np, ','))
}

pub fn host_matches_no_proxy(host: &Vec<char>, np: &Vec<char>) -> (r: bool)
    ensures
        r == host_in_no_proxy(host@, np@),
{
    let parts = split_on(np, ',');
    let ghost all = split_seq(np@, ',');
    proof {
        assert(parts.deep_view().len() == parts@.len());
        assert(all.skip(0) =~~= all);
    }
    let mut k: usize = 0;
    while k < parts.len()
        invariant
            k <= parts@.len(),
            parts.deep_view() == all,
            all == split_seq(np@, ','),
            any_suffix_entry(host@, all) == any_suffix_entry(host@, all.skip(k as int)),
        decreases parts@.len() - k,
    {
        let e = trim(&parts[k]);
        proof {
            assert(parts@[k as int]@ =~= all[k as int]);
            assert(all.skip(k as int)[0] == all[k as int]);
            assert(all.skip(k as int).drop_first() =~~= all.skip(k + 1));
        }
        if e.len() > 0 && ends_with(host, &e) {
            return true;
        }
        k += 1;
    }
    proof {
        assert(all.skip(parts@.len() as int).len() == 0);
    }
    false
}

/// The variable that speaks for a scheme: each of `http`, `https` and
/// `ftp` exactly its own variable, and any `socks`-family scheme the
/// `socks_proxy` variable.
pub open spec fn scheme_env_value(scheme: Seq<char>, env: EnvSnapshotView) -> Option<Seq<char>> {
    if scheme == "http"@ {
        env.http_proxy
    } else if scheme == "https"@ {
        env.https_proxy
    } else if scheme == "ftp"@ {
        env.ftp_proxy
    } else if seq_starts_with(scheme, "socks"@) {
        env.socks_proxy
    } else {
        None
    }
}

/// What the environment alone decides for a URL: nothing for a URL that
/// does not parse; `Direct` as soon as the host matches `no_proxy`,
/// whatever else is set; otherwise the value of the scheme's variable,
/// read as a proxy endpoint, and nothing when it is absent, empty, or
/// denotes no endpoint.
pub open spec fn env_resolve_spec(url: Seq<char>, env: EnvSnapshotView) -> Option<DirectiveView> {
    if !url_splits(url) {
        None
    } else {
        let np_hit = match env.no_proxy {
            Some(np) => host_in_no_proxy(url_host_of(url), np),
            None => false,
        };
        if np_hit {
            Some(DirectiveView::Direct)
        } else {
            match scheme_env_value(url_scheme_of(url), env) {
                Some(v) => if v.len() > 0 {
                    proxy_value_of(v)
                } else {
                    None
                },
                None => None,
            }
        }
    }
}

/// The environment stage: the directive the environment variables decide
/// for this URL, if any.
pub fn get_env_proxy(url: &str, env: &EnvSnapshot) -> (r: Option<ProxyDirective>)
    ensures
        opt_directive_view(r) == env_resolve_spec(url@, env@),
        r matches Some(d) ==> directive_wf(d@),
{
    let parts = match split_target_url(url) {
        Some(p) => p,
        None => {
            return None;
        },
    };
    let host_chars = str_chars(parts.host.as_str());
    match &env.no_proxy {
        Some(np) => {
            let np_chars = str_chars(np.as_str());
            if host_matches_no_proxy(&host_chars, &np_chars) {
                return Some(ProxyDirective::Direct);
            }
        },
        None => {},
    }
    let scheme_chars = str_chars(parts.scheme.as_str());
    let value: &Option<String> = if chars_eq(&scheme_chars, &str_chars("http")) {
        &env.http_proxy
    } else if chars_eq(&scheme_chars, &str_chars("https")) {
        &env.https_proxy
    } else if chars_eq(&scheme_chars, &str_chars("ftp")) {
        &env.ftp_proxy
    } else if starts_with(&scheme_chars, &str_chars("socks")) {
        &env.socks_proxy
    } else {
        return None;
    };
    match value {
        Some(v) => {
            if v.as_str().is_empty() {
                None
            } else {
                parse_proxy_value(&str_chars(v.as_str()))
            }
        },
        None => None,
    }
}

} // verus!
