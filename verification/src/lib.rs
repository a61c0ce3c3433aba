//! Proxy auto-configuration (PAC) resolution: given a target URL, decide
//! which proxy the request should use, following the browser priority
//! order of environment variables, then system proxy settings, then a
//! downloaded PAC script, and finally a direct connection.
//!
//! Everything that decides is here; everything that touches the world
//! outside the process — reading environment variables, querying the
//! platform's settings, fetching a script, running its JavaScript — is the
//! caller's, which hands the outcomes in as plain values.
use vstd::prelude::*;

pub mod builtins;
pub mod directive;
pub mod env_proxy;
pub mod glob;
pub mod ipv4;
pub mod log;
pub mod numbers;
pub mod pac;
pub mod system_proxy;
pub mod text;
pub mod urlinfo;

use crate::directive::DirectiveView;
use crate::directive::ProxyDirective;
use crate::directive::directive_wf;
use crate::env_proxy::EnvSnapshot;
use crate::env_proxy::EnvSnapshotView;
use crate::env_proxy::env_resolve_spec;
use crate::env_proxy::get_env_proxy;
use crate::env_proxy::host_in_no_proxy;
use crate::env_proxy::opt_str_view;
use crate::pac::PacError;
use crate::pac::normalize_pac_result;
use crate::pac::normalize_spec;
use crate::system_proxy::SystemProxyResult;
use crate::system_proxy::SystemProxyResultView;
use crate::system_proxy::classify_system_spec;
use crate::system_proxy::get_system_proxy;
use crate::urlinfo::url_host_of;
use crate::urlinfo::url_splits;

verus! {

/// The outcome of the PAC fetch-and-evaluate stage, as the caller reports
/// it: not tried at all, the string the script returned, or the error the
/// attempt ended in.
#[derive(Debug, Clone, PartialEq, Eq)]
pub enum PacFetch {
    NotAttempted,
    Script(String),
    Failed(PacError),
}

/// The mathematical shape of the PAC outcome.
pub enum PacFetchView {
    NotAttempted,
    Script(Seq<char>),
    Failed(PacError),
}

impl View for PacFetch {
    type V = PacFetchView;

    open spec fn view(&self) -> PacFetchView {
        match self {
            PacFetch::NotAttempted => PacFetchView::NotAttempted,
            PacFetch::Script(s) => PacFetchView::Script(s@),
            PacFetch::Failed(e) => PacFetchView::Failed(*e),
        }
    }
}

/// The one error resolution surfaces: a target URL that does not parse.
#[derive(Debug, Clone, Copy, PartialEq, Eq, Structural)]
pub enum ResolveError {
    InvalidUrl,
}

/// What the PAC stage contributes: the script's return string normalized
/// on success, and a direct connection on any failure — a broken PAC path
/// never blocks connectivity.
pub open spec fn pac_outcome_spec(pac: PacFetchView) -> DirectiveView {
    match pac {
        PacFetchView::Script(s) => normalize_spec(s),
        _ => DirectiveView::Direct,
    }
}

/// The whole pipeline: an unparsable URL is the only error; the
/// environment wins when it decides; then the system answer, a manual
/// endpoint directly and a PAC URL through the PAC outcome; and `Direct`
/// when no stage spoke.
pub open spec fn resolve_spec(
    url: Seq<char>,
    env: EnvSnapshotView,
    sys: Option<Seq<char>>,
    pac: PacFetchView,
) -> Result<DirectiveView, ResolveError> {
    if !url_splits(url) {
        Err(ResolveError::InvalidUrl)
    } else {
        match env_resolve_spec(url, env) {
            Some(d) => Ok(d),
            None => match classify_system_spec(sys) {
                SystemProxyResultView::ManualProxy(d) => Ok(d),
                SystemProxyResultView::AutoConfigUrl(_u) => Ok(pac_outcome_spec(pac)),
                SystemProxyResultView::NotConfigured => Ok(DirectiveView::Direct),
            },
        }
    }
}

/// The view of a resolution result.
pub open spec fn resolve_result_view(r: Result<ProxyDirective, ResolveError>) -> Result<
    DirectiveView,
    ResolveError,
> {
    match r {
        Ok(d) => Ok(d@),
        Err(e) => Err(e),
    }
}

/// Resolves which proxy the request for `url` should use, from the
/// environment snapshot, the raw answer of the platform's settings query,
/// and the outcome of the PAC stage.
pub fn find_proxy_for_url(
    url: &str,
    env: &EnvSnapshot,
    system_raw: &Option<String>,
    pac: &PacFetch,
) -> (r: Result<ProxyDirective, ResolveError>)
    ensures
        resolve_result_view(r) == resolve_spec(url@, env@, opt_str_view(*system_raw), pac@),
        r matches Ok(d) ==> directive_wf(d@),
{
    match crate::urlinfo::split_target_url(url) {
        Some(_parts) => {},
        None => {
            return Err(ResolveError::InvalidUrl);
        },
    }
    match get_env_proxy(url, env) {
        Some(d) => {
            return Ok(d);
        },
        None => {},
    }
    match get_system_proxy(system_raw) {
        SystemProxyResult::ManualProxy(d) => Ok(d),
        SystemProxyResult::AutoConfigUrl(_u) => match pac {
            PacFetch::Script(s) => Ok(normalize_pac_result(s.as_str())),
            _ => Ok(ProxyDirective::Direct),
        },
        SystemProxyResult::NotConfigured => Ok(ProxyDirective::Direct),
    }
}

/// For a URL that parses, resolution always produces a directive: however
/// the environment, the system query or the PAC stage turned out, no
/// failure of theirs surfaces as an error.
pub proof fn lemma_resolution_total(
    url: Seq<char>,
    env: EnvSnapshotView,
    sys: Option<Seq<char>>,
    pac: PacFetchView,
)
    requires
        url_splits(url),
    ensures
        resolve_spec(url, env, sys, pac) is Ok,
{
}

/// A host on the `no_proxy` list goes direct, whatever else is configured:
/// the other variables, the system answer and the PAC outcome do not
/// appear on the right-hand side at all.
pub proof fn lemma_no_proxy_wins(
    url: Seq<char>,
    env: EnvSnapshotView,
    sys: Option<Seq<char>>,
    pac: PacFetchView,
    np: Seq<char>,
)
    requires
        url_splits(url),
        env.no_proxy == Some(np),
        host_in_no_proxy(url_host_of(url), np),
    ensures
        resolve_spec(url, env, sys, pac) == Ok::<DirectiveView, ResolveError>(DirectiveView::Direct),
{
}

/// An `https` URL is proxied by the environment only when `https_proxy`
/// itself speaks: with it absent or empty, and no `no_proxy` exemption,
/// the environment stage stays silent — `http_proxy` never matches it.
pub proof fn lemma_https_needs_https_proxy(url: Seq<char>, env: EnvSnapshotView)
    requires
        url_splits(url),
        crate::urlinfo::url_scheme_of(url) == "https"@,
        match env.https_proxy {
            Some(v) => v.len() == 0,
            None => true,
        },
        match env.no_proxy {
            Some(np) => !host_in_no_proxy(url_host_of(url), np),
            None => true,
        },
    ensures
        env_resolve_spec(url, env) is None,
{
    reveal_strlit("http");
    reveal_strlit("https");
    reveal_strlit("ftp");
    reveal_strlit("socks");
    assert("https"@.subrange(0, "socks"@.len() as int) =~= "https"@);
    assert("https"@[0] != "socks"@[0]);
    assert(!crate::text::seq_starts_with("https"@, "socks"@));
    assert("https"@ != "http"@);
    assert("https"@ != "ftp"@);
}

/// A PAC stage that failed, or was never tried, leaves a URL the earlier
/// stages did not claim on a direct connection — the failure never
/// propagates outward.
pub proof fn lemma_pac_failure_falls_back_direct(
    url: Seq<char>,
    env: EnvSnapshotView,
    sys: Option<Seq<char>>,
    pac: PacFetchView,
)
    requires
        url_splits(url),
        env_resolve_spec(url, env) is None,
        classify_system_spec(sys) is AutoConfigUrl,
        !(pac is Script),
    ensures
        resolve_spec(url, env, sys, pac) == Ok::<DirectiveView, ResolveError>(
            DirectiveView::Direct,
        ),
{
}

} // verus!
