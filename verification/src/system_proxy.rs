//! The system stage of resolution: the raw answer of the platform's proxy
//! settings, classified into a manual endpoint, an auto-configuration URL,
//! or nothing. Querying the platform itself is the caller's work.
use vstd::prelude::*;
use crate::directive::DirectiveView;
use crate::directive::ProxyDirective;
use crate::directive::directive_wf;
use crate::directive::parse_proxy_value;
use crate::directive::proxy_value_of;
use crate::env_proxy::opt_str_view;
use crate::pac::is_pac_url;
use crate::pac::is_pac_url_spec;
use crate::text::str_chars;

verus! {

/// What the operating system's proxy settings say for a request.
#[derive(Debug, Clone, PartialEq, Eq)]
pub enum SystemProxyResult {
    /// A manual proxy endpoint.
    ManualProxy(ProxyDirective),
    /// The URL of a PAC script that decides per request.
    AutoConfigUrl(String),
    /// No usable proxy configuration.
    NotConfigured,
}

/// The mathematical shape of the system answer.
pub enum SystemProxyResultView {
    ManualProxy(DirectiveView),
    AutoConfigUrl(Seq<char>),
    NotConfigured,
}

impl View for SystemProxyResult {
    type V = SystemProxyResultView;

    open spec fn view(&self) -> SystemProxyResultView {
        match self {
            SystemProxyResult::ManualProxy(d) => SystemProxyResultView::ManualProxy(d@),
            SystemProxyResult::AutoConfigUrl(u) => SystemProxyResultView::AutoConfigUrl(u@),
            SystemProxyResult::NotConfigured => SystemProxyResultView::NotConfigured,
        }
    }
}

/// How a raw settings string is read: a PAC-looking string is an
/// auto-configuration URL; anything else is a manual endpoint when it
/// denotes one; a failure to read it, or no string at all, degrades to no
/// configuration, never to an error.
pub open spec fn classify_system_spec(raw: Option<Seq<char>>) -> SystemProxyResultView {
    match raw {
        None => SystemProxyResultView::NotConfigured,
        Some(s) => if is_pac_url_spec(s) {
            SystemProxyResultView::AutoConfigUrl(s)
        } else {
            match proxy_value_of(s) {
                Some(d) => SystemProxyResultView::ManualProxy(d),
                None => SystemProxyResultView::NotConfigured,
            }
        },
    }
}

/// Whether a classified system answer is well formed.
pub open spec fn system_result_wf(r: SystemProxyResultView) -> bool {
    match r {
        SystemProxyResultView::ManualProxy(d) => directive_wf(d),
        _ => true,
    }
}

/// The system stage: classifies the raw string the platform query handed
/// back, if it handed one back at all.
pub fn get_system_proxy(raw: &Option<String>) -> (r: SystemProxyResult)
    ensures
        r@ == classify_system_spec(opt_str_view(*raw)),
        system_result_wf(r@),
{
    match raw {
        None => SystemProxyResult::NotConfigured,
        Some(s) => {
            if is_pac_url(s.as_str()) {
                SystemProxyResult::AutoConfigUrl(s.clone())
            } else {
                match parse_proxy_value(&str_chars(s.as_str())) {
                    Some(d) => SystemProxyResult::ManualProxy(d),
                    None => SystemProxyResult::NotConfigured,
                }
            }
        },
    }
}

} // verus!
