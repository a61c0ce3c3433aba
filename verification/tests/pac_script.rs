use boa_engine::Context;
use boa_engine::JsString;
use boa_engine::JsValue;
use boa_engine::Source;
use proxyparser::PacFetch;
use proxyparser::env_proxy::EnvSnapshot;
use proxyparser::find_proxy_for_url;

// Runs a real JavaScript engine over a PAC script body, as a caller of the
// library would, and hands the returned string in as the PAC outcome.
#[test]
fn a_script_body_drives_resolution_end_to_end() {
    let script = "function FindProxyForURL(url,host){return \"PROXY 10.0.0.1:3128; DIRECT\";}";
    let mut ctx = Context::default();
    ctx.eval(Source::from_bytes(script.as_bytes())).unwrap();
    let global = ctx.global_object();
    let f = global.get(JsString::from("FindProxyForURL"), &mut ctx).unwrap();
    let func = f.as_callable().unwrap();
    let args = [
        JsValue::from(JsString::from("http://host/")),
        JsValue::from(JsString::from("host")),
    ];
    let res = func.call(&JsValue::undefined(), &args, &mut ctx).unwrap();
    let raw = res.to_string(&mut ctx).unwrap().to_std_string().unwrap();

    let env = EnvSnapshot {
        http_proxy: None,
        https_proxy: None,
        ftp_proxy: None,
        socks_proxy: None,
        no_proxy: None,
    };
    let system = Some("http://conf.corp/proxy.pac".to_string());
    let got = find_proxy_for_url("http://host/", &env, &system, &PacFetch::Script(raw)).unwrap();
    assert_eq!(got.to_proxy_string(), "http://10.0.0.1:3128");
}
