use chrome_devtools_mcp_zed::args::build_upstream_args;
use chrome_devtools_mcp_zed::channel::ChromeChannel;
use chrome_devtools_mcp_zed::settings::ChromeDevToolsMcpSettings;

fn strings(items: &[&str]) -> Vec<String> {
    items.iter().map(|s| s.to_string()).collect()
}

fn some(s: &str) -> Option<String> {
    Some(s.to_string())
}

#[test]
fn all_absent_settings_give_empty_args() {
    let settings = ChromeDevToolsMcpSettings::default();
    assert!(build_upstream_args(&settings).is_empty());
}

#[test]
fn every_rule_in_fixed_order() {
    let mut s = ChromeDevToolsMcpSettings::default();
    // Fields filled in an order unrelated to the rule order.
    s.extra_args = strings(&["--x"]);
    s.category_network = Some(false);
    s.log_file = some("/tmp/log");
    s.channel = Some(ChromeChannel::Beta);
    s.ws_headers = some("{\"a\":\"b\"}");
    s.auto_connect = Some(true);
    s.category_performance = Some(false);
    s.accept_insecure_certs = Some(true);
    s.proxy_server = some("proxy:1");
    s.chrome_arg = strings(&["--a"]);
    s.viewport = some("1280x720");
    s.user_data_dir = some("/data");
    s.isolated = Some(true);
    s.executable_path = some("/bin/chrome");
    s.headless = Some(true);
    s.ws_endpoint = some("ws://h/p");
    s.browser_url = some("http://127.0.0.1:9222");
    s.category_emulation = Some(false);
    let expected = strings(&[
        "--autoConnect",
        "--browserUrl",
        "http://127.0.0.1:9222",
        "--wsEndpoint",
        "ws://h/p",
        "--wsHeaders",
        "{\"a\":\"b\"}",
        "--headless",
        "--executablePath",
        "/bin/chrome",
        "--isolated",
        "--userDataDir",
        "/data",
        "--channel",
        "beta",
        "--viewport",
        "1280x720",
        "--chromeArg",
        "--a",
        "--proxyServer",
        "proxy:1",
        "--acceptInsecureCerts",
        "--logFile",
        "/tmp/log",
        "--no-category-emulation",
        "--no-category-performance",
        "--no-category-network",
        "--x",
    ]);
    assert_eq!(build_upstream_args(&s), expected);
}

#[test]
fn headers_without_endpoint_are_dropped() {
    let mut s = ChromeDevToolsMcpSettings::default();
    s.ws_headers = some("{\"Authorization\":\"Bearer x\"}");
    let args = build_upstream_args(&s);
    assert!(!args.iter().any(|a| a == "--wsHeaders"));
    assert!(!args.iter().any(|a| a == "--wsEndpoint"));
    assert!(args.is_empty());
}

#[test]
fn headers_with_blank_endpoint_are_dropped() {
    let mut s = ChromeDevToolsMcpSettings::default();
    s.ws_endpoint = some("   ");
    s.ws_headers = some("{}");
    assert!(build_upstream_args(&s).is_empty());
}

#[test]
fn headers_follow_endpoint() {
    let mut s = ChromeDevToolsMcpSettings::default();
    s.ws_endpoint = some("ws://h/p");
    s.ws_headers = some("{\"Authorization\":\"Bearer x\"}");
    let args = build_upstream_args(&s);
    assert_eq!(
        args,
        strings(&["--wsEndpoint", "ws://h/p", "--wsHeaders", "{\"Authorization\":\"Bearer x\"}"])
    );
}

#[test]
fn category_emulation_off_alone() {
    let mut s = ChromeDevToolsMcpSettings::default();
    s.category_emulation = Some(false);
    assert_eq!(build_upstream_args(&s), strings(&["--no-category-emulation"]));
}

#[test]
fn categories_on_emit_nothing() {
    let mut s = ChromeDevToolsMcpSettings::default();
    s.category_emulation = Some(true);
    s.category_performance = Some(true);
    s.category_network = Some(true);
    assert!(build_upstream_args(&s).is_empty());
}

#[test]
fn switches_off_emit_nothing() {
    let mut s = ChromeDevToolsMcpSettings::default();
    s.auto_connect = Some(false);
    s.headless = Some(false);
    s.isolated = Some(false);
    s.accept_insecure_certs = Some(false);
    assert!(build_upstream_args(&s).is_empty());
}

#[test]
fn chrome_args_trimmed_and_blank_dropped() {
    let mut s = ChromeDevToolsMcpSettings::default();
    s.chrome_arg = strings(&["", "  --foo ", "bar"]);
    assert_eq!(
        build_upstream_args(&s),
        strings(&["--chromeArg", "--foo", "--chromeArg", "bar"])
    );
}

#[test]
fn string_values_trimmed_and_blank_dropped() {
    let mut s = ChromeDevToolsMcpSettings::default();
    s.browser_url = some("  http://127.0.0.1:9222\n");
    s.executable_path = some("\t");
    s.viewport = some("\u{3000}1280x720\u{a0}");
    s.log_file = some("");
    assert_eq!(
        build_upstream_args(&s),
        strings(&["--browserUrl", "http://127.0.0.1:9222", "--viewport", "1280x720"])
    );
}

#[test]
fn channel_canary_is_lowercase() {
    let channel = ChromeChannel::parse("CaNaRy").unwrap();
    assert_eq!(channel, ChromeChannel::Canary);
    let mut s = ChromeDevToolsMcpSettings::default();
    s.channel = Some(channel);
    assert_eq!(build_upstream_args(&s), strings(&["--channel", "canary"]));
}

#[test]
fn channel_names() {
    assert_eq!(ChromeChannel::parse("stable"), Some(ChromeChannel::Stable));
    assert_eq!(ChromeChannel::parse("BETA"), Some(ChromeChannel::Beta));
    assert_eq!(ChromeChannel::parse("Dev"), Some(ChromeChannel::Dev));
    assert_eq!(ChromeChannel::parse("canary"), Some(ChromeChannel::Canary));
    assert_eq!(ChromeChannel::parse("nightly"), None);
    assert_eq!(ChromeChannel::parse(""), None);
    assert_eq!(ChromeChannel::parse(" dev"), None);
    assert_eq!(ChromeChannel::parse("devs"), None);
    assert_eq!(ChromeChannel::Stable.as_str(), "stable");
    assert_eq!(ChromeChannel::Canary.as_str(), "canary");
    assert_eq!(ChromeChannel::Beta.as_str(), "beta");
    assert_eq!(ChromeChannel::Dev.as_str(), "dev");
}

#[test]
fn malformed_read_falls_back_to_defaults() {
    assert_eq!(ChromeChannel::parse("nightly"), None);
    let parsed: Result<ChromeDevToolsMcpSettings, String> =
        Err("unknown channel `nightly`".to_string());
    let settings = ChromeDevToolsMcpSettings::parse_or_default(parsed);
    assert!(settings.channel.is_none());
    assert!(settings.chrome_arg.is_empty());
    assert!(settings.extra_args.is_empty());
    assert!(build_upstream_args(&settings).is_empty());
}

#[test]
fn successful_read_is_kept() {
    let mut read = ChromeDevToolsMcpSettings::default();
    read.headless = Some(true);
    let parsed: Result<ChromeDevToolsMcpSettings, String> = Ok(read);
    let settings = ChromeDevToolsMcpSettings::parse_or_default(parsed);
    assert_eq!(build_upstream_args(&settings), strings(&["--headless"]));
}

#[test]
fn extra_args_last_and_verbatim() {
    let mut s = ChromeDevToolsMcpSettings::default();
    s.headless = Some(true);
    s.category_network = Some(false);
    s.extra_args = strings(&["--weird-flag", "value with spaces"]);
    let args = build_upstream_args(&s);
    assert_eq!(
        args,
        strings(&["--headless", "--no-category-network", "--weird-flag", "value with spaces"])
    );
    let mut t = ChromeDevToolsMcpSettings::default();
    t.extra_args = strings(&["  padded  ", ""]);
    assert_eq!(build_upstream_args(&t), strings(&["  padded  ", ""]));
}

#[test]
fn translation_is_repeatable() {
    let mut s = ChromeDevToolsMcpSettings::default();
    s.ws_endpoint = some(" ws://h/p ");
    s.chrome_arg = strings(&["--a", " "]);
    s.channel = Some(ChromeChannel::Dev);
    let first = build_upstream_args(&s);
    let second = build_upstream_args(&s);
    assert_eq!(first, second);
    assert_eq!(first, strings(&["--wsEndpoint", "ws://h/p", "--channel", "dev", "--chromeArg", "--a"]));
}
