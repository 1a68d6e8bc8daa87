use vstd::prelude::*;

use crate::channel::ChromeChannel;
use crate::settings::{resolves_to, ChromeDevToolsMcpSettings, SettingsModel};
use crate::text::{lemma_texts_push, texts, trim, trim_str};

verus! {

/// A string option is given: present and not blank once trimmed.
pub open spec fn is_given(v: Option<Seq<char>>) -> bool {
    v is Some && trim(v->0).len() > 0
}

/// `flag` alone when the switch is on.
pub open spec fn switch_tokens(flag: Seq<char>, v: Option<bool>) -> Seq<Seq<char>> {
    if v == Some(true) {
        seq![flag]
    } else {
        seq![]
    }
}

/// `flag` alone when a toggle that is on by default is turned off.
pub open spec fn off_tokens(flag: Seq<char>, v: Option<bool>) -> Seq<Seq<char>> {
    if v == Some(false) {
        seq![flag]
    } else {
        seq![]
    }
}

/// `flag` and the trimmed value when the value is given.
pub open spec fn value_tokens(flag: Seq<char>, v: Option<Seq<char>>) -> Seq<Seq<char>> {
    if is_given(v) {
        seq![flag, trim(v->0)]
    } else {
        seq![]
    }
}

/// The headers' JSON text, only when they and a WebSocket endpoint are given.
pub open spec fn ws_headers_tokens(m: SettingsModel) -> Seq<Seq<char>> {
    if m.ws_headers is Some && is_given(m.ws_endpoint) {
        seq!["--wsHeaders"@, m.ws_headers->0]
    } else {
        seq![]
    }
}

pub open spec fn channel_tokens(c: Option<ChromeChannel>) -> Seq<Seq<char>> {
    match c {
        Some(c) => seq!["--channel"@, c.token()],
        None => seq![],
    }
}

/// A `--chromeArg` pair for each entry that is not blank, trimmed, in order.
pub open spec fn chrome_arg_tokens(entries: Seq<Seq<char>>) -> Seq<Seq<char>>
    decreases entries.len(),
{
    if entries.len() == 0 {
        seq![]
    } else {
        chrome_arg_tokens(entries.drop_last()) + (if trim(entries.last()).len() > 0 {
            seq!["--chromeArg"@, trim(entries.last())]
        } else {
            seq![]
        })
    }
}

/// The rules that come before the pass-through arguments, in their order.
pub open spec fn modeled_tokens(m: SettingsModel) -> Seq<Seq<char>> {
    switch_tokens("--autoConnect"@, m.auto_connect)
        + value_tokens("--browserUrl"@, m.browser_url)
        + value_tokens("--wsEndpoint"@, m.ws_endpoint)
        + ws_headers_tokens(m)
        + switch_tokens("--headless"@, m.headless)
        + value_tokens("--executablePath"@, m.executable_path)
        + switch_tokens("--isolated"@, m.isolated)
        + value_tokens("--userDataDir"@, m.user_data_dir)
        + channel_tokens(m.channel)
        + value_tokens("--viewport"@, m.viewport)
        + chrome_arg_tokens(m.chrome_arg)
        + value_tokens("--proxyServer"@, m.proxy_server)
        + switch_tokens("--acceptInsecureCerts"@, m.accept_insecure_certs)
        + value_tokens("--logFile"@, m.log_file)
        + off_tokens("--no-category-emulation"@, m.category_emulation)
        + off_tokens("--no-category-performance"@, m.category_performance)
        + off_tokens("--no-category-network"@, m.category_network)
}

/// The server's command line for settings `m`: each rule's tokens in the
/// fixed order, then the pass-through arguments as given.
pub open spec fn upstream_args(m: SettingsModel) -> Seq<Seq<char>> {
    modeled_tokens(m) + m.extra_args
}

fn push_str(args: &mut Vec<String>, s: &str)
    ensures
        texts(final(args)@) == texts(old(args)@).push(s@),
{
    let ghost before = args@;
    args.push(s.to_string());
    proof {
        lemma_texts_push(before, args@.last());
    }
}

fn push_switch(args: &mut Vec<String>, flag: &str, v: Option<bool>)
    ensures
        texts(final(args)@) == texts(old(args)@) + switch_tokens(flag@, v),
{
    let ghost before = texts(args@);
    if let Some(true) = v {
        push_str(args, flag);
    }
    assert(texts(args@) =~= before + switch_tokens(flag@, v));
}

fn push_off(args: &mut Vec<String>, flag: &str, v: Option<bool>)
    ensures
        texts(final(args)@) == texts(old(args)@) + off_tokens(flag@, v),
{
    let ghost before = texts(args@);
    if let Some(false) = v {
        push_str(args, flag);
    }
    assert(texts(args@) =~= before + off_tokens(flag@, v));
}

fn push_value(args: &mut Vec<String>, flag: &str, v: &Option<String>)
    ensures
        texts(final(args)@) == texts(old(args)@) + value_tokens(
            flag@,
            crate::settings::opt_text(*v),
        ),
{
    let ghost before = texts(args@);
    if let Some(s) = v {
        let t = trim_str(s.as_str());
        if !t.is_empty() {
            push_str(args, flag);
            push_str(args, t);
        }
    }
    assert(texts(args@) =~= before + value_tokens(flag@, crate::settings::opt_text(*v)));
}

fn push_chrome_args(args: &mut Vec<String>, entries: &Vec<String>)
    ensures
        texts(final(args)@) == texts(old(args)@) + chrome_arg_tokens(texts(entries@)),
{
    let ghost before = texts(args@);
    let mut i: usize = 0;
    assert(texts(entries@.subrange(0, 0)) =~= seq![]);
    assert(texts(args@) =~= before + chrome_arg_tokens(seq![]));
    while i < entries.len()
        invariant
            i <= entries.len(),
            texts(args@) == before + chrome_arg_tokens(texts(entries@.subrange(0, i as int))),
        decreases entries.len() - i,
    {
        let ghost done = texts(entries@.subrange(0, i as int));
        let ghost next = texts(entries@.subrange(0, i + 1));
        assert(next.drop_last() =~= done);
        assert(next.last() == entries@[i as int]@);
        let t = trim_str(entries[i].as_str());
        if !t.is_empty() {
            push_str(args, "--chromeArg");
            push_str(args, t);
        }
        assert(texts(args@) =~= before + chrome_arg_tokens(next));
        i = i + 1;
    }
    assert(entries@.subrange(0, entries@.len() as int) =~= entries@);
}

fn push_all(args: &mut Vec<String>, entries: &Vec<String>)
    ensures
        texts(final(args)@) == texts(old(args)@) + texts(entries@),
{
    let ghost before = texts(args@);
    let mut i: usize = 0;
    assert(texts(args@) =~= before + texts(entries@.subrange(0, 0)));
    while i < entries.len()
        invariant
            i <= entries.len(),
            texts(args@) == before + texts(entries@.subrange(0, i as int)),
        decreases entries.len() - i,
    {
        push_str(args, entries[i].as_str());
        assert(texts(entries@.subrange(0, i + 1)) =~= texts(entries@.subrange(0, i as int)).push(
            entries@[i as int]@,
        ));
        assert(texts(args@) =~= before + texts(entries@.subrange(0, i + 1)));
        i = i + 1;
    }
    assert(entries@.subrange(0, entries@.len() as int) =~= entries@);
}

/// The server's command line for `settings`, without the entry point.
pub fn build_upstream_args(settings: &ChromeDevToolsMcpSettings) -> (r: Vec<String>)
    ensures
        texts(r@) == upstream_args(settings@),
{
    let mut args: Vec<String> = Vec::new();
    let m = Ghost(settings@);
    assert(texts(args@) =~= seq![]);

    push_switch(&mut args, "--autoConnect", settings.auto_connect);
    assert(texts(args@) =~= switch_tokens("--autoConnect"@, m@.auto_connect));
    push_value(&mut args, "--browserUrl", &settings.browser_url);
    push_value(&mut args, "--wsEndpoint", &settings.ws_endpoint);

    let ghost before = texts(args@);
    if let Some(headers) = &settings.ws_headers {
        let endpoint_given = match &settings.ws_endpoint {
            Some(e) => !trim_str(e.as_str()).is_empty(),
            None => false,
        };
        if endpoint_given {
            push_str(&mut args, "--wsHeaders");
            push_str(&mut args, headers.as_str());
        }
    }
    assert(texts(args@) =~= before + ws_headers_tokens(m@));

    push_switch(&mut args, "--headless", settings.headless);
    push_value(&mut args, "--executablePath", &settings.executable_path);
    push_switch(&mut args, "--isolated", settings.isolated);
    push_value(&mut args, "--userDataDir", &settings.user_data_dir);

    let ghost before = texts(args@);
    if let Some(channel) = &settings.channel {
        push_str(&mut args, "--channel");
        push_str(&mut args, channel.as_str());
    }
    assert(texts(args@) =~= before + channel_tokens(m@.channel));

    push_value(&mut args, "--viewport", &settings.viewport);
    push_chrome_args(&mut args, &settings.chrome_arg);
    push_value(&mut args, "--proxyServer", &settings.proxy_server);
    push_switch(&mut args, "--acceptInsecureCerts", settings.accept_insecure_certs);
    push_value(&mut args, "--logFile", &settings.log_file);
    push_off(&mut args, "--no-category-emulation", settings.category_emulation);
    push_off(&mut args, "--no-category-performance", settings.category_performance);
    push_off(&mut args, "--no-category-network", settings.category_network);
    push_all(&mut args, &settings.extra_args);
    args
}

/// Settings with every field absent give an empty command line.
pub proof fn lemma_all_absent_gives_no_args(m: SettingsModel)
    requires
        m.all_absent(),
    ensures
        upstream_args(m) == Seq::<Seq<char>>::empty(),
{
    assert(upstream_args(m) =~= Seq::<Seq<char>>::empty());
}

/// A read of the settings that failed resolves to the all-absent settings, and
/// so to an empty command line: no field of the failed read survives.
pub proof fn lemma_failed_read_gives_no_args<E>(
    parsed: Result<ChromeDevToolsMcpSettings, E>,
    resolved: SettingsModel,
)
    requires
        parsed is Err,
        resolves_to(parsed, resolved),
    ensures
        resolved.all_absent(),
        upstream_args(resolved) == Seq::<Seq<char>>::empty(),
{
    lemma_all_absent_gives_no_args(resolved);
}

/// The pass-through arguments come last, untouched and in their order,
/// whatever the other settings are.
pub proof fn lemma_extra_args_come_last(m: SettingsModel, extra: Seq<Seq<char>>)
    ensures
        upstream_args((SettingsModel { extra_args: extra, ..m })) == upstream_args(
            (SettingsModel { extra_args: Seq::empty(), ..m }),
        ) + extra,
{
    let without = SettingsModel { extra_args: Seq::empty(), ..m };
    assert(upstream_args(without) =~= modeled_tokens(m));
}

/// Translating one settings value twice gives the same command line: the
/// result depends on what the settings hold and on nothing else.
pub proof fn lemma_same_settings_same_args(a: &ChromeDevToolsMcpSettings, b: &ChromeDevToolsMcpSettings)
    requires
        a@ == b@,
    ensures
        upstream_args(a@) == upstream_args(b@),
{
}

/// `t` is a value that settings `m` hand to the server as the user wrote it
/// (trimmed where the rules trim it).
pub open spec fn hands_through(m: SettingsModel, t: Seq<char>) -> bool {
    ||| (is_given(m.browser_url) && trim(m.browser_url->0) == t)
    ||| (is_given(m.executable_path) && trim(m.executable_path->0) == t)
    ||| (is_given(m.user_data_dir) && trim(m.user_data_dir->0) == t)
    ||| (is_given(m.viewport) && trim(m.viewport->0) == t)
    ||| (is_given(m.proxy_server) && trim(m.proxy_server->0) == t)
    ||| (is_given(m.log_file) && trim(m.log_file->0) == t)
    ||| (exists|i: int| 0 <= i < m.chrome_arg.len() && trim(m.chrome_arg[i]) == t)
    ||| m.extra_args.contains(t)
}

proof fn lemma_concat_lacks(a: Seq<Seq<char>>, b: Seq<Seq<char>>, t: Seq<char>)
    requires
        !a.contains(t),
        !b.contains(t),
    ensures
        !(a + b).contains(t),
{
    if (a + b).contains(t) {
        let i = choose|i: int| 0 <= i < (a + b).len() && (a + b)[i] == t;
        if i < a.len() {
            assert(a[i] == t);
        } else {
            assert(b[i - a.len()] == t);
        }
    }
}

proof fn lemma_chrome_args_lack(entries: Seq<Seq<char>>, t: Seq<char>)
    requires
        t != "--chromeArg"@,
        forall|i: int| 0 <= i < entries.len() ==> trim(#[trigger] entries[i]) != t,
    ensures
        !chrome_arg_tokens(entries).contains(t),
    decreases entries.len(),
{
    if entries.len() > 0 {
        let init = entries.drop_last();
        assert forall|i: int| 0 <= i < init.len() implies trim(#[trigger] init[i]) != t by {
            assert(init[i] == entries[i]);
        }
        lemma_chrome_args_lack(init, t);
        let last = if trim(entries.last()).len() > 0 {
            seq!["--chromeArg"@, trim(entries.last())]
        } else {
            seq![]
        };
        assert(!last.contains(t)) by {
            if last.contains(t) {
                let j = choose|j: int| 0 <= j < last.len() && last[j] == t;
                assert(j == 0 || j == 1);
            }
        }
        lemma_concat_lacks(chrome_arg_tokens(init), last, t);
    }
}

proof fn lemma_value_lacks(flag: Seq<char>, v: Option<Seq<char>>, t: Seq<char>)
    requires
        flag != t,
        is_given(v) ==> trim(v->0) != t,
    ensures
        !value_tokens(flag, v).contains(t),
{
    if value_tokens(flag, v).contains(t) {
        let j = choose|j: int| 0 <= j < value_tokens(flag, v).len() && value_tokens(flag, v)[j] == t;
        assert(j == 0 || j == 1);
    }
}

proof fn lemma_one_lacks(flag: Seq<char>, t: Seq<char>)
    requires
        flag != t,
    ensures
        !seq![flag].contains(t),
        !Seq::<Seq<char>>::empty().contains(t),
{
    if seq![flag].contains(t) {
        let j = choose|j: int| 0 <= j < 1 && seq![flag][j] == t;
        assert(j == 0);
    }
}

/// Without a WebSocket endpoint neither `--wsEndpoint` nor `--wsHeaders`
/// is emitted, whatever headers are set; the words can only come from a value
/// that the settings hand through as given.
pub proof fn lemma_headers_need_endpoint(m: SettingsModel)
    requires
        m.ws_endpoint is None,
        !hands_through(m, "--wsEndpoint"@),
        !hands_through(m, "--wsHeaders"@),
    ensures
        !upstream_args(m).contains("--wsEndpoint"@),
        !upstream_args(m).contains("--wsHeaders"@),
{
    lemma_absent_words_not_emitted(m, "--wsEndpoint"@);
    lemma_absent_words_not_emitted(m, "--wsHeaders"@);
}

proof fn lemma_absent_words_not_emitted(m: SettingsModel, t: Seq<char>)
    requires
        m.ws_endpoint is None,
        !hands_through(m, t),
        t == "--wsEndpoint"@ || t == "--wsHeaders"@,
    ensures
        !upstream_args(m).contains(t),
{
    reveal_strlit("--wsEndpoint");
    reveal_strlit("--wsHeaders");
    reveal_strlit("--autoConnect");
    reveal_strlit("--browserUrl");
    reveal_strlit("--headless");
    reveal_strlit("--executablePath");
    reveal_strlit("--isolated");
    reveal_strlit("--userDataDir");
    reveal_strlit("--channel");
    reveal_strlit("stable");
    reveal_strlit("canary");
    reveal_strlit("beta");
    reveal_strlit("dev");
    reveal_strlit("--viewport");
    reveal_strlit("--chromeArg");
    reveal_strlit("--proxyServer");
    reveal_strlit("--acceptInsecureCerts");
    reveal_strlit("--logFile");
    reveal_strlit("--no-category-emulation");
    reveal_strlit("--no-category-performance");
    reveal_strlit("--no-category-network");
    assert(t.len() == 11 || t.len() == 12);
    assert(t[2] == 'w');
    lemma_one_lacks("--autoConnect"@, t);
    lemma_one_lacks("--headless"@, t);
    lemma_one_lacks("--isolated"@, t);
    lemma_one_lacks("--acceptInsecureCerts"@, t);
    lemma_one_lacks("--no-category-emulation"@, t);
    lemma_one_lacks("--no-category-performance"@, t);
    lemma_one_lacks("--no-category-network"@, t);
    lemma_value_lacks("--browserUrl"@, m.browser_url, t);
    assert(value_tokens("--wsEndpoint"@, m.ws_endpoint) =~= Seq::<Seq<char>>::empty());
    lemma_value_lacks("--executablePath"@, m.executable_path, t);
    lemma_value_lacks("--userDataDir"@, m.user_data_dir, t);
    lemma_value_lacks("--viewport"@, m.viewport, t);
    lemma_value_lacks("--proxyServer"@, m.proxy_server, t);
    lemma_value_lacks("--logFile"@, m.log_file, t);
    assert(!ws_headers_tokens(m).contains(t));
    assert(!channel_tokens(m.channel).contains(t)) by {
        if channel_tokens(m.channel).contains(t) {
            let j = choose|j: int|
                0 <= j < channel_tokens(m.channel).len() && channel_tokens(m.channel)[j] == t;
            assert(j == 0 || j == 1);
        }
    }
    assert forall|i: int| 0 <= i < m.chrome_arg.len() implies trim(#[trigger] m.chrome_arg[i])
        != t by {}
    lemma_chrome_args_lack(m.chrome_arg, t);
    let s01 = switch_tokens("--autoConnect"@, m.auto_connect);
    let s02 = s01 + value_tokens("--browserUrl"@, m.browser_url);
    lemma_concat_lacks(s01, value_tokens("--browserUrl"@, m.browser_url), t);
    let s03 = s02 + value_tokens("--wsEndpoint"@, m.ws_endpoint);
    lemma_concat_lacks(s02, value_tokens("--wsEndpoint"@, m.ws_endpoint), t);
    let s04 = s03 + ws_headers_tokens(m);
    lemma_concat_lacks(s03, ws_headers_tokens(m), t);
    let s05 = s04 + switch_tokens("--headless"@, m.headless);
    lemma_concat_lacks(s04, switch_tokens("--headless"@, m.headless), t);
    let s06 = s05 + value_tokens("--executablePath"@, m.executable_path);
    lemma_concat_lacks(s05, value_tokens("--executablePath"@, m.executable_path), t);
    let s07 = s06 + switch_tokens("--isolated"@, m.isolated);
    lemma_concat_lacks(s06, switch_tokens("--isolated"@, m.isolated), t);
    let s08 = s07 + value_tokens("--userDataDir"@, m.user_data_dir);
    lemma_concat_lacks(s07, value_tokens("--userDataDir"@, m.user_data_dir), t);
    let s09 = s08 + channel_tokens(m.channel);
    lemma_concat_lacks(s08, channel_tokens(m.channel), t);
    let s10 = s09 + value_tokens("--viewport"@, m.viewport);
    lemma_concat_lacks(s09, value_tokens("--viewport"@, m.viewport), t);
    let s11 = s10 + chrome_arg_tokens(m.chrome_arg);
    lemma_concat_lacks(s10, chrome_arg_tokens(m.chrome_arg), t);
    let s12 = s11 + value_tokens("--proxyServer"@, m.proxy_server);
    lemma_concat_lacks(s11, value_tokens("--proxyServer"@, m.proxy_server), t);
    let s13 = s12 + switch_tokens("--acceptInsecureCerts"@, m.accept_insecure_certs);
    lemma_concat_lacks(s12, switch_tokens("--acceptInsecureCerts"@, m.accept_insecure_certs), t);
    let s14 = s13 + value_tokens("--logFile"@, m.log_file);
    lemma_concat_lacks(s13, value_tokens("--logFile"@, m.log_file), t);
    let s15 = s14 + off_tokens("--no-category-emulation"@, m.category_emulation);
    lemma_concat_lacks(s14, off_tokens("--no-category-emulation"@, m.category_emulation), t);
    let s16 = s15 + off_tokens("--no-category-performance"@, m.category_performance);
    lemma_concat_lacks(s15, off_tokens("--no-category-performance"@, m.category_performance), t);
    let s17 = s16 + off_tokens("--no-category-network"@, m.category_network);
    lemma_concat_lacks(s16, off_tokens("--no-category-network"@, m.category_network), t);
    lemma_concat_lacks(s17, m.extra_args, t);
}

} // verus!
