use vstd::prelude::*;

use crate::channel::ChromeChannel;
use crate::text::texts;

verus! {

/// What the server is asked to do, as the editor's settings give it.
///
/// Every field may be absent; an absent field leaves the server's own default
/// in place. The JSON object of WebSocket headers is held as its compact text.
#[derive(Debug)]
pub struct ChromeDevToolsMcpSettings {
    pub auto_connect: Option<bool>,
    pub browser_url: Option<String>,
    pub ws_endpoint: Option<String>,
    pub ws_headers: Option<String>,
    pub headless: Option<bool>,
    pub executable_path: Option<String>,
    pub isolated: Option<bool>,
    pub user_data_dir: Option<String>,
    pub channel: Option<ChromeChannel>,
    pub viewport: Option<String>,
    pub chrome_arg: Vec<String>,
    pub proxy_server: Option<String>,
    pub accept_insecure_certs: Option<bool>,
    pub log_file: Option<String>,
    pub category_emulation: Option<bool>,
    pub category_performance: Option<bool>,
    pub category_network: Option<bool>,
    pub extra_args: Vec<String>,
}

/// The settings with each string taken as its characters.
pub struct SettingsModel {
    pub auto_connect: Option<bool>,
    pub browser_url: Option<Seq<char>>,
    pub ws_endpoint: Option<Seq<char>>,
    pub ws_headers: Option<Seq<char>>,
    pub headless: Option<bool>,
    pub executable_path: Option<Seq<char>>,
    pub isolated: Option<bool>,
    pub user_data_dir: Option<Seq<char>>,
    pub channel: Option<ChromeChannel>,
    pub viewport: Option<Seq<char>>,
    pub chrome_arg: Seq<Seq<char>>,
    pub proxy_server: Option<Seq<char>>,
    pub accept_insecure_certs: Option<bool>,
    pub log_file: Option<Seq<char>>,
    pub category_emulation: Option<bool>,
    pub category_performance: Option<bool>,
    pub category_network: Option<bool>,
    pub extra_args: Seq<Seq<char>>,
}

/// The characters of an optional string.
pub open spec fn opt_text(o: Option<String>) -> Option<Seq<char>> {
    match o {
        Some(s) => Some(s@),
        None => None,
    }
}

impl SettingsModel {
    /// Every field absent: no option and no list entry.
    pub open spec fn all_absent(self) -> bool {
        &&& self.auto_connect is None
        &&& self.browser_url is None
        &&& self.ws_endpoint is None
        &&& self.ws_headers is None
        &&& self.headless is None
        &&& self.executable_path is None
        &&& self.isolated is None
        &&& self.user_data_dir is None
        &&& self.channel is None
        &&& self.viewport is None
        &&& self.chrome_arg.len() == 0
        &&& self.proxy_server is None
        &&& self.accept_insecure_certs is None
        &&& self.log_file is None
        &&& self.category_emulation is None
        &&& self.category_performance is None
        &&& self.category_network is None
        &&& self.extra_args.len() == 0
    }
}

impl View for ChromeDevToolsMcpSettings {
    type V = SettingsModel;

    open spec fn view(&self) -> SettingsModel {
        SettingsModel {
            auto_connect: self.auto_connect,
            browser_url: opt_text(self.browser_url),
            ws_endpoint: opt_text(self.ws_endpoint),
            ws_headers: opt_text(self.ws_headers),
            headless: self.headless,
            executable_path: opt_text(self.executable_path),
            isolated: self.isolated,
            user_data_dir: opt_text(self.user_data_dir),
            channel: self.channel,
            viewport: opt_text(self.viewport),
            chrome_arg: texts(self.chrome_arg@),
            proxy_server: opt_text(self.proxy_server),
            accept_insecure_certs: self.accept_insecure_certs,
            log_file: opt_text(self.log_file),
            category_emulation: self.category_emulation,
            category_performance: self.category_performance,
            category_network: self.category_network,
            extra_args: texts(self.extra_args@),
        }
    }
}

impl Default for ChromeDevToolsMcpSettings {
    fn default() -> (r: Self)
        ensures
            r@.all_absent(),
    {
        ChromeDevToolsMcpSettings {
            auto_connect: None,
            browser_url: None,
            ws_endpoint: None,
            ws_headers: None,
            headless: None,
            executable_path: None,
            isolated: None,
            user_data_dir: None,
            channel: None,
            viewport: None,
            chrome_arg: Vec::new(),
            proxy_server: None,
            accept_insecure_certs: None,
            log_file: None,
            category_emulation: None,
            category_performance: None,
            category_network: None,
            extra_args: Vec::new(),
        }
    }
}

/// The settings that a parse outcome resolves to: what was read, or, on any
/// failure, the all-absent settings.
pub open spec fn resolves_to<E>(parsed: Result<ChromeDevToolsMcpSettings, E>, r: SettingsModel) -> bool {
    match parsed {
        Ok(s) => r == s@,
        Err(_) => r.all_absent(),
    }
}

impl ChromeDevToolsMcpSettings {
    /// Keeps settings that were read whole, and falls back to the all-absent
    /// settings when reading failed; nothing of a failed read survives.
    pub fn parse_or_default<E>(parsed: Result<ChromeDevToolsMcpSettings, E>) -> (r: Self)
        ensures
            resolves_to(parsed, r@),
    {
        match parsed {
            Ok(s) => s,
            Err(_) => ChromeDevToolsMcpSettings::default(),
        }
    }
}

} // verus!
