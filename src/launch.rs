use vstd::prelude::*;

use crate::args::{build_upstream_args, upstream_args};
use crate::settings::ChromeDevToolsMcpSettings;
use crate::text::{lemma_texts_push, texts};

verus! {

/// The package of the server, as the package registry names it.
pub const MCP_PACKAGE_NAME: &'static str = "chrome-devtools-mcp";

/// The server's script inside the installed package, relative to the working
/// directory into which the package is installed.
pub const MCP_SERVER_ENTRYPOINT: &'static str = "node_modules/chrome-devtools-mcp/build/src/index.js";

/// The package must be installed or updated: no version of it is installed,
/// or the installed one is not the latest.
pub fn needs_install(installed: &Option<String>, latest: &String) -> (r: bool)
    ensures
        r == (installed is None || installed->0@ != latest@),
{
    match installed {
        Some(v) => !v.eq(latest),
        None => true,
    }
}

/// The arguments with which the runtime starts the server: the entry point,
/// then the server's command line for `settings`.
pub fn server_args(entrypoint: String, settings: &ChromeDevToolsMcpSettings) -> (r: Vec<String>)
    ensures
        texts(r@) == seq![entrypoint@] + upstream_args(settings@),
{
    let mut args: Vec<String> = Vec::new();
    let ghost e = entrypoint;
    args.push(entrypoint);
    proof {
        lemma_texts_push(Seq::empty(), e);
        assert(args@ =~= Seq::empty().push(e));
        assert(texts(Seq::<String>::empty()) =~= seq![]);
    }
    let mut rest = build_upstream_args(settings);
    let ghost front = args@;
    let ghost back = rest@;
    args.append(&mut rest);
    assert(texts(args@) =~= texts(front) + texts(back));
    args
}

} // verus!
