//! Translation of the browser-automation server's editor settings into the
//! command line of the server process.

pub mod channel;
pub mod text;
pub mod settings;
pub mod args;
pub mod launch;
