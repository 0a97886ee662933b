//! Argument model for the `upload` command of a file-sharing CLI tool.
//!
//! The crate defines the command's declarative schema, typed accessors over
//! the parsed argument values, host-address resolution with a user-facing
//! error taxonomy, and the multi-source password acquisition protocol.

use vstd::prelude::*;

pub mod args;
pub mod cmd_upload;
pub mod error;
pub mod host;
pub mod schema;
pub mod text;

verus! {

/// The well-known default host, used when `--host` is omitted.
pub open spec fn spec_send_def_host() -> Seq<char> {
    "https://send.firefox.com/"@
}

/// Returns the well-known default host URL string.
pub fn send_def_host() -> (r: String)
    ensures
        r@ == spec_send_def_host(),
{
    String::from_str("https://send.firefox.com/")
}

} // verus!
