//! Options of the http subcommand.

use vstd::prelude::*;

verus! {

/// Options of `http serve`: the directory to serve and the port to listen on.
#[derive(Debug)]
pub struct HttpServeOpts {
    pub dir: String,
    pub port: u16,
}

/// The http subcommands.
#[derive(Debug)]
pub enum HttpSubcommand {
    Serve(HttpServeOpts),
}

} // verus!
