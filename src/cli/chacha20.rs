//! Options of the chacha20 subcommands.

use vstd::prelude::*;

verus! {

/// Options of `chacha20 encrypt` and `chacha20 decrypt`: the input (`-` for
/// standard input), the key, and the output directory.
#[derive(Debug)]
pub struct ChaCha20Opts {
    pub input: String,
    pub key: String,
    pub output: String,
}

/// Options of `chacha20 generate`: the output directory.
#[derive(Debug)]
pub struct ChaCha20GenerateOpts {
    pub output: String,
}

/// The chacha20 subcommands.
#[derive(Debug)]
pub enum ChaCha20SubCommand {
    Encrypt(ChaCha20Opts),
    Decrypt(ChaCha20Opts),
    Generate(ChaCha20GenerateOpts),
}

} // verus!
