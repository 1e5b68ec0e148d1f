//! Options of the genpass subcommand.

use vstd::prelude::*;

use crate::process::gen_pass::{
    char_bytes, genpass_error, is_password, process_genpass, GenPassError,
};

verus! {

/// Relies on zxcvbn::zxcvbn with no user inputs, and on Entropy::score: a
/// strength score from Score::Zero to Score::Four, which is Zero for the empty
/// password. Dates in the password are scored against the current year, so the
/// score of a password may change over time and nothing more is promised.
#[verifier::external_body]
fn password_score(password: &str) -> (r: u8)
    ensures
        r <= 4,
        password@.len() == 0 ==> r == 0,
{
    zxcvbn::zxcvbn(password, &[]).score() as u8
}

/// Options of `genpass`: the length, and which character classes to leave out.
#[derive(Debug, Clone, Copy)]
pub struct GenPassOpts {
    pub length: u8,
    pub nonumber: bool,
    pub nolower: bool,
    pub noupper: bool,
    pub nosymbol: bool,
}

impl GenPassOpts {
    /// A random password for these options, with its strength score from 0
    /// (weakest) to 4.
    pub fn generate(&self) -> (r: Result<(String, u8), GenPassError>)
        ensures
            match r {
                Ok((p, score)) => genpass_error(
                    self.length,
                    self.noupper,
                    self.nolower,
                    self.nonumber,
                    self.nosymbol,
                ) is None && is_password(
                    char_bytes(p@),
                    self.length,
                    self.noupper,
                    self.nolower,
                    self.nonumber,
                    self.nosymbol,
                ) && score <= 4 && (p@.len() == 0 ==> score == 0),
                Err(e) => genpass_error(
                    self.length,
                    self.noupper,
                    self.nolower,
                    self.nonumber,
                    self.nosymbol,
                ) == Some(e),
            },
    {
        let p = match process_genpass(
            self.length,
            self.noupper,
            self.nolower,
            self.nonumber,
            self.nosymbol,
        ) {
            Ok(p) => p,
            Err(e) => return Err(e),
        };
        let score = password_score(p.as_str());
        Ok((p, score))
    }
}

} // verus!
