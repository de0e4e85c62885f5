//! The decisions that the command-line front end takes from its options.
//!
//! The front end itself reads options, files and streams; what it decides
//! from them is settled here, on plain values.

use vstd::prelude::*;

verus! {

/// Where the front end has its key from.
#[derive(Clone, Debug, PartialEq, Eq)]
pub enum KeySource {
    /// The key is known from the options alone.
    Given(Vec<u8>),
    /// The key is the contents of the key file, which is yet to be read.
    InFile,
    /// No key was provided.
    Missing,
}

/// Picks the key from the options that were given: the null key, a single
/// zero byte, before a key literal, and a key literal before a key file.
pub fn key_source(null_key: bool, literal: Option<Vec<u8>>, file: bool) -> (source: KeySource)
    ensures
        null_key ==> (source matches KeySource::Given(key) && key@ == seq![0u8]),
        !null_key && literal is Some ==> source == KeySource::Given(literal.unwrap()),
        !null_key && literal is None && file ==> source == KeySource::InFile,
        !null_key && literal is None && !file ==> source == KeySource::Missing,
{
    if null_key {
        KeySource::Given(vec![0u8])
    } else {
        match literal {
            Some(key) => KeySource::Given(key),
            None => if file {
                KeySource::InFile
            } else {
                KeySource::Missing
            },
        }
    }
}

/// Whether the output is encoded as base64: always when that was asked for,
/// never when that was asked for, and otherwise when it goes to a terminal.
/// Where both were asked for, `always` wins.
pub fn encodes_base64(always: bool, never: bool, to_terminal: bool) -> (encode: bool)
    ensures
        always ==> encode,
        !always && never ==> !encode,
        !always && !never ==> encode == to_terminal,
{
    if always {
        true
    } else if never {
        false
    } else {
        to_terminal
    }
}

} // verus!
