//! The seed of the faucet wallet: where it is kept, and which seed a wallet
//! starts from.

use vstd::prelude::*;
use vstd::string::{StrSliceExecFns, StringExecFns};
use crate::text::{trim, trimmed};

verus! {

/// The name of the file, in the data directory, that keeps the seed.
pub const SEED_FILE_NAME: &'static str = ".wallet_seed";

/// The seed phrase every fresh installation starts from. It is the same
/// everywhere on purpose, so that test networks share their addresses.
pub const DEFAULT_SEED_PHRASE: &'static str =
    "abandon abandon abandon abandon abandon abandon abandon abandon abandon abandon abandon abandon abandon abandon abandon abandon abandon abandon abandon abandon abandon abandon abandon art";

/// The path of the seed file in `data_dir`: the file name put behind the
/// directory, with one `/` between them unless the directory is empty or
/// ends in one.
pub open spec fn seed_path(data_dir: Seq<char>) -> Seq<char> {
    if data_dir.len() == 0 || data_dir.last() == '/' {
        data_dir + SEED_FILE_NAME@
    } else {
        data_dir + "/"@ + SEED_FILE_NAME@
    }
}

/// The seed a wallet starts from, given what the seed file holds, if it
/// exists: the stored text without the white space around it, else the
/// default phrase.
pub open spec fn resolved_seed(stored: Option<Seq<char>>) -> Seq<char> {
    match stored {
        Some(text) => trimmed(text),
        None => DEFAULT_SEED_PHRASE@,
    }
}

/// A seed, and whether it still has to be written to the seed file.
pub struct ResolvedSeed {
    pub seed: String,
    pub store: bool,
}

/// Knows where the seed of an installation is kept.
pub struct SeedManager {
    seed_file: String,
}

impl View for SeedManager {
    type V = Seq<char>;

    /// The path of the seed file.
    closed spec fn view(&self) -> Seq<char> {
        self.seed_file@
    }
}

impl SeedManager {
    /// The manager of the seed kept in `data_dir`.
    pub fn new(data_dir: &str) -> (manager: Self)
        ensures
            manager@ == seed_path(data_dir@),
    {
        let len = data_dir.unicode_len();
        let dir = String::from_str(data_dir);
        let ends_in_slash = len > 0 && data_dir.get_char(len - 1) == '/';
        let seed_file = if len == 0 || ends_in_slash {
            dir.concat(SEED_FILE_NAME)
        } else {
            dir.concat("/").concat(SEED_FILE_NAME)
        };
        SeedManager { seed_file }
    }

    /// The path of the seed file.
    pub fn seed_file(&self) -> (path: &str)
        ensures
            path@ == self@,
    {
        self.seed_file.as_str()
    }

    /// Settles the seed of this installation. `stored` is the text of the
    /// seed file, or `None` where there is no such file. A stored seed is
    /// used, without the white space around it, and not written again; where
    /// none is stored the default phrase is used and has to be stored.
    pub fn get_or_create_seed(&self, stored: Option<&str>) -> (resolved: ResolvedSeed)
        ensures
            resolved.seed@ == resolved_seed(
                match stored {
                    Some(text) => Some(text@),
                    None => None,
                },
            ),
            resolved.store == (stored is None),
    {
        match stored {
            Some(text) => ResolvedSeed { seed: trim(text), store: false },
            None => ResolvedSeed { seed: String::from_str(DEFAULT_SEED_PHRASE), store: true },
        }
    }
}

} // verus!
