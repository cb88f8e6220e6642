//! The settings of an indexer, and what they say once they are read.

use vstd::prelude::*;
use crate::codec::address_of_text;
use crate::error::IndexerError;
use crate::text::{labelled, texts};
use crate::models::Address;
use crate::table::NameTable;

verus! {

/// How to reach one provider.
#[derive(Clone, Debug, PartialEq, Eq)]
pub struct ProviderConfig {
    pub url: String,
    pub provider_type: String,
    pub priority: u8,
}

/// A program to track, and where its schema is found.
#[derive(Clone, Debug, PartialEq, Eq)]
pub struct ProgramConfig {
    pub address: String,
    pub idl_path: String,
}

/// The settings of an indexer.
#[derive(Debug)]
pub struct Config {
    pub providers: NameTable<ProviderConfig>,
    pub plugin_dir: Option<String>,
    pub tracked_accounts: Vec<String>,
    pub tracked_programs: Vec<ProgramConfig>,
}

/// The place of the first text that is not the text of an address.
pub open spec fn first_bad_address(items: Seq<Seq<char>>, from: nat) -> Option<nat>
    decreases items.len() - from,
{
    if from >= items.len() {
        None
    } else if address_of_text(items[from as int]) is None {
        Some(from)
    } else {
        first_bad_address(items, from + 1)
    }
}

/// The text of the error for a setting that is not the text of an address.
pub open spec fn bad_address_text(text: Seq<char>) -> Seq<char> {
    "invalid address: "@ + text
}

/// Reads each text as an address. Either all are addresses, and they come
/// back in order, or the place of the first that is none comes back.
pub fn parse_addresses(items: &Vec<String>) -> (r: Result<Vec<Address>, usize>)
    ensures
        match r {
            Ok(addresses) => {
                &&& first_bad_address(texts(items@), 0) is None
                &&& addresses@.len() == items@.len()
                &&& forall|i: int|
                    0 <= i < items@.len() ==> address_of_text((#[trigger] items@[i])@) == Some(
                        addresses@[i]@,
                    )
            },
            Err(at) => at < items@.len() && first_bad_address(texts(items@), 0)
                == Some(at as nat),
        },
{
    let ghost all = texts(items@);
    let mut out: Vec<Address> = Vec::new();
    let mut i: usize = 0;
    while i < items.len()
        invariant
            i <= items.len(),
            all == texts(items@),
            out@.len() == i,
            first_bad_address(all, 0) == first_bad_address(all, i as nat),
            forall|j: int|
                0 <= j < i ==> address_of_text((#[trigger] items@[j])@) == Some(out@[j]@),
        decreases items.len() - i,
    {
        match Address::from_str(items[i].as_str()) {
            Some(a) => {
                out.push(a);
            },
            None => {
                return Err(i);
            },
        }
        i += 1;
    }
    Ok(out)
}

impl Config {
    /// Settings that name no provider, no plugin directory and nothing to
    /// track.
    pub fn new() -> (c: Self)
        ensures
            c.providers.names() == Seq::<Seq<char>>::empty(),
            c.plugin_dir is None,
            c.tracked_accounts@ == Seq::<String>::empty(),
            c.tracked_programs@ == Seq::<ProgramConfig>::empty(),
    {
        Config {
            providers: NameTable::new(),
            plugin_dir: None,
            tracked_accounts: Vec::new(),
            tracked_programs: Vec::new(),
        }
    }

    /// The addresses of the accounts to track. The first setting that is not
    /// the text of an address makes the whole list an error that names it.
    pub fn tracked_account_addresses(&self) -> (r: Result<Vec<Address>, IndexerError>)
        ensures
            match r {
                Ok(addresses) => {
                    &&& first_bad_address(texts(self.tracked_accounts@), 0) is None
                    &&& addresses@.len() == self.tracked_accounts@.len()
                    &&& forall|i: int|
                        0 <= i < addresses@.len() ==> address_of_text(
                            (#[trigger] self.tracked_accounts@[i])@,
                        ) == Some(addresses@[i]@)
                },
                Err(e) => {
                    &&& first_bad_address(texts(self.tracked_accounts@), 0)
                        matches Some(at)
                    &&& e matches IndexerError::ConfigError(m)
                    &&& m@ == bad_address_text(self.tracked_accounts@[at as int]@)
                },
            },
    {
        match parse_addresses(&self.tracked_accounts) {
            Ok(addresses) => Ok(addresses),
            Err(at) => Err(
                IndexerError::ConfigError(
                    labelled("invalid address: ", self.tracked_accounts[at].as_str()),
                ),
            ),
        }
    }

    /// The addresses of the programs to track, in the order of the settings.
    /// The first setting whose address is not the text of an address makes
    /// the whole list an error that names it.
    pub fn tracked_program_addresses(&self) -> (r: Result<Vec<Address>, IndexerError>)
        ensures
            match r {
                Ok(addresses) => {
                    &&& addresses@.len() == self.tracked_programs@.len()
                    &&& forall|i: int|
                        0 <= i < addresses@.len() ==> address_of_text(
                            (#[trigger] self.tracked_programs@[i]).address@,
                        ) == Some(addresses@[i]@)
                },
                Err(e) => exists|at: int|
                    {
                        &&& 0 <= at < self.tracked_programs@.len()
                        &&& address_of_text((#[trigger] self.tracked_programs@[at]).address@) is None
                        &&& forall|j: int|
                            0 <= j < at ==> address_of_text(
                                (#[trigger] self.tracked_programs@[j]).address@,
                            ) is Some
                        &&& e matches IndexerError::ConfigError(m)
                        &&& m@ == bad_address_text(self.tracked_programs@[at].address@)
                    },
            },
    {
        let mut out: Vec<Address> = Vec::new();
        let mut i: usize = 0;
        while i < self.tracked_programs.len()
            invariant
                i <= self.tracked_programs.len(),
                out@.len() == i,
                forall|j: int|
                    0 <= j < i ==> address_of_text((#[trigger] self.tracked_programs@[j]).address@)
                        == Some(out@[j]@),
            decreases self.tracked_programs.len() - i,
        {
            match Address::from_str(self.tracked_programs[i].address.as_str()) {
                Some(a) => {
                    out.push(a);
                },
                None => {
                    return Err(
                        IndexerError::ConfigError(
                            labelled(
                                "invalid address: ",
                                self.tracked_programs[i].address.as_str(),
                            ),
                        ),
                    );
                },
            }
            i += 1;
        }
        Ok(out)
    }
}

} // verus!
