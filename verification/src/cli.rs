//! Selecting a QRDX chain specification by name, or from a genesis JSON document.

use vstd::prelude::*;
use crate::chainspec::{
    QrdxChainSpec, ChainSpecView, qrdx_mainnet_spec, qrdx_dev_spec, qrdx_mainnet_chain_spec,
    qrdx_dev_chain_spec, chain_spec_from_genesis,
};
use crate::genesis::{genesis_json, parse_genesis_json, json_error_message};

verus! {

/// Why a chain specification could not be built.
#[derive(Debug, Clone, PartialEq, Eq)]
pub enum ChainSpecError {
    /// The genesis JSON document was refused; the message says why.
    InvalidGenesisJson(String),
}

/// QRDX chain spec parser.
#[derive(Debug, Clone, Copy, Default)]
#[non_exhaustive]
pub struct QrdxChainSpecParser;

/// The built-in specification that a chain name selects: "qrdx" and
/// "qrdx-mainnet" select mainnet, "qrdx-dev" and "dev" select the dev network;
/// any other name selects none (it names a genesis JSON file).
pub open spec fn builtin_chain_spec(name: Seq<char>) -> Option<ChainSpecView> {
    if name == "qrdx"@ || name == "qrdx-mainnet"@ {
        Some(qrdx_mainnet_spec())
    } else if name == "qrdx-dev"@ || name == "dev"@ {
        Some(qrdx_dev_spec())
    } else {
        None
    }
}

/// Whether two strings hold the same characters.
fn str_eq(a: &str, b: &str) -> (r: bool)
    ensures
        r == (a@ == b@),
{
    let n = a.unicode_len();
    if n != b.unicode_len() {
        return false;
    }
    let mut i: usize = 0;
    while i < n
        invariant
            n == a@.len(),
            n == b@.len(),
            i <= n,
            forall|j: int| 0 <= j < i ==> a@[j] == b@[j],
        decreases n - i,
    {
        if a.get_char(i) != b.get_char(i) {
            return false;
        }
        i = i + 1;
    }
    assert(a@ =~= b@);
    true
}

impl QrdxChainSpecParser {
    /// The chain names that select a built-in specification, as advertised.
    pub fn supported_chains() -> (r: Vec<&'static str>)
        ensures
            r@.len() == 2,
            r@[0]@ == "qrdx"@,
            r@[1]@ == "qrdx-dev"@,
    {
        vec!["qrdx", "qrdx-dev"]
    }

    /// The built-in specification that a chain name selects; `None` when the
    /// name is none of them and is to be read as the path of a genesis JSON file.
    pub fn parse(s: &str) -> (r: Option<QrdxChainSpec>)
        ensures
            match r {
                Some(spec) => builtin_chain_spec(s@) == Some(spec@),
                None => builtin_chain_spec(s@) is None,
            },
    {
        if str_eq(s, "qrdx") || str_eq(s, "qrdx-mainnet") {
            Some(qrdx_mainnet_chain_spec())
        } else if str_eq(s, "qrdx-dev") || str_eq(s, "dev") {
            Some(qrdx_dev_chain_spec())
        } else {
            None
        }
    }

    /// The specification of the genesis that a JSON document holds.
    pub fn parse_genesis(json: &str) -> (r: Result<QrdxChainSpec, ChainSpecError>)
        ensures
            match r {
                Ok(spec) => genesis_json(json@) matches Some(g) && spec@ == chain_spec_from_genesis(g),
                Err(_) => genesis_json(json@) is None,
            },
    {
        match parse_genesis_json(json) {
            Ok(genesis) => Ok(QrdxChainSpec::from_genesis(genesis)),
            Err(e) => Err(ChainSpecError::InvalidGenesisJson(json_error_message(&e))),
        }
    }
}

/// Every advertised chain name selects a built-in specification, and the
/// aliases select the same one as the advertised names.
pub proof fn supported_chains_are_builtin()
    ensures
        builtin_chain_spec("qrdx"@) == Some(qrdx_mainnet_spec()),
        builtin_chain_spec("qrdx-mainnet"@) == Some(qrdx_mainnet_spec()),
        builtin_chain_spec("qrdx-dev"@) == Some(qrdx_dev_spec()),
        builtin_chain_spec("dev"@) == Some(qrdx_dev_spec()),
{
    reveal_strlit("qrdx");
    reveal_strlit("qrdx-mainnet");
    reveal_strlit("qrdx-dev");
    reveal_strlit("dev");
    assert("qrdx-dev"@.len() != "qrdx"@.len() && "qrdx-dev"@.len() != "qrdx-mainnet"@.len());
    assert("dev"@.len() != "qrdx"@.len() && "dev"@.len() != "qrdx-mainnet"@.len());
}


/// A name selects a built-in specification exactly when it is one of the four
/// names "qrdx", "qrdx-mainnet", "qrdx-dev" and "dev"; it selects the dev
/// network exactly when it is "qrdx-dev" or "dev", and mainnet exactly when it is
/// "qrdx" or "qrdx-mainnet". Every other string, however it resembles them,
/// selects none and is read as a genesis file.
pub proof fn only_exact_names_select_builtin(name: Seq<char>)
    ensures
        builtin_chain_spec(name) is Some <==> (name == "qrdx"@ || name == "qrdx-mainnet"@ || name == "qrdx-dev"@
            || name == "dev"@),
        builtin_chain_spec(name) == Some(qrdx_dev_spec()) <==> (name == "qrdx-dev"@ || name == "dev"@),
        builtin_chain_spec(name) == Some(qrdx_mainnet_spec()) <==> (name == "qrdx"@ || name == "qrdx-mainnet"@),
{
    supported_chains_are_builtin();
    assert(qrdx_dev_spec().chain != qrdx_mainnet_spec().chain);
}

} // verus!
