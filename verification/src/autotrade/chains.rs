//! Chain names and chain indexes: the names accepted on the command line and
//! the `--chain` names of assembled commands, each the inverse of the other.

use vstd::prelude::*;
use crate::text::str_eq;

verus! {

/// The chain index of a chain name.
pub open spec fn spec_chain_index(name: Seq<char>) -> Option<Seq<char>> {
    if name == "ethereum"@ {
        Some("1"@)
    } else if name == "bsc"@ {
        Some("56"@)
    } else if name == "polygon"@ {
        Some("137"@)
    } else if name == "optimism"@ {
        Some("10"@)
    } else if name == "arbitrum"@ {
        Some("42161"@)
    } else if name == "base"@ {
        Some("8453"@)
    } else if name == "xlayer"@ {
        Some("196"@)
    } else if name == "solana"@ {
        Some("501"@)
    } else {
        None
    }
}

/// The chain name of a chain index.
pub open spec fn spec_chain_name(index: Seq<char>) -> Option<Seq<char>> {
    if index == "1"@ {
        Some("ethereum"@)
    } else if index == "56"@ {
        Some("bsc"@)
    } else if index == "137"@ {
        Some("polygon"@)
    } else if index == "10"@ {
        Some("optimism"@)
    } else if index == "42161"@ {
        Some("arbitrum"@)
    } else if index == "8453"@ {
        Some("base"@)
    } else if index == "196"@ {
        Some("xlayer"@)
    } else if index == "501"@ {
        Some("solana"@)
    } else {
        None
    }
}

/// The chain index for a chain name; any other text (such as an index
/// already) is returned unchanged.
pub fn resolve_chain(name: &str) -> (r: &str)
    ensures
        r@ == (match spec_chain_index(name@) {
            Some(i) => i,
            None => name@,
        }),
{
    if str_eq(name, "ethereum") {
        "1"
    } else if str_eq(name, "bsc") {
        "56"
    } else if str_eq(name, "polygon") {
        "137"
    } else if str_eq(name, "optimism") {
        "10"
    } else if str_eq(name, "arbitrum") {
        "42161"
    } else if str_eq(name, "base") {
        "8453"
    } else if str_eq(name, "xlayer") {
        "196"
    } else if str_eq(name, "solana") {
        "501"
    } else {
        name
    }
}

/// The chain name for a chain index, if it is a known chain.
pub fn chain_name_for_index(index: &str) -> (r: Option<&'static str>)
    ensures
        match spec_chain_name(index@) {
            Some(n) => r matches Some(x) && x@ == n,
            None => r is None,
        },
{
    if str_eq(index, "1") {
        Some("ethereum")
    } else if str_eq(index, "56") {
        Some("bsc")
    } else if str_eq(index, "137") {
        Some("polygon")
    } else if str_eq(index, "10") {
        Some("optimism")
    } else if str_eq(index, "42161") {
        Some("arbitrum")
    } else if str_eq(index, "8453") {
        Some("base")
    } else if str_eq(index, "196") {
        Some("xlayer")
    } else if str_eq(index, "501") {
        Some("solana")
    } else {
        None
    }
}

/// A chain's name leads back to its index, and its index back to its name.
pub proof fn lemma_chain_round_trip(index: Seq<char>, name: Seq<char>)
    ensures
        spec_chain_name(index) == Some(name) ==> spec_chain_index(name) == Some(index),
        spec_chain_index(name) == Some(index) ==> spec_chain_name(index) == Some(name),
{
    // Each name and each index differs from the others in its length or in one
    // of its first two characters.
    reveal_strlit("ethereum");
    reveal_strlit("1");
    reveal_strlit("bsc");
    reveal_strlit("56");
    reveal_strlit("polygon");
    reveal_strlit("137");
    reveal_strlit("optimism");
    reveal_strlit("10");
    reveal_strlit("arbitrum");
    reveal_strlit("42161");
    reveal_strlit("base");
    reveal_strlit("8453");
    reveal_strlit("xlayer");
    reveal_strlit("196");
    reveal_strlit("solana");
    reveal_strlit("501");
    assert("ethereum"@.len() == 8 && "ethereum"@[0] == 'e' && "ethereum"@[1] == 't');
    assert("1"@.len() == 1 && "1"@[0] == '1');
    assert("bsc"@.len() == 3 && "bsc"@[0] == 'b' && "bsc"@[1] == 's');
    assert("56"@.len() == 2 && "56"@[0] == '5' && "56"@[1] == '6');
    assert("polygon"@.len() == 7 && "polygon"@[0] == 'p' && "polygon"@[1] == 'o');
    assert("137"@.len() == 3 && "137"@[0] == '1' && "137"@[1] == '3');
    assert("optimism"@.len() == 8 && "optimism"@[0] == 'o' && "optimism"@[1] == 'p');
    assert("10"@.len() == 2 && "10"@[0] == '1' && "10"@[1] == '0');
    assert("arbitrum"@.len() == 8 && "arbitrum"@[0] == 'a' && "arbitrum"@[1] == 'r');
    assert("42161"@.len() == 5 && "42161"@[0] == '4' && "42161"@[1] == '2');
    assert("base"@.len() == 4 && "base"@[0] == 'b' && "base"@[1] == 'a');
    assert("8453"@.len() == 4 && "8453"@[0] == '8' && "8453"@[1] == '4');
    assert("xlayer"@.len() == 6 && "xlayer"@[0] == 'x' && "xlayer"@[1] == 'l');
    assert("196"@.len() == 3 && "196"@[0] == '1' && "196"@[1] == '9');
    assert("solana"@.len() == 6 && "solana"@[0] == 's' && "solana"@[1] == 'o');
    assert("501"@.len() == 3 && "501"@[0] == '5' && "501"@[1] == '0');
}

/// The address family of a chain index: the EVM chains share one, Solana has
/// its own, and any other index is a family of its own.
pub open spec fn spec_chain_family(index: Seq<char>) -> Seq<char> {
    if index == "501"@ {
        "solana"@
    } else if index == "1"@ || index == "56"@ || index == "137"@ || index == "10"@ || index == "42161"@
        || index == "8453"@ || index == "196"@ {
        "evm"@
    } else {
        index
    }
}

/// The address family of a chain index (see [`spec_chain_family`]).
pub fn chain_family(index: &str) -> (r: &str)
    ensures
        r@ == spec_chain_family(index@),
{
    if str_eq(index, "501") {
        "solana"
    } else if str_eq(index, "1") || str_eq(index, "56") || str_eq(index, "137") || str_eq(index, "10")
        || str_eq(index, "42161") || str_eq(index, "8453") || str_eq(index, "196") {
        "evm"
    } else {
        index
    }
}

} // verus!
