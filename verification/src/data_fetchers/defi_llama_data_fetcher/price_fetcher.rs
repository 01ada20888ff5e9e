use vstd::prelude::*;
use vstd::string::*;

use crate::address::{address_debug, address_debug_text, EthAddress};

verus! {

/// The route of DefiLlama's current-price query.
pub const DEFI_LLAMA_PRICE_FETCH_ROUTE: &'static str = "/prices/current";

/// The key under which DefiLlama lists a token: `network:0x<lowercase hex>`.
pub open spec fn price_key_text(network: Seq<char>, token: EthAddress) -> Seq<char> {
    network + seq![':'] + address_debug_text(token)
}

/// The URL that asks DefiLlama for the current price of the coin `key`.
pub open spec fn price_url_text(api_root: Seq<char>, key: Seq<char>) -> Seq<char> {
    api_root + DEFI_LLAMA_PRICE_FETCH_ROUTE@ + seq!['/'] + key
}

/// The key of `token` on `network`.
pub fn price_key(network: &str, token: &EthAddress) -> (key: String)
    ensures
        key@ == price_key_text(network@, *token),
        key@ == network@ + seq![':'] + address_debug_text(*token),
{
    let mut key = String::from_str(network);
    crate::text::push_char(&mut key, ':');
    let hex = address_debug(token);
    key.append(hex.as_str());
    proof {
        assert(key@ =~= price_key_text(network@, *token));
    }
    key
}

/// The price URL for the coin `key` under `api_root`.
pub fn price_url(api_root: &str, key: &String) -> (url: String)
    ensures
        url@ == price_url_text(api_root@, key@),
        url@ == api_root@ + "/prices/current"@ + seq!['/'] + key@,
{
    let mut url = String::from_str(api_root);
    url.append(DEFI_LLAMA_PRICE_FETCH_ROUTE);
    crate::text::push_char(&mut url, '/');
    url.append(key.as_str());
    proof {
        assert(url@ =~= price_url_text(api_root@, key@));
    }
    url
}

/// DefiLlama's answer lists no coin under the requested key.
pub struct MissingCoinData {
    pub key: String,
}

impl MissingCoinData {
    /// The error text: `Failed to get CoinData for <key>`.
    pub fn message(&self) -> (s: String)
        ensures
            s@ == "Failed to get CoinData for "@ + self.key@,
    {
        let mut s = String::from_str("Failed to get CoinData for ");
        s.append(self.key.as_str());
        s
    }
}

/// Finds the coin listed under `key` among the keys of DefiLlama's answer.
pub fn coin_index(keys: &Vec<String>, key: &String) -> (res: Result<usize, MissingCoinData>)
    ensures
        res matches Ok(i) ==> i < keys.len() && keys@[i as int]@ == key@
            && forall|j: int| 0 <= j < i ==> #[trigger] keys@[j]@ != key@,
        res matches Err(e) ==> e.key@ == key@ && forall|i: int| 0 <= i < keys.len() ==> #[trigger] keys@[i]@ != key@,
        (exists|i: int| 0 <= i < keys.len() && #[trigger] keys@[i]@ == key@) <==> res is Ok,
{
    let mut i: usize = 0;
    while i < keys.len()
        invariant
            i <= keys.len(),
            forall|j: int| 0 <= j < i ==> #[trigger] keys@[j]@ != key@,
        decreases keys.len() - i,
    {
        if keys[i] == *key {
            return Ok(i);
        }
        i = i + 1;
    }
    Err(MissingCoinData { key: key.clone() })
}

} // verus!
