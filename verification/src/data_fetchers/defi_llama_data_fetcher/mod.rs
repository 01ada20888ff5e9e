pub mod price_fetcher;

use vstd::prelude::*;

verus! {

/// The DefiLlama coins API.
pub const DEFI_LLAMA_ENDPOINT: &'static str = "https://coins.llama.fi";

/// The network under which DefiLlama lists Ethereum mainnet tokens.
pub const DEFI_LLAMA_NETWORK: &'static str = "ethereum";

/// Price source backed by the DefiLlama coins API.
pub struct DefiLlamaDataFetcher {}

impl DefiLlamaDataFetcher {
    pub fn new() -> (res: Self)
        ensures
            res == (DefiLlamaDataFetcher {}),
    {
        DefiLlamaDataFetcher {}
    }
}

} // verus!
