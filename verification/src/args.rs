use vstd::prelude::*;

verus! {

/// Command-line arguments of the service.
pub struct Args {
    /// Path to the config toml file.
    pub config: String,
}

} // verus!
