//! Settings of the server itself.

use vstd::prelude::*;

verus! {

/// Where the server listens.
#[derive(Debug)]
pub struct GeneralConfig {
    /// The address to bind, such as `127.0.0.1:8000`.
    pub listen: String,
}

} // verus!
