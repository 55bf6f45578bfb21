use vstd::prelude::*;

verus! {

/// The shape of the package manifest that the service version is read from.
pub struct CargoConfig {
    pub package: CargoPackage,
}

pub struct CargoPackage {
    pub version: String,
}

/// Process configuration, assembled once at startup by the embedding
/// program and read-only afterwards.
pub struct Config {
    pub version: String,
    pub hostname: String,
    pub port: u16,
    pub cache_ttl_secs: u64,
    pub user_agent: String,
    pub github_token: String,
    pub huggingface_token: String,
}

} // verus!
