//! The agent's configuration, constructed once at startup from optional
//! environment values, with the documented defaults filled in. Component
//! logic receives this struct; nothing looks configuration up ambiently.

use vstd::prelude::*;
use vstd::string::*;

verus! {

/// Everything the two components are configured with.
pub struct Config {
    /// Base URL of the ingestion API.
    pub api_url: String,
    /// Credential passed through as a request header; may be empty.
    pub api_key: String,
    /// Address the status endpoint binds to.
    pub bind_addr: String,
    /// Optional path of a module to preload at startup.
    pub wasm_module: Option<String>,
}

impl Config {
    /// Fills in the defaults: base URL `http://localhost:8080`, empty
    /// credential, bind address `0.0.0.0:9090`, no module. A supplied value
    /// is taken as it stands, unvalidated.
    pub fn from_env_values(
        api_url: Option<String>,
        api_key: Option<String>,
        bind_addr: Option<String>,
        wasm_module: Option<String>,
    ) -> (config: Config)
        ensures
            config.api_url@ == match api_url {
                Some(url) => url@,
                None => "http://localhost:8080"@,
            },
            config.api_key@ == match api_key {
                Some(key) => key@,
                None => Seq::<char>::empty(),
            },
            config.bind_addr@ == match bind_addr {
                Some(addr) => addr@,
                None => "0.0.0.0:9090"@,
            },
            config.wasm_module == wasm_module,
    {
        Config {
            api_url: match api_url {
                Some(url) => url,
                None => "http://localhost:8080".to_owned(),
            },
            api_key: match api_key {
                Some(key) => key,
                None => String::new(),
            },
            bind_addr: match bind_addr {
                Some(addr) => addr,
                None => "0.0.0.0:9090".to_owned(),
            },
            wasm_module,
        }
    }
}

} // verus!
