//! Connection settings of the SDK.

use vstd::prelude::*;

use crate::constants::{MAINNET_CHAIN_ID, TESTNET_CHAIN_ID};
use crate::text::{contains_seq, str_contains};

verus! {

/// Where and how the SDK connects.
#[derive(Debug, Clone)]
pub struct Config {
    pub host: String,
    pub chain_id: u32,
    pub use_ssl: bool,
    pub pool_size: usize,
    pub signer_lib_path: Option<String>,
    pub proxy: Option<String>,
}

/// The chain a host belongs to: mainnet when its name mentions `mainnet`,
/// testnet otherwise.
pub open spec fn chain_id_for_host(host: Seq<char>) -> u32 {
    if contains_seq(host, "mainnet"@) {
        MAINNET_CHAIN_ID
    } else {
        TESTNET_CHAIN_ID
    }
}

/// The scheme of REST requests.
pub open spec fn api_scheme(use_ssl: bool) -> Seq<char> {
    if use_ssl {
        "https"@
    } else {
        "http"@
    }
}

/// The scheme of websocket connections.
pub open spec fn ws_scheme(use_ssl: bool) -> Seq<char> {
    if use_ssl {
        "wss"@
    } else {
        "ws"@
    }
}

impl Config {
    /// Settings for `host`: the chain follows the host's name, SSL on, a
    /// pool of 10 connections, no signer path and no proxy.
    pub fn new(host: &str) -> (res: Self)
        ensures
            res.host@ == host@,
            res.chain_id == chain_id_for_host(host@),
            res.use_ssl,
            res.pool_size == 10,
            res.signer_lib_path is None,
            res.proxy is None,
    {
        let chain_id = if str_contains(host, "mainnet") {
            MAINNET_CHAIN_ID
        } else {
            TESTNET_CHAIN_ID
        };
        Config {
            host: host.to_string(),
            chain_id,
            use_ssl: true,
            pool_size: 10,
            signer_lib_path: None,
            proxy: None,
        }
    }

    /// The same settings on another chain.
    pub fn with_chain_id(self, chain_id: u32) -> (res: Self)
        ensures
            res == (Config { chain_id, ..self }),
    {
        let mut c = self;
        c.chain_id = chain_id;
        c
    }

    /// The same settings with or without SSL.
    pub fn with_ssl(self, use_ssl: bool) -> (res: Self)
        ensures
            res == (Config { use_ssl, ..self }),
    {
        let mut c = self;
        c.use_ssl = use_ssl;
        c
    }

    /// The same settings with another connection pool size.
    pub fn with_pool_size(self, pool_size: usize) -> (res: Self)
        ensures
            res == (Config { pool_size, ..self }),
    {
        let mut c = self;
        c.pool_size = pool_size;
        c
    }

    /// The same settings with the signer library at `path`: either a
    /// directory containing the signer shared library or the library file.
    pub fn with_signer_lib_path(self, path: &str) -> (res: Self)
        ensures
            res.signer_lib_path matches Some(p) && p@ == path@,
            res.host == self.host,
            res.chain_id == self.chain_id,
            res.use_ssl == self.use_ssl,
            res.pool_size == self.pool_size,
            res.proxy == self.proxy,
    {
        let mut c = self;
        c.signer_lib_path = Some(path.to_string());
        c
    }

    /// The same settings through the proxy at `proxy`.
    pub fn with_proxy(self, proxy: &str) -> (res: Self)
        ensures
            res.proxy matches Some(p) && p@ == proxy@,
            res.host == self.host,
            res.chain_id == self.chain_id,
            res.use_ssl == self.use_ssl,
            res.pool_size == self.pool_size,
            res.signer_lib_path == self.signer_lib_path,
    {
        let mut c = self;
        c.proxy = Some(proxy.to_string());
        c
    }

    /// The base URL of REST requests: `https://host`, or `http://host` without SSL.
    pub fn api_base_url(&self) -> (res: String)
        ensures
            res@ == api_scheme(self.use_ssl) + "://"@ + self.host@,
    {
        let mut url = if self.use_ssl {
            String::from_str("https")
        } else {
            String::from_str("http")
        };
        url.append("://");
        url.append(self.host.as_str());
        url
    }

    /// The websocket URL: `wss://host/stream`, or `ws://host/stream` without SSL.
    pub fn ws_base_url(&self) -> (res: String)
        ensures
            res@ == ws_scheme(self.use_ssl) + "://"@ + self.host@ + "/stream"@,
    {
        let mut url = if self.use_ssl {
            String::from_str("wss")
        } else {
            String::from_str("ws")
        };
        url.append("://");
        url.append(self.host.as_str());
        url.append("/stream");
        url
    }
}

} // verus!
