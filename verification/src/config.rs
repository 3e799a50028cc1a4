//! The server's configuration: the TOML config file of LDK Server and how
//! the base URL, API key and TLS certificate are chosen among environment
//! variables, the config file and the default locations.
//!
//! Precedence, highest first: the environment variables `LDK_BASE_URL`,
//! `LDK_API_KEY` and `LDK_TLS_CERT_PATH`; the config file; the default paths
//! under the LDK Server data directory.
use vstd::prelude::*;
use vstd::string::*;

pub use crate::text::hex_encode;
use crate::text::hex_spec;

verus! {

pub const DEFAULT_CONFIG_FILE: &'static str = "config.toml";

pub const DEFAULT_CERT_FILE: &'static str = "tls.crt";

pub const API_KEY_FILE: &'static str = "api_key";

pub const DEFAULT_GRPC_SERVICE_ADDRESS: &'static str = "127.0.0.1:3536";

/// The contents of a config file.
#[derive(Debug)]
pub struct Config {
    pub node: NodeConfig,
    pub tls: Option<TlsConfig>,
}

/// The `[tls]` table of a config file.
#[derive(Debug)]
pub struct TlsConfig {
    pub cert_path: Option<String>,
}

/// The `[node]` table of a config file; `grpc_service_address` holds the
/// node's service address, whichever key the file gave it under.
#[derive(Debug)]
pub struct NodeConfig {
    pub grpc_service_address: String,
    pub network: String,
}

/// The address of the node's service when the config file gives none.
pub fn default_grpc_service_address() -> (r: String)
    ensures
        r@ == DEFAULT_GRPC_SERVICE_ADDRESS@,
{
    String::from_str(DEFAULT_GRPC_SERVICE_ADDRESS)
}

impl NodeConfig {
    /// The `[node]` table with the keys that the file gives; a missing
    /// `grpc_service_address` takes the default 127.0.0.1:3536.
    pub fn new(grpc_service_address: Option<String>, network: String) -> (r: NodeConfig)
        ensures
            r.grpc_service_address@ == match grpc_service_address {
                Some(a) => a@,
                None => DEFAULT_GRPC_SERVICE_ADDRESS@,
            },
            r.network == network,
    {
        let grpc_service_address = match grpc_service_address {
            Some(a) => a,
            None => default_grpc_service_address(),
        };
        NodeConfig { grpc_service_address, network }
    }
}

/// The service address that a `[node]` table gives: `rest_service_address`
/// (the key that the config format documents), else `grpc_service_address`,
/// else the default 127.0.0.1:3536.
pub open spec fn service_address(
    rest_service_address: Option<String>,
    grpc_service_address: Option<String>,
) -> Seq<char> {
    match (rest_service_address, grpc_service_address) {
        (Some(a), _) => a@,
        (None, Some(a)) => a@,
        (None, None) => DEFAULT_GRPC_SERVICE_ADDRESS@,
    }
}

impl NodeConfig {
    /// The `[node]` table read from a config file, which may name the
    /// service address by either key.
    pub fn from_file_keys(
        rest_service_address: Option<String>,
        grpc_service_address: Option<String>,
        network: String,
    ) -> (r: NodeConfig)
        ensures
            r.grpc_service_address@ == service_address(rest_service_address, grpc_service_address),
            r.network == network,
    {
        match rest_service_address {
            Some(a) => NodeConfig::new(Some(a), network),
            None => NodeConfig::new(grpc_service_address, network),
        }
    }
}

/// The canonical name of a network that the server supports: "mainnet" is
/// another name for "bitcoin".
pub open spec fn normalized_network(n: Seq<char>) -> Option<Seq<char>> {
    if n == "bitcoin"@ || n == "mainnet"@ {
        Some("bitcoin"@)
    } else if n == "testnet"@ {
        Some("testnet"@)
    } else if n == "testnet4"@ {
        Some("testnet4"@)
    } else if n == "signet"@ {
        Some("signet"@)
    } else if n == "regtest"@ {
        Some("regtest"@)
    } else {
        None
    }
}

impl Config {
    /// The network that the config file names, in canonical form.
    pub fn network(&self) -> (r: Result<String, String>)
        ensures
            match r {
                Ok(n) => normalized_network(self.node.network@) == Some(n@),
                Err(e) => normalized_network(self.node.network@) is None && e@
                    == "Unsupported network: "@ + self.node.network@,
            },
    {
        let n = &self.node.network;
        if *n == String::from_str("bitcoin") || *n == String::from_str("mainnet") {
            Ok(String::from_str("bitcoin"))
        } else if *n == String::from_str("testnet") {
            Ok(String::from_str("testnet"))
        } else if *n == String::from_str("testnet4") {
            Ok(String::from_str("testnet4"))
        } else if *n == String::from_str("signet") {
            Ok(String::from_str("signet"))
        } else if *n == String::from_str("regtest") {
            Ok(String::from_str("regtest"))
        } else {
            let mut e = String::from_str("Unsupported network: ");
            e.append(n.as_str());
            Err(e)
        }
    }
}

/// The values that the server connects with.
#[derive(Debug)]
pub struct ResolvedConfig {
    pub base_url: String,
    pub api_key: String,
    pub tls_cert_pem: Vec<u8>,
}

/// The base URL: `LDK_BASE_URL`, else the config file's service address.
pub fn resolve_base_url(env_base_url: Option<String>, config: Option<&Config>) -> (r: Result<
    String,
    String,
>)
    ensures
        match (env_base_url, config) {
            (Some(u), _) => r matches Ok(s) && s@ == u@,
            (None, Some(c)) => r matches Ok(s) && s@ == c.node.grpc_service_address@,
            (None, None) => r matches Err(e) && e@
                == "Base URL not provided. Set LDK_BASE_URL or ensure config file exists at ~/.ldk-server/config.toml"@,
        },
{
    match env_base_url {
        Some(u) => Ok(u),
        None => match config {
            Some(c) => Ok(c.node.grpc_service_address.clone()),
            None => Err(
                String::from_str(
                    "Base URL not provided. Set LDK_BASE_URL or ensure config file exists at ~/.ldk-server/config.toml",
                ),
            ),
        },
    }
}

/// The network whose default API key file is read: the config file's
/// network when it names a supported one, else "bitcoin".
pub fn api_key_network(config: Option<&Config>) -> (r: String)
    ensures
        r@ == match config {
            Some(c) => match normalized_network(c.node.network@) {
                Some(n) => n,
                None => "bitcoin"@,
            },
            None => "bitcoin"@,
        },
{
    match config {
        Some(c) => match c.network() {
            Ok(n) => n,
            Err(_) => String::from_str("bitcoin"),
        },
        None => String::from_str("bitcoin"),
    }
}

/// The API key: `LDK_API_KEY`, else the contents of the network's default
/// `api_key` file in lowercase hex (`key_file` is `None` when that file could
/// not be read).
pub fn resolve_api_key(env_api_key: Option<String>, key_file: Option<Vec<u8>>) -> (r: Result<
    String,
    String,
>)
    ensures
        match (env_api_key, key_file) {
            (Some(k), _) => r matches Ok(s) && s@ == k@,
            (None, Some(bytes)) => r matches Ok(s) && s@ == hex_spec(bytes@),
            (None, None) => r matches Err(e) && e@
                == "API key not provided. Set LDK_API_KEY or ensure the api_key file exists at ~/.ldk-server/[network]/api_key"@,
        },
{
    match env_api_key {
        Some(k) => Ok(k),
        None => match key_file {
            Some(bytes) => Ok(hex_encode(bytes.as_slice())),
            None => Err(
                String::from_str(
                    "API key not provided. Set LDK_API_KEY or ensure the api_key file exists at ~/.ldk-server/[network]/api_key",
                ),
            ),
        },
    }
}

/// The TLS certificate path: `LDK_TLS_CERT_PATH`, else the config file's
/// `[tls] cert_path`, else the default certificate path (`None` when there is
/// no data directory).
pub fn resolve_tls_cert_path(
    env_cert_path: Option<String>,
    config: Option<&Config>,
    default_cert_path: Option<String>,
) -> (r: Result<String, String>)
    ensures
        match env_cert_path {
            Some(p) => r matches Ok(s) && s@ == p@,
            None => match config_cert_path(config) {
                Some(p) => r matches Ok(s) && s@ == p,
                None => match default_cert_path {
                    Some(p) => r matches Ok(s) && s@ == p@,
                    None => r matches Err(e) && e@
                        == "TLS cert path not provided. Set LDK_TLS_CERT_PATH or ensure config file exists at ~/.ldk-server/config.toml"@,
                },
            },
        },
{
    match env_cert_path {
        Some(p) => Ok(p),
        None => {
            let from_config = match config {
                Some(c) => match &c.tls {
                    Some(t) => match &t.cert_path {
                        Some(p) => Some(p.clone()),
                        None => None,
                    },
                    None => None,
                },
                None => None,
            };
            match from_config {
                Some(p) => Ok(p),
                None => match default_cert_path {
                    Some(p) => Ok(p),
                    None => Err(
                        String::from_str(
                            "TLS cert path not provided. Set LDK_TLS_CERT_PATH or ensure config file exists at ~/.ldk-server/config.toml",
                        ),
                    ),
                },
            }
        },
    }
}

/// The certificate path that a config file gives, if any.
pub open spec fn config_cert_path(config: Option<&Config>) -> Option<Seq<char>> {
    match config {
        Some(c) => match c.tls {
            Some(t) => match t.cert_path {
                Some(p) => Some(p@),
                None => None,
            },
            None => None,
        },
        None => None,
    }
}

/// A network name in canonical form stays as it is: normalizing is
/// idempotent.
pub proof fn lemma_network_canonical(n: Seq<char>)
    ensures
        normalized_network(n) matches Some(m) ==> normalized_network(m) == Some(m),
{
    reveal_strlit("bitcoin");
    reveal_strlit("mainnet");
    reveal_strlit("testnet");
    reveal_strlit("testnet4");
    reveal_strlit("signet");
    reveal_strlit("regtest");
    assert("bitcoin"@[0] != "mainnet"@[0]);
    assert("testnet"@[0] != "bitcoin"@[0]);
    assert("testnet"@[0] != "mainnet"@[0]);
    assert("signet"@[0] != "bitcoin"@[0]);
    assert("regtest"@[0] != "bitcoin"@[0]);
    assert("regtest"@[0] != "mainnet"@[0]);
    assert("regtest"@[0] != "testnet"@[0]);
}

} // verus!
