use ldk_server_mcp::tools::tool_call_result;
use ldk_server_mcp::config::{
    api_key_network, default_grpc_service_address, hex_encode, resolve_api_key, resolve_base_url,
    resolve_tls_cert_path, Config, NodeConfig, TlsConfig, DEFAULT_GRPC_SERVICE_ADDRESS,
};

fn config_with(network: &str, address: Option<&str>, cert_path: Option<&str>) -> Config {
    Config {
        node: NodeConfig::new(address.map(|a| a.to_string()), network.to_string()),
        tls: Some(TlsConfig { cert_path: cert_path.map(|p| p.to_string()) }),
    }
}

#[test]
fn config_defaults_grpc_service_address() {
    let table: toml::Table = toml::from_str(
        r#"
				[node]
				network = "regtest"
			"#,
    )
    .unwrap();
    let node = table["node"].as_table().unwrap();
    let config = Config {
        node: NodeConfig::new(
            node.get("grpc_service_address").and_then(|v| v.as_str()).map(|s| s.to_string()),
            node["network"].as_str().unwrap().to_string(),
        ),
        tls: None,
    };

    assert_eq!(config.node.grpc_service_address, DEFAULT_GRPC_SERVICE_ADDRESS);
}

#[test]
fn documented_config_format_sets_service_address() {
    let table: toml::Table = toml::from_str(
        r#"
            [node]
            rest_service_address = "localhost:3000"
            network = "signet"

            [tls]
            cert_path = "/path/to/tls.crt"
        "#,
    )
    .unwrap();
    let node = table["node"].as_table().unwrap();
    let key = |k: &str| node.get(k).and_then(|v| v.as_str()).map(|s| s.to_string());
    let config = Config {
        node: NodeConfig::from_file_keys(
            key("rest_service_address"),
            key("grpc_service_address"),
            node["network"].as_str().unwrap().to_string(),
        ),
        tls: Some(TlsConfig { cert_path: Some("/path/to/tls.crt".to_string()) }),
    };
    assert_eq!(resolve_base_url(None, Some(&config)), Ok("localhost:3000".to_string()));
    assert_eq!(
        resolve_tls_cert_path(None, Some(&config), None),
        Ok("/path/to/tls.crt".to_string())
    );
    let grpc_only =
        NodeConfig::from_file_keys(None, Some("127.0.0.1:4242".to_string()), "regtest".to_string());
    assert_eq!(grpc_only.grpc_service_address, "127.0.0.1:4242");
    let neither = NodeConfig::from_file_keys(None, None, "regtest".to_string());
    assert_eq!(neither.grpc_service_address, "127.0.0.1:3536");
}

#[test]
fn tool_call_outcomes() {
    let ok = tool_call_result(Ok("{}".to_string()));
    assert_eq!(ok.is_error, None);
    assert_eq!(ok.content[0].text, "{}");
    let err = tool_call_result(Err("connection refused".to_string()));
    assert_eq!(err.is_error, Some(true));
    assert_eq!(err.content[0].text, "connection refused");
}

#[test]
fn default_service_address_value() {
    assert_eq!(default_grpc_service_address(), "127.0.0.1:3536");
}

#[test]
fn network_names_are_normalized() {
    assert_eq!(config_with("bitcoin", None, None).network(), Ok("bitcoin".to_string()));
    assert_eq!(config_with("mainnet", None, None).network(), Ok("bitcoin".to_string()));
    assert_eq!(config_with("testnet", None, None).network(), Ok("testnet".to_string()));
    assert_eq!(config_with("testnet4", None, None).network(), Ok("testnet4".to_string()));
    assert_eq!(config_with("signet", None, None).network(), Ok("signet".to_string()));
    assert_eq!(config_with("regtest", None, None).network(), Ok("regtest".to_string()));
}

#[test]
fn unsupported_network_is_refused() {
    assert_eq!(
        config_with("litecoin", None, None).network(),
        Err("Unsupported network: litecoin".to_string())
    );
}

#[test]
fn canonical_network_stays_canonical() {
    let first = config_with("mainnet", None, None).network().unwrap();
    assert_eq!(config_with(&first, None, None).network(), Ok(first.clone()));
}

#[test]
fn base_url_precedence() {
    let config = config_with("regtest", Some("127.0.0.1:4242"), None);
    assert_eq!(
        resolve_base_url(Some("localhost:19999".to_string()), Some(&config)),
        Ok("localhost:19999".to_string())
    );
    assert_eq!(resolve_base_url(None, Some(&config)), Ok("127.0.0.1:4242".to_string()));
    let defaulted = config_with("regtest", None, None);
    assert_eq!(resolve_base_url(None, Some(&defaulted)), Ok("127.0.0.1:3536".to_string()));
    assert_eq!(
        resolve_base_url(None, None),
        Err("Base URL not provided. Set LDK_BASE_URL or ensure config file exists at ~/.ldk-server/config.toml".to_string())
    );
}

#[test]
fn api_key_from_env_or_hex_file() {
    assert_eq!(
        resolve_api_key(Some("deadbeef".to_string()), Some(vec![1, 2])),
        Ok("deadbeef".to_string())
    );
    assert_eq!(resolve_api_key(None, Some(vec![0xde, 0xad, 0x0b, 0xef])), Ok("dead0bef".to_string()));
    assert_eq!(
        resolve_api_key(None, None),
        Err("API key not provided. Set LDK_API_KEY or ensure the api_key file exists at ~/.ldk-server/[network]/api_key".to_string())
    );
}

#[test]
fn api_key_network_falls_back_to_bitcoin() {
    assert_eq!(api_key_network(None), "bitcoin");
    assert_eq!(api_key_network(Some(&config_with("signet", None, None))), "signet");
    assert_eq!(api_key_network(Some(&config_with("mainnet", None, None))), "bitcoin");
    assert_eq!(api_key_network(Some(&config_with("dogecoin", None, None))), "bitcoin");
}

#[test]
fn tls_cert_path_precedence() {
    let config = config_with("regtest", None, Some("/etc/cert.pem"));
    assert_eq!(
        resolve_tls_cert_path(
            Some("/env/cert.pem".to_string()),
            Some(&config),
            Some("/home/.ldk-server/tls.crt".to_string())
        ),
        Ok("/env/cert.pem".to_string())
    );
    assert_eq!(
        resolve_tls_cert_path(None, Some(&config), Some("/home/.ldk-server/tls.crt".to_string())),
        Ok("/etc/cert.pem".to_string())
    );
    let no_tls = Config { node: NodeConfig::new(None, "regtest".to_string()), tls: None };
    assert_eq!(
        resolve_tls_cert_path(None, Some(&no_tls), Some("/home/.ldk-server/tls.crt".to_string())),
        Ok("/home/.ldk-server/tls.crt".to_string())
    );
    assert_eq!(
        resolve_tls_cert_path(None, None, None),
        Err("TLS cert path not provided. Set LDK_TLS_CERT_PATH or ensure config file exists at ~/.ldk-server/config.toml".to_string())
    );
}

#[test]
fn hex_encoding_is_lowercase_two_digits_per_byte() {
    assert_eq!(hex_encode(&[]), "");
    assert_eq!(hex_encode(&[0x00, 0x0f, 0xa0, 0xff]), "000fa0ff");
}
