use ldk_server_mcp::json_args::{ArgValue, ToolArgs};
use ldk_server_mcp::tools::handlers::{
    build_bolt11_invoice_description, build_channel_config, build_route_parameters,
    format_page_token, handle_bolt11_receive, next_page_token_text, pathfinding_scores_member, handle_bolt11_receive_for_hash, handle_bolt11_send,
    handle_bolt12_receive, handle_list_payments, handle_onchain_send, handle_open_channel,
    handle_sign_message, handle_spontaneous_send, handle_update_channel_config,
    handle_verify_signature, hex_encode, parse_page_token,
};
use ldk_server_mcp::tools::requests::{
    Bolt11InvoiceDescription, ChannelConfig, ClientRequest, GraphGetChannelRequest,
    GraphGetNodeRequest, OnchainSendRequest, PageToken, RouteParametersConfig,
};
use ldk_server_mcp::tools::schema::ParamType;
use ldk_server_mcp::tools::{build_tool_registry, ToolCall};

fn args(entries: Vec<(&str, ArgValue)>) -> ToolArgs {
    ToolArgs { entries: entries.into_iter().map(|(k, v)| (k.to_string(), v)).collect() }
}

fn s(v: &str) -> ArgValue {
    ArgValue::Str(v.to_string())
}

#[test]
fn page_token_round_trip() {
    let pt = PageToken { token: "abc".to_string(), index: 42 };
    let text = format_page_token(&pt);
    assert_eq!(text, "abc:42");
    assert_eq!(parse_page_token(&text), Ok(pt));

    let pt = PageToken { token: "".to_string(), index: i64::MIN };
    let text = format_page_token(&pt);
    assert_eq!(text, ":-9223372036854775808");
    assert_eq!(parse_page_token(&text), Ok(pt));
}

#[test]
fn page_token_errors() {
    let format_error = Err("Page token must be in format 'token:index'".to_string());
    assert_eq!(parse_page_token("abc"), format_error);
    assert_eq!(parse_page_token("a:b:1"), format_error);
    let index_error = Err("Invalid page token index".to_string());
    assert_eq!(parse_page_token("abc:"), index_error);
    assert_eq!(parse_page_token("abc:x1"), index_error);
    assert_eq!(parse_page_token("abc:-"), index_error);
    assert_eq!(parse_page_token("abc:9223372036854775808"), index_error);
    assert_eq!(
        parse_page_token("abc:+7"),
        Ok(PageToken { token: "abc".to_string(), index: 7 })
    );
    assert_eq!(
        parse_page_token("abc:9223372036854775807"),
        Ok(PageToken { token: "abc".to_string(), index: i64::MAX })
    );
}

#[test]
fn route_parameters_defaults_and_truncation() {
    let r = build_route_parameters(&args(vec![]));
    assert_eq!(
        r,
        RouteParametersConfig {
            max_total_routing_fee_msat: None,
            max_total_cltv_expiry_delta: 1008,
            max_path_count: 10,
            max_channel_saturation_power_of_half: 2,
        }
    );
    let r = build_route_parameters(&args(vec![
        ("max_total_routing_fee_msat", ArgValue::UInt(5000)),
        ("max_path_count", ArgValue::UInt(0x1_0000_0003)),
        ("max_total_cltv_expiry_delta", s("144")),
    ]));
    assert_eq!(r.max_total_routing_fee_msat, Some(5000));
    assert_eq!(r.max_path_count, 3);
    assert_eq!(r.max_total_cltv_expiry_delta, 1008);
}

#[test]
fn channel_config_only_when_given() {
    assert_eq!(build_channel_config(&args(vec![("persist", ArgValue::Bool(true))])), None);
    assert_eq!(
        build_channel_config(&args(vec![("cltv_expiry_delta", ArgValue::UInt(72))])),
        Some(ChannelConfig {
            forwarding_fee_proportional_millionths: None,
            forwarding_fee_base_msat: None,
            cltv_expiry_delta: Some(72),
        })
    );
}

#[test]
fn invoice_description_choices() {
    assert_eq!(build_bolt11_invoice_description(&args(vec![])), Ok(None));
    assert_eq!(
        build_bolt11_invoice_description(&args(vec![("description", s("coffee"))])),
        Ok(Some(Bolt11InvoiceDescription::Direct("coffee".to_string())))
    );
    assert_eq!(
        build_bolt11_invoice_description(&args(vec![("description_hash", s("ab12"))])),
        Ok(Some(Bolt11InvoiceDescription::Hash("ab12".to_string())))
    );
    assert_eq!(
        build_bolt11_invoice_description(&args(vec![
            ("description", s("coffee")),
            ("description_hash", s("ab12"))
        ])),
        Err("Only one of description or description_hash can be set".to_string())
    );
}

#[test]
fn onchain_send_reads_arguments() {
    let req = handle_onchain_send(&args(vec![
        ("address", s("bc1qxyz")),
        ("amount_sats", ArgValue::UInt(1000)),
        ("send_all", ArgValue::Bool(false)),
    ]))
    .unwrap();
    assert_eq!(
        req,
        OnchainSendRequest {
            address: "bc1qxyz".to_string(),
            amount_sats: Some(1000),
            send_all: Some(false),
            fee_rate_sat_per_vb: None,
        }
    );
}

#[test]
fn missing_required_parameter_is_named() {
    assert_eq!(
        handle_onchain_send(&args(vec![("amount_sats", ArgValue::UInt(1000))])),
        Err("Missing required parameter: address".to_string())
    );
    // A value of the wrong type does not supply the parameter.
    assert_eq!(
        handle_onchain_send(&args(vec![("address", ArgValue::UInt(5))])),
        Err("Missing required parameter: address".to_string())
    );
    assert_eq!(
        handle_spontaneous_send(&args(vec![])),
        Err("Missing required parameter: amount_msat".to_string())
    );
    assert_eq!(
        handle_spontaneous_send(&args(vec![("amount_msat", ArgValue::UInt(1))])),
        Err("Missing required parameter: node_id".to_string())
    );
    assert_eq!(
        handle_open_channel(&args(vec![("node_pubkey", s("02ab")), ("address", s("host:9735"))])),
        Err("Missing required parameter: channel_amount_sats".to_string())
    );
    assert_eq!(
        handle_verify_signature(&args(vec![("message", s("hi")), ("public_key", s("02ab"))])),
        Err("Missing required parameter: signature".to_string())
    );
}

#[test]
fn bolt11_receive_defaults() {
    let req = handle_bolt11_receive(&args(vec![("amount_msat", ArgValue::UInt(21))])).unwrap();
    assert_eq!(req.expiry_secs, 86_400);
    assert_eq!(req.amount_msat, Some(21));
    assert_eq!(req.description, None);
}

#[test]
fn bolt11_receive_for_hash_checks_description_first() {
    assert_eq!(
        handle_bolt11_receive_for_hash(&args(vec![
            ("description", s("a")),
            ("description_hash", s("b"))
        ])),
        Err("Only one of description or description_hash can be set".to_string())
    );
    assert_eq!(
        handle_bolt11_receive_for_hash(&args(vec![("description", s("a"))])),
        Err("Missing required parameter: payment_hash".to_string())
    );
}

#[test]
fn payments_carry_route_parameters() {
    let req = handle_bolt11_send(&args(vec![("invoice", s("lnbc1"))])).unwrap();
    assert_eq!(req.route_parameters.unwrap().max_path_count, 10);
    let req = handle_bolt12_receive(&args(vec![
        ("description", s("offer")),
        ("expiry_secs", ArgValue::UInt(60))
    ]))
    .unwrap();
    assert_eq!(req.expiry_secs, Some(60));
}

#[test]
fn open_channel_defaults() {
    let req = handle_open_channel(&args(vec![
        ("node_pubkey", s("02ab")),
        ("address", s("host:9735")),
        ("channel_amount_sats", ArgValue::UInt(100_000)),
    ]))
    .unwrap();
    assert!(!req.announce_channel);
    assert!(!req.disable_counterparty_reserve);
    assert_eq!(req.channel_config, None);
}

#[test]
fn update_channel_config_always_sends_config() {
    let req = handle_update_channel_config(&args(vec![
        ("user_channel_id", s("7")),
        ("counterparty_node_id", s("02ab")),
    ]))
    .unwrap();
    assert_eq!(
        req.channel_config,
        Some(ChannelConfig {
            forwarding_fee_proportional_millionths: None,
            forwarding_fee_base_msat: None,
            cltv_expiry_delta: None,
        })
    );
}

#[test]
fn list_payments_reads_page_token() {
    assert_eq!(handle_list_payments(&args(vec![])).unwrap().page_token, None);
    assert_eq!(
        handle_list_payments(&args(vec![("page_token", s("tok:3"))])).unwrap().page_token,
        Some(PageToken { token: "tok".to_string(), index: 3 })
    );
    assert_eq!(
        handle_list_payments(&args(vec![("page_token", s("tok"))])),
        Err("Page token must be in format 'token:index'".to_string())
    );
}

#[test]
fn messages_are_signed_as_utf8() {
    let req = handle_sign_message(&args(vec![("message", s("héllo"))])).unwrap();
    assert_eq!(req.message, "héllo".as_bytes().to_vec());
}

#[test]
fn pathfinding_scores_are_hex() {
    assert_eq!(hex_encode(&[0xca, 0xfe, 0x01]), "cafe01");
}

#[test]
fn registry_lists_schemas_with_required_parameters() {
    let registry = build_tool_registry();
    let tools = registry.list_tools();
    let open = tools.iter().find(|t| t.name == "open_channel").unwrap();
    assert_eq!(open.description, "Open a new Lightning channel with a remote node");
    assert_eq!(open.input_schema.required, vec!["node_pubkey", "address", "channel_amount_sats"]);
    let amount = open
        .input_schema
        .properties
        .iter()
        .find(|p| p.name == "channel_amount_sats")
        .unwrap();
    assert_eq!(amount.param_type, ParamType::Integer);
    for tool in &tools {
        for required in &tool.input_schema.required {
            assert!(tool.input_schema.properties.iter().any(|p| &p.name == required));
        }
    }
}

#[test]
fn tool_names_are_unique() {
    let registry = build_tool_registry();
    let tools = registry.list_tools();
    for (i, a) in tools.iter().enumerate() {
        for b in tools.iter().skip(i + 1) {
            assert_ne!(a.name, b.name);
        }
    }
}

#[test]
fn call_with_missing_parameter_is_answered_with_error() {
    let registry = build_tool_registry();
    match registry.call_tool("disconnect_peer", &args(vec![])) {
        ToolCall::Finished(r) => {
            assert_eq!(r.is_error, Some(true));
            assert_eq!(r.content[0].text, "Missing required parameter: node_pubkey");
        },
        ToolCall::Send(_) => panic!("expected a refusal"),
    }
}

#[test]
fn tools_outside_the_registry_are_unknown() {
    let registry = build_tool_registry();
    match registry.call_tool("unified_send", &args(vec![("uri", s("bitcoin:x"))])) {
        ToolCall::Finished(r) => {
            assert_eq!(r.is_error, Some(true));
            assert_eq!(r.content[0].text, "Unknown tool: unified_send");
        },
        ToolCall::Send(_) => panic!("expected an unknown tool"),
    }
}

#[test]
fn graph_tools_send_requests() {
    let registry = build_tool_registry();
    match registry.call_tool("graph_get_channel", &args(vec![("short_channel_id", ArgValue::UInt(12345))])) {
        ToolCall::Send(req) => assert_eq!(
            req,
            ClientRequest::GraphGetChannel(GraphGetChannelRequest { short_channel_id: 12345 })
        ),
        ToolCall::Finished(_) => panic!("expected a request"),
    }
    match registry.call_tool(
        "graph_get_node",
        &args(vec![("node_id", s("02deadbeef"))]),
    ) {
        ToolCall::Send(req) => assert_eq!(
            req,
            ClientRequest::GraphGetNode(GraphGetNodeRequest { node_id: "02deadbeef".to_string() })
        ),
        ToolCall::Finished(_) => panic!("expected a request"),
    }
}

#[test]
fn listing_answers_with_written_page_token() {
    let next = Some(PageToken { token: "tok".to_string(), index: -5 });
    assert_eq!(next_page_token_text(&next), Some("tok:-5".to_string()));
    assert_eq!(next_page_token_text(&None), None);
}

#[test]
fn pathfinding_scores_answer_member() {
    assert_eq!(
        pathfinding_scores_member(&[0x01, 0xab]),
        ("pathfinding_scores".to_string(), "01ab".to_string())
    );
}

#[test]
fn jit_channel_tools_are_registered() {
    let registry = build_tool_registry();
    let tools = registry.list_tools();
    let jit = tools.iter().find(|t| t.name == "bolt11_receive_via_jit_channel").unwrap();
    assert_eq!(jit.description, "Create a BOLT11 Lightning invoice to receive via an LSPS2 JIT channel");
    assert_eq!(jit.input_schema.required, vec!["amount_msat"]);
    let variable = tools
        .iter()
        .find(|t| t.name == "bolt11_receive_variable_amount_via_jit_channel")
        .unwrap();
    assert!(variable.input_schema.required.is_empty());
    match registry.call_tool("bolt11_receive_via_jit_channel", &args(vec![])) {
        ToolCall::Finished(r) => {
            assert_eq!(r.content[0].text, "Missing required parameter: amount_msat")
        },
        ToolCall::Send(_) => panic!("expected a refusal"),
    }
    match registry.call_tool(
        "bolt11_receive_variable_amount_via_jit_channel",
        &args(vec![("description", s("tea"))]),
    ) {
        ToolCall::Send(ClientRequest::Bolt11ReceiveVariableAmountViaJitChannel(req)) => {
            assert_eq!(req.expiry_secs, 86_400);
            assert_eq!(req.description, Some(Bolt11InvoiceDescription::Direct("tea".to_string())));
        },
        _ => panic!("expected a request"),
    }
}

#[test]
fn documented_tools_are_registered() {
    let documented = [
        ("get_node_info", "Retrieve node info including node_id, sync status, and best block"),
        ("get_balances", "Retrieve an overview of all known balances (on-chain and Lightning)"),
        ("onchain_receive", "Generate a new on-chain Bitcoin funding address"),
        ("onchain_send", "Send an on-chain Bitcoin payment to an address"),
        ("bolt11_receive", "Create a BOLT11 Lightning invoice to receive a payment"),
        ("bolt11_receive_via_jit_channel", "Create a BOLT11 Lightning invoice to receive via an LSPS2 JIT channel"),
        ("bolt11_receive_variable_amount_via_jit_channel", "Create a variable-amount BOLT11 Lightning invoice to receive via an LSPS2 JIT channel"),
        ("bolt11_send", "Pay a BOLT11 Lightning invoice"),
        ("bolt12_receive", "Create a BOLT12 offer for receiving Lightning payments"),
        ("bolt12_send", "Pay a BOLT12 Lightning offer"),
        ("spontaneous_send", "Send a spontaneous (keysend) payment to a Lightning node"),
        ("open_channel", "Open a new Lightning channel with a remote node"),
        ("close_channel", "Cooperatively close a Lightning channel"),
        ("force_close_channel", "Force close a Lightning channel unilaterally"),
        ("list_channels", "List all known Lightning channels"),
        ("update_channel_config", "Update forwarding fees and CLTV delta for a channel"),
        ("splice_in", "Increase a channel's balance by splicing in on-chain funds"),
        ("splice_out", "Decrease a channel's balance by splicing out to on-chain"),
        ("list_payments", "List all payments (supports pagination via page_token)"),
        ("get_payment_details", "Get details of a specific payment by its ID"),
        ("list_forwarded_payments", "List all forwarded payments (supports pagination via page_token)"),
        ("connect_peer", "Connect to a Lightning peer without opening a channel"),
        ("disconnect_peer", "Disconnect from a Lightning peer"),
        ("sign_message", "Sign a message with the node's secret key"),
        ("verify_signature", "Verify a signature against a message and public key"),
        ("export_pathfinding_scores", "Export the pathfinding scores used by the Lightning router"),
    ];
    let registry = build_tool_registry();
    let tools = registry.list_tools();
    for (name, description) in documented {
        let found: Vec<_> = tools.iter().filter(|t| t.name == name).collect();
        assert_eq!(found.len(), 1, "{name}");
        assert_eq!(found[0].description, description);
    }
}
