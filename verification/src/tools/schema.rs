//! The input schemas of the tools.
//!
//! Every schema describes a JSON object: the parameters that a tool reads,
//! each with its JSON type and a description, and the parameters that a call
//! must supply.
use vstd::prelude::*;
use vstd::string::*;

use crate::tools::ToolKind;

verus! {

/// The JSON type of a tool parameter.
#[derive(Debug, Clone, Copy, PartialEq, Eq, Structural)]
pub enum ParamType {
    String,
    Integer,
    Boolean,
}

/// One parameter of a tool.
#[derive(Debug, PartialEq, Eq)]
pub struct SchemaProperty {
    pub name: String,
    pub param_type: ParamType,
    pub description: String,
}

/// The input schema of a tool: an object with these properties, of which
/// those in `required` must be given.
#[derive(Debug, PartialEq, Eq)]
pub struct ToolSchema {
    pub properties: Vec<SchemaProperty>,
    pub required: Vec<String>,
}

/// A schema as values: each property as (name, type, description), and the
/// names of the required properties.
#[verifier::ext_equal]
pub struct SchemaModel {
    pub properties: Seq<(Seq<char>, ParamType, Seq<char>)>,
    pub required: Seq<Seq<char>>,
}

impl View for ToolSchema {
    type V = SchemaModel;

    open spec fn view(&self) -> SchemaModel {
        SchemaModel {
            properties: self.properties@.map_values(
                |p: SchemaProperty| (p.name@, p.param_type, p.description@),
            ),
            required: self.required@.map_values(|s: String| s@),
        }
    }
}

fn prop(name: &str, param_type: ParamType, description: &str) -> (p: SchemaProperty)
    ensures
        p.name@ == name@,
        p.param_type == param_type,
        p.description@ == description@,
{
    SchemaProperty {
        name: String::from_str(name),
        param_type,
        description: String::from_str(description),
    }
}

/// The schema that each tool of the registry publishes.
pub open spec fn schema_model(kind: ToolKind) -> SchemaModel {
    match kind {
        ToolKind::GetNodeInfo => SchemaModel {
            properties: Seq::empty(),
            required: Seq::empty(),
        },
        ToolKind::GetBalances => SchemaModel {
            properties: Seq::empty(),
            required: Seq::empty(),
        },
        ToolKind::OnchainReceive => SchemaModel {
            properties: Seq::empty(),
            required: Seq::empty(),
        },
        ToolKind::OnchainSend => SchemaModel {
            properties: seq![
                ("address"@, ParamType::String, "The Bitcoin address to send coins to"@),
                ("amount_sats"@, ParamType::Integer, "The amount in satoshis to send. Respects on-chain reserve for anchor channels"@),
                ("send_all"@, ParamType::Boolean, "If true, send full balance (ignores amount_sats). Warning: will not retain on-chain reserves for anchor channels"@),
                ("fee_rate_sat_per_vb"@, ParamType::Integer, "Fee rate in satoshis per virtual byte. If not set, a reasonable estimate will be used"@),
            ],
            required: seq!["address"@],
        },
        ToolKind::Bolt11Receive => SchemaModel {
            properties: seq![
                ("amount_msat"@, ParamType::Integer, "Amount in millisatoshis to request. If unset, a variable-amount invoice is returned"@),
                ("description"@, ParamType::String, "Description to attach to the invoice. Mutually exclusive with description_hash"@),
                ("description_hash"@, ParamType::String, "SHA-256 hash of the description (hex). Use instead of description for longer text. Mutually exclusive with description"@),
                ("expiry_secs"@, ParamType::Integer, "Invoice expiry time in seconds (default: 86400)"@),
            ],
            required: Seq::empty(),
        },
        ToolKind::Bolt11ReceiveViaJitChannel => SchemaModel {
            properties: seq![
                ("amount_msat"@, ParamType::Integer, "The amount in millisatoshis to request"@),
                ("description"@, ParamType::String, "Description to attach to the invoice. Mutually exclusive with description_hash"@),
                ("description_hash"@, ParamType::String, "SHA-256 hash of the description (hex). Use instead of description for longer text. Mutually exclusive with description"@),
                ("expiry_secs"@, ParamType::Integer, "Invoice expiry time in seconds (default: 86400)"@),
                ("max_total_lsp_fee_limit_msat"@, ParamType::Integer, "Maximum total fee in millisatoshis that the LSP may take for opening the channel"@),
            ],
            required: seq!["amount_msat"@],
        },
        ToolKind::Bolt11ReceiveVariableAmountViaJitChannel => SchemaModel {
            properties: seq![
                ("description"@, ParamType::String, "Description to attach to the invoice. Mutually exclusive with description_hash"@),
                ("description_hash"@, ParamType::String, "SHA-256 hash of the description (hex). Use instead of description for longer text. Mutually exclusive with description"@),
                ("expiry_secs"@, ParamType::Integer, "Invoice expiry time in seconds (default: 86400)"@),
                ("max_proportional_lsp_fee_limit_ppm_msat"@, ParamType::Integer, "Maximum proportional fee, in parts per million, that the LSP may take for opening the channel"@),
            ],
            required: Seq::empty(),
        },
        ToolKind::Bolt11Send => SchemaModel {
            properties: seq![
                ("invoice"@, ParamType::String, "A BOLT11 invoice string to pay"@),
                ("amount_msat"@, ParamType::Integer, "Amount in millisatoshis. Required when paying a zero-amount invoice"@),
                ("max_total_routing_fee_msat"@, ParamType::Integer, "Maximum total routing fee in millisatoshis. Defaults to 1% of payment + 50 sats"@),
                ("max_total_cltv_expiry_delta"@, ParamType::Integer, "Maximum total CLTV delta for the route (default: 1008)"@),
                ("max_path_count"@, ParamType::Integer, "Maximum number of paths for MPP payments (default: 10)"@),
                ("max_channel_saturation_power_of_half"@, ParamType::Integer, "Maximum channel capacity share as power of 1/2 (default: 2)"@),
            ],
            required: seq!["invoice"@],
        },
        ToolKind::Bolt12Receive => SchemaModel {
            properties: seq![
                ("description"@, ParamType::String, "Description to attach to the offer"@),
                ("amount_msat"@, ParamType::Integer, "Amount in millisatoshis. If unset, a variable-amount offer is returned"@),
                ("expiry_secs"@, ParamType::Integer, "Offer expiry time in seconds"@),
                ("quantity"@, ParamType::Integer, "Number of items requested. Can only be set for fixed-amount offers"@),
            ],
            required: seq!["description"@],
        },
        ToolKind::Bolt12Send => SchemaModel {
            properties: seq![
                ("offer"@, ParamType::String, "A BOLT12 offer string to pay"@),
                ("amount_msat"@, ParamType::Integer, "Amount in millisatoshis. Required when paying a zero-amount offer"@),
                ("quantity"@, ParamType::Integer, "Number of items requested"@),
                ("payer_note"@, ParamType::String, "Note to include for the payee. Reflected back in the invoice"@),
                ("max_total_routing_fee_msat"@, ParamType::Integer, "Maximum total routing fee in millisatoshis. Defaults to 1% of payment + 50 sats"@),
                ("max_total_cltv_expiry_delta"@, ParamType::Integer, "Maximum total CLTV delta for the route (default: 1008)"@),
                ("max_path_count"@, ParamType::Integer, "Maximum number of paths for MPP payments (default: 10)"@),
                ("max_channel_saturation_power_of_half"@, ParamType::Integer, "Maximum channel capacity share as power of 1/2 (default: 2)"@),
            ],
            required: seq!["offer"@],
        },
        ToolKind::SpontaneousSend => SchemaModel {
            properties: seq![
                ("amount_msat"@, ParamType::Integer, "The amount in millisatoshis to send"@),
                ("node_id"@, ParamType::String, "The hex-encoded public key of the destination node"@),
                ("max_total_routing_fee_msat"@, ParamType::Integer, "Maximum total routing fee in millisatoshis. Defaults to 1% of payment + 50 sats"@),
                ("max_total_cltv_expiry_delta"@, ParamType::Integer, "Maximum total CLTV delta for the route (default: 1008)"@),
                ("max_path_count"@, ParamType::Integer, "Maximum number of paths for MPP payments (default: 10)"@),
                ("max_channel_saturation_power_of_half"@, ParamType::Integer, "Maximum channel capacity share as power of 1/2 (default: 2)"@),
            ],
            required: seq!["amount_msat"@, "node_id"@],
        },
        ToolKind::OpenChannel => SchemaModel {
            properties: seq![
                ("node_pubkey"@, ParamType::String, "The hex-encoded public key of the node to open a channel with"@),
                ("address"@, ParamType::String, "Address of the remote peer (IPv4:port, IPv6:port, OnionV3:port, or hostname:port)"@),
                ("channel_amount_sats"@, ParamType::Integer, "The amount in satoshis to commit to the channel"@),
                ("push_to_counterparty_msat"@, ParamType::Integer, "Amount in millisatoshis to push to the remote side"@),
                ("announce_channel"@, ParamType::Boolean, "Whether the channel should be public (default: false)"@),
                ("forwarding_fee_proportional_millionths"@, ParamType::Integer, "Fee in millionths of a satoshi charged per satoshi forwarded"@),
                ("forwarding_fee_base_msat"@, ParamType::Integer, "Base fee in millisatoshis for forwarded payments"@),
                ("cltv_expiry_delta"@, ParamType::Integer, "CLTV delta between incoming and outbound HTLCs"@),
            ],
            required: seq!["node_pubkey"@, "address"@, "channel_amount_sats"@],
        },
        ToolKind::SpliceIn => SchemaModel {
            properties: seq![
                ("user_channel_id"@, ParamType::String, "The local user_channel_id of the channel"@),
                ("counterparty_node_id"@, ParamType::String, "The hex-encoded public key of the channel's counterparty node"@),
                ("splice_amount_sats"@, ParamType::Integer, "The amount in satoshis to splice into the channel"@),
            ],
            required: seq!["user_channel_id"@, "counterparty_node_id"@, "splice_amount_sats"@],
        },
        ToolKind::SpliceOut => SchemaModel {
            properties: seq![
                ("user_channel_id"@, ParamType::String, "The local user_channel_id of the channel"@),
                ("counterparty_node_id"@, ParamType::String, "The hex-encoded public key of the channel's counterparty node"@),
                ("splice_amount_sats"@, ParamType::Integer, "The amount in satoshis to splice out of the channel"@),
                ("address"@, ParamType::String, "Bitcoin address for the spliced-out funds. If not set, uses the node's on-chain wallet"@),
            ],
            required: seq!["user_channel_id"@, "counterparty_node_id"@, "splice_amount_sats"@],
        },
        ToolKind::CloseChannel => SchemaModel {
            properties: seq![
                ("user_channel_id"@, ParamType::String, "The local user_channel_id of the channel"@),
                ("counterparty_node_id"@, ParamType::String, "The hex-encoded public key of the node to close the channel with"@),
            ],
            required: seq!["user_channel_id"@, "counterparty_node_id"@],
        },
        ToolKind::ForceCloseChannel => SchemaModel {
            properties: seq![
                ("user_channel_id"@, ParamType::String, "The local user_channel_id of the channel"@),
                ("counterparty_node_id"@, ParamType::String, "The hex-encoded public key of the node to close the channel with"@),
                ("force_close_reason"@, ParamType::String, "The reason for force-closing the channel"@),
            ],
            required: seq!["user_channel_id"@, "counterparty_node_id"@],
        },
        ToolKind::ListChannels => SchemaModel {
            properties: Seq::empty(),
            required: Seq::empty(),
        },
        ToolKind::UpdateChannelConfig => SchemaModel {
            properties: seq![
                ("user_channel_id"@, ParamType::String, "The local user_channel_id of the channel"@),
                ("counterparty_node_id"@, ParamType::String, "The hex-encoded public key of the counterparty node"@),
                ("forwarding_fee_proportional_millionths"@, ParamType::Integer, "Fee in millionths of a satoshi charged per satoshi forwarded"@),
                ("forwarding_fee_base_msat"@, ParamType::Integer, "Base fee in millisatoshis for forwarded payments"@),
                ("cltv_expiry_delta"@, ParamType::Integer, "CLTV delta between incoming and outbound HTLCs"@),
            ],
            required: seq!["user_channel_id"@, "counterparty_node_id"@],
        },
        ToolKind::ListPayments => SchemaModel {
            properties: seq![
                ("page_token"@, ParamType::String, "Pagination token from a previous response (format: token:index)"@),
            ],
            required: Seq::empty(),
        },
        ToolKind::GetPaymentDetails => SchemaModel {
            properties: seq![
                ("payment_id"@, ParamType::String, "The payment ID in hex-encoded form"@),
            ],
            required: seq!["payment_id"@],
        },
        ToolKind::ListForwardedPayments => SchemaModel {
            properties: seq![
                ("page_token"@, ParamType::String, "Pagination token from a previous response (format: token:index)"@),
            ],
            required: Seq::empty(),
        },
        ToolKind::ConnectPeer => SchemaModel {
            properties: seq![
                ("node_pubkey"@, ParamType::String, "The hex-encoded public key of the node to connect to"@),
                ("address"@, ParamType::String, "Address of the remote peer (IPv4:port, IPv6:port, OnionV3:port, or hostname:port)"@),
                ("persist"@, ParamType::Boolean, "Whether to persist the connection for automatic reconnection on restart (default: false)"@),
            ],
            required: seq!["node_pubkey"@, "address"@],
        },
        ToolKind::DisconnectPeer => SchemaModel {
            properties: seq![
                ("node_pubkey"@, ParamType::String, "The hex-encoded public key of the node to disconnect from"@),
            ],
            required: seq!["node_pubkey"@],
        },
        ToolKind::SignMessage => SchemaModel {
            properties: seq![
                ("message"@, ParamType::String, "The message to sign"@),
            ],
            required: seq!["message"@],
        },
        ToolKind::VerifySignature => SchemaModel {
            properties: seq![
                ("message"@, ParamType::String, "The message that was signed"@),
                ("signature"@, ParamType::String, "The zbase32-encoded signature to verify"@),
                ("public_key"@, ParamType::String, "The hex-encoded public key of the signer"@),
            ],
            required: seq!["message"@, "signature"@, "public_key"@],
        },
        ToolKind::ExportPathfindingScores => SchemaModel {
            properties: Seq::empty(),
            required: Seq::empty(),
        },
        ToolKind::GraphListChannels => SchemaModel {
            properties: Seq::empty(),
            required: Seq::empty(),
        },
        ToolKind::GraphGetChannel => SchemaModel {
            properties: seq![
                ("short_channel_id"@, ParamType::Integer, "The short channel ID of the channel to look up"@),
            ],
            required: seq!["short_channel_id"@],
        },
        ToolKind::GraphListNodes => SchemaModel {
            properties: Seq::empty(),
            required: Seq::empty(),
        },
        ToolKind::GraphGetNode => SchemaModel {
            properties: seq![
                ("node_id"@, ParamType::String, "The hex-encoded public key of the node to look up"@),
            ],
            required: seq!["node_id"@],
        },
        _ => SchemaModel { properties: Seq::empty(), required: Seq::empty() },
    }
}

pub fn get_node_info_schema() -> (s: ToolSchema)
    ensures
        s@ == schema_model(ToolKind::GetNodeInfo),
{
    let s = ToolSchema {
        properties: Vec::new(),
        required: Vec::new(),
    };
    assert(s@ =~= schema_model(ToolKind::GetNodeInfo));
    s
}

pub fn get_balances_schema() -> (s: ToolSchema)
    ensures
        s@ == schema_model(ToolKind::GetBalances),
{
    let s = ToolSchema {
        properties: Vec::new(),
        required: Vec::new(),
    };
    assert(s@ =~= schema_model(ToolKind::GetBalances));
    s
}

pub fn onchain_receive_schema() -> (s: ToolSchema)
    ensures
        s@ == schema_model(ToolKind::OnchainReceive),
{
    let s = ToolSchema {
        properties: Vec::new(),
        required: Vec::new(),
    };
    assert(s@ =~= schema_model(ToolKind::OnchainReceive));
    s
}

pub fn onchain_send_schema() -> (s: ToolSchema)
    ensures
        s@ == schema_model(ToolKind::OnchainSend),
{
    let s = ToolSchema {
        properties: vec![
            prop("address", ParamType::String, "The Bitcoin address to send coins to"),
            prop("amount_sats", ParamType::Integer, "The amount in satoshis to send. Respects on-chain reserve for anchor channels"),
            prop("send_all", ParamType::Boolean, "If true, send full balance (ignores amount_sats). Warning: will not retain on-chain reserves for anchor channels"),
            prop("fee_rate_sat_per_vb", ParamType::Integer, "Fee rate in satoshis per virtual byte. If not set, a reasonable estimate will be used"),
        ],
        required: vec![String::from_str("address")],
    };
    assert(s@ =~= schema_model(ToolKind::OnchainSend));
    s
}

pub fn bolt11_receive_schema() -> (s: ToolSchema)
    ensures
        s@ == schema_model(ToolKind::Bolt11Receive),
{
    let s = ToolSchema {
        properties: vec![
            prop("amount_msat", ParamType::Integer, "Amount in millisatoshis to request. If unset, a variable-amount invoice is returned"),
            prop("description", ParamType::String, "Description to attach to the invoice. Mutually exclusive with description_hash"),
            prop("description_hash", ParamType::String, "SHA-256 hash of the description (hex). Use instead of description for longer text. Mutually exclusive with description"),
            prop("expiry_secs", ParamType::Integer, "Invoice expiry time in seconds (default: 86400)"),
        ],
        required: Vec::new(),
    };
    assert(s@ =~= schema_model(ToolKind::Bolt11Receive));
    s
}

pub fn bolt11_receive_via_jit_channel_schema() -> (s: ToolSchema)
    ensures
        s@ == schema_model(ToolKind::Bolt11ReceiveViaJitChannel),
{
    let s = ToolSchema {
        properties: vec![
            prop("amount_msat", ParamType::Integer, "The amount in millisatoshis to request"),
            prop("description", ParamType::String, "Description to attach to the invoice. Mutually exclusive with description_hash"),
            prop("description_hash", ParamType::String, "SHA-256 hash of the description (hex). Use instead of description for longer text. Mutually exclusive with description"),
            prop("expiry_secs", ParamType::Integer, "Invoice expiry time in seconds (default: 86400)"),
            prop("max_total_lsp_fee_limit_msat", ParamType::Integer, "Maximum total fee in millisatoshis that the LSP may take for opening the channel"),
        ],
        required: vec![String::from_str("amount_msat")],
    };
    assert(s@ =~= schema_model(ToolKind::Bolt11ReceiveViaJitChannel));
    s
}

pub fn bolt11_receive_variable_amount_via_jit_channel_schema() -> (s: ToolSchema)
    ensures
        s@ == schema_model(ToolKind::Bolt11ReceiveVariableAmountViaJitChannel),
{
    let s = ToolSchema {
        properties: vec![
            prop("description", ParamType::String, "Description to attach to the invoice. Mutually exclusive with description_hash"),
            prop("description_hash", ParamType::String, "SHA-256 hash of the description (hex). Use instead of description for longer text. Mutually exclusive with description"),
            prop("expiry_secs", ParamType::Integer, "Invoice expiry time in seconds (default: 86400)"),
            prop("max_proportional_lsp_fee_limit_ppm_msat", ParamType::Integer, "Maximum proportional fee, in parts per million, that the LSP may take for opening the channel"),
        ],
        required: Vec::new(),
    };
    assert(s@ =~= schema_model(ToolKind::Bolt11ReceiveVariableAmountViaJitChannel));
    s
}

pub fn bolt11_send_schema() -> (s: ToolSchema)
    ensures
        s@ == schema_model(ToolKind::Bolt11Send),
{
    let s = ToolSchema {
        properties: vec![
            prop("invoice", ParamType::String, "A BOLT11 invoice string to pay"),
            prop("amount_msat", ParamType::Integer, "Amount in millisatoshis. Required when paying a zero-amount invoice"),
            prop("max_total_routing_fee_msat", ParamType::Integer, "Maximum total routing fee in millisatoshis. Defaults to 1% of payment + 50 sats"),
            prop("max_total_cltv_expiry_delta", ParamType::Integer, "Maximum total CLTV delta for the route (default: 1008)"),
            prop("max_path_count", ParamType::Integer, "Maximum number of paths for MPP payments (default: 10)"),
            prop("max_channel_saturation_power_of_half", ParamType::Integer, "Maximum channel capacity share as power of 1/2 (default: 2)"),
        ],
        required: vec![String::from_str("invoice")],
    };
    assert(s@ =~= schema_model(ToolKind::Bolt11Send));
    s
}

pub fn bolt12_receive_schema() -> (s: ToolSchema)
    ensures
        s@ == schema_model(ToolKind::Bolt12Receive),
{
    let s = ToolSchema {
        properties: vec![
            prop("description", ParamType::String, "Description to attach to the offer"),
            prop("amount_msat", ParamType::Integer, "Amount in millisatoshis. If unset, a variable-amount offer is returned"),
            prop("expiry_secs", ParamType::Integer, "Offer expiry time in seconds"),
            prop("quantity", ParamType::Integer, "Number of items requested. Can only be set for fixed-amount offers"),
        ],
        required: vec![String::from_str("description")],
    };
    assert(s@ =~= schema_model(ToolKind::Bolt12Receive));
    s
}

pub fn bolt12_send_schema() -> (s: ToolSchema)
    ensures
        s@ == schema_model(ToolKind::Bolt12Send),
{
    let s = ToolSchema {
        properties: vec![
            prop("offer", ParamType::String, "A BOLT12 offer string to pay"),
            prop("amount_msat", ParamType::Integer, "Amount in millisatoshis. Required when paying a zero-amount offer"),
            prop("quantity", ParamType::Integer, "Number of items requested"),
            prop("payer_note", ParamType::String, "Note to include for the payee. Reflected back in the invoice"),
            prop("max_total_routing_fee_msat", ParamType::Integer, "Maximum total routing fee in millisatoshis. Defaults to 1% of payment + 50 sats"),
            prop("max_total_cltv_expiry_delta", ParamType::Integer, "Maximum total CLTV delta for the route (default: 1008)"),
            prop("max_path_count", ParamType::Integer, "Maximum number of paths for MPP payments (default: 10)"),
            prop("max_channel_saturation_power_of_half", ParamType::Integer, "Maximum channel capacity share as power of 1/2 (default: 2)"),
        ],
        required: vec![String::from_str("offer")],
    };
    assert(s@ =~= schema_model(ToolKind::Bolt12Send));
    s
}

pub fn spontaneous_send_schema() -> (s: ToolSchema)
    ensures
        s@ == schema_model(ToolKind::SpontaneousSend),
{
    let s = ToolSchema {
        properties: vec![
            prop("amount_msat", ParamType::Integer, "The amount in millisatoshis to send"),
            prop("node_id", ParamType::String, "The hex-encoded public key of the destination node"),
            prop("max_total_routing_fee_msat", ParamType::Integer, "Maximum total routing fee in millisatoshis. Defaults to 1% of payment + 50 sats"),
            prop("max_total_cltv_expiry_delta", ParamType::Integer, "Maximum total CLTV delta for the route (default: 1008)"),
            prop("max_path_count", ParamType::Integer, "Maximum number of paths for MPP payments (default: 10)"),
            prop("max_channel_saturation_power_of_half", ParamType::Integer, "Maximum channel capacity share as power of 1/2 (default: 2)"),
        ],
        required: vec![String::from_str("amount_msat"), String::from_str("node_id")],
    };
    assert(s@ =~= schema_model(ToolKind::SpontaneousSend));
    s
}

pub fn open_channel_schema() -> (s: ToolSchema)
    ensures
        s@ == schema_model(ToolKind::OpenChannel),
{
    let s = ToolSchema {
        properties: vec![
            prop("node_pubkey", ParamType::String, "The hex-encoded public key of the node to open a channel with"),
            prop("address", ParamType::String, "Address of the remote peer (IPv4:port, IPv6:port, OnionV3:port, or hostname:port)"),
            prop("channel_amount_sats", ParamType::Integer, "The amount in satoshis to commit to the channel"),
            prop("push_to_counterparty_msat", ParamType::Integer, "Amount in millisatoshis to push to the remote side"),
            prop("announce_channel", ParamType::Boolean, "Whether the channel should be public (default: false)"),
            prop("forwarding_fee_proportional_millionths", ParamType::Integer, "Fee in millionths of a satoshi charged per satoshi forwarded"),
            prop("forwarding_fee_base_msat", ParamType::Integer, "Base fee in millisatoshis for forwarded payments"),
            prop("cltv_expiry_delta", ParamType::Integer, "CLTV delta between incoming and outbound HTLCs"),
        ],
        required: vec![String::from_str("node_pubkey"), String::from_str("address"), String::from_str("channel_amount_sats")],
    };
    assert(s@ =~= schema_model(ToolKind::OpenChannel));
    s
}

pub fn splice_in_schema() -> (s: ToolSchema)
    ensures
        s@ == schema_model(ToolKind::SpliceIn),
{
    let s = ToolSchema {
        properties: vec![
            prop("user_channel_id", ParamType::String, "The local user_channel_id of the channel"),
            prop("counterparty_node_id", ParamType::String, "The hex-encoded public key of the channel's counterparty node"),
            prop("splice_amount_sats", ParamType::Integer, "The amount in satoshis to splice into the channel"),
        ],
        required: vec![String::from_str("user_channel_id"), String::from_str("counterparty_node_id"), String::from_str("splice_amount_sats")],
    };
    assert(s@ =~= schema_model(ToolKind::SpliceIn));
    s
}

pub fn splice_out_schema() -> (s: ToolSchema)
    ensures
        s@ == schema_model(ToolKind::SpliceOut),
{
    let s = ToolSchema {
        properties: vec![
            prop("user_channel_id", ParamType::String, "The local user_channel_id of the channel"),
            prop("counterparty_node_id", ParamType::String, "The hex-encoded public key of the channel's counterparty node"),
            prop("splice_amount_sats", ParamType::Integer, "The amount in satoshis to splice out of the channel"),
            prop("address", ParamType::String, "Bitcoin address for the spliced-out funds. If not set, uses the node's on-chain wallet"),
        ],
        required: vec![String::from_str("user_channel_id"), String::from_str("counterparty_node_id"), String::from_str("splice_amount_sats")],
    };
    assert(s@ =~= schema_model(ToolKind::SpliceOut));
    s
}

pub fn close_channel_schema() -> (s: ToolSchema)
    ensures
        s@ == schema_model(ToolKind::CloseChannel),
{
    let s = ToolSchema {
        properties: vec![
            prop("user_channel_id", ParamType::String, "The local user_channel_id of the channel"),
            prop("counterparty_node_id", ParamType::String, "The hex-encoded public key of the node to close the channel with"),
        ],
        required: vec![String::from_str("user_channel_id"), String::from_str("counterparty_node_id")],
    };
    assert(s@ =~= schema_model(ToolKind::CloseChannel));
    s
}

pub fn force_close_channel_schema() -> (s: ToolSchema)
    ensures
        s@ == schema_model(ToolKind::ForceCloseChannel),
{
    let s = ToolSchema {
        properties: vec![
            prop("user_channel_id", ParamType::String, "The local user_channel_id of the channel"),
            prop("counterparty_node_id", ParamType::String, "The hex-encoded public key of the node to close the channel with"),
            prop("force_close_reason", ParamType::String, "The reason for force-closing the channel"),
        ],
        required: vec![String::from_str("user_channel_id"), String::from_str("counterparty_node_id")],
    };
    assert(s@ =~= schema_model(ToolKind::ForceCloseChannel));
    s
}

pub fn list_channels_schema() -> (s: ToolSchema)
    ensures
        s@ == schema_model(ToolKind::ListChannels),
{
    let s = ToolSchema {
        properties: Vec::new(),
        required: Vec::new(),
    };
    assert(s@ =~= schema_model(ToolKind::ListChannels));
    s
}

pub fn update_channel_config_schema() -> (s: ToolSchema)
    ensures
        s@ == schema_model(ToolKind::UpdateChannelConfig),
{
    let s = ToolSchema {
        properties: vec![
            prop("user_channel_id", ParamType::String, "The local user_channel_id of the channel"),
            prop("counterparty_node_id", ParamType::String, "The hex-encoded public key of the counterparty node"),
            prop("forwarding_fee_proportional_millionths", ParamType::Integer, "Fee in millionths of a satoshi charged per satoshi forwarded"),
            prop("forwarding_fee_base_msat", ParamType::Integer, "Base fee in millisatoshis for forwarded payments"),
            prop("cltv_expiry_delta", ParamType::Integer, "CLTV delta between incoming and outbound HTLCs"),
        ],
        required: vec![String::from_str("user_channel_id"), String::from_str("counterparty_node_id")],
    };
    assert(s@ =~= schema_model(ToolKind::UpdateChannelConfig));
    s
}

pub fn list_payments_schema() -> (s: ToolSchema)
    ensures
        s@ == schema_model(ToolKind::ListPayments),
{
    let s = ToolSchema {
        properties: vec![
            prop("page_token", ParamType::String, "Pagination token from a previous response (format: token:index)"),
        ],
        required: Vec::new(),
    };
    assert(s@ =~= schema_model(ToolKind::ListPayments));
    s
}

pub fn get_payment_details_schema() -> (s: ToolSchema)
    ensures
        s@ == schema_model(ToolKind::GetPaymentDetails),
{
    let s = ToolSchema {
        properties: vec![
            prop("payment_id", ParamType::String, "The payment ID in hex-encoded form"),
        ],
        required: vec![String::from_str("payment_id")],
    };
    assert(s@ =~= schema_model(ToolKind::GetPaymentDetails));
    s
}

pub fn list_forwarded_payments_schema() -> (s: ToolSchema)
    ensures
        s@ == schema_model(ToolKind::ListForwardedPayments),
{
    let s = ToolSchema {
        properties: vec![
            prop("page_token", ParamType::String, "Pagination token from a previous response (format: token:index)"),
        ],
        required: Vec::new(),
    };
    assert(s@ =~= schema_model(ToolKind::ListForwardedPayments));
    s
}

pub fn connect_peer_schema() -> (s: ToolSchema)
    ensures
        s@ == schema_model(ToolKind::ConnectPeer),
{
    let s = ToolSchema {
        properties: vec![
            prop("node_pubkey", ParamType::String, "The hex-encoded public key of the node to connect to"),
            prop("address", ParamType::String, "Address of the remote peer (IPv4:port, IPv6:port, OnionV3:port, or hostname:port)"),
            prop("persist", ParamType::Boolean, "Whether to persist the connection for automatic reconnection on restart (default: false)"),
        ],
        required: vec![String::from_str("node_pubkey"), String::from_str("address")],
    };
    assert(s@ =~= schema_model(ToolKind::ConnectPeer));
    s
}

pub fn disconnect_peer_schema() -> (s: ToolSchema)
    ensures
        s@ == schema_model(ToolKind::DisconnectPeer),
{
    let s = ToolSchema {
        properties: vec![
            prop("node_pubkey", ParamType::String, "The hex-encoded public key of the node to disconnect from"),
        ],
        required: vec![String::from_str("node_pubkey")],
    };
    assert(s@ =~= schema_model(ToolKind::DisconnectPeer));
    s
}

pub fn sign_message_schema() -> (s: ToolSchema)
    ensures
        s@ == schema_model(ToolKind::SignMessage),
{
    let s = ToolSchema {
        properties: vec![
            prop("message", ParamType::String, "The message to sign"),
        ],
        required: vec![String::from_str("message")],
    };
    assert(s@ =~= schema_model(ToolKind::SignMessage));
    s
}

pub fn verify_signature_schema() -> (s: ToolSchema)
    ensures
        s@ == schema_model(ToolKind::VerifySignature),
{
    let s = ToolSchema {
        properties: vec![
            prop("message", ParamType::String, "The message that was signed"),
            prop("signature", ParamType::String, "The zbase32-encoded signature to verify"),
            prop("public_key", ParamType::String, "The hex-encoded public key of the signer"),
        ],
        required: vec![String::from_str("message"), String::from_str("signature"), String::from_str("public_key")],
    };
    assert(s@ =~= schema_model(ToolKind::VerifySignature));
    s
}

pub fn export_pathfinding_scores_schema() -> (s: ToolSchema)
    ensures
        s@ == schema_model(ToolKind::ExportPathfindingScores),
{
    let s = ToolSchema {
        properties: Vec::new(),
        required: Vec::new(),
    };
    assert(s@ =~= schema_model(ToolKind::ExportPathfindingScores));
    s
}

pub fn graph_list_channels_schema() -> (s: ToolSchema)
    ensures
        s@ == schema_model(ToolKind::GraphListChannels),
{
    let s = ToolSchema {
        properties: Vec::new(),
        required: Vec::new(),
    };
    assert(s@ =~= schema_model(ToolKind::GraphListChannels));
    s
}

pub fn graph_get_channel_schema() -> (s: ToolSchema)
    ensures
        s@ == schema_model(ToolKind::GraphGetChannel),
{
    let s = ToolSchema {
        properties: vec![
            prop("short_channel_id", ParamType::Integer, "The short channel ID of the channel to look up"),
        ],
        required: vec![String::from_str("short_channel_id")],
    };
    assert(s@ =~= schema_model(ToolKind::GraphGetChannel));
    s
}

pub fn graph_list_nodes_schema() -> (s: ToolSchema)
    ensures
        s@ == schema_model(ToolKind::GraphListNodes),
{
    let s = ToolSchema {
        properties: Vec::new(),
        required: Vec::new(),
    };
    assert(s@ =~= schema_model(ToolKind::GraphListNodes));
    s
}

pub fn graph_get_node_schema() -> (s: ToolSchema)
    ensures
        s@ == schema_model(ToolKind::GraphGetNode),
{
    let s = ToolSchema {
        properties: vec![
            prop("node_id", ParamType::String, "The hex-encoded public key of the node to look up"),
        ],
        required: vec![String::from_str("node_id")],
    };
    assert(s@ =~= schema_model(ToolKind::GraphGetNode));
    s
}

} // verus!
