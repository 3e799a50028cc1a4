//! The tools that the server offers: their registry, handlers and schemas.
//!
//! A tool call is decided here. The registry finds the tool by its name, the
//! tool's handler turns the arguments into a request to the node or refuses
//! them, and the caller sends the request and reports what the node answered.
use vstd::prelude::*;
use vstd::string::*;

pub mod handlers;
pub mod requests;
pub mod laws;
pub mod read_laws;
pub mod request_laws;
pub mod schema;

use crate::json_args::ToolArgs;
use crate::mcp::{is_error_with, is_success_with, ToolCallResult, ToolDefinition};
use crate::tools::handlers::{
    tool_refusal, handle_onchain_send, onchain_send_match, handle_bolt11_receive,
    bolt11_receive_match, handle_bolt11_receive_for_hash, bolt11_receive_for_hash_match,
    handle_bolt11_claim_for_hash, bolt11_claim_for_hash_match, handle_bolt11_fail_for_hash,
    bolt11_fail_for_hash_match, handle_bolt11_receive_via_jit_channel,
    bolt11_receive_via_jit_channel_match, handle_bolt11_receive_variable_amount_via_jit_channel,
    bolt11_receive_variable_amount_via_jit_channel_match, handle_bolt11_send, bolt11_send_match,
    handle_bolt12_receive, bolt12_receive_match, handle_bolt12_send, bolt12_send_match,
    handle_spontaneous_send, spontaneous_send_match, handle_unified_send, unified_send_match,
    handle_open_channel, open_channel_match, handle_splice_in, splice_in_match, handle_splice_out,
    splice_out_match, handle_close_channel, close_channel_match, handle_force_close_channel,
    force_close_channel_match, handle_update_channel_config, update_channel_config_match,
    handle_list_payments, list_payments_match, handle_get_payment_details,
    get_payment_details_match, handle_list_forwarded_payments, list_forwarded_payments_match,
    handle_connect_peer, connect_peer_match, handle_disconnect_peer, disconnect_peer_match,
    handle_decode_invoice, decode_invoice_match, handle_decode_offer, decode_offer_match,
    handle_sign_message, sign_message_match, handle_verify_signature, verify_signature_match,
    handle_graph_get_channel, graph_get_channel_match, handle_graph_get_node, graph_get_node_match,
};
use crate::tools::requests::ClientRequest;
use crate::tools::schema::{
    schema_model, ToolSchema, get_node_info_schema, get_balances_schema, onchain_receive_schema,
    onchain_send_schema, bolt11_receive_schema,
    bolt11_receive_via_jit_channel_schema, bolt11_receive_variable_amount_via_jit_channel_schema,
    bolt11_send_schema, bolt12_receive_schema,
    bolt12_send_schema, spontaneous_send_schema, open_channel_schema, splice_in_schema,
    splice_out_schema, close_channel_schema, force_close_channel_schema, list_channels_schema,
    update_channel_config_schema, list_payments_schema, get_payment_details_schema,
    list_forwarded_payments_schema, connect_peer_schema, disconnect_peer_schema,
    sign_message_schema, verify_signature_schema, export_pathfinding_scores_schema,
    graph_list_channels_schema, graph_get_channel_schema, graph_list_nodes_schema,
    graph_get_node_schema,
};

verus! {

/// The tools that the server knows, one per operation of the node.
#[derive(Debug, Clone, Copy, PartialEq, Eq, Structural)]
pub enum ToolKind {
    GetNodeInfo,
    GetBalances,
    OnchainReceive,
    OnchainSend,
    Bolt11Receive,
    Bolt11ReceiveForHash,
    Bolt11ClaimForHash,
    Bolt11FailForHash,
    Bolt11ReceiveViaJitChannel,
    Bolt11ReceiveVariableAmountViaJitChannel,
    Bolt11Send,
    Bolt12Receive,
    Bolt12Send,
    SpontaneousSend,
    UnifiedSend,
    OpenChannel,
    SpliceIn,
    SpliceOut,
    CloseChannel,
    ForceCloseChannel,
    ListChannels,
    UpdateChannelConfig,
    ListPayments,
    GetPaymentDetails,
    ListForwardedPayments,
    ConnectPeer,
    DisconnectPeer,
    ListPeers,
    DecodeInvoice,
    DecodeOffer,
    SignMessage,
    VerifySignature,
    ExportPathfindingScores,
    GraphListChannels,
    GraphGetChannel,
    GraphListNodes,
    GraphGetNode,
}

/// The tools that the registry offers, in the order in which it lists them.
pub open spec fn registered_tools() -> Seq<ToolKind> {
    seq![
        ToolKind::GetNodeInfo,
        ToolKind::GetBalances,
        ToolKind::OnchainReceive,
        ToolKind::OnchainSend,
        ToolKind::Bolt11Receive,
        ToolKind::Bolt11ReceiveViaJitChannel,
        ToolKind::Bolt11ReceiveVariableAmountViaJitChannel,
        ToolKind::Bolt11Send,
        ToolKind::Bolt12Receive,
        ToolKind::Bolt12Send,
        ToolKind::SpontaneousSend,
        ToolKind::OpenChannel,
        ToolKind::SpliceIn,
        ToolKind::SpliceOut,
        ToolKind::CloseChannel,
        ToolKind::ForceCloseChannel,
        ToolKind::ListChannels,
        ToolKind::UpdateChannelConfig,
        ToolKind::ListPayments,
        ToolKind::GetPaymentDetails,
        ToolKind::ListForwardedPayments,
        ToolKind::ConnectPeer,
        ToolKind::DisconnectPeer,
        ToolKind::SignMessage,
        ToolKind::VerifySignature,
        ToolKind::ExportPathfindingScores,
        ToolKind::GraphListChannels,
        ToolKind::GraphGetChannel,
        ToolKind::GraphListNodes,
        ToolKind::GraphGetNode,
    ]
}

/// Whether the registry offers the tool.
pub open spec fn is_registered(kind: ToolKind) -> bool {
    match kind {
        ToolKind::GetNodeInfo
        | ToolKind::GetBalances
        | ToolKind::OnchainReceive
        | ToolKind::OnchainSend
        | ToolKind::Bolt11Receive
        | ToolKind::Bolt11ReceiveViaJitChannel
        | ToolKind::Bolt11ReceiveVariableAmountViaJitChannel
        | ToolKind::Bolt11Send
        | ToolKind::Bolt12Receive
        | ToolKind::Bolt12Send
        | ToolKind::SpontaneousSend
        | ToolKind::OpenChannel
        | ToolKind::SpliceIn
        | ToolKind::SpliceOut
        | ToolKind::CloseChannel
        | ToolKind::ForceCloseChannel
        | ToolKind::ListChannels
        | ToolKind::UpdateChannelConfig
        | ToolKind::ListPayments
        | ToolKind::GetPaymentDetails
        | ToolKind::ListForwardedPayments
        | ToolKind::ConnectPeer
        | ToolKind::DisconnectPeer
        | ToolKind::SignMessage
        | ToolKind::VerifySignature
        | ToolKind::ExportPathfindingScores
        | ToolKind::GraphListChannels
        | ToolKind::GraphGetChannel
        | ToolKind::GraphListNodes
        | ToolKind::GraphGetNode => true,
        _ => false,
    }
}

/// The name under which a tool is called.
pub open spec fn tool_name(kind: ToolKind) -> Seq<char> {
    match kind {
        ToolKind::GetNodeInfo => "get_node_info"@,
        ToolKind::GetBalances => "get_balances"@,
        ToolKind::OnchainReceive => "onchain_receive"@,
        ToolKind::OnchainSend => "onchain_send"@,
        ToolKind::Bolt11Receive => "bolt11_receive"@,
        ToolKind::Bolt11ReceiveForHash => "bolt11_receive_for_hash"@,
        ToolKind::Bolt11ClaimForHash => "bolt11_claim_for_hash"@,
        ToolKind::Bolt11FailForHash => "bolt11_fail_for_hash"@,
        ToolKind::Bolt11ReceiveViaJitChannel => "bolt11_receive_via_jit_channel"@,
        ToolKind::Bolt11ReceiveVariableAmountViaJitChannel => "bolt11_receive_variable_amount_via_jit_channel"@,
        ToolKind::Bolt11Send => "bolt11_send"@,
        ToolKind::Bolt12Receive => "bolt12_receive"@,
        ToolKind::Bolt12Send => "bolt12_send"@,
        ToolKind::SpontaneousSend => "spontaneous_send"@,
        ToolKind::UnifiedSend => "unified_send"@,
        ToolKind::OpenChannel => "open_channel"@,
        ToolKind::SpliceIn => "splice_in"@,
        ToolKind::SpliceOut => "splice_out"@,
        ToolKind::CloseChannel => "close_channel"@,
        ToolKind::ForceCloseChannel => "force_close_channel"@,
        ToolKind::ListChannels => "list_channels"@,
        ToolKind::UpdateChannelConfig => "update_channel_config"@,
        ToolKind::ListPayments => "list_payments"@,
        ToolKind::GetPaymentDetails => "get_payment_details"@,
        ToolKind::ListForwardedPayments => "list_forwarded_payments"@,
        ToolKind::ConnectPeer => "connect_peer"@,
        ToolKind::DisconnectPeer => "disconnect_peer"@,
        ToolKind::ListPeers => "list_peers"@,
        ToolKind::DecodeInvoice => "decode_invoice"@,
        ToolKind::DecodeOffer => "decode_offer"@,
        ToolKind::SignMessage => "sign_message"@,
        ToolKind::VerifySignature => "verify_signature"@,
        ToolKind::ExportPathfindingScores => "export_pathfinding_scores"@,
        ToolKind::GraphListChannels => "graph_list_channels"@,
        ToolKind::GraphGetChannel => "graph_get_channel"@,
        ToolKind::GraphListNodes => "graph_list_nodes"@,
        ToolKind::GraphGetNode => "graph_get_node"@,
    }
}

/// What a tool does, as `tools/list` describes it.
pub open spec fn tool_description(kind: ToolKind) -> Seq<char> {
    match kind {
        ToolKind::GetNodeInfo => "Retrieve node info including node_id, sync status, and best block"@,
        ToolKind::GetBalances => "Retrieve an overview of all known balances (on-chain and Lightning)"@,
        ToolKind::OnchainReceive => "Generate a new on-chain Bitcoin funding address"@,
        ToolKind::OnchainSend => "Send an on-chain Bitcoin payment to an address"@,
        ToolKind::Bolt11Receive => "Create a BOLT11 Lightning invoice to receive a payment"@,
        ToolKind::Bolt11ReceiveForHash => "Create a BOLT11 Lightning invoice for a specific payment hash"@,
        ToolKind::Bolt11ClaimForHash => "Manually claim a BOLT11 payment for a specific payment hash"@,
        ToolKind::Bolt11FailForHash => "Manually fail a BOLT11 payment for a specific payment hash"@,
        ToolKind::Bolt11ReceiveViaJitChannel => "Create a BOLT11 Lightning invoice to receive via an LSPS2 JIT channel"@,
        ToolKind::Bolt11ReceiveVariableAmountViaJitChannel => "Create a variable-amount BOLT11 Lightning invoice to receive via an LSPS2 JIT channel"@,
        ToolKind::Bolt11Send => "Pay a BOLT11 Lightning invoice"@,
        ToolKind::Bolt12Receive => "Create a BOLT12 offer for receiving Lightning payments"@,
        ToolKind::Bolt12Send => "Pay a BOLT12 Lightning offer"@,
        ToolKind::SpontaneousSend => "Send a spontaneous (keysend) payment to a Lightning node"@,
        ToolKind::UnifiedSend => "Send a payment given a BIP 21 URI or BIP 353 Human-Readable Name"@,
        ToolKind::OpenChannel => "Open a new Lightning channel with a remote node"@,
        ToolKind::SpliceIn => "Increase a channel's balance by splicing in on-chain funds"@,
        ToolKind::SpliceOut => "Decrease a channel's balance by splicing out to on-chain"@,
        ToolKind::CloseChannel => "Cooperatively close a Lightning channel"@,
        ToolKind::ForceCloseChannel => "Force close a Lightning channel unilaterally"@,
        ToolKind::ListChannels => "List all known Lightning channels"@,
        ToolKind::UpdateChannelConfig => "Update forwarding fees and CLTV delta for a channel"@,
        ToolKind::ListPayments => "List all payments (supports pagination via page_token)"@,
        ToolKind::GetPaymentDetails => "Get details of a specific payment by its ID"@,
        ToolKind::ListForwardedPayments => "List all forwarded payments (supports pagination via page_token)"@,
        ToolKind::ConnectPeer => "Connect to a Lightning peer without opening a channel"@,
        ToolKind::DisconnectPeer => "Disconnect from a Lightning peer"@,
        ToolKind::ListPeers => "List all known Lightning peers"@,
        ToolKind::DecodeInvoice => "Decode a BOLT11 invoice and return its parsed fields"@,
        ToolKind::DecodeOffer => "Decode a BOLT12 offer and return its parsed fields"@,
        ToolKind::SignMessage => "Sign a message with the node's secret key"@,
        ToolKind::VerifySignature => "Verify a signature against a message and public key"@,
        ToolKind::ExportPathfindingScores => "Export the pathfinding scores used by the Lightning router"@,
        ToolKind::GraphListChannels => "List all known short channel IDs in the network graph"@,
        ToolKind::GraphGetChannel => "Get channel information from the network graph by short channel ID"@,
        ToolKind::GraphListNodes => "List all known node IDs in the network graph"@,
        ToolKind::GraphGetNode => "Get node information from the network graph by node ID"@,
    }
}

fn name_of(kind: ToolKind) -> (r: &'static str)
    ensures
        r@ == tool_name(kind),
{
    match kind {
        ToolKind::GetNodeInfo => "get_node_info",
        ToolKind::GetBalances => "get_balances",
        ToolKind::OnchainReceive => "onchain_receive",
        ToolKind::OnchainSend => "onchain_send",
        ToolKind::Bolt11Receive => "bolt11_receive",
        ToolKind::Bolt11ReceiveForHash => "bolt11_receive_for_hash",
        ToolKind::Bolt11ClaimForHash => "bolt11_claim_for_hash",
        ToolKind::Bolt11FailForHash => "bolt11_fail_for_hash",
        ToolKind::Bolt11ReceiveViaJitChannel => "bolt11_receive_via_jit_channel",
        ToolKind::Bolt11ReceiveVariableAmountViaJitChannel => "bolt11_receive_variable_amount_via_jit_channel",
        ToolKind::Bolt11Send => "bolt11_send",
        ToolKind::Bolt12Receive => "bolt12_receive",
        ToolKind::Bolt12Send => "bolt12_send",
        ToolKind::SpontaneousSend => "spontaneous_send",
        ToolKind::UnifiedSend => "unified_send",
        ToolKind::OpenChannel => "open_channel",
        ToolKind::SpliceIn => "splice_in",
        ToolKind::SpliceOut => "splice_out",
        ToolKind::CloseChannel => "close_channel",
        ToolKind::ForceCloseChannel => "force_close_channel",
        ToolKind::ListChannels => "list_channels",
        ToolKind::UpdateChannelConfig => "update_channel_config",
        ToolKind::ListPayments => "list_payments",
        ToolKind::GetPaymentDetails => "get_payment_details",
        ToolKind::ListForwardedPayments => "list_forwarded_payments",
        ToolKind::ConnectPeer => "connect_peer",
        ToolKind::DisconnectPeer => "disconnect_peer",
        ToolKind::ListPeers => "list_peers",
        ToolKind::DecodeInvoice => "decode_invoice",
        ToolKind::DecodeOffer => "decode_offer",
        ToolKind::SignMessage => "sign_message",
        ToolKind::VerifySignature => "verify_signature",
        ToolKind::ExportPathfindingScores => "export_pathfinding_scores",
        ToolKind::GraphListChannels => "graph_list_channels",
        ToolKind::GraphGetChannel => "graph_get_channel",
        ToolKind::GraphListNodes => "graph_list_nodes",
        ToolKind::GraphGetNode => "graph_get_node",
    }
}

fn description_of(kind: ToolKind) -> (r: &'static str)
    ensures
        r@ == tool_description(kind),
{
    match kind {
        ToolKind::GetNodeInfo => "Retrieve node info including node_id, sync status, and best block",
        ToolKind::GetBalances => "Retrieve an overview of all known balances (on-chain and Lightning)",
        ToolKind::OnchainReceive => "Generate a new on-chain Bitcoin funding address",
        ToolKind::OnchainSend => "Send an on-chain Bitcoin payment to an address",
        ToolKind::Bolt11Receive => "Create a BOLT11 Lightning invoice to receive a payment",
        ToolKind::Bolt11ReceiveForHash => "Create a BOLT11 Lightning invoice for a specific payment hash",
        ToolKind::Bolt11ClaimForHash => "Manually claim a BOLT11 payment for a specific payment hash",
        ToolKind::Bolt11FailForHash => "Manually fail a BOLT11 payment for a specific payment hash",
        ToolKind::Bolt11ReceiveViaJitChannel => "Create a BOLT11 Lightning invoice to receive via an LSPS2 JIT channel",
        ToolKind::Bolt11ReceiveVariableAmountViaJitChannel => "Create a variable-amount BOLT11 Lightning invoice to receive via an LSPS2 JIT channel",
        ToolKind::Bolt11Send => "Pay a BOLT11 Lightning invoice",
        ToolKind::Bolt12Receive => "Create a BOLT12 offer for receiving Lightning payments",
        ToolKind::Bolt12Send => "Pay a BOLT12 Lightning offer",
        ToolKind::SpontaneousSend => "Send a spontaneous (keysend) payment to a Lightning node",
        ToolKind::UnifiedSend => "Send a payment given a BIP 21 URI or BIP 353 Human-Readable Name",
        ToolKind::OpenChannel => "Open a new Lightning channel with a remote node",
        ToolKind::SpliceIn => "Increase a channel's balance by splicing in on-chain funds",
        ToolKind::SpliceOut => "Decrease a channel's balance by splicing out to on-chain",
        ToolKind::CloseChannel => "Cooperatively close a Lightning channel",
        ToolKind::ForceCloseChannel => "Force close a Lightning channel unilaterally",
        ToolKind::ListChannels => "List all known Lightning channels",
        ToolKind::UpdateChannelConfig => "Update forwarding fees and CLTV delta for a channel",
        ToolKind::ListPayments => "List all payments (supports pagination via page_token)",
        ToolKind::GetPaymentDetails => "Get details of a specific payment by its ID",
        ToolKind::ListForwardedPayments => "List all forwarded payments (supports pagination via page_token)",
        ToolKind::ConnectPeer => "Connect to a Lightning peer without opening a channel",
        ToolKind::DisconnectPeer => "Disconnect from a Lightning peer",
        ToolKind::ListPeers => "List all known Lightning peers",
        ToolKind::DecodeInvoice => "Decode a BOLT11 invoice and return its parsed fields",
        ToolKind::DecodeOffer => "Decode a BOLT12 offer and return its parsed fields",
        ToolKind::SignMessage => "Sign a message with the node's secret key",
        ToolKind::VerifySignature => "Verify a signature against a message and public key",
        ToolKind::ExportPathfindingScores => "Export the pathfinding scores used by the Lightning router",
        ToolKind::GraphListChannels => "List all known short channel IDs in the network graph",
        ToolKind::GraphGetChannel => "Get channel information from the network graph by short channel ID",
        ToolKind::GraphListNodes => "List all known node IDs in the network graph",
        ToolKind::GraphGetNode => "Get node information from the network graph by node ID",
    }
}

/// The input schema of a tool; tools outside the registry have none and get
/// an empty one.
fn schema_of(kind: ToolKind) -> (r: ToolSchema)
    ensures
        r@ == schema_model(kind),
{
    match kind {
        ToolKind::GetNodeInfo => get_node_info_schema(),
        ToolKind::GetBalances => get_balances_schema(),
        ToolKind::OnchainReceive => onchain_receive_schema(),
        ToolKind::OnchainSend => onchain_send_schema(),
        ToolKind::Bolt11Receive => bolt11_receive_schema(),
        ToolKind::Bolt11ReceiveViaJitChannel => bolt11_receive_via_jit_channel_schema(),
        ToolKind::Bolt11ReceiveVariableAmountViaJitChannel => bolt11_receive_variable_amount_via_jit_channel_schema(),
        ToolKind::Bolt11Send => bolt11_send_schema(),
        ToolKind::Bolt12Receive => bolt12_receive_schema(),
        ToolKind::Bolt12Send => bolt12_send_schema(),
        ToolKind::SpontaneousSend => spontaneous_send_schema(),
        ToolKind::OpenChannel => open_channel_schema(),
        ToolKind::SpliceIn => splice_in_schema(),
        ToolKind::SpliceOut => splice_out_schema(),
        ToolKind::CloseChannel => close_channel_schema(),
        ToolKind::ForceCloseChannel => force_close_channel_schema(),
        ToolKind::ListChannels => list_channels_schema(),
        ToolKind::UpdateChannelConfig => update_channel_config_schema(),
        ToolKind::ListPayments => list_payments_schema(),
        ToolKind::GetPaymentDetails => get_payment_details_schema(),
        ToolKind::ListForwardedPayments => list_forwarded_payments_schema(),
        ToolKind::ConnectPeer => connect_peer_schema(),
        ToolKind::DisconnectPeer => disconnect_peer_schema(),
        ToolKind::SignMessage => sign_message_schema(),
        ToolKind::VerifySignature => verify_signature_schema(),
        ToolKind::ExportPathfindingScores => export_pathfinding_scores_schema(),
        ToolKind::GraphListChannels => graph_list_channels_schema(),
        ToolKind::GraphGetChannel => graph_get_channel_schema(),
        ToolKind::GraphListNodes => graph_list_nodes_schema(),
        ToolKind::GraphGetNode => graph_get_node_schema(),
        _ => {
            let r = ToolSchema { properties: Vec::new(), required: Vec::new() };
            assert(r@ =~= schema_model(kind));
            r
        },
    }
}

/// Whether a definition is the one of `kind`.
pub open spec fn defines(def: ToolDefinition, kind: ToolKind) -> bool {
    &&& def.name@ == tool_name(kind)
    &&& def.description@ == tool_description(kind)
    &&& def.input_schema@ == schema_model(kind)
}

/// The definition of a tool as `tools/list` shows it.
pub fn tool_spec(kind: ToolKind) -> (r: ToolDefinition)
    ensures
        defines(r, kind),
{
    ToolDefinition {
        name: String::from_str(name_of(kind)),
        description: String::from_str(description_of(kind)),
        input_schema: schema_of(kind),
    }
}

/// The request that a call of `kind` sends, as the arguments determine it.
pub open spec fn request_matches(kind: ToolKind, args: ToolArgs, req: ClientRequest) -> bool {
    match kind {
        ToolKind::GetNodeInfo => req is GetNodeInfo,
        ToolKind::GetBalances => req is GetBalances,
        ToolKind::OnchainReceive => req is OnchainReceive,
        ToolKind::OnchainSend => req matches ClientRequest::OnchainSend(r) && onchain_send_match(args, r),
        ToolKind::Bolt11Receive => req matches ClientRequest::Bolt11Receive(r) && bolt11_receive_match(args, r),
        ToolKind::Bolt11ReceiveForHash => req matches ClientRequest::Bolt11ReceiveForHash(r) && bolt11_receive_for_hash_match(args, r),
        ToolKind::Bolt11ClaimForHash => req matches ClientRequest::Bolt11ClaimForHash(r) && bolt11_claim_for_hash_match(args, r),
        ToolKind::Bolt11FailForHash => req matches ClientRequest::Bolt11FailForHash(r) && bolt11_fail_for_hash_match(args, r),
        ToolKind::Bolt11ReceiveViaJitChannel => req matches ClientRequest::Bolt11ReceiveViaJitChannel(r) && bolt11_receive_via_jit_channel_match(args, r),
        ToolKind::Bolt11ReceiveVariableAmountViaJitChannel => req matches ClientRequest::Bolt11ReceiveVariableAmountViaJitChannel(r) && bolt11_receive_variable_amount_via_jit_channel_match(args, r),
        ToolKind::Bolt11Send => req matches ClientRequest::Bolt11Send(r) && bolt11_send_match(args, r),
        ToolKind::Bolt12Receive => req matches ClientRequest::Bolt12Receive(r) && bolt12_receive_match(args, r),
        ToolKind::Bolt12Send => req matches ClientRequest::Bolt12Send(r) && bolt12_send_match(args, r),
        ToolKind::SpontaneousSend => req matches ClientRequest::SpontaneousSend(r) && spontaneous_send_match(args, r),
        ToolKind::UnifiedSend => req matches ClientRequest::UnifiedSend(r) && unified_send_match(args, r),
        ToolKind::OpenChannel => req matches ClientRequest::OpenChannel(r) && open_channel_match(args, r),
        ToolKind::SpliceIn => req matches ClientRequest::SpliceIn(r) && splice_in_match(args, r),
        ToolKind::SpliceOut => req matches ClientRequest::SpliceOut(r) && splice_out_match(args, r),
        ToolKind::CloseChannel => req matches ClientRequest::CloseChannel(r) && close_channel_match(args, r),
        ToolKind::ForceCloseChannel => req matches ClientRequest::ForceCloseChannel(r) && force_close_channel_match(args, r),
        ToolKind::ListChannels => req is ListChannels,
        ToolKind::UpdateChannelConfig => req matches ClientRequest::UpdateChannelConfig(r) && update_channel_config_match(args, r),
        ToolKind::ListPayments => req matches ClientRequest::ListPayments(r) && list_payments_match(args, r),
        ToolKind::GetPaymentDetails => req matches ClientRequest::GetPaymentDetails(r) && get_payment_details_match(args, r),
        ToolKind::ListForwardedPayments => req matches ClientRequest::ListForwardedPayments(r) && list_forwarded_payments_match(args, r),
        ToolKind::ConnectPeer => req matches ClientRequest::ConnectPeer(r) && connect_peer_match(args, r),
        ToolKind::DisconnectPeer => req matches ClientRequest::DisconnectPeer(r) && disconnect_peer_match(args, r),
        ToolKind::ListPeers => req is ListPeers,
        ToolKind::DecodeInvoice => req matches ClientRequest::DecodeInvoice(r) && decode_invoice_match(args, r),
        ToolKind::DecodeOffer => req matches ClientRequest::DecodeOffer(r) && decode_offer_match(args, r),
        ToolKind::SignMessage => req matches ClientRequest::SignMessage(r) && sign_message_match(args, r),
        ToolKind::VerifySignature => req matches ClientRequest::VerifySignature(r) && verify_signature_match(args, r),
        ToolKind::ExportPathfindingScores => req is ExportPathfindingScores,
        ToolKind::GraphListChannels => req is GraphListChannels,
        ToolKind::GraphGetChannel => req matches ClientRequest::GraphGetChannel(r) && graph_get_channel_match(args, r),
        ToolKind::GraphListNodes => req is GraphListNodes,
        ToolKind::GraphGetNode => req matches ClientRequest::GraphGetNode(r) && graph_get_node_match(args, r),
    }
}

/// Turns the arguments of a call of `kind` into the request to the node, or
/// refuses them.
pub fn plan_tool_call(kind: ToolKind, args: &ToolArgs) -> (r: Result<ClientRequest, String>)
    ensures
        match r {
            Ok(req) => tool_refusal(kind, *args) is None && request_matches(kind, *args, req),
            Err(e) => tool_refusal(kind, *args) == Some(e@),
        },
{
    match kind {
        ToolKind::GetNodeInfo => Ok(ClientRequest::GetNodeInfo),
        ToolKind::GetBalances => Ok(ClientRequest::GetBalances),
        ToolKind::OnchainReceive => Ok(ClientRequest::OnchainReceive),
        ToolKind::OnchainSend => match handle_onchain_send(args) {
            Ok(r) => Ok(ClientRequest::OnchainSend(r)),
            Err(e) => Err(e),
        },
        ToolKind::Bolt11Receive => match handle_bolt11_receive(args) {
            Ok(r) => Ok(ClientRequest::Bolt11Receive(r)),
            Err(e) => Err(e),
        },
        ToolKind::Bolt11ReceiveForHash => match handle_bolt11_receive_for_hash(args) {
            Ok(r) => Ok(ClientRequest::Bolt11ReceiveForHash(r)),
            Err(e) => Err(e),
        },
        ToolKind::Bolt11ClaimForHash => match handle_bolt11_claim_for_hash(args) {
            Ok(r) => Ok(ClientRequest::Bolt11ClaimForHash(r)),
            Err(e) => Err(e),
        },
        ToolKind::Bolt11FailForHash => match handle_bolt11_fail_for_hash(args) {
            Ok(r) => Ok(ClientRequest::Bolt11FailForHash(r)),
            Err(e) => Err(e),
        },
        ToolKind::Bolt11ReceiveViaJitChannel => match handle_bolt11_receive_via_jit_channel(args) {
            Ok(r) => Ok(ClientRequest::Bolt11ReceiveViaJitChannel(r)),
            Err(e) => Err(e),
        },
        ToolKind::Bolt11ReceiveVariableAmountViaJitChannel => match handle_bolt11_receive_variable_amount_via_jit_channel(args) {
            Ok(r) => Ok(ClientRequest::Bolt11ReceiveVariableAmountViaJitChannel(r)),
            Err(e) => Err(e),
        },
        ToolKind::Bolt11Send => match handle_bolt11_send(args) {
            Ok(r) => Ok(ClientRequest::Bolt11Send(r)),
            Err(e) => Err(e),
        },
        ToolKind::Bolt12Receive => match handle_bolt12_receive(args) {
            Ok(r) => Ok(ClientRequest::Bolt12Receive(r)),
            Err(e) => Err(e),
        },
        ToolKind::Bolt12Send => match handle_bolt12_send(args) {
            Ok(r) => Ok(ClientRequest::Bolt12Send(r)),
            Err(e) => Err(e),
        },
        ToolKind::SpontaneousSend => match handle_spontaneous_send(args) {
            Ok(r) => Ok(ClientRequest::SpontaneousSend(r)),
            Err(e) => Err(e),
        },
        ToolKind::UnifiedSend => match handle_unified_send(args) {
            Ok(r) => Ok(ClientRequest::UnifiedSend(r)),
            Err(e) => Err(e),
        },
        ToolKind::OpenChannel => match handle_open_channel(args) {
            Ok(r) => Ok(ClientRequest::OpenChannel(r)),
            Err(e) => Err(e),
        },
        ToolKind::SpliceIn => match handle_splice_in(args) {
            Ok(r) => Ok(ClientRequest::SpliceIn(r)),
            Err(e) => Err(e),
        },
        ToolKind::SpliceOut => match handle_splice_out(args) {
            Ok(r) => Ok(ClientRequest::SpliceOut(r)),
            Err(e) => Err(e),
        },
        ToolKind::CloseChannel => match handle_close_channel(args) {
            Ok(r) => Ok(ClientRequest::CloseChannel(r)),
            Err(e) => Err(e),
        },
        ToolKind::ForceCloseChannel => match handle_force_close_channel(args) {
            Ok(r) => Ok(ClientRequest::ForceCloseChannel(r)),
            Err(e) => Err(e),
        },
        ToolKind::ListChannels => Ok(ClientRequest::ListChannels),
        ToolKind::UpdateChannelConfig => match handle_update_channel_config(args) {
            Ok(r) => Ok(ClientRequest::UpdateChannelConfig(r)),
            Err(e) => Err(e),
        },
        ToolKind::ListPayments => match handle_list_payments(args) {
            Ok(r) => Ok(ClientRequest::ListPayments(r)),
            Err(e) => Err(e),
        },
        ToolKind::GetPaymentDetails => match handle_get_payment_details(args) {
            Ok(r) => Ok(ClientRequest::GetPaymentDetails(r)),
            Err(e) => Err(e),
        },
        ToolKind::ListForwardedPayments => match handle_list_forwarded_payments(args) {
            Ok(r) => Ok(ClientRequest::ListForwardedPayments(r)),
            Err(e) => Err(e),
        },
        ToolKind::ConnectPeer => match handle_connect_peer(args) {
            Ok(r) => Ok(ClientRequest::ConnectPeer(r)),
            Err(e) => Err(e),
        },
        ToolKind::DisconnectPeer => match handle_disconnect_peer(args) {
            Ok(r) => Ok(ClientRequest::DisconnectPeer(r)),
            Err(e) => Err(e),
        },
        ToolKind::ListPeers => Ok(ClientRequest::ListPeers),
        ToolKind::DecodeInvoice => match handle_decode_invoice(args) {
            Ok(r) => Ok(ClientRequest::DecodeInvoice(r)),
            Err(e) => Err(e),
        },
        ToolKind::DecodeOffer => match handle_decode_offer(args) {
            Ok(r) => Ok(ClientRequest::DecodeOffer(r)),
            Err(e) => Err(e),
        },
        ToolKind::SignMessage => match handle_sign_message(args) {
            Ok(r) => Ok(ClientRequest::SignMessage(r)),
            Err(e) => Err(e),
        },
        ToolKind::VerifySignature => match handle_verify_signature(args) {
            Ok(r) => Ok(ClientRequest::VerifySignature(r)),
            Err(e) => Err(e),
        },
        ToolKind::ExportPathfindingScores => Ok(ClientRequest::ExportPathfindingScores),
        ToolKind::GraphListChannels => Ok(ClientRequest::GraphListChannels),
        ToolKind::GraphGetChannel => match handle_graph_get_channel(args) {
            Ok(r) => Ok(ClientRequest::GraphGetChannel(r)),
            Err(e) => Err(e),
        },
        ToolKind::GraphListNodes => Ok(ClientRequest::GraphListNodes),
        ToolKind::GraphGetNode => match handle_graph_get_node(args) {
            Ok(r) => Ok(ClientRequest::GraphGetNode(r)),
            Err(e) => Err(e),
        },
    }
}

/// The first of `kinds` whose name is `name`.
pub open spec fn find_kind(kinds: Seq<ToolKind>, name: Seq<char>) -> Option<ToolKind>
    decreases kinds.len(),
{
    if kinds.len() == 0 {
        None
    } else if tool_name(kinds[0]) == name {
        Some(kinds[0])
    } else {
        find_kind(kinds.drop_first(), name)
    }
}

/// The registered tool that a call names, if any.
pub open spec fn find_tool(name: Seq<char>) -> Option<ToolKind> {
    find_kind(registered_tools(), name)
}

/// What to do with a tool call: answer at once, or send a request to the node
/// and answer with what it returns.
#[derive(Debug)]
pub enum ToolCall {
    Finished(ToolCallResult),
    Send(ClientRequest),
}

/// What a call of tool `name` with arguments `args` comes to.
pub open spec fn tool_call_spec(name: Seq<char>, args: ToolArgs, r: ToolCall) -> bool {
    match find_tool(name) {
        None => r matches ToolCall::Finished(res) && is_error_with(res, "Unknown tool: "@ + name),
        Some(kind) => match tool_refusal(kind, args) {
            Some(e) => r matches ToolCall::Finished(res) && is_error_with(res, e),
            None => r matches ToolCall::Send(req) && request_matches(kind, args, req),
        },
    }
}

/// Entry `i` holds the definition of the `i`-th registered tool.
pub open spec fn entries_define(tools: Seq<(ToolDefinition, ToolKind)>) -> bool {
    &&& tools.len() == registered_tools().len()
    &&& forall|i: int|
        0 <= i < tools.len() ==> #[trigger] tools[i].1 == registered_tools()[i] && defines(
            tools[i].0,
            registered_tools()[i],
        )
}

/// The tools that the server offers, each with its definition.
pub struct ToolRegistry {
    tools: Vec<(ToolDefinition, ToolKind)>,
}

impl ToolRegistry {
    #[verifier::type_invariant]
    spec fn well_formed(self) -> bool {
        entries_define(self.tools@)
    }

    /// The entries of the registry: each tool's definition and kind.
    pub closed spec fn entries(self) -> Seq<(ToolDefinition, ToolKind)> {
        self.tools@
    }

    /// The definitions of the registered tools, in order.
    pub fn list_tools(&self) -> (r: Vec<&ToolDefinition>)
        ensures
            r@.len() == registered_tools().len(),
            forall|i: int| 0 <= i < r@.len() ==> defines(*#[trigger] r@[i], registered_tools()[i]),
    {
        proof {
            use_type_invariant(self);
        }
        let mut r: Vec<&ToolDefinition> = Vec::new();
        let mut i: usize = 0;
        while i < self.tools.len()
            invariant
                i <= self.tools@.len(),
                entries_define(self.tools@),
                r@.len() == i,
                forall|j: int| 0 <= j < i ==> *#[trigger] r@[j] == self.tools@[j].0,
            decreases self.tools@.len() - i,
        {
            r.push(&self.tools[i].0);
            i = i + 1;
        }
        proof {
            assert forall|j: int| 0 <= j < r@.len() implies defines(
                *#[trigger] r@[j],
                registered_tools()[j],
            ) by {
                assert(self.tools@[j].1 == registered_tools()[j]);
            }
        }
        r
    }

    /// Decides a call of the tool named `name`: an unknown name, or arguments
    /// that the tool refuses, are answered with an error at once; otherwise
    /// the tool's request to the node is returned.
    pub fn call_tool(&self, name: &str, args: &ToolArgs) -> (r: ToolCall)
        ensures
            tool_call_spec(name@, *args, r),
    {
        proof {
            use_type_invariant(self);
        }
        let n = String::from_str(name);
        let mut i: usize = 0;
        assert(self.tools@.len() == registered_tools().len());
        assert(registered_tools().skip(0) =~= registered_tools());
        while i < self.tools.len()
            invariant
                i <= self.tools@.len(),
                n@ == name@,
                entries_define(self.tools@),
                find_tool(name@) == find_kind(registered_tools().skip(i as int), name@),
            decreases self.tools@.len() - i,
        {
            let ghost rest = registered_tools().skip(i as int);
            assert(rest[0] == registered_tools()[i as int]);
            assert(self.tools@[i as int].1 == registered_tools()[i as int]);
            if self.tools[i].0.name == n {
                let kind = self.tools[i].1;
                return match plan_tool_call(kind, args) {
                    Ok(req) => ToolCall::Send(req),
                    Err(e) => ToolCall::Finished(ToolCallResult::error(e)),
                };
            }
            assert(rest.drop_first() =~= registered_tools().skip(i + 1));
            i = i + 1;
        }
        let mut text = String::from_str("Unknown tool: ");
        text.append(name);
        ToolCall::Finished(ToolCallResult::error(text))
    }
}

/// The result of a call that was sent to the node: the answer's text as a
/// success, or the node's error message as an error.
pub fn tool_call_result(outcome: Result<String, String>) -> (r: ToolCallResult)
    ensures
        match outcome {
            Ok(text) => is_success_with(r, text@),
            Err(message) => is_error_with(r, message@),
        },
{
    match outcome {
        Ok(text) => ToolCallResult::success(text),
        Err(message) => ToolCallResult::error(message),
    }
}

/// Builds the registry of the tools that the server offers.
pub fn build_tool_registry() -> (r: ToolRegistry)
    ensures
        entries_define(r.entries()),
{
    let kinds: Vec<ToolKind> = vec![
        ToolKind::GetNodeInfo,
        ToolKind::GetBalances,
        ToolKind::OnchainReceive,
        ToolKind::OnchainSend,
        ToolKind::Bolt11Receive,
        ToolKind::Bolt11ReceiveViaJitChannel,
        ToolKind::Bolt11ReceiveVariableAmountViaJitChannel,
        ToolKind::Bolt11Send,
        ToolKind::Bolt12Receive,
        ToolKind::Bolt12Send,
        ToolKind::SpontaneousSend,
        ToolKind::OpenChannel,
        ToolKind::SpliceIn,
        ToolKind::SpliceOut,
        ToolKind::CloseChannel,
        ToolKind::ForceCloseChannel,
        ToolKind::ListChannels,
        ToolKind::UpdateChannelConfig,
        ToolKind::ListPayments,
        ToolKind::GetPaymentDetails,
        ToolKind::ListForwardedPayments,
        ToolKind::ConnectPeer,
        ToolKind::DisconnectPeer,
        ToolKind::SignMessage,
        ToolKind::VerifySignature,
        ToolKind::ExportPathfindingScores,
        ToolKind::GraphListChannels,
        ToolKind::GraphGetChannel,
        ToolKind::GraphListNodes,
        ToolKind::GraphGetNode,
    ];
    assert(kinds@ =~= registered_tools());
    let mut tools: Vec<(ToolDefinition, ToolKind)> = Vec::new();
    let mut i: usize = 0;
    while i < kinds.len()
        invariant
            i <= kinds@.len(),
            kinds@ == registered_tools(),
            tools@.len() == i,
            forall|j: int|
                0 <= j < i ==> #[trigger] tools@[j].1 == registered_tools()[j] && defines(
                    tools@[j].0,
                    registered_tools()[j],
                ),
        decreases kinds@.len() - i,
    {
        let kind = kinds[i];
        let def = tool_spec(kind);
        let ghost before = tools@;
        tools.push((def, kind));
        assert forall|j: int| 0 <= j < i + 1 implies #[trigger] tools@[j].1 == registered_tools()[j]
            && defines(tools@[j].0, registered_tools()[j]) by {
            if j < i {
                assert(tools@[j] == before[j]);
            } else {
                assert(tools@[j] == (def, kind));
            }
        }
        i = i + 1;
    }
    ToolRegistry { tools }
}

} // verus!
