//! What a planned call of each tool sends to the node, field by field.
//!
//! `plan_tool_call` promises a request that `request_matches` the call. The
//! laws here say, for each tool, which request that is and where each of its
//! fields comes from, so that the request of every tool is pinned down by the
//! arguments of the call.
use vstd::prelude::*;

use crate::json_args::{opt_str, ToolArgs};
use crate::tools::handlers::{
    page_token_spec, u32_arg,
};
use crate::tools::requests::{Bolt11InvoiceDescription, ClientRequest};
use crate::tools::{request_matches, ToolKind};
use vstd::utf8::encode_utf8;

verus! {

/// The tool whose calls send requests of this kind.
pub open spec fn sending_tool(req: ClientRequest) -> ToolKind {
    match req {
        ClientRequest::GetNodeInfo => ToolKind::GetNodeInfo,
        ClientRequest::GetBalances => ToolKind::GetBalances,
        ClientRequest::OnchainReceive => ToolKind::OnchainReceive,
        ClientRequest::OnchainSend(_) => ToolKind::OnchainSend,
        ClientRequest::Bolt11Receive(_) => ToolKind::Bolt11Receive,
        ClientRequest::Bolt11ReceiveForHash(_) => ToolKind::Bolt11ReceiveForHash,
        ClientRequest::Bolt11ClaimForHash(_) => ToolKind::Bolt11ClaimForHash,
        ClientRequest::Bolt11FailForHash(_) => ToolKind::Bolt11FailForHash,
        ClientRequest::Bolt11ReceiveViaJitChannel(_) => ToolKind::Bolt11ReceiveViaJitChannel,
        ClientRequest::Bolt11ReceiveVariableAmountViaJitChannel(_) => ToolKind::Bolt11ReceiveVariableAmountViaJitChannel,
        ClientRequest::Bolt11Send(_) => ToolKind::Bolt11Send,
        ClientRequest::Bolt12Receive(_) => ToolKind::Bolt12Receive,
        ClientRequest::Bolt12Send(_) => ToolKind::Bolt12Send,
        ClientRequest::SpontaneousSend(_) => ToolKind::SpontaneousSend,
        ClientRequest::UnifiedSend(_) => ToolKind::UnifiedSend,
        ClientRequest::OpenChannel(_) => ToolKind::OpenChannel,
        ClientRequest::SpliceIn(_) => ToolKind::SpliceIn,
        ClientRequest::SpliceOut(_) => ToolKind::SpliceOut,
        ClientRequest::CloseChannel(_) => ToolKind::CloseChannel,
        ClientRequest::ForceCloseChannel(_) => ToolKind::ForceCloseChannel,
        ClientRequest::ListChannels => ToolKind::ListChannels,
        ClientRequest::UpdateChannelConfig(_) => ToolKind::UpdateChannelConfig,
        ClientRequest::ListPayments(_) => ToolKind::ListPayments,
        ClientRequest::GetPaymentDetails(_) => ToolKind::GetPaymentDetails,
        ClientRequest::ListForwardedPayments(_) => ToolKind::ListForwardedPayments,
        ClientRequest::ConnectPeer(_) => ToolKind::ConnectPeer,
        ClientRequest::DisconnectPeer(_) => ToolKind::DisconnectPeer,
        ClientRequest::ListPeers => ToolKind::ListPeers,
        ClientRequest::DecodeInvoice(_) => ToolKind::DecodeInvoice,
        ClientRequest::DecodeOffer(_) => ToolKind::DecodeOffer,
        ClientRequest::SignMessage(_) => ToolKind::SignMessage,
        ClientRequest::VerifySignature(_) => ToolKind::VerifySignature,
        ClientRequest::ExportPathfindingScores => ToolKind::ExportPathfindingScores,
        ClientRequest::GraphListChannels => ToolKind::GraphListChannels,
        ClientRequest::GraphGetChannel(_) => ToolKind::GraphGetChannel,
        ClientRequest::GraphListNodes => ToolKind::GraphListNodes,
        ClientRequest::GraphGetNode(_) => ToolKind::GraphGetNode,
    }
}

/// A planned call of a tool sends that tool's own request: a call of
/// `close_channel` a cooperative close and never a forced one, a call of
/// `onchain_send` an on-chain payment, and so on for every tool.
pub proof fn lemma_request_of_own_tool(kind: ToolKind, args: ToolArgs, req: ClientRequest)
    requires
        request_matches(kind, args, req),
    ensures
        sending_tool(req) == kind,
{
}

/// A 32-bit setting read from an argument keeps the low 32 bits of the
/// unsigned integer given, and is unset where no such integer is given.
pub proof fn lemma_u32_arg_low_bits(args: ToolArgs, key: Seq<char>)
    ensures
        match args.u64_arg(key) {
            Some(v) => u32_arg(args, key) == Some((v % 0x1_0000_0000) as u32),
            None => u32_arg(args, key) is None,
        },
{
    match args.u64_arg(key) {
        Some(v) => {
            assert(v as u32 == (v % 0x1_0000_0000) as u32) by (bit_vector);
        },
        None => {},
    }
}

/// A planned call of `onchain_send` sends an `OnchainSend` request built from its arguments.
pub proof fn lemma_onchain_send_request(args: ToolArgs, req: ClientRequest)
    requires
        request_matches(ToolKind::OnchainSend, args, req),
    ensures
        match req {
            ClientRequest::OnchainSend(r) => {
                &&& args.str_arg("address"@) == Some(r.address@)
                &&& r.amount_sats == args.u64_arg("amount_sats"@)
                &&& r.send_all == args.bool_arg("send_all"@)
                &&& r.fee_rate_sat_per_vb == args.u64_arg("fee_rate_sat_per_vb"@)
            },
            _ => false,
        },
{
}

/// A planned call of `bolt11_receive` sends a `Bolt11Receive` request built from its arguments.
pub proof fn lemma_bolt11_receive_request(args: ToolArgs, req: ClientRequest)
    requires
        request_matches(ToolKind::Bolt11Receive, args, req),
    ensures
        match req {
            ClientRequest::Bolt11Receive(r) => {
                &&& match (args.str_arg("description"@), args.str_arg("description_hash"@)) {
                    (Some(t), None) => r.description matches Some(Bolt11InvoiceDescription::Direct(s)) && s@ == t,
                    (None, Some(h)) => r.description matches Some(Bolt11InvoiceDescription::Hash(s)) && s@ == h,
                    _ => r.description is None,
                }
                &&& r.expiry_secs == match args.u64_arg("expiry_secs"@) {
                    Some(v) => v as u32,
                    None => 86400,
                }
                &&& r.amount_msat == args.u64_arg("amount_msat"@)
            },
            _ => false,
        },
{
}

/// A planned call of `bolt11_receive_for_hash` sends a `Bolt11ReceiveForHash` request built from its arguments.
pub proof fn lemma_bolt11_receive_for_hash_request(args: ToolArgs, req: ClientRequest)
    requires
        request_matches(ToolKind::Bolt11ReceiveForHash, args, req),
    ensures
        match req {
            ClientRequest::Bolt11ReceiveForHash(r) => {
                &&& r.amount_msat == args.u64_arg("amount_msat"@)
                &&& match (args.str_arg("description"@), args.str_arg("description_hash"@)) {
                    (Some(t), None) => r.description matches Some(Bolt11InvoiceDescription::Direct(s)) && s@ == t,
                    (None, Some(h)) => r.description matches Some(Bolt11InvoiceDescription::Hash(s)) && s@ == h,
                    _ => r.description is None,
                }
                &&& r.expiry_secs == match args.u64_arg("expiry_secs"@) {
                    Some(v) => v as u32,
                    None => 86400,
                }
                &&& args.str_arg("payment_hash"@) == Some(r.payment_hash@)
            },
            _ => false,
        },
{
}

/// A planned call of `bolt11_claim_for_hash` sends a `Bolt11ClaimForHash` request built from its arguments.
pub proof fn lemma_bolt11_claim_for_hash_request(args: ToolArgs, req: ClientRequest)
    requires
        request_matches(ToolKind::Bolt11ClaimForHash, args, req),
    ensures
        match req {
            ClientRequest::Bolt11ClaimForHash(r) => {
                &&& opt_str(r.payment_hash) == args.str_arg("payment_hash"@)
                &&& r.claimable_amount_msat == args.u64_arg("claimable_amount_msat"@)
                &&& args.str_arg("preimage"@) == Some(r.preimage@)
            },
            _ => false,
        },
{
}

/// A planned call of `bolt11_fail_for_hash` sends a `Bolt11FailForHash` request built from its arguments.
pub proof fn lemma_bolt11_fail_for_hash_request(args: ToolArgs, req: ClientRequest)
    requires
        request_matches(ToolKind::Bolt11FailForHash, args, req),
    ensures
        match req {
            ClientRequest::Bolt11FailForHash(r) => {
                &&& args.str_arg("payment_hash"@) == Some(r.payment_hash@)
            },
            _ => false,
        },
{
}

/// A planned call of `bolt11_receive_via_jit_channel` sends a `Bolt11ReceiveViaJitChannel` request built from its arguments.
pub proof fn lemma_bolt11_receive_via_jit_channel_request(args: ToolArgs, req: ClientRequest)
    requires
        request_matches(ToolKind::Bolt11ReceiveViaJitChannel, args, req),
    ensures
        match req {
            ClientRequest::Bolt11ReceiveViaJitChannel(r) => {
                &&& args.u64_arg("amount_msat"@) == Some(r.amount_msat)
                &&& match (args.str_arg("description"@), args.str_arg("description_hash"@)) {
                    (Some(t), None) => r.description matches Some(Bolt11InvoiceDescription::Direct(s)) && s@ == t,
                    (None, Some(h)) => r.description matches Some(Bolt11InvoiceDescription::Hash(s)) && s@ == h,
                    _ => r.description is None,
                }
                &&& r.expiry_secs == match args.u64_arg("expiry_secs"@) {
                    Some(v) => v as u32,
                    None => 86400,
                }
                &&& r.max_total_lsp_fee_limit_msat == args.u64_arg("max_total_lsp_fee_limit_msat"@)
            },
            _ => false,
        },
{
}

/// A planned call of `bolt11_receive_variable_amount_via_jit_channel` sends a `Bolt11ReceiveVariableAmountViaJitChannel` request built from its arguments.
pub proof fn lemma_bolt11_receive_variable_amount_via_jit_channel_request(args: ToolArgs, req: ClientRequest)
    requires
        request_matches(ToolKind::Bolt11ReceiveVariableAmountViaJitChannel, args, req),
    ensures
        match req {
            ClientRequest::Bolt11ReceiveVariableAmountViaJitChannel(r) => {
                &&& match (args.str_arg("description"@), args.str_arg("description_hash"@)) {
                    (Some(t), None) => r.description matches Some(Bolt11InvoiceDescription::Direct(s)) && s@ == t,
                    (None, Some(h)) => r.description matches Some(Bolt11InvoiceDescription::Hash(s)) && s@ == h,
                    _ => r.description is None,
                }
                &&& r.expiry_secs == match args.u64_arg("expiry_secs"@) {
                    Some(v) => v as u32,
                    None => 86400,
                }
                &&& r.max_proportional_lsp_fee_limit_ppm_msat == args.u64_arg("max_proportional_lsp_fee_limit_ppm_msat"@)
            },
            _ => false,
        },
{
}

/// A planned call of `bolt11_send` sends a `Bolt11Send` request built from its arguments.
pub proof fn lemma_bolt11_send_request(args: ToolArgs, req: ClientRequest)
    requires
        request_matches(ToolKind::Bolt11Send, args, req),
    ensures
        match req {
            ClientRequest::Bolt11Send(r) => {
                &&& args.str_arg("invoice"@) == Some(r.invoice@)
                &&& r.amount_msat == args.u64_arg("amount_msat"@)
                &&& r.route_parameters matches Some(p) && {
                    &&& p.max_total_routing_fee_msat == args.u64_arg("max_total_routing_fee_msat"@)
                    &&& p.max_total_cltv_expiry_delta == match args.u64_arg("max_total_cltv_expiry_delta"@) {
                        Some(v) => v as u32,
                        None => 1008,
                    }
                    &&& p.max_path_count == match args.u64_arg("max_path_count"@) {
                        Some(v) => v as u32,
                        None => 10,
                    }
                    &&& p.max_channel_saturation_power_of_half == match args.u64_arg("max_channel_saturation_power_of_half"@) {
                        Some(v) => v as u32,
                        None => 2,
                    }
                }
            },
            _ => false,
        },
{
}

/// A planned call of `bolt12_receive` sends a `Bolt12Receive` request built from its arguments.
pub proof fn lemma_bolt12_receive_request(args: ToolArgs, req: ClientRequest)
    requires
        request_matches(ToolKind::Bolt12Receive, args, req),
    ensures
        match req {
            ClientRequest::Bolt12Receive(r) => {
                &&& args.str_arg("description"@) == Some(r.description@)
                &&& r.amount_msat == args.u64_arg("amount_msat"@)
                &&& r.expiry_secs == u32_arg(args, "expiry_secs"@)
                &&& r.quantity == args.u64_arg("quantity"@)
            },
            _ => false,
        },
{
}

/// A planned call of `bolt12_send` pays the `offer` argument with a `Bolt12Send`
/// request: its amount in millisatoshis is the `amount_msat` argument, its
/// quantity the `quantity` argument and its payer note the `payer_note` argument,
/// and its route limits come from the route arguments, with defaults 1008
/// (CLTV delta), 10 (paths) and 2 (channel saturation).
pub proof fn lemma_bolt12_send_request(args: ToolArgs, req: ClientRequest)
    requires
        request_matches(ToolKind::Bolt12Send, args, req),
    ensures
        match req {
            ClientRequest::Bolt12Send(r) => {
                &&& args.str_arg("offer"@) == Some(r.offer@)
                &&& r.amount_msat == args.u64_arg("amount_msat"@)
                &&& r.quantity == args.u64_arg("quantity"@)
                &&& opt_str(r.payer_note) == args.str_arg("payer_note"@)
                &&& r.route_parameters matches Some(p) && {
                    &&& p.max_total_routing_fee_msat == args.u64_arg("max_total_routing_fee_msat"@)
                    &&& p.max_total_cltv_expiry_delta == match args.u64_arg("max_total_cltv_expiry_delta"@) {
                        Some(v) => v as u32,
                        None => 1008,
                    }
                    &&& p.max_path_count == match args.u64_arg("max_path_count"@) {
                        Some(v) => v as u32,
                        None => 10,
                    }
                    &&& p.max_channel_saturation_power_of_half == match args.u64_arg("max_channel_saturation_power_of_half"@) {
                        Some(v) => v as u32,
                        None => 2,
                    }
                }
            },
            _ => false,
        },
{
}

/// A planned call of `spontaneous_send` sends a `SpontaneousSend` request built from its arguments.
pub proof fn lemma_spontaneous_send_request(args: ToolArgs, req: ClientRequest)
    requires
        request_matches(ToolKind::SpontaneousSend, args, req),
    ensures
        match req {
            ClientRequest::SpontaneousSend(r) => {
                &&& args.u64_arg("amount_msat"@) == Some(r.amount_msat)
                &&& args.str_arg("node_id"@) == Some(r.node_id@)
                &&& r.route_parameters matches Some(p) && {
                    &&& p.max_total_routing_fee_msat == args.u64_arg("max_total_routing_fee_msat"@)
                    &&& p.max_total_cltv_expiry_delta == match args.u64_arg("max_total_cltv_expiry_delta"@) {
                        Some(v) => v as u32,
                        None => 1008,
                    }
                    &&& p.max_path_count == match args.u64_arg("max_path_count"@) {
                        Some(v) => v as u32,
                        None => 10,
                    }
                    &&& p.max_channel_saturation_power_of_half == match args.u64_arg("max_channel_saturation_power_of_half"@) {
                        Some(v) => v as u32,
                        None => 2,
                    }
                }
            },
            _ => false,
        },
{
}

/// A planned call of `unified_send` sends an `UnifiedSend` request built from its arguments.
pub proof fn lemma_unified_send_request(args: ToolArgs, req: ClientRequest)
    requires
        request_matches(ToolKind::UnifiedSend, args, req),
    ensures
        match req {
            ClientRequest::UnifiedSend(r) => {
                &&& args.str_arg("uri"@) == Some(r.uri@)
                &&& r.amount_msat == args.u64_arg("amount_msat"@)
                &&& r.route_parameters matches Some(p) && {
                    &&& p.max_total_routing_fee_msat == args.u64_arg("max_total_routing_fee_msat"@)
                    &&& p.max_total_cltv_expiry_delta == match args.u64_arg("max_total_cltv_expiry_delta"@) {
                        Some(v) => v as u32,
                        None => 1008,
                    }
                    &&& p.max_path_count == match args.u64_arg("max_path_count"@) {
                        Some(v) => v as u32,
                        None => 10,
                    }
                    &&& p.max_channel_saturation_power_of_half == match args.u64_arg("max_channel_saturation_power_of_half"@) {
                        Some(v) => v as u32,
                        None => 2,
                    }
                }
            },
            _ => false,
        },
{
}

/// A planned call of `open_channel` sends an `OpenChannel` request built from its arguments.
pub proof fn lemma_open_channel_request(args: ToolArgs, req: ClientRequest)
    requires
        request_matches(ToolKind::OpenChannel, args, req),
    ensures
        match req {
            ClientRequest::OpenChannel(r) => {
                &&& args.str_arg("node_pubkey"@) == Some(r.node_pubkey@)
                &&& args.str_arg("address"@) == Some(r.address@)
                &&& args.u64_arg("channel_amount_sats"@) == Some(r.channel_amount_sats)
                &&& r.push_to_counterparty_msat == args.u64_arg("push_to_counterparty_msat"@)
                &&& (r.channel_config is Some <==> {
                    ||| args.u64_arg("forwarding_fee_proportional_millionths"@) is Some
                    ||| args.u64_arg("forwarding_fee_base_msat"@) is Some
                    ||| args.u64_arg("cltv_expiry_delta"@) is Some
                })
                &&& (r.channel_config matches Some(c) ==> {
                    &&& c.forwarding_fee_proportional_millionths == u32_arg(args, "forwarding_fee_proportional_millionths"@)
                    &&& c.forwarding_fee_base_msat == u32_arg(args, "forwarding_fee_base_msat"@)
                    &&& c.cltv_expiry_delta == u32_arg(args, "cltv_expiry_delta"@)
                })
                &&& r.announce_channel == (args.bool_arg("announce_channel"@) == Some(true))
                &&& !r.disable_counterparty_reserve
            },
            _ => false,
        },
{
}

/// A planned call of `splice_in` sends a `SpliceIn` request built from its arguments.
pub proof fn lemma_splice_in_request(args: ToolArgs, req: ClientRequest)
    requires
        request_matches(ToolKind::SpliceIn, args, req),
    ensures
        match req {
            ClientRequest::SpliceIn(r) => {
                &&& args.str_arg("user_channel_id"@) == Some(r.user_channel_id@)
                &&& args.str_arg("counterparty_node_id"@) == Some(r.counterparty_node_id@)
                &&& args.u64_arg("splice_amount_sats"@) == Some(r.splice_amount_sats)
            },
            _ => false,
        },
{
}

/// A planned call of `splice_out` sends a `SpliceOut` request built from its arguments.
pub proof fn lemma_splice_out_request(args: ToolArgs, req: ClientRequest)
    requires
        request_matches(ToolKind::SpliceOut, args, req),
    ensures
        match req {
            ClientRequest::SpliceOut(r) => {
                &&& args.str_arg("user_channel_id"@) == Some(r.user_channel_id@)
                &&& args.str_arg("counterparty_node_id"@) == Some(r.counterparty_node_id@)
                &&& args.u64_arg("splice_amount_sats"@) == Some(r.splice_amount_sats)
                &&& opt_str(r.address) == args.str_arg("address"@)
            },
            _ => false,
        },
{
}

/// A planned call of `close_channel` closes the channel cooperatively: it sends a
/// `CloseChannel` request, never a forced close, for the channel that the
/// `user_channel_id` and `counterparty_node_id` arguments name.
pub proof fn lemma_close_channel_request(args: ToolArgs, req: ClientRequest)
    requires
        request_matches(ToolKind::CloseChannel, args, req),
    ensures
        match req {
            ClientRequest::CloseChannel(r) => {
                &&& args.str_arg("user_channel_id"@) == Some(r.user_channel_id@)
                &&& args.str_arg("counterparty_node_id"@) == Some(r.counterparty_node_id@)
            },
            _ => false,
        },
{
}

/// A planned call of `force_close_channel` sends a `ForceCloseChannel` request
/// for the channel that its arguments name, with the `force_close_reason`
/// argument as the reason.
pub proof fn lemma_force_close_channel_request(args: ToolArgs, req: ClientRequest)
    requires
        request_matches(ToolKind::ForceCloseChannel, args, req),
    ensures
        match req {
            ClientRequest::ForceCloseChannel(r) => {
                &&& args.str_arg("user_channel_id"@) == Some(r.user_channel_id@)
                &&& args.str_arg("counterparty_node_id"@) == Some(r.counterparty_node_id@)
                &&& opt_str(r.force_close_reason) == args.str_arg("force_close_reason"@)
            },
            _ => false,
        },
{
}

/// A planned call of `update_channel_config` sends an `UpdateChannelConfig`
/// request for the channel that `user_channel_id` and `counterparty_node_id` name.
/// Each forwarding setting comes from the argument of the same name:
/// `forwarding_fee_base_msat`, `forwarding_fee_proportional_millionths` and
/// `cltv_expiry_delta`, each cut to 32 bits, and unset where the argument is
/// not given.
pub proof fn lemma_update_channel_config_request(args: ToolArgs, req: ClientRequest)
    requires
        request_matches(ToolKind::UpdateChannelConfig, args, req),
    ensures
        match req {
            ClientRequest::UpdateChannelConfig(r) => {
                &&& args.str_arg("user_channel_id"@) == Some(r.user_channel_id@)
                &&& args.str_arg("counterparty_node_id"@) == Some(r.counterparty_node_id@)
                &&& r.channel_config matches Some(c) && {
                    &&& c.forwarding_fee_proportional_millionths == u32_arg(args, "forwarding_fee_proportional_millionths"@)
                    &&& c.forwarding_fee_base_msat == u32_arg(args, "forwarding_fee_base_msat"@)
                    &&& c.cltv_expiry_delta == u32_arg(args, "cltv_expiry_delta"@)
                }
            },
            _ => false,
        },
{
}

/// A planned call of `list_payments` sends a `ListPayments` request built from its arguments.
pub proof fn lemma_list_payments_request(args: ToolArgs, req: ClientRequest)
    requires
        request_matches(ToolKind::ListPayments, args, req),
    ensures
        match req {
            ClientRequest::ListPayments(r) => {
                &&& match args.str_arg("page_token"@) {
                    Some(t) => r.page_token matches Some(pt) && page_token_spec(t) == Ok::<(Seq<char>, i64), Seq<char>>((pt.token@, pt.index)),
                    None => r.page_token is None,
                }
            },
            _ => false,
        },
{
}

/// A planned call of `get_payment_details` sends a `GetPaymentDetails` request built from its arguments.
pub proof fn lemma_get_payment_details_request(args: ToolArgs, req: ClientRequest)
    requires
        request_matches(ToolKind::GetPaymentDetails, args, req),
    ensures
        match req {
            ClientRequest::GetPaymentDetails(r) => {
                &&& args.str_arg("payment_id"@) == Some(r.payment_id@)
            },
            _ => false,
        },
{
}

/// A planned call of `list_forwarded_payments` sends a `ListForwardedPayments` request built from its arguments.
pub proof fn lemma_list_forwarded_payments_request(args: ToolArgs, req: ClientRequest)
    requires
        request_matches(ToolKind::ListForwardedPayments, args, req),
    ensures
        match req {
            ClientRequest::ListForwardedPayments(r) => {
                &&& match args.str_arg("page_token"@) {
                    Some(t) => r.page_token matches Some(pt) && page_token_spec(t) == Ok::<(Seq<char>, i64), Seq<char>>((pt.token@, pt.index)),
                    None => r.page_token is None,
                }
            },
            _ => false,
        },
{
}

/// A planned call of `connect_peer` sends a `ConnectPeer` request built from its arguments.
pub proof fn lemma_connect_peer_request(args: ToolArgs, req: ClientRequest)
    requires
        request_matches(ToolKind::ConnectPeer, args, req),
    ensures
        match req {
            ClientRequest::ConnectPeer(r) => {
                &&& args.str_arg("node_pubkey"@) == Some(r.node_pubkey@)
                &&& args.str_arg("address"@) == Some(r.address@)
                &&& r.persist == (args.bool_arg("persist"@) == Some(true))
            },
            _ => false,
        },
{
}

/// A planned call of `disconnect_peer` sends a `DisconnectPeer` request built from its arguments.
pub proof fn lemma_disconnect_peer_request(args: ToolArgs, req: ClientRequest)
    requires
        request_matches(ToolKind::DisconnectPeer, args, req),
    ensures
        match req {
            ClientRequest::DisconnectPeer(r) => {
                &&& args.str_arg("node_pubkey"@) == Some(r.node_pubkey@)
            },
            _ => false,
        },
{
}

/// A planned call of `decode_invoice` sends a `DecodeInvoice` request built from its arguments.
pub proof fn lemma_decode_invoice_request(args: ToolArgs, req: ClientRequest)
    requires
        request_matches(ToolKind::DecodeInvoice, args, req),
    ensures
        match req {
            ClientRequest::DecodeInvoice(r) => {
                &&& args.str_arg("invoice"@) == Some(r.invoice@)
            },
            _ => false,
        },
{
}

/// A planned call of `decode_offer` sends a `DecodeOffer` request built from its arguments.
pub proof fn lemma_decode_offer_request(args: ToolArgs, req: ClientRequest)
    requires
        request_matches(ToolKind::DecodeOffer, args, req),
    ensures
        match req {
            ClientRequest::DecodeOffer(r) => {
                &&& args.str_arg("offer"@) == Some(r.offer@)
            },
            _ => false,
        },
{
}

/// A planned call of `sign_message` asks the node to sign the UTF-8 bytes of
/// the `message` argument.
pub proof fn lemma_sign_message_request(args: ToolArgs, req: ClientRequest)
    requires
        request_matches(ToolKind::SignMessage, args, req),
    ensures
        match req {
            ClientRequest::SignMessage(r) => {
                &&& args.str_arg("message"@) matches Some(m) && r.message@ == encode_utf8(m)
            },
            _ => false,
        },
{
}

/// A planned call of `verify_signature` sends a `VerifySignature` request for
/// the UTF-8 bytes of the `message` argument, with the `signature` argument as
/// the signature and the `public_key` argument as the key.
pub proof fn lemma_verify_signature_request(args: ToolArgs, req: ClientRequest)
    requires
        request_matches(ToolKind::VerifySignature, args, req),
    ensures
        match req {
            ClientRequest::VerifySignature(r) => {
                &&& args.str_arg("message"@) matches Some(m) && r.message@ == encode_utf8(m)
                &&& args.str_arg("signature"@) == Some(r.signature@)
                &&& args.str_arg("public_key"@) == Some(r.public_key@)
            },
            _ => false,
        },
{
}

/// A planned call of `graph_get_channel` sends a `GraphGetChannel` request built from its arguments.
pub proof fn lemma_graph_get_channel_request(args: ToolArgs, req: ClientRequest)
    requires
        request_matches(ToolKind::GraphGetChannel, args, req),
    ensures
        match req {
            ClientRequest::GraphGetChannel(r) => {
                &&& args.u64_arg("short_channel_id"@) == Some(r.short_channel_id)
            },
            _ => false,
        },
{
}

/// A planned call of `graph_get_node` sends a `GraphGetNode` request built from its arguments.
pub proof fn lemma_graph_get_node_request(args: ToolArgs, req: ClientRequest)
    requires
        request_matches(ToolKind::GraphGetNode, args, req),
    ensures
        match req {
            ClientRequest::GraphGetNode(r) => {
                &&& args.str_arg("node_id"@) == Some(r.node_id@)
            },
            _ => false,
        },
{
}

} // verus!
