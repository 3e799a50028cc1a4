//! The requests that the server sends to the LDK Server node, one per tool,
//! holding as plain values what the node API takes.
use vstd::prelude::*;

verus! {

/// A position in a paginated listing, as the node hands it out.
#[derive(Debug, PartialEq, Eq)]
pub struct PageToken {
    pub token: String,
    pub index: i64,
}

/// Limits on the route that a payment may take.
#[derive(Debug, PartialEq, Eq)]
pub struct RouteParametersConfig {
    pub max_total_routing_fee_msat: Option<u64>,
    pub max_total_cltv_expiry_delta: u32,
    pub max_path_count: u32,
    pub max_channel_saturation_power_of_half: u32,
}

/// Forwarding settings of a channel. The node's further settings
/// (force-close avoidance fee, underpaying HTLCs, dust exposure) are never
/// set by this server and are left unset when the request is sent.
#[derive(Debug, PartialEq, Eq)]
pub struct ChannelConfig {
    pub forwarding_fee_proportional_millionths: Option<u32>,
    pub forwarding_fee_base_msat: Option<u32>,
    pub cltv_expiry_delta: Option<u32>,
}

/// The description of a BOLT11 invoice: the text itself or its hash.
#[derive(Debug, PartialEq, Eq)]
pub enum Bolt11InvoiceDescription {
    Direct(String),
    Hash(String),
}

#[derive(Debug, PartialEq, Eq)]
pub struct OnchainSendRequest {
    pub address: String,
    pub amount_sats: Option<u64>,
    pub send_all: Option<bool>,
    pub fee_rate_sat_per_vb: Option<u64>,
}

#[derive(Debug, PartialEq, Eq)]
pub struct Bolt11ReceiveRequest {
    pub description: Option<Bolt11InvoiceDescription>,
    pub expiry_secs: u32,
    pub amount_msat: Option<u64>,
}

#[derive(Debug, PartialEq, Eq)]
pub struct Bolt11ReceiveForHashRequest {
    pub amount_msat: Option<u64>,
    pub description: Option<Bolt11InvoiceDescription>,
    pub expiry_secs: u32,
    pub payment_hash: String,
}

#[derive(Debug, PartialEq, Eq)]
pub struct Bolt11ClaimForHashRequest {
    pub payment_hash: Option<String>,
    pub claimable_amount_msat: Option<u64>,
    pub preimage: String,
}

#[derive(Debug, PartialEq, Eq)]
pub struct Bolt11FailForHashRequest {
    pub payment_hash: String,
}

#[derive(Debug, PartialEq, Eq)]
pub struct Bolt11ReceiveViaJitChannelRequest {
    pub amount_msat: u64,
    pub description: Option<Bolt11InvoiceDescription>,
    pub expiry_secs: u32,
    pub max_total_lsp_fee_limit_msat: Option<u64>,
}

#[derive(Debug, PartialEq, Eq)]
pub struct Bolt11ReceiveVariableAmountViaJitChannelRequest {
    pub description: Option<Bolt11InvoiceDescription>,
    pub expiry_secs: u32,
    pub max_proportional_lsp_fee_limit_ppm_msat: Option<u64>,
}

#[derive(Debug, PartialEq, Eq)]
pub struct Bolt11SendRequest {
    pub invoice: String,
    pub amount_msat: Option<u64>,
    pub route_parameters: Option<RouteParametersConfig>,
}

#[derive(Debug, PartialEq, Eq)]
pub struct Bolt12ReceiveRequest {
    pub description: String,
    pub amount_msat: Option<u64>,
    pub expiry_secs: Option<u32>,
    pub quantity: Option<u64>,
}

#[derive(Debug, PartialEq, Eq)]
pub struct Bolt12SendRequest {
    pub offer: String,
    pub amount_msat: Option<u64>,
    pub quantity: Option<u64>,
    pub payer_note: Option<String>,
    pub route_parameters: Option<RouteParametersConfig>,
}

#[derive(Debug, PartialEq, Eq)]
pub struct SpontaneousSendRequest {
    pub amount_msat: u64,
    pub node_id: String,
    pub route_parameters: Option<RouteParametersConfig>,
}

#[derive(Debug, PartialEq, Eq)]
pub struct UnifiedSendRequest {
    pub uri: String,
    pub amount_msat: Option<u64>,
    pub route_parameters: Option<RouteParametersConfig>,
}

#[derive(Debug, PartialEq, Eq)]
pub struct OpenChannelRequest {
    pub node_pubkey: String,
    pub address: String,
    pub channel_amount_sats: u64,
    pub push_to_counterparty_msat: Option<u64>,
    pub channel_config: Option<ChannelConfig>,
    pub announce_channel: bool,
    pub disable_counterparty_reserve: bool,
}

#[derive(Debug, PartialEq, Eq)]
pub struct SpliceInRequest {
    pub user_channel_id: String,
    pub counterparty_node_id: String,
    pub splice_amount_sats: u64,
}

#[derive(Debug, PartialEq, Eq)]
pub struct SpliceOutRequest {
    pub user_channel_id: String,
    pub counterparty_node_id: String,
    pub address: Option<String>,
    pub splice_amount_sats: u64,
}

#[derive(Debug, PartialEq, Eq)]
pub struct CloseChannelRequest {
    pub user_channel_id: String,
    pub counterparty_node_id: String,
}

#[derive(Debug, PartialEq, Eq)]
pub struct ForceCloseChannelRequest {
    pub user_channel_id: String,
    pub counterparty_node_id: String,
    pub force_close_reason: Option<String>,
}

#[derive(Debug, PartialEq, Eq)]
pub struct UpdateChannelConfigRequest {
    pub user_channel_id: String,
    pub counterparty_node_id: String,
    pub channel_config: Option<ChannelConfig>,
}

#[derive(Debug, PartialEq, Eq)]
pub struct ListPaymentsRequest {
    pub page_token: Option<PageToken>,
}

#[derive(Debug, PartialEq, Eq)]
pub struct GetPaymentDetailsRequest {
    pub payment_id: String,
}

#[derive(Debug, PartialEq, Eq)]
pub struct ListForwardedPaymentsRequest {
    pub page_token: Option<PageToken>,
}

#[derive(Debug, PartialEq, Eq)]
pub struct ConnectPeerRequest {
    pub node_pubkey: String,
    pub address: String,
    pub persist: bool,
}

#[derive(Debug, PartialEq, Eq)]
pub struct DisconnectPeerRequest {
    pub node_pubkey: String,
}

#[derive(Debug, PartialEq, Eq)]
pub struct DecodeInvoiceRequest {
    pub invoice: String,
}

#[derive(Debug, PartialEq, Eq)]
pub struct DecodeOfferRequest {
    pub offer: String,
}

#[derive(Debug, PartialEq, Eq)]
pub struct SignMessageRequest {
    pub message: Vec<u8>,
}

#[derive(Debug, PartialEq, Eq)]
pub struct VerifySignatureRequest {
    pub message: Vec<u8>,
    pub signature: String,
    pub public_key: String,
}

#[derive(Debug, PartialEq, Eq)]
pub struct GraphGetChannelRequest {
    pub short_channel_id: u64,
}

#[derive(Debug, PartialEq, Eq)]
pub struct GraphGetNodeRequest {
    pub node_id: String,
}

/// A request to the node, ready to be sent.
#[derive(Debug, PartialEq, Eq)]
pub enum ClientRequest {
    GetNodeInfo,
    GetBalances,
    OnchainReceive,
    OnchainSend(OnchainSendRequest),
    Bolt11Receive(Bolt11ReceiveRequest),
    Bolt11ReceiveForHash(Bolt11ReceiveForHashRequest),
    Bolt11ClaimForHash(Bolt11ClaimForHashRequest),
    Bolt11FailForHash(Bolt11FailForHashRequest),
    Bolt11ReceiveViaJitChannel(Bolt11ReceiveViaJitChannelRequest),
    Bolt11ReceiveVariableAmountViaJitChannel(Bolt11ReceiveVariableAmountViaJitChannelRequest),
    Bolt11Send(Bolt11SendRequest),
    Bolt12Receive(Bolt12ReceiveRequest),
    Bolt12Send(Bolt12SendRequest),
    SpontaneousSend(SpontaneousSendRequest),
    UnifiedSend(UnifiedSendRequest),
    OpenChannel(OpenChannelRequest),
    SpliceIn(SpliceInRequest),
    SpliceOut(SpliceOutRequest),
    CloseChannel(CloseChannelRequest),
    ForceCloseChannel(ForceCloseChannelRequest),
    ListChannels,
    UpdateChannelConfig(UpdateChannelConfigRequest),
    ListPayments(ListPaymentsRequest),
    GetPaymentDetails(GetPaymentDetailsRequest),
    ListForwardedPayments(ListForwardedPaymentsRequest),
    ConnectPeer(ConnectPeerRequest),
    DisconnectPeer(DisconnectPeerRequest),
    ListPeers,
    DecodeInvoice(DecodeInvoiceRequest),
    DecodeOffer(DecodeOfferRequest),
    SignMessage(SignMessageRequest),
    VerifySignature(VerifySignatureRequest),
    ExportPathfindingScores,
    GraphListChannels,
    GraphGetChannel(GraphGetChannelRequest),
    GraphListNodes,
    GraphGetNode(GraphGetNodeRequest),
}

} // verus!
