//! Properties of the registry as a whole: how the published schemas, the
//! handlers and the lookup by name fit together.
use vstd::prelude::*;

use crate::json_args::ToolArgs;
use crate::tools::handlers::{
    description_refusal, either, first_missing, missing_refusal, page_token_refusal, tool_refusal,
};
use crate::tools::schema::{schema_model, ParamType, SchemaModel};
use crate::tools::{
    find_kind, find_tool, is_registered, registered_tools, tool_name, ToolKind,
};

verus! {

/// The declared type of property `name`: that of the first property so named.
pub open spec fn property_type(
    properties: Seq<(Seq<char>, ParamType, Seq<char>)>,
    name: Seq<char>,
) -> Option<ParamType>
    decreases properties.len(),
{
    if properties.len() == 0 {
        None
    } else if properties[0].0 == name {
        Some(properties[0].1)
    } else {
        property_type(properties.drop_first(), name)
    }
}

/// The required parameters of a schema, in order, each with its declared type
/// (a required name that no property declares counts as a string).
pub open spec fn schema_requirements(m: SchemaModel) -> Seq<(Seq<char>, ParamType)> {
    m.required.map_values(
        |n: Seq<char>|
            (
                n,
                match property_type(m.properties, n) {
                    Some(t) => t,
                    None => ParamType::String,
                },
            ),
    )
}

/// Whether every required parameter of a schema is a declared property.
pub open spec fn declares_required(m: SchemaModel) -> bool {
    forall|i: int| 0 <= i < m.required.len() ==> property_type(m.properties, #[trigger] m.required[i]) is Some
}

/// The refusals of registered tools that do not come from a missing
/// parameter: two descriptions of one invoice, or an unreadable page token.
pub open spec fn other_refusal(kind: ToolKind, args: ToolArgs) -> Option<Seq<char>> {
    match kind {
        ToolKind::Bolt11Receive | ToolKind::Bolt11ReceiveViaJitChannel
        | ToolKind::Bolt11ReceiveVariableAmountViaJitChannel => description_refusal(args),
        ToolKind::ListPayments | ToolKind::ListForwardedPayments => page_token_refusal(args),
        _ => None,
    }
}

/// The type of a property that is declared at position `j` and at no
/// position before it.
proof fn lemma_property_type_at(
    properties: Seq<(Seq<char>, ParamType, Seq<char>)>,
    j: int,
    name: Seq<char>,
)
    requires
        0 <= j < properties.len(),
        properties[j].0 == name,
        forall|i: int| 0 <= i < j ==> properties[i].0 != name,
    ensures
        property_type(properties, name) == Some(properties[j].1),
    decreases j,
{
    if j > 0 {
        lemma_property_type_at(properties.drop_first(), j - 1, name);
    }
}

proof fn lemma_requirements_onchain_send()
    ensures
        schema_requirements(schema_model(ToolKind::OnchainSend)) == seq![("address"@, ParamType::String)],
        declares_required(schema_model(ToolKind::OnchainSend)),
{
    reveal_strlit("address");
    let m = schema_model(ToolKind::OnchainSend);
    assert(m.properties[0].0 == "address"@);
    lemma_property_type_at(m.properties, 0, "address"@);
    assert(schema_requirements(m) =~= seq![("address"@, ParamType::String)]);
}

proof fn lemma_requirements_bolt11_receive_via_jit_channel()
    ensures
        schema_requirements(schema_model(ToolKind::Bolt11ReceiveViaJitChannel)) == seq![("amount_msat"@, ParamType::Integer)],
        declares_required(schema_model(ToolKind::Bolt11ReceiveViaJitChannel)),
{
    reveal_strlit("amount_msat");
    let m = schema_model(ToolKind::Bolt11ReceiveViaJitChannel);
    assert(m.properties[0].0 == "amount_msat"@);
    lemma_property_type_at(m.properties, 0, "amount_msat"@);
    assert(schema_requirements(m) =~= seq![("amount_msat"@, ParamType::Integer)]);
}

proof fn lemma_requirements_bolt11_send()
    ensures
        schema_requirements(schema_model(ToolKind::Bolt11Send)) == seq![("invoice"@, ParamType::String)],
        declares_required(schema_model(ToolKind::Bolt11Send)),
{
    reveal_strlit("invoice");
    let m = schema_model(ToolKind::Bolt11Send);
    assert(m.properties[0].0 == "invoice"@);
    lemma_property_type_at(m.properties, 0, "invoice"@);
    assert(schema_requirements(m) =~= seq![("invoice"@, ParamType::String)]);
}

proof fn lemma_requirements_bolt12_receive()
    ensures
        schema_requirements(schema_model(ToolKind::Bolt12Receive)) == seq![("description"@, ParamType::String)],
        declares_required(schema_model(ToolKind::Bolt12Receive)),
{
    reveal_strlit("description");
    let m = schema_model(ToolKind::Bolt12Receive);
    assert(m.properties[0].0 == "description"@);
    lemma_property_type_at(m.properties, 0, "description"@);
    assert(schema_requirements(m) =~= seq![("description"@, ParamType::String)]);
}

proof fn lemma_requirements_bolt12_send()
    ensures
        schema_requirements(schema_model(ToolKind::Bolt12Send)) == seq![("offer"@, ParamType::String)],
        declares_required(schema_model(ToolKind::Bolt12Send)),
{
    reveal_strlit("offer");
    let m = schema_model(ToolKind::Bolt12Send);
    assert(m.properties[0].0 == "offer"@);
    lemma_property_type_at(m.properties, 0, "offer"@);
    assert(schema_requirements(m) =~= seq![("offer"@, ParamType::String)]);
}

proof fn lemma_requirements_spontaneous_send()
    ensures
        schema_requirements(schema_model(ToolKind::SpontaneousSend)) == seq![("amount_msat"@, ParamType::Integer), ("node_id"@, ParamType::String)],
        declares_required(schema_model(ToolKind::SpontaneousSend)),
{
    reveal_strlit("amount_msat");
    reveal_strlit("node_id");
    let m = schema_model(ToolKind::SpontaneousSend);
    assert(m.properties[0].0 == "amount_msat"@);
    assert(m.properties[1].0 == "node_id"@);
    lemma_property_type_at(m.properties, 0, "amount_msat"@);
    lemma_property_type_at(m.properties, 1, "node_id"@);
    assert(schema_requirements(m) =~= seq![("amount_msat"@, ParamType::Integer), ("node_id"@, ParamType::String)]);
}

proof fn lemma_requirements_open_channel()
    ensures
        schema_requirements(schema_model(ToolKind::OpenChannel)) == seq![("node_pubkey"@, ParamType::String), ("address"@, ParamType::String), ("channel_amount_sats"@, ParamType::Integer)],
        declares_required(schema_model(ToolKind::OpenChannel)),
{
    reveal_strlit("node_pubkey");
    reveal_strlit("address");
    reveal_strlit("channel_amount_sats");
    let m = schema_model(ToolKind::OpenChannel);
    assert(m.properties[0].0 == "node_pubkey"@);
    assert(m.properties[1].0 == "address"@);
    assert(m.properties[2].0 == "channel_amount_sats"@);
    lemma_property_type_at(m.properties, 0, "node_pubkey"@);
    lemma_property_type_at(m.properties, 1, "address"@);
    lemma_property_type_at(m.properties, 2, "channel_amount_sats"@);
    assert(schema_requirements(m) =~= seq![("node_pubkey"@, ParamType::String), ("address"@, ParamType::String), ("channel_amount_sats"@, ParamType::Integer)]);
}

proof fn lemma_requirements_splice_in()
    ensures
        schema_requirements(schema_model(ToolKind::SpliceIn)) == seq![("user_channel_id"@, ParamType::String), ("counterparty_node_id"@, ParamType::String), ("splice_amount_sats"@, ParamType::Integer)],
        declares_required(schema_model(ToolKind::SpliceIn)),
{
    reveal_strlit("user_channel_id");
    reveal_strlit("counterparty_node_id");
    reveal_strlit("splice_amount_sats");
    let m = schema_model(ToolKind::SpliceIn);
    assert(m.properties[0].0 == "user_channel_id"@);
    assert(m.properties[1].0 == "counterparty_node_id"@);
    assert(m.properties[2].0 == "splice_amount_sats"@);
    lemma_property_type_at(m.properties, 0, "user_channel_id"@);
    lemma_property_type_at(m.properties, 1, "counterparty_node_id"@);
    lemma_property_type_at(m.properties, 2, "splice_amount_sats"@);
    assert(schema_requirements(m) =~= seq![("user_channel_id"@, ParamType::String), ("counterparty_node_id"@, ParamType::String), ("splice_amount_sats"@, ParamType::Integer)]);
}

proof fn lemma_requirements_splice_out()
    ensures
        schema_requirements(schema_model(ToolKind::SpliceOut)) == seq![("user_channel_id"@, ParamType::String), ("counterparty_node_id"@, ParamType::String), ("splice_amount_sats"@, ParamType::Integer)],
        declares_required(schema_model(ToolKind::SpliceOut)),
{
    reveal_strlit("user_channel_id");
    reveal_strlit("counterparty_node_id");
    reveal_strlit("splice_amount_sats");
    let m = schema_model(ToolKind::SpliceOut);
    assert(m.properties[0].0 == "user_channel_id"@);
    assert(m.properties[1].0 == "counterparty_node_id"@);
    assert(m.properties[2].0 == "splice_amount_sats"@);
    lemma_property_type_at(m.properties, 0, "user_channel_id"@);
    lemma_property_type_at(m.properties, 1, "counterparty_node_id"@);
    lemma_property_type_at(m.properties, 2, "splice_amount_sats"@);
    assert(schema_requirements(m) =~= seq![("user_channel_id"@, ParamType::String), ("counterparty_node_id"@, ParamType::String), ("splice_amount_sats"@, ParamType::Integer)]);
}

proof fn lemma_requirements_close_channel()
    ensures
        schema_requirements(schema_model(ToolKind::CloseChannel)) == seq![("user_channel_id"@, ParamType::String), ("counterparty_node_id"@, ParamType::String)],
        declares_required(schema_model(ToolKind::CloseChannel)),
{
    reveal_strlit("user_channel_id");
    reveal_strlit("counterparty_node_id");
    let m = schema_model(ToolKind::CloseChannel);
    assert(m.properties[0].0 == "user_channel_id"@);
    assert(m.properties[1].0 == "counterparty_node_id"@);
    lemma_property_type_at(m.properties, 0, "user_channel_id"@);
    lemma_property_type_at(m.properties, 1, "counterparty_node_id"@);
    assert(schema_requirements(m) =~= seq![("user_channel_id"@, ParamType::String), ("counterparty_node_id"@, ParamType::String)]);
}

proof fn lemma_requirements_force_close_channel()
    ensures
        schema_requirements(schema_model(ToolKind::ForceCloseChannel)) == seq![("user_channel_id"@, ParamType::String), ("counterparty_node_id"@, ParamType::String)],
        declares_required(schema_model(ToolKind::ForceCloseChannel)),
{
    reveal_strlit("user_channel_id");
    reveal_strlit("counterparty_node_id");
    let m = schema_model(ToolKind::ForceCloseChannel);
    assert(m.properties[0].0 == "user_channel_id"@);
    assert(m.properties[1].0 == "counterparty_node_id"@);
    lemma_property_type_at(m.properties, 0, "user_channel_id"@);
    lemma_property_type_at(m.properties, 1, "counterparty_node_id"@);
    assert(schema_requirements(m) =~= seq![("user_channel_id"@, ParamType::String), ("counterparty_node_id"@, ParamType::String)]);
}

proof fn lemma_requirements_update_channel_config()
    ensures
        schema_requirements(schema_model(ToolKind::UpdateChannelConfig)) == seq![("user_channel_id"@, ParamType::String), ("counterparty_node_id"@, ParamType::String)],
        declares_required(schema_model(ToolKind::UpdateChannelConfig)),
{
    reveal_strlit("user_channel_id");
    reveal_strlit("counterparty_node_id");
    let m = schema_model(ToolKind::UpdateChannelConfig);
    assert(m.properties[0].0 == "user_channel_id"@);
    assert(m.properties[1].0 == "counterparty_node_id"@);
    lemma_property_type_at(m.properties, 0, "user_channel_id"@);
    lemma_property_type_at(m.properties, 1, "counterparty_node_id"@);
    assert(schema_requirements(m) =~= seq![("user_channel_id"@, ParamType::String), ("counterparty_node_id"@, ParamType::String)]);
}

proof fn lemma_requirements_get_payment_details()
    ensures
        schema_requirements(schema_model(ToolKind::GetPaymentDetails)) == seq![("payment_id"@, ParamType::String)],
        declares_required(schema_model(ToolKind::GetPaymentDetails)),
{
    reveal_strlit("payment_id");
    let m = schema_model(ToolKind::GetPaymentDetails);
    assert(m.properties[0].0 == "payment_id"@);
    lemma_property_type_at(m.properties, 0, "payment_id"@);
    assert(schema_requirements(m) =~= seq![("payment_id"@, ParamType::String)]);
}

proof fn lemma_requirements_connect_peer()
    ensures
        schema_requirements(schema_model(ToolKind::ConnectPeer)) == seq![("node_pubkey"@, ParamType::String), ("address"@, ParamType::String)],
        declares_required(schema_model(ToolKind::ConnectPeer)),
{
    reveal_strlit("node_pubkey");
    reveal_strlit("address");
    let m = schema_model(ToolKind::ConnectPeer);
    assert(m.properties[0].0 == "node_pubkey"@);
    assert(m.properties[1].0 == "address"@);
    lemma_property_type_at(m.properties, 0, "node_pubkey"@);
    lemma_property_type_at(m.properties, 1, "address"@);
    assert(schema_requirements(m) =~= seq![("node_pubkey"@, ParamType::String), ("address"@, ParamType::String)]);
}

proof fn lemma_requirements_disconnect_peer()
    ensures
        schema_requirements(schema_model(ToolKind::DisconnectPeer)) == seq![("node_pubkey"@, ParamType::String)],
        declares_required(schema_model(ToolKind::DisconnectPeer)),
{
    reveal_strlit("node_pubkey");
    let m = schema_model(ToolKind::DisconnectPeer);
    assert(m.properties[0].0 == "node_pubkey"@);
    lemma_property_type_at(m.properties, 0, "node_pubkey"@);
    assert(schema_requirements(m) =~= seq![("node_pubkey"@, ParamType::String)]);
}

proof fn lemma_requirements_sign_message()
    ensures
        schema_requirements(schema_model(ToolKind::SignMessage)) == seq![("message"@, ParamType::String)],
        declares_required(schema_model(ToolKind::SignMessage)),
{
    reveal_strlit("message");
    let m = schema_model(ToolKind::SignMessage);
    assert(m.properties[0].0 == "message"@);
    lemma_property_type_at(m.properties, 0, "message"@);
    assert(schema_requirements(m) =~= seq![("message"@, ParamType::String)]);
}

proof fn lemma_requirements_verify_signature()
    ensures
        schema_requirements(schema_model(ToolKind::VerifySignature)) == seq![("message"@, ParamType::String), ("signature"@, ParamType::String), ("public_key"@, ParamType::String)],
        declares_required(schema_model(ToolKind::VerifySignature)),
{
    reveal_strlit("message");
    reveal_strlit("signature");
    reveal_strlit("public_key");
    let m = schema_model(ToolKind::VerifySignature);
    assert(m.properties[0].0 == "message"@);
    assert(m.properties[1].0 == "signature"@);
    assert(m.properties[2].0 == "public_key"@);
    lemma_property_type_at(m.properties, 0, "message"@);
    lemma_property_type_at(m.properties, 1, "signature"@);
    lemma_property_type_at(m.properties, 2, "public_key"@);
    assert(schema_requirements(m) =~= seq![("message"@, ParamType::String), ("signature"@, ParamType::String), ("public_key"@, ParamType::String)]);
}

proof fn lemma_requirements_graph_get_channel()
    ensures
        schema_requirements(schema_model(ToolKind::GraphGetChannel)) == seq![("short_channel_id"@, ParamType::Integer)],
        declares_required(schema_model(ToolKind::GraphGetChannel)),
{
    reveal_strlit("short_channel_id");
    let m = schema_model(ToolKind::GraphGetChannel);
    assert(m.properties[0].0 == "short_channel_id"@);
    lemma_property_type_at(m.properties, 0, "short_channel_id"@);
    assert(schema_requirements(m) =~= seq![("short_channel_id"@, ParamType::Integer)]);
}

proof fn lemma_requirements_graph_get_node()
    ensures
        schema_requirements(schema_model(ToolKind::GraphGetNode)) == seq![("node_id"@, ParamType::String)],
        declares_required(schema_model(ToolKind::GraphGetNode)),
{
    reveal_strlit("node_id");
    let m = schema_model(ToolKind::GraphGetNode);
    assert(m.properties[0].0 == "node_id"@);
    lemma_property_type_at(m.properties, 0, "node_id"@);
    assert(schema_requirements(m) =~= seq![("node_id"@, ParamType::String)]);
}

/// Every parameter that the schema of a registered tool requires is one of
/// the properties that the schema declares.
pub proof fn lemma_required_are_declared(kind: ToolKind)
    requires
        is_registered(kind),
    ensures
        declares_required(schema_model(kind)),
{
    match kind {
        ToolKind::GetNodeInfo => {},
        ToolKind::GetBalances => {},
        ToolKind::OnchainReceive => {},
        ToolKind::OnchainSend => lemma_requirements_onchain_send(),
        ToolKind::Bolt11Receive => {},
        ToolKind::Bolt11ReceiveViaJitChannel => lemma_requirements_bolt11_receive_via_jit_channel(),
        ToolKind::Bolt11ReceiveVariableAmountViaJitChannel => {},
        ToolKind::Bolt11Send => lemma_requirements_bolt11_send(),
        ToolKind::Bolt12Receive => lemma_requirements_bolt12_receive(),
        ToolKind::Bolt12Send => lemma_requirements_bolt12_send(),
        ToolKind::SpontaneousSend => lemma_requirements_spontaneous_send(),
        ToolKind::OpenChannel => lemma_requirements_open_channel(),
        ToolKind::SpliceIn => lemma_requirements_splice_in(),
        ToolKind::SpliceOut => lemma_requirements_splice_out(),
        ToolKind::CloseChannel => lemma_requirements_close_channel(),
        ToolKind::ForceCloseChannel => lemma_requirements_force_close_channel(),
        ToolKind::ListChannels => {},
        ToolKind::UpdateChannelConfig => lemma_requirements_update_channel_config(),
        ToolKind::ListPayments => {},
        ToolKind::GetPaymentDetails => lemma_requirements_get_payment_details(),
        ToolKind::ListForwardedPayments => {},
        ToolKind::ConnectPeer => lemma_requirements_connect_peer(),
        ToolKind::DisconnectPeer => lemma_requirements_disconnect_peer(),
        ToolKind::SignMessage => lemma_requirements_sign_message(),
        ToolKind::VerifySignature => lemma_requirements_verify_signature(),
        ToolKind::ExportPathfindingScores => {},
        ToolKind::GraphListChannels => {},
        ToolKind::GraphGetChannel => lemma_requirements_graph_get_channel(),
        ToolKind::GraphListNodes => {},
        ToolKind::GraphGetNode => lemma_requirements_graph_get_node(),
        _ => {},
    }
}

/// For every tool of the registry, a call is refused for a missing parameter
/// exactly when the tool's published schema marks as required a parameter
/// that the call does not supply with its declared type, and the refusal
/// names the first such parameter in schema order. A call that supplies every
/// required parameter is refused only for giving both an invoice description
/// and its hash, or for an unreadable page token.
pub proof fn lemma_refusal_follows_schema(kind: ToolKind, args: ToolArgs)
    requires
        is_registered(kind),
    ensures
        tool_refusal(kind, args) == either(
            missing_refusal(args, schema_requirements(schema_model(kind))),
            other_refusal(kind, args),
        ),
{
    assert(first_missing(args, Seq::<(Seq<char>, ParamType)>::empty()) is None);
    match kind {
        ToolKind::GetNodeInfo => {
            assert(schema_requirements(schema_model(kind)) =~= Seq::<(Seq<char>, ParamType)>::empty());
        },
        ToolKind::GetBalances => {
            assert(schema_requirements(schema_model(kind)) =~= Seq::<(Seq<char>, ParamType)>::empty());
        },
        ToolKind::OnchainReceive => {
            assert(schema_requirements(schema_model(kind)) =~= Seq::<(Seq<char>, ParamType)>::empty());
        },
        ToolKind::OnchainSend => lemma_requirements_onchain_send(),
        ToolKind::Bolt11Receive => {
            assert(schema_requirements(schema_model(kind)) =~= Seq::<(Seq<char>, ParamType)>::empty());
        },
        ToolKind::Bolt11ReceiveViaJitChannel => lemma_requirements_bolt11_receive_via_jit_channel(),
        ToolKind::Bolt11ReceiveVariableAmountViaJitChannel => {
            assert(schema_requirements(schema_model(kind)) =~= Seq::<(Seq<char>, ParamType)>::empty());
        },
        ToolKind::Bolt11Send => lemma_requirements_bolt11_send(),
        ToolKind::Bolt12Receive => lemma_requirements_bolt12_receive(),
        ToolKind::Bolt12Send => lemma_requirements_bolt12_send(),
        ToolKind::SpontaneousSend => lemma_requirements_spontaneous_send(),
        ToolKind::OpenChannel => lemma_requirements_open_channel(),
        ToolKind::SpliceIn => lemma_requirements_splice_in(),
        ToolKind::SpliceOut => lemma_requirements_splice_out(),
        ToolKind::CloseChannel => lemma_requirements_close_channel(),
        ToolKind::ForceCloseChannel => lemma_requirements_force_close_channel(),
        ToolKind::ListChannels => {
            assert(schema_requirements(schema_model(kind)) =~= Seq::<(Seq<char>, ParamType)>::empty());
        },
        ToolKind::UpdateChannelConfig => lemma_requirements_update_channel_config(),
        ToolKind::ListPayments => {
            assert(schema_requirements(schema_model(kind)) =~= Seq::<(Seq<char>, ParamType)>::empty());
        },
        ToolKind::GetPaymentDetails => lemma_requirements_get_payment_details(),
        ToolKind::ListForwardedPayments => {
            assert(schema_requirements(schema_model(kind)) =~= Seq::<(Seq<char>, ParamType)>::empty());
        },
        ToolKind::ConnectPeer => lemma_requirements_connect_peer(),
        ToolKind::DisconnectPeer => lemma_requirements_disconnect_peer(),
        ToolKind::SignMessage => lemma_requirements_sign_message(),
        ToolKind::VerifySignature => lemma_requirements_verify_signature(),
        ToolKind::ExportPathfindingScores => {
            assert(schema_requirements(schema_model(kind)) =~= Seq::<(Seq<char>, ParamType)>::empty());
        },
        ToolKind::GraphListChannels => {
            assert(schema_requirements(schema_model(kind)) =~= Seq::<(Seq<char>, ParamType)>::empty());
        },
        ToolKind::GraphGetChannel => lemma_requirements_graph_get_channel(),
        ToolKind::GraphListNodes => {
            assert(schema_requirements(schema_model(kind)) =~= Seq::<(Seq<char>, ParamType)>::empty());
        },
        ToolKind::GraphGetNode => lemma_requirements_graph_get_node(),
        _ => {},
    }
}


/// The length and the first and sixth characters of a name, which tell the
/// names of all tools apart.
pub open spec fn name_key(s: Seq<char>) -> (int, char, char) {
    (s.len() as int, s[0], s[5])
}

/// No two tools share a name.
pub proof fn lemma_tool_name_injective()
    ensures
        forall|a: ToolKind, b: ToolKind| tool_name(a) == tool_name(b) ==> a == b,
{
    reveal_strlit("get_node_info");
    reveal_strlit("get_balances");
    reveal_strlit("onchain_receive");
    reveal_strlit("onchain_send");
    reveal_strlit("bolt11_receive");
    reveal_strlit("bolt11_receive_for_hash");
    reveal_strlit("bolt11_claim_for_hash");
    reveal_strlit("bolt11_fail_for_hash");
    reveal_strlit("bolt11_receive_via_jit_channel");
    reveal_strlit("bolt11_receive_variable_amount_via_jit_channel");
    reveal_strlit("bolt11_send");
    reveal_strlit("bolt12_receive");
    reveal_strlit("bolt12_send");
    reveal_strlit("spontaneous_send");
    reveal_strlit("unified_send");
    reveal_strlit("open_channel");
    reveal_strlit("splice_in");
    reveal_strlit("splice_out");
    reveal_strlit("close_channel");
    reveal_strlit("force_close_channel");
    reveal_strlit("list_channels");
    reveal_strlit("update_channel_config");
    reveal_strlit("list_payments");
    reveal_strlit("get_payment_details");
    reveal_strlit("list_forwarded_payments");
    reveal_strlit("connect_peer");
    reveal_strlit("disconnect_peer");
    reveal_strlit("list_peers");
    reveal_strlit("decode_invoice");
    reveal_strlit("decode_offer");
    reveal_strlit("sign_message");
    reveal_strlit("verify_signature");
    reveal_strlit("export_pathfinding_scores");
    reveal_strlit("graph_list_channels");
    reveal_strlit("graph_get_channel");
    reveal_strlit("graph_list_nodes");
    reveal_strlit("graph_get_node");
    assert forall|a: ToolKind, b: ToolKind| tool_name(a) == tool_name(b) implies a == b by {
        assert(name_key(tool_name(a)) == name_key(tool_name(b)));
        match a {
            ToolKind::GetNodeInfo => {},
            ToolKind::GetBalances => {},
            ToolKind::OnchainReceive => {},
            ToolKind::OnchainSend => {},
            ToolKind::Bolt11Receive => {},
            ToolKind::Bolt11ReceiveForHash => {},
            ToolKind::Bolt11ClaimForHash => {},
            ToolKind::Bolt11FailForHash => {},
            ToolKind::Bolt11ReceiveViaJitChannel => {},
            ToolKind::Bolt11ReceiveVariableAmountViaJitChannel => {},
            ToolKind::Bolt11Send => {},
            ToolKind::Bolt12Receive => {},
            ToolKind::Bolt12Send => {},
            ToolKind::SpontaneousSend => {},
            ToolKind::UnifiedSend => {},
            ToolKind::OpenChannel => {},
            ToolKind::SpliceIn => {},
            ToolKind::SpliceOut => {},
            ToolKind::CloseChannel => {},
            ToolKind::ForceCloseChannel => {},
            ToolKind::ListChannels => {},
            ToolKind::UpdateChannelConfig => {},
            ToolKind::ListPayments => {},
            ToolKind::GetPaymentDetails => {},
            ToolKind::ListForwardedPayments => {},
            ToolKind::ConnectPeer => {},
            ToolKind::DisconnectPeer => {},
            ToolKind::ListPeers => {},
            ToolKind::DecodeInvoice => {},
            ToolKind::DecodeOffer => {},
            ToolKind::SignMessage => {},
            ToolKind::VerifySignature => {},
            ToolKind::ExportPathfindingScores => {},
            ToolKind::GraphListChannels => {},
            ToolKind::GraphGetChannel => {},
            ToolKind::GraphListNodes => {},
            ToolKind::GraphGetNode => {},
        }
    }
}

/// The registry offers exactly the tools that `is_registered` names.
pub proof fn lemma_registered_tools_listed(kind: ToolKind)
    ensures
        registered_tools().contains(kind) == is_registered(kind),
{
    let r = registered_tools();
    assert(r[0] == ToolKind::GetNodeInfo);
    assert(r[1] == ToolKind::GetBalances);
    assert(r[2] == ToolKind::OnchainReceive);
    assert(r[3] == ToolKind::OnchainSend);
    assert(r[4] == ToolKind::Bolt11Receive);
    assert(r[5] == ToolKind::Bolt11ReceiveViaJitChannel);
    assert(r[6] == ToolKind::Bolt11ReceiveVariableAmountViaJitChannel);
    assert(r[7] == ToolKind::Bolt11Send);
    assert(r[8] == ToolKind::Bolt12Receive);
    assert(r[9] == ToolKind::Bolt12Send);
    assert(r[10] == ToolKind::SpontaneousSend);
    assert(r[11] == ToolKind::OpenChannel);
    assert(r[12] == ToolKind::SpliceIn);
    assert(r[13] == ToolKind::SpliceOut);
    assert(r[14] == ToolKind::CloseChannel);
    assert(r[15] == ToolKind::ForceCloseChannel);
    assert(r[16] == ToolKind::ListChannels);
    assert(r[17] == ToolKind::UpdateChannelConfig);
    assert(r[18] == ToolKind::ListPayments);
    assert(r[19] == ToolKind::GetPaymentDetails);
    assert(r[20] == ToolKind::ListForwardedPayments);
    assert(r[21] == ToolKind::ConnectPeer);
    assert(r[22] == ToolKind::DisconnectPeer);
    assert(r[23] == ToolKind::SignMessage);
    assert(r[24] == ToolKind::VerifySignature);
    assert(r[25] == ToolKind::ExportPathfindingScores);
    assert(r[26] == ToolKind::GraphListChannels);
    assert(r[27] == ToolKind::GraphGetChannel);
    assert(r[28] == ToolKind::GraphListNodes);
    assert(r[29] == ToolKind::GraphGetNode);
    assert(forall|i: int| 0 <= i < r.len() ==> is_registered(#[trigger] r[i]));
    match kind {
        ToolKind::GetNodeInfo => assert(r[0] == kind),
        ToolKind::GetBalances => assert(r[1] == kind),
        ToolKind::OnchainReceive => assert(r[2] == kind),
        ToolKind::OnchainSend => assert(r[3] == kind),
        ToolKind::Bolt11Receive => assert(r[4] == kind),
        ToolKind::Bolt11ReceiveForHash => {},
        ToolKind::Bolt11ClaimForHash => {},
        ToolKind::Bolt11FailForHash => {},
        ToolKind::Bolt11ReceiveViaJitChannel => assert(r[5] == kind),
        ToolKind::Bolt11ReceiveVariableAmountViaJitChannel => assert(r[6] == kind),
        ToolKind::Bolt11Send => assert(r[7] == kind),
        ToolKind::Bolt12Receive => assert(r[8] == kind),
        ToolKind::Bolt12Send => assert(r[9] == kind),
        ToolKind::SpontaneousSend => assert(r[10] == kind),
        ToolKind::UnifiedSend => {},
        ToolKind::OpenChannel => assert(r[11] == kind),
        ToolKind::SpliceIn => assert(r[12] == kind),
        ToolKind::SpliceOut => assert(r[13] == kind),
        ToolKind::CloseChannel => assert(r[14] == kind),
        ToolKind::ForceCloseChannel => assert(r[15] == kind),
        ToolKind::ListChannels => assert(r[16] == kind),
        ToolKind::UpdateChannelConfig => assert(r[17] == kind),
        ToolKind::ListPayments => assert(r[18] == kind),
        ToolKind::GetPaymentDetails => assert(r[19] == kind),
        ToolKind::ListForwardedPayments => assert(r[20] == kind),
        ToolKind::ConnectPeer => assert(r[21] == kind),
        ToolKind::DisconnectPeer => assert(r[22] == kind),
        ToolKind::ListPeers => {},
        ToolKind::DecodeInvoice => {},
        ToolKind::DecodeOffer => {},
        ToolKind::SignMessage => assert(r[23] == kind),
        ToolKind::VerifySignature => assert(r[24] == kind),
        ToolKind::ExportPathfindingScores => assert(r[25] == kind),
        ToolKind::GraphListChannels => assert(r[26] == kind),
        ToolKind::GraphGetChannel => assert(r[27] == kind),
        ToolKind::GraphListNodes => assert(r[28] == kind),
        ToolKind::GraphGetNode => assert(r[29] == kind),
    }
}

/// With distinct names, the first kind named like `kind` is `kind` itself,
/// when it is among `kinds`.
proof fn lemma_find_kind_by_name(kinds: Seq<ToolKind>, kind: ToolKind)
    requires
        forall|a: ToolKind, b: ToolKind| tool_name(a) == tool_name(b) ==> a == b,
    ensures
        find_kind(kinds, tool_name(kind)) == if kinds.contains(kind) {
            Some(kind)
        } else {
            None
        },
    decreases kinds.len(),
{
    if kinds.len() > 0 {
        let rest = kinds.drop_first();
        lemma_find_kind_by_name(rest, kind);
        if kinds[0] != kind {
            assert(kinds.contains(kind) ==> rest.contains(kind)) by {
                if kinds.contains(kind) {
                    let i = choose|i: int| 0 <= i < kinds.len() && kinds[i] == kind;
                    assert(rest[i - 1] == kind);
                }
            }
            assert(rest.contains(kind) ==> kinds.contains(kind)) by {
                if rest.contains(kind) {
                    let i = choose|i: int| 0 <= i < rest.len() && rest[i] == kind;
                    assert(kinds[i + 1] == kind);
                }
            }
        } else {
            assert(kinds[0] == kind);
        }
    }
}

/// Each tool of the registry is found by its name, and the name of a tool
/// outside the registry is unknown to it.
pub proof fn lemma_tool_lookup(kind: ToolKind)
    ensures
        find_tool(tool_name(kind)) == if is_registered(kind) {
            Some(kind)
        } else {
            None
        },
{
    lemma_tool_name_injective();
    lemma_registered_tools_listed(kind);
    lemma_find_kind_by_name(registered_tools(), kind);
}

} // verus!
