//! How the published schemas fit the handlers: each property that a schema
//! declares is read by the tool as the type that the schema gives it.
use vstd::prelude::*;

use crate::json_args::ToolArgs;
use crate::tools::handlers::{
    lemma_first_missing_1, lemma_first_missing_2, lemma_first_missing_3, tool_refusal,
};
use crate::tools::requests::ClientRequest;
use crate::tools::schema::{schema_model, ParamType};
use crate::tools::{is_registered, request_matches, ToolKind};

verus! {

/// Whether two argument objects read alike at `key` as a value of type `ty`:
/// both give the same string, the same unsigned integer or the same boolean,
/// or neither gives one.
pub open spec fn reads_alike(a1: ToolArgs, a2: ToolArgs, key: Seq<char>, ty: ParamType) -> bool {
    match ty {
        ParamType::String => a1.str_arg(key) == a2.str_arg(key),
        ParamType::Integer => a1.u64_arg(key) == a2.u64_arg(key),
        ParamType::Boolean => a1.bool_arg(key) == a2.bool_arg(key),
    }
}

/// Whether two argument objects have the same members, but perhaps for `key`.
pub open spec fn agree_except(a1: ToolArgs, a2: ToolArgs, key: Seq<char>) -> bool {
    forall|k: Seq<char>| k != key ==> #[trigger] a1.arg(k) == a2.arg(k)
}

/// Arguments that agree but perhaps for `key` agree at every other member.
proof fn lemma_agree_at(a1: ToolArgs, a2: ToolArgs, key: Seq<char>, k: Seq<char>)
    requires
        agree_except(a1, a2, key),
        k != key,
    ensures
        a1.arg(k) == a2.arg(k),
{
}

/// `lemma_properties_read_as_declared` for the tool `onchain_send`.
proof fn lemma_onchain_send_reads_as_declared(i: int, a1: ToolArgs, a2: ToolArgs)
    requires
        0 <= i < schema_model(ToolKind::OnchainSend).properties.len(),
        agree_except(a1, a2, schema_model(ToolKind::OnchainSend).properties[i].0),
        reads_alike(
            a1,
            a2,
            schema_model(ToolKind::OnchainSend).properties[i].0,
            schema_model(ToolKind::OnchainSend).properties[i].1,
        ),
    ensures
        tool_refusal(ToolKind::OnchainSend, a1) == tool_refusal(ToolKind::OnchainSend, a2),
        forall|req: ClientRequest|
            request_matches(ToolKind::OnchainSend, a1, req) == request_matches(ToolKind::OnchainSend, a2, req),
{
    let props = schema_model(ToolKind::OnchainSend).properties;
    if i == 0 {
        assert(props[0].0 == "address"@);
        assert("amount_sats"@ != "address"@) by {
            reveal_strlit("amount_sats");
            reveal_strlit("address");
            assert("amount_sats"@[1] != "address"@[1]);
        }
        lemma_agree_at(a1, a2, "address"@, "amount_sats"@);
        assert("fee_rate_sat_per_vb"@ != "address"@) by {
            reveal_strlit("fee_rate_sat_per_vb");
            reveal_strlit("address");
            assert("fee_rate_sat_per_vb"@[0] != "address"@[0]);
        }
        lemma_agree_at(a1, a2, "address"@, "fee_rate_sat_per_vb"@);
        assert("send_all"@ != "address"@) by {
            reveal_strlit("send_all");
            reveal_strlit("address");
            assert("send_all"@[0] != "address"@[0]);
        }
        lemma_agree_at(a1, a2, "address"@, "send_all"@);
    } else if i == 1 {
        assert(props[1].0 == "amount_sats"@);
        assert("address"@ != "amount_sats"@) by {
            reveal_strlit("address");
            reveal_strlit("amount_sats");
            assert("address"@[1] != "amount_sats"@[1]);
        }
        lemma_agree_at(a1, a2, "amount_sats"@, "address"@);
        assert("fee_rate_sat_per_vb"@ != "amount_sats"@) by {
            reveal_strlit("fee_rate_sat_per_vb");
            reveal_strlit("amount_sats");
            assert("fee_rate_sat_per_vb"@[0] != "amount_sats"@[0]);
        }
        lemma_agree_at(a1, a2, "amount_sats"@, "fee_rate_sat_per_vb"@);
        assert("send_all"@ != "amount_sats"@) by {
            reveal_strlit("send_all");
            reveal_strlit("amount_sats");
            assert("send_all"@[0] != "amount_sats"@[0]);
        }
        lemma_agree_at(a1, a2, "amount_sats"@, "send_all"@);
    } else if i == 2 {
        assert(props[2].0 == "send_all"@);
        assert("address"@ != "send_all"@) by {
            reveal_strlit("address");
            reveal_strlit("send_all");
            assert("address"@[0] != "send_all"@[0]);
        }
        lemma_agree_at(a1, a2, "send_all"@, "address"@);
        assert("amount_sats"@ != "send_all"@) by {
            reveal_strlit("amount_sats");
            reveal_strlit("send_all");
            assert("amount_sats"@[0] != "send_all"@[0]);
        }
        lemma_agree_at(a1, a2, "send_all"@, "amount_sats"@);
        assert("fee_rate_sat_per_vb"@ != "send_all"@) by {
            reveal_strlit("fee_rate_sat_per_vb");
            reveal_strlit("send_all");
            assert("fee_rate_sat_per_vb"@[0] != "send_all"@[0]);
        }
        lemma_agree_at(a1, a2, "send_all"@, "fee_rate_sat_per_vb"@);
    } else if i == 3 {
        assert(props[3].0 == "fee_rate_sat_per_vb"@);
        assert("address"@ != "fee_rate_sat_per_vb"@) by {
            reveal_strlit("address");
            reveal_strlit("fee_rate_sat_per_vb");
            assert("address"@[0] != "fee_rate_sat_per_vb"@[0]);
        }
        lemma_agree_at(a1, a2, "fee_rate_sat_per_vb"@, "address"@);
        assert("amount_sats"@ != "fee_rate_sat_per_vb"@) by {
            reveal_strlit("amount_sats");
            reveal_strlit("fee_rate_sat_per_vb");
            assert("amount_sats"@[0] != "fee_rate_sat_per_vb"@[0]);
        }
        lemma_agree_at(a1, a2, "fee_rate_sat_per_vb"@, "amount_sats"@);
        assert("send_all"@ != "fee_rate_sat_per_vb"@) by {
            reveal_strlit("send_all");
            reveal_strlit("fee_rate_sat_per_vb");
            assert("send_all"@[0] != "fee_rate_sat_per_vb"@[0]);
        }
        lemma_agree_at(a1, a2, "fee_rate_sat_per_vb"@, "send_all"@);
    }
    lemma_first_missing_1(a1, ("address"@, ParamType::String));
    lemma_first_missing_1(a2, ("address"@, ParamType::String));
}

/// `lemma_properties_read_as_declared` for the tool `bolt11_receive`.
proof fn lemma_bolt11_receive_reads_as_declared(i: int, a1: ToolArgs, a2: ToolArgs)
    requires
        0 <= i < schema_model(ToolKind::Bolt11Receive).properties.len(),
        agree_except(a1, a2, schema_model(ToolKind::Bolt11Receive).properties[i].0),
        reads_alike(
            a1,
            a2,
            schema_model(ToolKind::Bolt11Receive).properties[i].0,
            schema_model(ToolKind::Bolt11Receive).properties[i].1,
        ),
    ensures
        tool_refusal(ToolKind::Bolt11Receive, a1) == tool_refusal(ToolKind::Bolt11Receive, a2),
        forall|req: ClientRequest|
            request_matches(ToolKind::Bolt11Receive, a1, req) == request_matches(ToolKind::Bolt11Receive, a2, req),
{
    let props = schema_model(ToolKind::Bolt11Receive).properties;
    if i == 0 {
        assert(props[0].0 == "amount_msat"@);
        assert("description"@ != "amount_msat"@) by {
            reveal_strlit("description");
            reveal_strlit("amount_msat");
            assert("description"@[0] != "amount_msat"@[0]);
        }
        lemma_agree_at(a1, a2, "amount_msat"@, "description"@);
        assert("description_hash"@ != "amount_msat"@) by {
            reveal_strlit("description_hash");
            reveal_strlit("amount_msat");
            assert("description_hash"@[0] != "amount_msat"@[0]);
        }
        lemma_agree_at(a1, a2, "amount_msat"@, "description_hash"@);
        assert("expiry_secs"@ != "amount_msat"@) by {
            reveal_strlit("expiry_secs");
            reveal_strlit("amount_msat");
            assert("expiry_secs"@[0] != "amount_msat"@[0]);
        }
        lemma_agree_at(a1, a2, "amount_msat"@, "expiry_secs"@);
    } else if i == 1 {
        assert(props[1].0 == "description"@);
        assert("amount_msat"@ != "description"@) by {
            reveal_strlit("amount_msat");
            reveal_strlit("description");
            assert("amount_msat"@[0] != "description"@[0]);
        }
        lemma_agree_at(a1, a2, "description"@, "amount_msat"@);
        assert("description_hash"@ != "description"@) by {
            reveal_strlit("description_hash");
            reveal_strlit("description");
            assert("description_hash"@.len() == 16);
            assert("description"@.len() == 11);
        }
        lemma_agree_at(a1, a2, "description"@, "description_hash"@);
        assert("expiry_secs"@ != "description"@) by {
            reveal_strlit("expiry_secs");
            reveal_strlit("description");
            assert("expiry_secs"@[0] != "description"@[0]);
        }
        lemma_agree_at(a1, a2, "description"@, "expiry_secs"@);
    } else if i == 2 {
        assert(props[2].0 == "description_hash"@);
        assert("amount_msat"@ != "description_hash"@) by {
            reveal_strlit("amount_msat");
            reveal_strlit("description_hash");
            assert("amount_msat"@[0] != "description_hash"@[0]);
        }
        lemma_agree_at(a1, a2, "description_hash"@, "amount_msat"@);
        assert("description"@ != "description_hash"@) by {
            reveal_strlit("description");
            reveal_strlit("description_hash");
            assert("description"@.len() == 11);
            assert("description_hash"@.len() == 16);
        }
        lemma_agree_at(a1, a2, "description_hash"@, "description"@);
        assert("expiry_secs"@ != "description_hash"@) by {
            reveal_strlit("expiry_secs");
            reveal_strlit("description_hash");
            assert("expiry_secs"@[0] != "description_hash"@[0]);
        }
        lemma_agree_at(a1, a2, "description_hash"@, "expiry_secs"@);
    } else if i == 3 {
        assert(props[3].0 == "expiry_secs"@);
        assert("amount_msat"@ != "expiry_secs"@) by {
            reveal_strlit("amount_msat");
            reveal_strlit("expiry_secs");
            assert("amount_msat"@[0] != "expiry_secs"@[0]);
        }
        lemma_agree_at(a1, a2, "expiry_secs"@, "amount_msat"@);
        assert("description"@ != "expiry_secs"@) by {
            reveal_strlit("description");
            reveal_strlit("expiry_secs");
            assert("description"@[0] != "expiry_secs"@[0]);
        }
        lemma_agree_at(a1, a2, "expiry_secs"@, "description"@);
        assert("description_hash"@ != "expiry_secs"@) by {
            reveal_strlit("description_hash");
            reveal_strlit("expiry_secs");
            assert("description_hash"@[0] != "expiry_secs"@[0]);
        }
        lemma_agree_at(a1, a2, "expiry_secs"@, "description_hash"@);
    }
}

/// `lemma_properties_read_as_declared` for the tool `bolt11_receive_via_jit_channel`.
proof fn lemma_bolt11_receive_via_jit_channel_reads_as_declared(i: int, a1: ToolArgs, a2: ToolArgs)
    requires
        0 <= i < schema_model(ToolKind::Bolt11ReceiveViaJitChannel).properties.len(),
        agree_except(a1, a2, schema_model(ToolKind::Bolt11ReceiveViaJitChannel).properties[i].0),
        reads_alike(
            a1,
            a2,
            schema_model(ToolKind::Bolt11ReceiveViaJitChannel).properties[i].0,
            schema_model(ToolKind::Bolt11ReceiveViaJitChannel).properties[i].1,
        ),
    ensures
        tool_refusal(ToolKind::Bolt11ReceiveViaJitChannel, a1) == tool_refusal(ToolKind::Bolt11ReceiveViaJitChannel, a2),
        forall|req: ClientRequest|
            request_matches(ToolKind::Bolt11ReceiveViaJitChannel, a1, req) == request_matches(ToolKind::Bolt11ReceiveViaJitChannel, a2, req),
{
    let props = schema_model(ToolKind::Bolt11ReceiveViaJitChannel).properties;
    if i == 0 {
        assert(props[0].0 == "amount_msat"@);
        assert("description"@ != "amount_msat"@) by {
            reveal_strlit("description");
            reveal_strlit("amount_msat");
            assert("description"@[0] != "amount_msat"@[0]);
        }
        lemma_agree_at(a1, a2, "amount_msat"@, "description"@);
        assert("description_hash"@ != "amount_msat"@) by {
            reveal_strlit("description_hash");
            reveal_strlit("amount_msat");
            assert("description_hash"@[0] != "amount_msat"@[0]);
        }
        lemma_agree_at(a1, a2, "amount_msat"@, "description_hash"@);
        assert("expiry_secs"@ != "amount_msat"@) by {
            reveal_strlit("expiry_secs");
            reveal_strlit("amount_msat");
            assert("expiry_secs"@[0] != "amount_msat"@[0]);
        }
        lemma_agree_at(a1, a2, "amount_msat"@, "expiry_secs"@);
        assert("max_total_lsp_fee_limit_msat"@ != "amount_msat"@) by {
            reveal_strlit("max_total_lsp_fee_limit_msat");
            reveal_strlit("amount_msat");
            assert("max_total_lsp_fee_limit_msat"@[0] != "amount_msat"@[0]);
        }
        lemma_agree_at(a1, a2, "amount_msat"@, "max_total_lsp_fee_limit_msat"@);
    } else if i == 1 {
        assert(props[1].0 == "description"@);
        assert("amount_msat"@ != "description"@) by {
            reveal_strlit("amount_msat");
            reveal_strlit("description");
            assert("amount_msat"@[0] != "description"@[0]);
        }
        lemma_agree_at(a1, a2, "description"@, "amount_msat"@);
        assert("description_hash"@ != "description"@) by {
            reveal_strlit("description_hash");
            reveal_strlit("description");
            assert("description_hash"@.len() == 16);
            assert("description"@.len() == 11);
        }
        lemma_agree_at(a1, a2, "description"@, "description_hash"@);
        assert("expiry_secs"@ != "description"@) by {
            reveal_strlit("expiry_secs");
            reveal_strlit("description");
            assert("expiry_secs"@[0] != "description"@[0]);
        }
        lemma_agree_at(a1, a2, "description"@, "expiry_secs"@);
        assert("max_total_lsp_fee_limit_msat"@ != "description"@) by {
            reveal_strlit("max_total_lsp_fee_limit_msat");
            reveal_strlit("description");
            assert("max_total_lsp_fee_limit_msat"@[0] != "description"@[0]);
        }
        lemma_agree_at(a1, a2, "description"@, "max_total_lsp_fee_limit_msat"@);
    } else if i == 2 {
        assert(props[2].0 == "description_hash"@);
        assert("amount_msat"@ != "description_hash"@) by {
            reveal_strlit("amount_msat");
            reveal_strlit("description_hash");
            assert("amount_msat"@[0] != "description_hash"@[0]);
        }
        lemma_agree_at(a1, a2, "description_hash"@, "amount_msat"@);
        assert("description"@ != "description_hash"@) by {
            reveal_strlit("description");
            reveal_strlit("description_hash");
            assert("description"@.len() == 11);
            assert("description_hash"@.len() == 16);
        }
        lemma_agree_at(a1, a2, "description_hash"@, "description"@);
        assert("expiry_secs"@ != "description_hash"@) by {
            reveal_strlit("expiry_secs");
            reveal_strlit("description_hash");
            assert("expiry_secs"@[0] != "description_hash"@[0]);
        }
        lemma_agree_at(a1, a2, "description_hash"@, "expiry_secs"@);
        assert("max_total_lsp_fee_limit_msat"@ != "description_hash"@) by {
            reveal_strlit("max_total_lsp_fee_limit_msat");
            reveal_strlit("description_hash");
            assert("max_total_lsp_fee_limit_msat"@[0] != "description_hash"@[0]);
        }
        lemma_agree_at(a1, a2, "description_hash"@, "max_total_lsp_fee_limit_msat"@);
    } else if i == 3 {
        assert(props[3].0 == "expiry_secs"@);
        assert("amount_msat"@ != "expiry_secs"@) by {
            reveal_strlit("amount_msat");
            reveal_strlit("expiry_secs");
            assert("amount_msat"@[0] != "expiry_secs"@[0]);
        }
        lemma_agree_at(a1, a2, "expiry_secs"@, "amount_msat"@);
        assert("description"@ != "expiry_secs"@) by {
            reveal_strlit("description");
            reveal_strlit("expiry_secs");
            assert("description"@[0] != "expiry_secs"@[0]);
        }
        lemma_agree_at(a1, a2, "expiry_secs"@, "description"@);
        assert("description_hash"@ != "expiry_secs"@) by {
            reveal_strlit("description_hash");
            reveal_strlit("expiry_secs");
            assert("description_hash"@[0] != "expiry_secs"@[0]);
        }
        lemma_agree_at(a1, a2, "expiry_secs"@, "description_hash"@);
        assert("max_total_lsp_fee_limit_msat"@ != "expiry_secs"@) by {
            reveal_strlit("max_total_lsp_fee_limit_msat");
            reveal_strlit("expiry_secs");
            assert("max_total_lsp_fee_limit_msat"@[0] != "expiry_secs"@[0]);
        }
        lemma_agree_at(a1, a2, "expiry_secs"@, "max_total_lsp_fee_limit_msat"@);
    } else if i == 4 {
        assert(props[4].0 == "max_total_lsp_fee_limit_msat"@);
        assert("amount_msat"@ != "max_total_lsp_fee_limit_msat"@) by {
            reveal_strlit("amount_msat");
            reveal_strlit("max_total_lsp_fee_limit_msat");
            assert("amount_msat"@[0] != "max_total_lsp_fee_limit_msat"@[0]);
        }
        lemma_agree_at(a1, a2, "max_total_lsp_fee_limit_msat"@, "amount_msat"@);
        assert("description"@ != "max_total_lsp_fee_limit_msat"@) by {
            reveal_strlit("description");
            reveal_strlit("max_total_lsp_fee_limit_msat");
            assert("description"@[0] != "max_total_lsp_fee_limit_msat"@[0]);
        }
        lemma_agree_at(a1, a2, "max_total_lsp_fee_limit_msat"@, "description"@);
        assert("description_hash"@ != "max_total_lsp_fee_limit_msat"@) by {
            reveal_strlit("description_hash");
            reveal_strlit("max_total_lsp_fee_limit_msat");
            assert("description_hash"@[0] != "max_total_lsp_fee_limit_msat"@[0]);
        }
        lemma_agree_at(a1, a2, "max_total_lsp_fee_limit_msat"@, "description_hash"@);
        assert("expiry_secs"@ != "max_total_lsp_fee_limit_msat"@) by {
            reveal_strlit("expiry_secs");
            reveal_strlit("max_total_lsp_fee_limit_msat");
            assert("expiry_secs"@[0] != "max_total_lsp_fee_limit_msat"@[0]);
        }
        lemma_agree_at(a1, a2, "max_total_lsp_fee_limit_msat"@, "expiry_secs"@);
    }
    lemma_first_missing_1(a1, ("amount_msat"@, ParamType::Integer));
    lemma_first_missing_1(a2, ("amount_msat"@, ParamType::Integer));
}

/// `lemma_properties_read_as_declared` for the tool `bolt11_receive_variable_amount_via_jit_channel`.
proof fn lemma_bolt11_receive_variable_amount_via_jit_channel_reads_as_declared(i: int, a1: ToolArgs, a2: ToolArgs)
    requires
        0 <= i < schema_model(ToolKind::Bolt11ReceiveVariableAmountViaJitChannel).properties.len(),
        agree_except(a1, a2, schema_model(ToolKind::Bolt11ReceiveVariableAmountViaJitChannel).properties[i].0),
        reads_alike(
            a1,
            a2,
            schema_model(ToolKind::Bolt11ReceiveVariableAmountViaJitChannel).properties[i].0,
            schema_model(ToolKind::Bolt11ReceiveVariableAmountViaJitChannel).properties[i].1,
        ),
    ensures
        tool_refusal(ToolKind::Bolt11ReceiveVariableAmountViaJitChannel, a1) == tool_refusal(ToolKind::Bolt11ReceiveVariableAmountViaJitChannel, a2),
        forall|req: ClientRequest|
            request_matches(ToolKind::Bolt11ReceiveVariableAmountViaJitChannel, a1, req) == request_matches(ToolKind::Bolt11ReceiveVariableAmountViaJitChannel, a2, req),
{
    let props = schema_model(ToolKind::Bolt11ReceiveVariableAmountViaJitChannel).properties;
    if i == 0 {
        assert(props[0].0 == "description"@);
        assert("description_hash"@ != "description"@) by {
            reveal_strlit("description_hash");
            reveal_strlit("description");
            assert("description_hash"@.len() == 16);
            assert("description"@.len() == 11);
        }
        lemma_agree_at(a1, a2, "description"@, "description_hash"@);
        assert("expiry_secs"@ != "description"@) by {
            reveal_strlit("expiry_secs");
            reveal_strlit("description");
            assert("expiry_secs"@[0] != "description"@[0]);
        }
        lemma_agree_at(a1, a2, "description"@, "expiry_secs"@);
        assert("max_proportional_lsp_fee_limit_ppm_msat"@ != "description"@) by {
            reveal_strlit("max_proportional_lsp_fee_limit_ppm_msat");
            reveal_strlit("description");
            assert("max_proportional_lsp_fee_limit_ppm_msat"@[0] != "description"@[0]);
        }
        lemma_agree_at(a1, a2, "description"@, "max_proportional_lsp_fee_limit_ppm_msat"@);
    } else if i == 1 {
        assert(props[1].0 == "description_hash"@);
        assert("description"@ != "description_hash"@) by {
            reveal_strlit("description");
            reveal_strlit("description_hash");
            assert("description"@.len() == 11);
            assert("description_hash"@.len() == 16);
        }
        lemma_agree_at(a1, a2, "description_hash"@, "description"@);
        assert("expiry_secs"@ != "description_hash"@) by {
            reveal_strlit("expiry_secs");
            reveal_strlit("description_hash");
            assert("expiry_secs"@[0] != "description_hash"@[0]);
        }
        lemma_agree_at(a1, a2, "description_hash"@, "expiry_secs"@);
        assert("max_proportional_lsp_fee_limit_ppm_msat"@ != "description_hash"@) by {
            reveal_strlit("max_proportional_lsp_fee_limit_ppm_msat");
            reveal_strlit("description_hash");
            assert("max_proportional_lsp_fee_limit_ppm_msat"@[0] != "description_hash"@[0]);
        }
        lemma_agree_at(a1, a2, "description_hash"@, "max_proportional_lsp_fee_limit_ppm_msat"@);
    } else if i == 2 {
        assert(props[2].0 == "expiry_secs"@);
        assert("description"@ != "expiry_secs"@) by {
            reveal_strlit("description");
            reveal_strlit("expiry_secs");
            assert("description"@[0] != "expiry_secs"@[0]);
        }
        lemma_agree_at(a1, a2, "expiry_secs"@, "description"@);
        assert("description_hash"@ != "expiry_secs"@) by {
            reveal_strlit("description_hash");
            reveal_strlit("expiry_secs");
            assert("description_hash"@[0] != "expiry_secs"@[0]);
        }
        lemma_agree_at(a1, a2, "expiry_secs"@, "description_hash"@);
        assert("max_proportional_lsp_fee_limit_ppm_msat"@ != "expiry_secs"@) by {
            reveal_strlit("max_proportional_lsp_fee_limit_ppm_msat");
            reveal_strlit("expiry_secs");
            assert("max_proportional_lsp_fee_limit_ppm_msat"@[0] != "expiry_secs"@[0]);
        }
        lemma_agree_at(a1, a2, "expiry_secs"@, "max_proportional_lsp_fee_limit_ppm_msat"@);
    } else if i == 3 {
        assert(props[3].0 == "max_proportional_lsp_fee_limit_ppm_msat"@);
        assert("description"@ != "max_proportional_lsp_fee_limit_ppm_msat"@) by {
            reveal_strlit("description");
            reveal_strlit("max_proportional_lsp_fee_limit_ppm_msat");
            assert("description"@[0] != "max_proportional_lsp_fee_limit_ppm_msat"@[0]);
        }
        lemma_agree_at(a1, a2, "max_proportional_lsp_fee_limit_ppm_msat"@, "description"@);
        assert("description_hash"@ != "max_proportional_lsp_fee_limit_ppm_msat"@) by {
            reveal_strlit("description_hash");
            reveal_strlit("max_proportional_lsp_fee_limit_ppm_msat");
            assert("description_hash"@[0] != "max_proportional_lsp_fee_limit_ppm_msat"@[0]);
        }
        lemma_agree_at(a1, a2, "max_proportional_lsp_fee_limit_ppm_msat"@, "description_hash"@);
        assert("expiry_secs"@ != "max_proportional_lsp_fee_limit_ppm_msat"@) by {
            reveal_strlit("expiry_secs");
            reveal_strlit("max_proportional_lsp_fee_limit_ppm_msat");
            assert("expiry_secs"@[0] != "max_proportional_lsp_fee_limit_ppm_msat"@[0]);
        }
        lemma_agree_at(a1, a2, "max_proportional_lsp_fee_limit_ppm_msat"@, "expiry_secs"@);
    }
}

/// `lemma_properties_read_as_declared` for the tool `bolt11_send`.
proof fn lemma_bolt11_send_reads_as_declared(i: int, a1: ToolArgs, a2: ToolArgs)
    requires
        0 <= i < schema_model(ToolKind::Bolt11Send).properties.len(),
        agree_except(a1, a2, schema_model(ToolKind::Bolt11Send).properties[i].0),
        reads_alike(
            a1,
            a2,
            schema_model(ToolKind::Bolt11Send).properties[i].0,
            schema_model(ToolKind::Bolt11Send).properties[i].1,
        ),
    ensures
        tool_refusal(ToolKind::Bolt11Send, a1) == tool_refusal(ToolKind::Bolt11Send, a2),
        forall|req: ClientRequest|
            request_matches(ToolKind::Bolt11Send, a1, req) == request_matches(ToolKind::Bolt11Send, a2, req),
{
    let props = schema_model(ToolKind::Bolt11Send).properties;
    if i == 0 {
        assert(props[0].0 == "invoice"@);
        assert("amount_msat"@ != "invoice"@) by {
            reveal_strlit("amount_msat");
            reveal_strlit("invoice");
            assert("amount_msat"@[0] != "invoice"@[0]);
        }
        lemma_agree_at(a1, a2, "invoice"@, "amount_msat"@);
        assert("max_channel_saturation_power_of_half"@ != "invoice"@) by {
            reveal_strlit("max_channel_saturation_power_of_half");
            reveal_strlit("invoice");
            assert("max_channel_saturation_power_of_half"@[0] != "invoice"@[0]);
        }
        lemma_agree_at(a1, a2, "invoice"@, "max_channel_saturation_power_of_half"@);
        assert("max_path_count"@ != "invoice"@) by {
            reveal_strlit("max_path_count");
            reveal_strlit("invoice");
            assert("max_path_count"@[0] != "invoice"@[0]);
        }
        lemma_agree_at(a1, a2, "invoice"@, "max_path_count"@);
        assert("max_total_cltv_expiry_delta"@ != "invoice"@) by {
            reveal_strlit("max_total_cltv_expiry_delta");
            reveal_strlit("invoice");
            assert("max_total_cltv_expiry_delta"@[0] != "invoice"@[0]);
        }
        lemma_agree_at(a1, a2, "invoice"@, "max_total_cltv_expiry_delta"@);
        assert("max_total_routing_fee_msat"@ != "invoice"@) by {
            reveal_strlit("max_total_routing_fee_msat");
            reveal_strlit("invoice");
            assert("max_total_routing_fee_msat"@[0] != "invoice"@[0]);
        }
        lemma_agree_at(a1, a2, "invoice"@, "max_total_routing_fee_msat"@);
    } else if i == 1 {
        assert(props[1].0 == "amount_msat"@);
        assert("invoice"@ != "amount_msat"@) by {
            reveal_strlit("invoice");
            reveal_strlit("amount_msat");
            assert("invoice"@[0] != "amount_msat"@[0]);
        }
        lemma_agree_at(a1, a2, "amount_msat"@, "invoice"@);
        assert("max_channel_saturation_power_of_half"@ != "amount_msat"@) by {
            reveal_strlit("max_channel_saturation_power_of_half");
            reveal_strlit("amount_msat");
            assert("max_channel_saturation_power_of_half"@[0] != "amount_msat"@[0]);
        }
        lemma_agree_at(a1, a2, "amount_msat"@, "max_channel_saturation_power_of_half"@);
        assert("max_path_count"@ != "amount_msat"@) by {
            reveal_strlit("max_path_count");
            reveal_strlit("amount_msat");
            assert("max_path_count"@[0] != "amount_msat"@[0]);
        }
        lemma_agree_at(a1, a2, "amount_msat"@, "max_path_count"@);
        assert("max_total_cltv_expiry_delta"@ != "amount_msat"@) by {
            reveal_strlit("max_total_cltv_expiry_delta");
            reveal_strlit("amount_msat");
            assert("max_total_cltv_expiry_delta"@[0] != "amount_msat"@[0]);
        }
        lemma_agree_at(a1, a2, "amount_msat"@, "max_total_cltv_expiry_delta"@);
        assert("max_total_routing_fee_msat"@ != "amount_msat"@) by {
            reveal_strlit("max_total_routing_fee_msat");
            reveal_strlit("amount_msat");
            assert("max_total_routing_fee_msat"@[0] != "amount_msat"@[0]);
        }
        lemma_agree_at(a1, a2, "amount_msat"@, "max_total_routing_fee_msat"@);
    } else if i == 2 {
        assert(props[2].0 == "max_total_routing_fee_msat"@);
        assert("amount_msat"@ != "max_total_routing_fee_msat"@) by {
            reveal_strlit("amount_msat");
            reveal_strlit("max_total_routing_fee_msat");
            assert("amount_msat"@[0] != "max_total_routing_fee_msat"@[0]);
        }
        lemma_agree_at(a1, a2, "max_total_routing_fee_msat"@, "amount_msat"@);
        assert("invoice"@ != "max_total_routing_fee_msat"@) by {
            reveal_strlit("invoice");
            reveal_strlit("max_total_routing_fee_msat");
            assert("invoice"@[0] != "max_total_routing_fee_msat"@[0]);
        }
        lemma_agree_at(a1, a2, "max_total_routing_fee_msat"@, "invoice"@);
        assert("max_channel_saturation_power_of_half"@ != "max_total_routing_fee_msat"@) by {
            reveal_strlit("max_channel_saturation_power_of_half");
            reveal_strlit("max_total_routing_fee_msat");
            assert("max_channel_saturation_power_of_half"@[4] != "max_total_routing_fee_msat"@[4]);
        }
        lemma_agree_at(a1, a2, "max_total_routing_fee_msat"@, "max_channel_saturation_power_of_half"@);
        assert("max_path_count"@ != "max_total_routing_fee_msat"@) by {
            reveal_strlit("max_path_count");
            reveal_strlit("max_total_routing_fee_msat");
            assert("max_path_count"@[4] != "max_total_routing_fee_msat"@[4]);
        }
        lemma_agree_at(a1, a2, "max_total_routing_fee_msat"@, "max_path_count"@);
        assert("max_total_cltv_expiry_delta"@ != "max_total_routing_fee_msat"@) by {
            reveal_strlit("max_total_cltv_expiry_delta");
            reveal_strlit("max_total_routing_fee_msat");
            assert("max_total_cltv_expiry_delta"@[10] != "max_total_routing_fee_msat"@[10]);
        }
        lemma_agree_at(a1, a2, "max_total_routing_fee_msat"@, "max_total_cltv_expiry_delta"@);
    } else if i == 3 {
        assert(props[3].0 == "max_total_cltv_expiry_delta"@);
        assert("amount_msat"@ != "max_total_cltv_expiry_delta"@) by {
            reveal_strlit("amount_msat");
            reveal_strlit("max_total_cltv_expiry_delta");
            assert("amount_msat"@[0] != "max_total_cltv_expiry_delta"@[0]);
        }
        lemma_agree_at(a1, a2, "max_total_cltv_expiry_delta"@, "amount_msat"@);
        assert("invoice"@ != "max_total_cltv_expiry_delta"@) by {
            reveal_strlit("invoice");
            reveal_strlit("max_total_cltv_expiry_delta");
            assert("invoice"@[0] != "max_total_cltv_expiry_delta"@[0]);
        }
        lemma_agree_at(a1, a2, "max_total_cltv_expiry_delta"@, "invoice"@);
        assert("max_channel_saturation_power_of_half"@ != "max_total_cltv_expiry_delta"@) by {
            reveal_strlit("max_channel_saturation_power_of_half");
            reveal_strlit("max_total_cltv_expiry_delta");
            assert("max_channel_saturation_power_of_half"@[4] != "max_total_cltv_expiry_delta"@[4]);
        }
        lemma_agree_at(a1, a2, "max_total_cltv_expiry_delta"@, "max_channel_saturation_power_of_half"@);
        assert("max_path_count"@ != "max_total_cltv_expiry_delta"@) by {
            reveal_strlit("max_path_count");
            reveal_strlit("max_total_cltv_expiry_delta");
            assert("max_path_count"@[4] != "max_total_cltv_expiry_delta"@[4]);
        }
        lemma_agree_at(a1, a2, "max_total_cltv_expiry_delta"@, "max_path_count"@);
        assert("max_total_routing_fee_msat"@ != "max_total_cltv_expiry_delta"@) by {
            reveal_strlit("max_total_routing_fee_msat");
            reveal_strlit("max_total_cltv_expiry_delta");
            assert("max_total_routing_fee_msat"@[10] != "max_total_cltv_expiry_delta"@[10]);
        }
        lemma_agree_at(a1, a2, "max_total_cltv_expiry_delta"@, "max_total_routing_fee_msat"@);
    } else if i == 4 {
        assert(props[4].0 == "max_path_count"@);
        assert("amount_msat"@ != "max_path_count"@) by {
            reveal_strlit("amount_msat");
            reveal_strlit("max_path_count");
            assert("amount_msat"@[0] != "max_path_count"@[0]);
        }
        lemma_agree_at(a1, a2, "max_path_count"@, "amount_msat"@);
        assert("invoice"@ != "max_path_count"@) by {
            reveal_strlit("invoice");
            reveal_strlit("max_path_count");
            assert("invoice"@[0] != "max_path_count"@[0]);
        }
        lemma_agree_at(a1, a2, "max_path_count"@, "invoice"@);
        assert("max_channel_saturation_power_of_half"@ != "max_path_count"@) by {
            reveal_strlit("max_channel_saturation_power_of_half");
            reveal_strlit("max_path_count");
            assert("max_channel_saturation_power_of_half"@[4] != "max_path_count"@[4]);
        }
        lemma_agree_at(a1, a2, "max_path_count"@, "max_channel_saturation_power_of_half"@);
        assert("max_total_cltv_expiry_delta"@ != "max_path_count"@) by {
            reveal_strlit("max_total_cltv_expiry_delta");
            reveal_strlit("max_path_count");
            assert("max_total_cltv_expiry_delta"@[4] != "max_path_count"@[4]);
        }
        lemma_agree_at(a1, a2, "max_path_count"@, "max_total_cltv_expiry_delta"@);
        assert("max_total_routing_fee_msat"@ != "max_path_count"@) by {
            reveal_strlit("max_total_routing_fee_msat");
            reveal_strlit("max_path_count");
            assert("max_total_routing_fee_msat"@[4] != "max_path_count"@[4]);
        }
        lemma_agree_at(a1, a2, "max_path_count"@, "max_total_routing_fee_msat"@);
    } else if i == 5 {
        assert(props[5].0 == "max_channel_saturation_power_of_half"@);
        assert("amount_msat"@ != "max_channel_saturation_power_of_half"@) by {
            reveal_strlit("amount_msat");
            reveal_strlit("max_channel_saturation_power_of_half");
            assert("amount_msat"@[0] != "max_channel_saturation_power_of_half"@[0]);
        }
        lemma_agree_at(a1, a2, "max_channel_saturation_power_of_half"@, "amount_msat"@);
        assert("invoice"@ != "max_channel_saturation_power_of_half"@) by {
            reveal_strlit("invoice");
            reveal_strlit("max_channel_saturation_power_of_half");
            assert("invoice"@[0] != "max_channel_saturation_power_of_half"@[0]);
        }
        lemma_agree_at(a1, a2, "max_channel_saturation_power_of_half"@, "invoice"@);
        assert("max_path_count"@ != "max_channel_saturation_power_of_half"@) by {
            reveal_strlit("max_path_count");
            reveal_strlit("max_channel_saturation_power_of_half");
            assert("max_path_count"@[4] != "max_channel_saturation_power_of_half"@[4]);
        }
        lemma_agree_at(a1, a2, "max_channel_saturation_power_of_half"@, "max_path_count"@);
        assert("max_total_cltv_expiry_delta"@ != "max_channel_saturation_power_of_half"@) by {
            reveal_strlit("max_total_cltv_expiry_delta");
            reveal_strlit("max_channel_saturation_power_of_half");
            assert("max_total_cltv_expiry_delta"@[4] != "max_channel_saturation_power_of_half"@[4]);
        }
        lemma_agree_at(a1, a2, "max_channel_saturation_power_of_half"@, "max_total_cltv_expiry_delta"@);
        assert("max_total_routing_fee_msat"@ != "max_channel_saturation_power_of_half"@) by {
            reveal_strlit("max_total_routing_fee_msat");
            reveal_strlit("max_channel_saturation_power_of_half");
            assert("max_total_routing_fee_msat"@[4] != "max_channel_saturation_power_of_half"@[4]);
        }
        lemma_agree_at(a1, a2, "max_channel_saturation_power_of_half"@, "max_total_routing_fee_msat"@);
    }
    lemma_first_missing_1(a1, ("invoice"@, ParamType::String));
    lemma_first_missing_1(a2, ("invoice"@, ParamType::String));
}

/// `lemma_properties_read_as_declared` for the tool `bolt12_receive`.
proof fn lemma_bolt12_receive_reads_as_declared(i: int, a1: ToolArgs, a2: ToolArgs)
    requires
        0 <= i < schema_model(ToolKind::Bolt12Receive).properties.len(),
        agree_except(a1, a2, schema_model(ToolKind::Bolt12Receive).properties[i].0),
        reads_alike(
            a1,
            a2,
            schema_model(ToolKind::Bolt12Receive).properties[i].0,
            schema_model(ToolKind::Bolt12Receive).properties[i].1,
        ),
    ensures
        tool_refusal(ToolKind::Bolt12Receive, a1) == tool_refusal(ToolKind::Bolt12Receive, a2),
        forall|req: ClientRequest|
            request_matches(ToolKind::Bolt12Receive, a1, req) == request_matches(ToolKind::Bolt12Receive, a2, req),
{
    let props = schema_model(ToolKind::Bolt12Receive).properties;
    if i == 0 {
        assert(props[0].0 == "description"@);
        assert("amount_msat"@ != "description"@) by {
            reveal_strlit("amount_msat");
            reveal_strlit("description");
            assert("amount_msat"@[0] != "description"@[0]);
        }
        lemma_agree_at(a1, a2, "description"@, "amount_msat"@);
        assert("description_hash"@ != "description"@) by {
            reveal_strlit("description_hash");
            reveal_strlit("description");
            assert("description_hash"@.len() == 16);
            assert("description"@.len() == 11);
        }
        lemma_agree_at(a1, a2, "description"@, "description_hash"@);
        assert("expiry_secs"@ != "description"@) by {
            reveal_strlit("expiry_secs");
            reveal_strlit("description");
            assert("expiry_secs"@[0] != "description"@[0]);
        }
        lemma_agree_at(a1, a2, "description"@, "expiry_secs"@);
        assert("quantity"@ != "description"@) by {
            reveal_strlit("quantity");
            reveal_strlit("description");
            assert("quantity"@[0] != "description"@[0]);
        }
        lemma_agree_at(a1, a2, "description"@, "quantity"@);
    } else if i == 1 {
        assert(props[1].0 == "amount_msat"@);
        assert("description"@ != "amount_msat"@) by {
            reveal_strlit("description");
            reveal_strlit("amount_msat");
            assert("description"@[0] != "amount_msat"@[0]);
        }
        lemma_agree_at(a1, a2, "amount_msat"@, "description"@);
        assert("description_hash"@ != "amount_msat"@) by {
            reveal_strlit("description_hash");
            reveal_strlit("amount_msat");
            assert("description_hash"@[0] != "amount_msat"@[0]);
        }
        lemma_agree_at(a1, a2, "amount_msat"@, "description_hash"@);
        assert("expiry_secs"@ != "amount_msat"@) by {
            reveal_strlit("expiry_secs");
            reveal_strlit("amount_msat");
            assert("expiry_secs"@[0] != "amount_msat"@[0]);
        }
        lemma_agree_at(a1, a2, "amount_msat"@, "expiry_secs"@);
        assert("quantity"@ != "amount_msat"@) by {
            reveal_strlit("quantity");
            reveal_strlit("amount_msat");
            assert("quantity"@[0] != "amount_msat"@[0]);
        }
        lemma_agree_at(a1, a2, "amount_msat"@, "quantity"@);
    } else if i == 2 {
        assert(props[2].0 == "expiry_secs"@);
        assert("amount_msat"@ != "expiry_secs"@) by {
            reveal_strlit("amount_msat");
            reveal_strlit("expiry_secs");
            assert("amount_msat"@[0] != "expiry_secs"@[0]);
        }
        lemma_agree_at(a1, a2, "expiry_secs"@, "amount_msat"@);
        assert("description"@ != "expiry_secs"@) by {
            reveal_strlit("description");
            reveal_strlit("expiry_secs");
            assert("description"@[0] != "expiry_secs"@[0]);
        }
        lemma_agree_at(a1, a2, "expiry_secs"@, "description"@);
        assert("description_hash"@ != "expiry_secs"@) by {
            reveal_strlit("description_hash");
            reveal_strlit("expiry_secs");
            assert("description_hash"@[0] != "expiry_secs"@[0]);
        }
        lemma_agree_at(a1, a2, "expiry_secs"@, "description_hash"@);
        assert("quantity"@ != "expiry_secs"@) by {
            reveal_strlit("quantity");
            reveal_strlit("expiry_secs");
            assert("quantity"@[0] != "expiry_secs"@[0]);
        }
        lemma_agree_at(a1, a2, "expiry_secs"@, "quantity"@);
    } else if i == 3 {
        assert(props[3].0 == "quantity"@);
        assert("amount_msat"@ != "quantity"@) by {
            reveal_strlit("amount_msat");
            reveal_strlit("quantity");
            assert("amount_msat"@[0] != "quantity"@[0]);
        }
        lemma_agree_at(a1, a2, "quantity"@, "amount_msat"@);
        assert("description"@ != "quantity"@) by {
            reveal_strlit("description");
            reveal_strlit("quantity");
            assert("description"@[0] != "quantity"@[0]);
        }
        lemma_agree_at(a1, a2, "quantity"@, "description"@);
        assert("description_hash"@ != "quantity"@) by {
            reveal_strlit("description_hash");
            reveal_strlit("quantity");
            assert("description_hash"@[0] != "quantity"@[0]);
        }
        lemma_agree_at(a1, a2, "quantity"@, "description_hash"@);
        assert("expiry_secs"@ != "quantity"@) by {
            reveal_strlit("expiry_secs");
            reveal_strlit("quantity");
            assert("expiry_secs"@[0] != "quantity"@[0]);
        }
        lemma_agree_at(a1, a2, "quantity"@, "expiry_secs"@);
    }
    lemma_first_missing_1(a1, ("description"@, ParamType::String));
    lemma_first_missing_1(a2, ("description"@, ParamType::String));
}

/// `lemma_properties_read_as_declared` for the tool `bolt12_send`.
proof fn lemma_bolt12_send_reads_as_declared(i: int, a1: ToolArgs, a2: ToolArgs)
    requires
        0 <= i < schema_model(ToolKind::Bolt12Send).properties.len(),
        agree_except(a1, a2, schema_model(ToolKind::Bolt12Send).properties[i].0),
        reads_alike(
            a1,
            a2,
            schema_model(ToolKind::Bolt12Send).properties[i].0,
            schema_model(ToolKind::Bolt12Send).properties[i].1,
        ),
    ensures
        tool_refusal(ToolKind::Bolt12Send, a1) == tool_refusal(ToolKind::Bolt12Send, a2),
        forall|req: ClientRequest|
            request_matches(ToolKind::Bolt12Send, a1, req) == request_matches(ToolKind::Bolt12Send, a2, req),
{
    let props = schema_model(ToolKind::Bolt12Send).properties;
    if i == 0 {
        assert(props[0].0 == "offer"@);
        assert("amount_msat"@ != "offer"@) by {
            reveal_strlit("amount_msat");
            reveal_strlit("offer");
            assert("amount_msat"@[0] != "offer"@[0]);
        }
        lemma_agree_at(a1, a2, "offer"@, "amount_msat"@);
        assert("max_channel_saturation_power_of_half"@ != "offer"@) by {
            reveal_strlit("max_channel_saturation_power_of_half");
            reveal_strlit("offer");
            assert("max_channel_saturation_power_of_half"@[0] != "offer"@[0]);
        }
        lemma_agree_at(a1, a2, "offer"@, "max_channel_saturation_power_of_half"@);
        assert("max_path_count"@ != "offer"@) by {
            reveal_strlit("max_path_count");
            reveal_strlit("offer");
            assert("max_path_count"@[0] != "offer"@[0]);
        }
        lemma_agree_at(a1, a2, "offer"@, "max_path_count"@);
        assert("max_total_cltv_expiry_delta"@ != "offer"@) by {
            reveal_strlit("max_total_cltv_expiry_delta");
            reveal_strlit("offer");
            assert("max_total_cltv_expiry_delta"@[0] != "offer"@[0]);
        }
        lemma_agree_at(a1, a2, "offer"@, "max_total_cltv_expiry_delta"@);
        assert("max_total_routing_fee_msat"@ != "offer"@) by {
            reveal_strlit("max_total_routing_fee_msat");
            reveal_strlit("offer");
            assert("max_total_routing_fee_msat"@[0] != "offer"@[0]);
        }
        lemma_agree_at(a1, a2, "offer"@, "max_total_routing_fee_msat"@);
        assert("payer_note"@ != "offer"@) by {
            reveal_strlit("payer_note");
            reveal_strlit("offer");
            assert("payer_note"@[0] != "offer"@[0]);
        }
        lemma_agree_at(a1, a2, "offer"@, "payer_note"@);
        assert("quantity"@ != "offer"@) by {
            reveal_strlit("quantity");
            reveal_strlit("offer");
            assert("quantity"@[0] != "offer"@[0]);
        }
        lemma_agree_at(a1, a2, "offer"@, "quantity"@);
    } else if i == 1 {
        assert(props[1].0 == "amount_msat"@);
        assert("max_channel_saturation_power_of_half"@ != "amount_msat"@) by {
            reveal_strlit("max_channel_saturation_power_of_half");
            reveal_strlit("amount_msat");
            assert("max_channel_saturation_power_of_half"@[0] != "amount_msat"@[0]);
        }
        lemma_agree_at(a1, a2, "amount_msat"@, "max_channel_saturation_power_of_half"@);
        assert("max_path_count"@ != "amount_msat"@) by {
            reveal_strlit("max_path_count");
            reveal_strlit("amount_msat");
            assert("max_path_count"@[0] != "amount_msat"@[0]);
        }
        lemma_agree_at(a1, a2, "amount_msat"@, "max_path_count"@);
        assert("max_total_cltv_expiry_delta"@ != "amount_msat"@) by {
            reveal_strlit("max_total_cltv_expiry_delta");
            reveal_strlit("amount_msat");
            assert("max_total_cltv_expiry_delta"@[0] != "amount_msat"@[0]);
        }
        lemma_agree_at(a1, a2, "amount_msat"@, "max_total_cltv_expiry_delta"@);
        assert("max_total_routing_fee_msat"@ != "amount_msat"@) by {
            reveal_strlit("max_total_routing_fee_msat");
            reveal_strlit("amount_msat");
            assert("max_total_routing_fee_msat"@[0] != "amount_msat"@[0]);
        }
        lemma_agree_at(a1, a2, "amount_msat"@, "max_total_routing_fee_msat"@);
        assert("offer"@ != "amount_msat"@) by {
            reveal_strlit("offer");
            reveal_strlit("amount_msat");
            assert("offer"@[0] != "amount_msat"@[0]);
        }
        lemma_agree_at(a1, a2, "amount_msat"@, "offer"@);
        assert("payer_note"@ != "amount_msat"@) by {
            reveal_strlit("payer_note");
            reveal_strlit("amount_msat");
            assert("payer_note"@[0] != "amount_msat"@[0]);
        }
        lemma_agree_at(a1, a2, "amount_msat"@, "payer_note"@);
        assert("quantity"@ != "amount_msat"@) by {
            reveal_strlit("quantity");
            reveal_strlit("amount_msat");
            assert("quantity"@[0] != "amount_msat"@[0]);
        }
        lemma_agree_at(a1, a2, "amount_msat"@, "quantity"@);
    } else if i == 2 {
        assert(props[2].0 == "quantity"@);
        assert("amount_msat"@ != "quantity"@) by {
            reveal_strlit("amount_msat");
            reveal_strlit("quantity");
            assert("amount_msat"@[0] != "quantity"@[0]);
        }
        lemma_agree_at(a1, a2, "quantity"@, "amount_msat"@);
        assert("max_channel_saturation_power_of_half"@ != "quantity"@) by {
            reveal_strlit("max_channel_saturation_power_of_half");
            reveal_strlit("quantity");
            assert("max_channel_saturation_power_of_half"@[0] != "quantity"@[0]);
        }
        lemma_agree_at(a1, a2, "quantity"@, "max_channel_saturation_power_of_half"@);
        assert("max_path_count"@ != "quantity"@) by {
            reveal_strlit("max_path_count");
            reveal_strlit("quantity");
            assert("max_path_count"@[0] != "quantity"@[0]);
        }
        lemma_agree_at(a1, a2, "quantity"@, "max_path_count"@);
        assert("max_total_cltv_expiry_delta"@ != "quantity"@) by {
            reveal_strlit("max_total_cltv_expiry_delta");
            reveal_strlit("quantity");
            assert("max_total_cltv_expiry_delta"@[0] != "quantity"@[0]);
        }
        lemma_agree_at(a1, a2, "quantity"@, "max_total_cltv_expiry_delta"@);
        assert("max_total_routing_fee_msat"@ != "quantity"@) by {
            reveal_strlit("max_total_routing_fee_msat");
            reveal_strlit("quantity");
            assert("max_total_routing_fee_msat"@[0] != "quantity"@[0]);
        }
        lemma_agree_at(a1, a2, "quantity"@, "max_total_routing_fee_msat"@);
        assert("offer"@ != "quantity"@) by {
            reveal_strlit("offer");
            reveal_strlit("quantity");
            assert("offer"@[0] != "quantity"@[0]);
        }
        lemma_agree_at(a1, a2, "quantity"@, "offer"@);
        assert("payer_note"@ != "quantity"@) by {
            reveal_strlit("payer_note");
            reveal_strlit("quantity");
            assert("payer_note"@[0] != "quantity"@[0]);
        }
        lemma_agree_at(a1, a2, "quantity"@, "payer_note"@);
    } else if i == 3 {
        assert(props[3].0 == "payer_note"@);
        assert("amount_msat"@ != "payer_note"@) by {
            reveal_strlit("amount_msat");
            reveal_strlit("payer_note");
            assert("amount_msat"@[0] != "payer_note"@[0]);
        }
        lemma_agree_at(a1, a2, "payer_note"@, "amount_msat"@);
        assert("max_channel_saturation_power_of_half"@ != "payer_note"@) by {
            reveal_strlit("max_channel_saturation_power_of_half");
            reveal_strlit("payer_note");
            assert("max_channel_saturation_power_of_half"@[0] != "payer_note"@[0]);
        }
        lemma_agree_at(a1, a2, "payer_note"@, "max_channel_saturation_power_of_half"@);
        assert("max_path_count"@ != "payer_note"@) by {
            reveal_strlit("max_path_count");
            reveal_strlit("payer_note");
            assert("max_path_count"@[0] != "payer_note"@[0]);
        }
        lemma_agree_at(a1, a2, "payer_note"@, "max_path_count"@);
        assert("max_total_cltv_expiry_delta"@ != "payer_note"@) by {
            reveal_strlit("max_total_cltv_expiry_delta");
            reveal_strlit("payer_note");
            assert("max_total_cltv_expiry_delta"@[0] != "payer_note"@[0]);
        }
        lemma_agree_at(a1, a2, "payer_note"@, "max_total_cltv_expiry_delta"@);
        assert("max_total_routing_fee_msat"@ != "payer_note"@) by {
            reveal_strlit("max_total_routing_fee_msat");
            reveal_strlit("payer_note");
            assert("max_total_routing_fee_msat"@[0] != "payer_note"@[0]);
        }
        lemma_agree_at(a1, a2, "payer_note"@, "max_total_routing_fee_msat"@);
        assert("offer"@ != "payer_note"@) by {
            reveal_strlit("offer");
            reveal_strlit("payer_note");
            assert("offer"@[0] != "payer_note"@[0]);
        }
        lemma_agree_at(a1, a2, "payer_note"@, "offer"@);
        assert("quantity"@ != "payer_note"@) by {
            reveal_strlit("quantity");
            reveal_strlit("payer_note");
            assert("quantity"@[0] != "payer_note"@[0]);
        }
        lemma_agree_at(a1, a2, "payer_note"@, "quantity"@);
    } else if i == 4 {
        assert(props[4].0 == "max_total_routing_fee_msat"@);
        assert("amount_msat"@ != "max_total_routing_fee_msat"@) by {
            reveal_strlit("amount_msat");
            reveal_strlit("max_total_routing_fee_msat");
            assert("amount_msat"@[0] != "max_total_routing_fee_msat"@[0]);
        }
        lemma_agree_at(a1, a2, "max_total_routing_fee_msat"@, "amount_msat"@);
        assert("max_channel_saturation_power_of_half"@ != "max_total_routing_fee_msat"@) by {
            reveal_strlit("max_channel_saturation_power_of_half");
            reveal_strlit("max_total_routing_fee_msat");
            assert("max_channel_saturation_power_of_half"@[4] != "max_total_routing_fee_msat"@[4]);
        }
        lemma_agree_at(a1, a2, "max_total_routing_fee_msat"@, "max_channel_saturation_power_of_half"@);
        assert("max_path_count"@ != "max_total_routing_fee_msat"@) by {
            reveal_strlit("max_path_count");
            reveal_strlit("max_total_routing_fee_msat");
            assert("max_path_count"@[4] != "max_total_routing_fee_msat"@[4]);
        }
        lemma_agree_at(a1, a2, "max_total_routing_fee_msat"@, "max_path_count"@);
        assert("max_total_cltv_expiry_delta"@ != "max_total_routing_fee_msat"@) by {
            reveal_strlit("max_total_cltv_expiry_delta");
            reveal_strlit("max_total_routing_fee_msat");
            assert("max_total_cltv_expiry_delta"@[10] != "max_total_routing_fee_msat"@[10]);
        }
        lemma_agree_at(a1, a2, "max_total_routing_fee_msat"@, "max_total_cltv_expiry_delta"@);
        assert("offer"@ != "max_total_routing_fee_msat"@) by {
            reveal_strlit("offer");
            reveal_strlit("max_total_routing_fee_msat");
            assert("offer"@[0] != "max_total_routing_fee_msat"@[0]);
        }
        lemma_agree_at(a1, a2, "max_total_routing_fee_msat"@, "offer"@);
        assert("payer_note"@ != "max_total_routing_fee_msat"@) by {
            reveal_strlit("payer_note");
            reveal_strlit("max_total_routing_fee_msat");
            assert("payer_note"@[0] != "max_total_routing_fee_msat"@[0]);
        }
        lemma_agree_at(a1, a2, "max_total_routing_fee_msat"@, "payer_note"@);
        assert("quantity"@ != "max_total_routing_fee_msat"@) by {
            reveal_strlit("quantity");
            reveal_strlit("max_total_routing_fee_msat");
            assert("quantity"@[0] != "max_total_routing_fee_msat"@[0]);
        }
        lemma_agree_at(a1, a2, "max_total_routing_fee_msat"@, "quantity"@);
    } else if i == 5 {
        assert(props[5].0 == "max_total_cltv_expiry_delta"@);
        assert("amount_msat"@ != "max_total_cltv_expiry_delta"@) by {
            reveal_strlit("amount_msat");
            reveal_strlit("max_total_cltv_expiry_delta");
            assert("amount_msat"@[0] != "max_total_cltv_expiry_delta"@[0]);
        }
        lemma_agree_at(a1, a2, "max_total_cltv_expiry_delta"@, "amount_msat"@);
        assert("max_channel_saturation_power_of_half"@ != "max_total_cltv_expiry_delta"@) by {
            reveal_strlit("max_channel_saturation_power_of_half");
            reveal_strlit("max_total_cltv_expiry_delta");
            assert("max_channel_saturation_power_of_half"@[4] != "max_total_cltv_expiry_delta"@[4]);
        }
        lemma_agree_at(a1, a2, "max_total_cltv_expiry_delta"@, "max_channel_saturation_power_of_half"@);
        assert("max_path_count"@ != "max_total_cltv_expiry_delta"@) by {
            reveal_strlit("max_path_count");
            reveal_strlit("max_total_cltv_expiry_delta");
            assert("max_path_count"@[4] != "max_total_cltv_expiry_delta"@[4]);
        }
        lemma_agree_at(a1, a2, "max_total_cltv_expiry_delta"@, "max_path_count"@);
        assert("max_total_routing_fee_msat"@ != "max_total_cltv_expiry_delta"@) by {
            reveal_strlit("max_total_routing_fee_msat");
            reveal_strlit("max_total_cltv_expiry_delta");
            assert("max_total_routing_fee_msat"@[10] != "max_total_cltv_expiry_delta"@[10]);
        }
        lemma_agree_at(a1, a2, "max_total_cltv_expiry_delta"@, "max_total_routing_fee_msat"@);
        assert("offer"@ != "max_total_cltv_expiry_delta"@) by {
            reveal_strlit("offer");
            reveal_strlit("max_total_cltv_expiry_delta");
            assert("offer"@[0] != "max_total_cltv_expiry_delta"@[0]);
        }
        lemma_agree_at(a1, a2, "max_total_cltv_expiry_delta"@, "offer"@);
        assert("payer_note"@ != "max_total_cltv_expiry_delta"@) by {
            reveal_strlit("payer_note");
            reveal_strlit("max_total_cltv_expiry_delta");
            assert("payer_note"@[0] != "max_total_cltv_expiry_delta"@[0]);
        }
        lemma_agree_at(a1, a2, "max_total_cltv_expiry_delta"@, "payer_note"@);
        assert("quantity"@ != "max_total_cltv_expiry_delta"@) by {
            reveal_strlit("quantity");
            reveal_strlit("max_total_cltv_expiry_delta");
            assert("quantity"@[0] != "max_total_cltv_expiry_delta"@[0]);
        }
        lemma_agree_at(a1, a2, "max_total_cltv_expiry_delta"@, "quantity"@);
    } else if i == 6 {
        assert(props[6].0 == "max_path_count"@);
        assert("amount_msat"@ != "max_path_count"@) by {
            reveal_strlit("amount_msat");
            reveal_strlit("max_path_count");
            assert("amount_msat"@[0] != "max_path_count"@[0]);
        }
        lemma_agree_at(a1, a2, "max_path_count"@, "amount_msat"@);
        assert("max_channel_saturation_power_of_half"@ != "max_path_count"@) by {
            reveal_strlit("max_channel_saturation_power_of_half");
            reveal_strlit("max_path_count");
            assert("max_channel_saturation_power_of_half"@[4] != "max_path_count"@[4]);
        }
        lemma_agree_at(a1, a2, "max_path_count"@, "max_channel_saturation_power_of_half"@);
        assert("max_total_cltv_expiry_delta"@ != "max_path_count"@) by {
            reveal_strlit("max_total_cltv_expiry_delta");
            reveal_strlit("max_path_count");
            assert("max_total_cltv_expiry_delta"@[4] != "max_path_count"@[4]);
        }
        lemma_agree_at(a1, a2, "max_path_count"@, "max_total_cltv_expiry_delta"@);
        assert("max_total_routing_fee_msat"@ != "max_path_count"@) by {
            reveal_strlit("max_total_routing_fee_msat");
            reveal_strlit("max_path_count");
            assert("max_total_routing_fee_msat"@[4] != "max_path_count"@[4]);
        }
        lemma_agree_at(a1, a2, "max_path_count"@, "max_total_routing_fee_msat"@);
        assert("offer"@ != "max_path_count"@) by {
            reveal_strlit("offer");
            reveal_strlit("max_path_count");
            assert("offer"@[0] != "max_path_count"@[0]);
        }
        lemma_agree_at(a1, a2, "max_path_count"@, "offer"@);
        assert("payer_note"@ != "max_path_count"@) by {
            reveal_strlit("payer_note");
            reveal_strlit("max_path_count");
            assert("payer_note"@[0] != "max_path_count"@[0]);
        }
        lemma_agree_at(a1, a2, "max_path_count"@, "payer_note"@);
        assert("quantity"@ != "max_path_count"@) by {
            reveal_strlit("quantity");
            reveal_strlit("max_path_count");
            assert("quantity"@[0] != "max_path_count"@[0]);
        }
        lemma_agree_at(a1, a2, "max_path_count"@, "quantity"@);
    } else if i == 7 {
        assert(props[7].0 == "max_channel_saturation_power_of_half"@);
        assert("amount_msat"@ != "max_channel_saturation_power_of_half"@) by {
            reveal_strlit("amount_msat");
            reveal_strlit("max_channel_saturation_power_of_half");
            assert("amount_msat"@[0] != "max_channel_saturation_power_of_half"@[0]);
        }
        lemma_agree_at(a1, a2, "max_channel_saturation_power_of_half"@, "amount_msat"@);
        assert("max_path_count"@ != "max_channel_saturation_power_of_half"@) by {
            reveal_strlit("max_path_count");
            reveal_strlit("max_channel_saturation_power_of_half");
            assert("max_path_count"@[4] != "max_channel_saturation_power_of_half"@[4]);
        }
        lemma_agree_at(a1, a2, "max_channel_saturation_power_of_half"@, "max_path_count"@);
        assert("max_total_cltv_expiry_delta"@ != "max_channel_saturation_power_of_half"@) by {
            reveal_strlit("max_total_cltv_expiry_delta");
            reveal_strlit("max_channel_saturation_power_of_half");
            assert("max_total_cltv_expiry_delta"@[4] != "max_channel_saturation_power_of_half"@[4]);
        }
        lemma_agree_at(a1, a2, "max_channel_saturation_power_of_half"@, "max_total_cltv_expiry_delta"@);
        assert("max_total_routing_fee_msat"@ != "max_channel_saturation_power_of_half"@) by {
            reveal_strlit("max_total_routing_fee_msat");
            reveal_strlit("max_channel_saturation_power_of_half");
            assert("max_total_routing_fee_msat"@[4] != "max_channel_saturation_power_of_half"@[4]);
        }
        lemma_agree_at(a1, a2, "max_channel_saturation_power_of_half"@, "max_total_routing_fee_msat"@);
        assert("offer"@ != "max_channel_saturation_power_of_half"@) by {
            reveal_strlit("offer");
            reveal_strlit("max_channel_saturation_power_of_half");
            assert("offer"@[0] != "max_channel_saturation_power_of_half"@[0]);
        }
        lemma_agree_at(a1, a2, "max_channel_saturation_power_of_half"@, "offer"@);
        assert("payer_note"@ != "max_channel_saturation_power_of_half"@) by {
            reveal_strlit("payer_note");
            reveal_strlit("max_channel_saturation_power_of_half");
            assert("payer_note"@[0] != "max_channel_saturation_power_of_half"@[0]);
        }
        lemma_agree_at(a1, a2, "max_channel_saturation_power_of_half"@, "payer_note"@);
        assert("quantity"@ != "max_channel_saturation_power_of_half"@) by {
            reveal_strlit("quantity");
            reveal_strlit("max_channel_saturation_power_of_half");
            assert("quantity"@[0] != "max_channel_saturation_power_of_half"@[0]);
        }
        lemma_agree_at(a1, a2, "max_channel_saturation_power_of_half"@, "quantity"@);
    }
    lemma_first_missing_1(a1, ("offer"@, ParamType::String));
    lemma_first_missing_1(a2, ("offer"@, ParamType::String));
}

/// `lemma_properties_read_as_declared` for the tool `spontaneous_send`.
proof fn lemma_spontaneous_send_reads_as_declared(i: int, a1: ToolArgs, a2: ToolArgs)
    requires
        0 <= i < schema_model(ToolKind::SpontaneousSend).properties.len(),
        agree_except(a1, a2, schema_model(ToolKind::SpontaneousSend).properties[i].0),
        reads_alike(
            a1,
            a2,
            schema_model(ToolKind::SpontaneousSend).properties[i].0,
            schema_model(ToolKind::SpontaneousSend).properties[i].1,
        ),
    ensures
        tool_refusal(ToolKind::SpontaneousSend, a1) == tool_refusal(ToolKind::SpontaneousSend, a2),
        forall|req: ClientRequest|
            request_matches(ToolKind::SpontaneousSend, a1, req) == request_matches(ToolKind::SpontaneousSend, a2, req),
{
    let props = schema_model(ToolKind::SpontaneousSend).properties;
    if i == 0 {
        assert(props[0].0 == "amount_msat"@);
        assert("max_channel_saturation_power_of_half"@ != "amount_msat"@) by {
            reveal_strlit("max_channel_saturation_power_of_half");
            reveal_strlit("amount_msat");
            assert("max_channel_saturation_power_of_half"@[0] != "amount_msat"@[0]);
        }
        lemma_agree_at(a1, a2, "amount_msat"@, "max_channel_saturation_power_of_half"@);
        assert("max_path_count"@ != "amount_msat"@) by {
            reveal_strlit("max_path_count");
            reveal_strlit("amount_msat");
            assert("max_path_count"@[0] != "amount_msat"@[0]);
        }
        lemma_agree_at(a1, a2, "amount_msat"@, "max_path_count"@);
        assert("max_total_cltv_expiry_delta"@ != "amount_msat"@) by {
            reveal_strlit("max_total_cltv_expiry_delta");
            reveal_strlit("amount_msat");
            assert("max_total_cltv_expiry_delta"@[0] != "amount_msat"@[0]);
        }
        lemma_agree_at(a1, a2, "amount_msat"@, "max_total_cltv_expiry_delta"@);
        assert("max_total_routing_fee_msat"@ != "amount_msat"@) by {
            reveal_strlit("max_total_routing_fee_msat");
            reveal_strlit("amount_msat");
            assert("max_total_routing_fee_msat"@[0] != "amount_msat"@[0]);
        }
        lemma_agree_at(a1, a2, "amount_msat"@, "max_total_routing_fee_msat"@);
        assert("node_id"@ != "amount_msat"@) by {
            reveal_strlit("node_id");
            reveal_strlit("amount_msat");
            assert("node_id"@[0] != "amount_msat"@[0]);
        }
        lemma_agree_at(a1, a2, "amount_msat"@, "node_id"@);
    } else if i == 1 {
        assert(props[1].0 == "node_id"@);
        assert("amount_msat"@ != "node_id"@) by {
            reveal_strlit("amount_msat");
            reveal_strlit("node_id");
            assert("amount_msat"@[0] != "node_id"@[0]);
        }
        lemma_agree_at(a1, a2, "node_id"@, "amount_msat"@);
        assert("max_channel_saturation_power_of_half"@ != "node_id"@) by {
            reveal_strlit("max_channel_saturation_power_of_half");
            reveal_strlit("node_id");
            assert("max_channel_saturation_power_of_half"@[0] != "node_id"@[0]);
        }
        lemma_agree_at(a1, a2, "node_id"@, "max_channel_saturation_power_of_half"@);
        assert("max_path_count"@ != "node_id"@) by {
            reveal_strlit("max_path_count");
            reveal_strlit("node_id");
            assert("max_path_count"@[0] != "node_id"@[0]);
        }
        lemma_agree_at(a1, a2, "node_id"@, "max_path_count"@);
        assert("max_total_cltv_expiry_delta"@ != "node_id"@) by {
            reveal_strlit("max_total_cltv_expiry_delta");
            reveal_strlit("node_id");
            assert("max_total_cltv_expiry_delta"@[0] != "node_id"@[0]);
        }
        lemma_agree_at(a1, a2, "node_id"@, "max_total_cltv_expiry_delta"@);
        assert("max_total_routing_fee_msat"@ != "node_id"@) by {
            reveal_strlit("max_total_routing_fee_msat");
            reveal_strlit("node_id");
            assert("max_total_routing_fee_msat"@[0] != "node_id"@[0]);
        }
        lemma_agree_at(a1, a2, "node_id"@, "max_total_routing_fee_msat"@);
    } else if i == 2 {
        assert(props[2].0 == "max_total_routing_fee_msat"@);
        assert("amount_msat"@ != "max_total_routing_fee_msat"@) by {
            reveal_strlit("amount_msat");
            reveal_strlit("max_total_routing_fee_msat");
            assert("amount_msat"@[0] != "max_total_routing_fee_msat"@[0]);
        }
        lemma_agree_at(a1, a2, "max_total_routing_fee_msat"@, "amount_msat"@);
        assert("max_channel_saturation_power_of_half"@ != "max_total_routing_fee_msat"@) by {
            reveal_strlit("max_channel_saturation_power_of_half");
            reveal_strlit("max_total_routing_fee_msat");
            assert("max_channel_saturation_power_of_half"@[4] != "max_total_routing_fee_msat"@[4]);
        }
        lemma_agree_at(a1, a2, "max_total_routing_fee_msat"@, "max_channel_saturation_power_of_half"@);
        assert("max_path_count"@ != "max_total_routing_fee_msat"@) by {
            reveal_strlit("max_path_count");
            reveal_strlit("max_total_routing_fee_msat");
            assert("max_path_count"@[4] != "max_total_routing_fee_msat"@[4]);
        }
        lemma_agree_at(a1, a2, "max_total_routing_fee_msat"@, "max_path_count"@);
        assert("max_total_cltv_expiry_delta"@ != "max_total_routing_fee_msat"@) by {
            reveal_strlit("max_total_cltv_expiry_delta");
            reveal_strlit("max_total_routing_fee_msat");
            assert("max_total_cltv_expiry_delta"@[10] != "max_total_routing_fee_msat"@[10]);
        }
        lemma_agree_at(a1, a2, "max_total_routing_fee_msat"@, "max_total_cltv_expiry_delta"@);
        assert("node_id"@ != "max_total_routing_fee_msat"@) by {
            reveal_strlit("node_id");
            reveal_strlit("max_total_routing_fee_msat");
            assert("node_id"@[0] != "max_total_routing_fee_msat"@[0]);
        }
        lemma_agree_at(a1, a2, "max_total_routing_fee_msat"@, "node_id"@);
    } else if i == 3 {
        assert(props[3].0 == "max_total_cltv_expiry_delta"@);
        assert("amount_msat"@ != "max_total_cltv_expiry_delta"@) by {
            reveal_strlit("amount_msat");
            reveal_strlit("max_total_cltv_expiry_delta");
            assert("amount_msat"@[0] != "max_total_cltv_expiry_delta"@[0]);
        }
        lemma_agree_at(a1, a2, "max_total_cltv_expiry_delta"@, "amount_msat"@);
        assert("max_channel_saturation_power_of_half"@ != "max_total_cltv_expiry_delta"@) by {
            reveal_strlit("max_channel_saturation_power_of_half");
            reveal_strlit("max_total_cltv_expiry_delta");
            assert("max_channel_saturation_power_of_half"@[4] != "max_total_cltv_expiry_delta"@[4]);
        }
        lemma_agree_at(a1, a2, "max_total_cltv_expiry_delta"@, "max_channel_saturation_power_of_half"@);
        assert("max_path_count"@ != "max_total_cltv_expiry_delta"@) by {
            reveal_strlit("max_path_count");
            reveal_strlit("max_total_cltv_expiry_delta");
            assert("max_path_count"@[4] != "max_total_cltv_expiry_delta"@[4]);
        }
        lemma_agree_at(a1, a2, "max_total_cltv_expiry_delta"@, "max_path_count"@);
        assert("max_total_routing_fee_msat"@ != "max_total_cltv_expiry_delta"@) by {
            reveal_strlit("max_total_routing_fee_msat");
            reveal_strlit("max_total_cltv_expiry_delta");
            assert("max_total_routing_fee_msat"@[10] != "max_total_cltv_expiry_delta"@[10]);
        }
        lemma_agree_at(a1, a2, "max_total_cltv_expiry_delta"@, "max_total_routing_fee_msat"@);
        assert("node_id"@ != "max_total_cltv_expiry_delta"@) by {
            reveal_strlit("node_id");
            reveal_strlit("max_total_cltv_expiry_delta");
            assert("node_id"@[0] != "max_total_cltv_expiry_delta"@[0]);
        }
        lemma_agree_at(a1, a2, "max_total_cltv_expiry_delta"@, "node_id"@);
    } else if i == 4 {
        assert(props[4].0 == "max_path_count"@);
        assert("amount_msat"@ != "max_path_count"@) by {
            reveal_strlit("amount_msat");
            reveal_strlit("max_path_count");
            assert("amount_msat"@[0] != "max_path_count"@[0]);
        }
        lemma_agree_at(a1, a2, "max_path_count"@, "amount_msat"@);
        assert("max_channel_saturation_power_of_half"@ != "max_path_count"@) by {
            reveal_strlit("max_channel_saturation_power_of_half");
            reveal_strlit("max_path_count");
            assert("max_channel_saturation_power_of_half"@[4] != "max_path_count"@[4]);
        }
        lemma_agree_at(a1, a2, "max_path_count"@, "max_channel_saturation_power_of_half"@);
        assert("max_total_cltv_expiry_delta"@ != "max_path_count"@) by {
            reveal_strlit("max_total_cltv_expiry_delta");
            reveal_strlit("max_path_count");
            assert("max_total_cltv_expiry_delta"@[4] != "max_path_count"@[4]);
        }
        lemma_agree_at(a1, a2, "max_path_count"@, "max_total_cltv_expiry_delta"@);
        assert("max_total_routing_fee_msat"@ != "max_path_count"@) by {
            reveal_strlit("max_total_routing_fee_msat");
            reveal_strlit("max_path_count");
            assert("max_total_routing_fee_msat"@[4] != "max_path_count"@[4]);
        }
        lemma_agree_at(a1, a2, "max_path_count"@, "max_total_routing_fee_msat"@);
        assert("node_id"@ != "max_path_count"@) by {
            reveal_strlit("node_id");
            reveal_strlit("max_path_count");
            assert("node_id"@[0] != "max_path_count"@[0]);
        }
        lemma_agree_at(a1, a2, "max_path_count"@, "node_id"@);
    } else if i == 5 {
        assert(props[5].0 == "max_channel_saturation_power_of_half"@);
        assert("amount_msat"@ != "max_channel_saturation_power_of_half"@) by {
            reveal_strlit("amount_msat");
            reveal_strlit("max_channel_saturation_power_of_half");
            assert("amount_msat"@[0] != "max_channel_saturation_power_of_half"@[0]);
        }
        lemma_agree_at(a1, a2, "max_channel_saturation_power_of_half"@, "amount_msat"@);
        assert("max_path_count"@ != "max_channel_saturation_power_of_half"@) by {
            reveal_strlit("max_path_count");
            reveal_strlit("max_channel_saturation_power_of_half");
            assert("max_path_count"@[4] != "max_channel_saturation_power_of_half"@[4]);
        }
        lemma_agree_at(a1, a2, "max_channel_saturation_power_of_half"@, "max_path_count"@);
        assert("max_total_cltv_expiry_delta"@ != "max_channel_saturation_power_of_half"@) by {
            reveal_strlit("max_total_cltv_expiry_delta");
            reveal_strlit("max_channel_saturation_power_of_half");
            assert("max_total_cltv_expiry_delta"@[4] != "max_channel_saturation_power_of_half"@[4]);
        }
        lemma_agree_at(a1, a2, "max_channel_saturation_power_of_half"@, "max_total_cltv_expiry_delta"@);
        assert("max_total_routing_fee_msat"@ != "max_channel_saturation_power_of_half"@) by {
            reveal_strlit("max_total_routing_fee_msat");
            reveal_strlit("max_channel_saturation_power_of_half");
            assert("max_total_routing_fee_msat"@[4] != "max_channel_saturation_power_of_half"@[4]);
        }
        lemma_agree_at(a1, a2, "max_channel_saturation_power_of_half"@, "max_total_routing_fee_msat"@);
        assert("node_id"@ != "max_channel_saturation_power_of_half"@) by {
            reveal_strlit("node_id");
            reveal_strlit("max_channel_saturation_power_of_half");
            assert("node_id"@[0] != "max_channel_saturation_power_of_half"@[0]);
        }
        lemma_agree_at(a1, a2, "max_channel_saturation_power_of_half"@, "node_id"@);
    }
    lemma_first_missing_2(a1, ("amount_msat"@, ParamType::Integer), ("node_id"@, ParamType::String));
    lemma_first_missing_1(a1, ("node_id"@, ParamType::String));
    lemma_first_missing_2(a2, ("amount_msat"@, ParamType::Integer), ("node_id"@, ParamType::String));
    lemma_first_missing_1(a2, ("node_id"@, ParamType::String));
}

/// `lemma_properties_read_as_declared` for the tool `open_channel`.
proof fn lemma_open_channel_reads_as_declared(i: int, a1: ToolArgs, a2: ToolArgs)
    requires
        0 <= i < schema_model(ToolKind::OpenChannel).properties.len(),
        agree_except(a1, a2, schema_model(ToolKind::OpenChannel).properties[i].0),
        reads_alike(
            a1,
            a2,
            schema_model(ToolKind::OpenChannel).properties[i].0,
            schema_model(ToolKind::OpenChannel).properties[i].1,
        ),
    ensures
        tool_refusal(ToolKind::OpenChannel, a1) == tool_refusal(ToolKind::OpenChannel, a2),
        forall|req: ClientRequest|
            request_matches(ToolKind::OpenChannel, a1, req) == request_matches(ToolKind::OpenChannel, a2, req),
{
    let props = schema_model(ToolKind::OpenChannel).properties;
    if i == 0 {
        assert(props[0].0 == "node_pubkey"@);
        assert("address"@ != "node_pubkey"@) by {
            reveal_strlit("address");
            reveal_strlit("node_pubkey");
            assert("address"@[0] != "node_pubkey"@[0]);
        }
        lemma_agree_at(a1, a2, "node_pubkey"@, "address"@);
        assert("announce_channel"@ != "node_pubkey"@) by {
            reveal_strlit("announce_channel");
            reveal_strlit("node_pubkey");
            assert("announce_channel"@[0] != "node_pubkey"@[0]);
        }
        lemma_agree_at(a1, a2, "node_pubkey"@, "announce_channel"@);
        assert("channel_amount_sats"@ != "node_pubkey"@) by {
            reveal_strlit("channel_amount_sats");
            reveal_strlit("node_pubkey");
            assert("channel_amount_sats"@[0] != "node_pubkey"@[0]);
        }
        lemma_agree_at(a1, a2, "node_pubkey"@, "channel_amount_sats"@);
        assert("cltv_expiry_delta"@ != "node_pubkey"@) by {
            reveal_strlit("cltv_expiry_delta");
            reveal_strlit("node_pubkey");
            assert("cltv_expiry_delta"@[0] != "node_pubkey"@[0]);
        }
        lemma_agree_at(a1, a2, "node_pubkey"@, "cltv_expiry_delta"@);
        assert("forwarding_fee_base_msat"@ != "node_pubkey"@) by {
            reveal_strlit("forwarding_fee_base_msat");
            reveal_strlit("node_pubkey");
            assert("forwarding_fee_base_msat"@[0] != "node_pubkey"@[0]);
        }
        lemma_agree_at(a1, a2, "node_pubkey"@, "forwarding_fee_base_msat"@);
        assert("forwarding_fee_proportional_millionths"@ != "node_pubkey"@) by {
            reveal_strlit("forwarding_fee_proportional_millionths");
            reveal_strlit("node_pubkey");
            assert("forwarding_fee_proportional_millionths"@[0] != "node_pubkey"@[0]);
        }
        lemma_agree_at(a1, a2, "node_pubkey"@, "forwarding_fee_proportional_millionths"@);
        assert("push_to_counterparty_msat"@ != "node_pubkey"@) by {
            reveal_strlit("push_to_counterparty_msat");
            reveal_strlit("node_pubkey");
            assert("push_to_counterparty_msat"@[0] != "node_pubkey"@[0]);
        }
        lemma_agree_at(a1, a2, "node_pubkey"@, "push_to_counterparty_msat"@);
    } else if i == 1 {
        assert(props[1].0 == "address"@);
        assert("announce_channel"@ != "address"@) by {
            reveal_strlit("announce_channel");
            reveal_strlit("address");
            assert("announce_channel"@[1] != "address"@[1]);
        }
        lemma_agree_at(a1, a2, "address"@, "announce_channel"@);
        assert("channel_amount_sats"@ != "address"@) by {
            reveal_strlit("channel_amount_sats");
            reveal_strlit("address");
            assert("channel_amount_sats"@[0] != "address"@[0]);
        }
        lemma_agree_at(a1, a2, "address"@, "channel_amount_sats"@);
        assert("cltv_expiry_delta"@ != "address"@) by {
            reveal_strlit("cltv_expiry_delta");
            reveal_strlit("address");
            assert("cltv_expiry_delta"@[0] != "address"@[0]);
        }
        lemma_agree_at(a1, a2, "address"@, "cltv_expiry_delta"@);
        assert("forwarding_fee_base_msat"@ != "address"@) by {
            reveal_strlit("forwarding_fee_base_msat");
            reveal_strlit("address");
            assert("forwarding_fee_base_msat"@[0] != "address"@[0]);
        }
        lemma_agree_at(a1, a2, "address"@, "forwarding_fee_base_msat"@);
        assert("forwarding_fee_proportional_millionths"@ != "address"@) by {
            reveal_strlit("forwarding_fee_proportional_millionths");
            reveal_strlit("address");
            assert("forwarding_fee_proportional_millionths"@[0] != "address"@[0]);
        }
        lemma_agree_at(a1, a2, "address"@, "forwarding_fee_proportional_millionths"@);
        assert("node_pubkey"@ != "address"@) by {
            reveal_strlit("node_pubkey");
            reveal_strlit("address");
            assert("node_pubkey"@[0] != "address"@[0]);
        }
        lemma_agree_at(a1, a2, "address"@, "node_pubkey"@);
        assert("push_to_counterparty_msat"@ != "address"@) by {
            reveal_strlit("push_to_counterparty_msat");
            reveal_strlit("address");
            assert("push_to_counterparty_msat"@[0] != "address"@[0]);
        }
        lemma_agree_at(a1, a2, "address"@, "push_to_counterparty_msat"@);
    } else if i == 2 {
        assert(props[2].0 == "channel_amount_sats"@);
        assert("address"@ != "channel_amount_sats"@) by {
            reveal_strlit("address");
            reveal_strlit("channel_amount_sats");
            assert("address"@[0] != "channel_amount_sats"@[0]);
        }
        lemma_agree_at(a1, a2, "channel_amount_sats"@, "address"@);
        assert("announce_channel"@ != "channel_amount_sats"@) by {
            reveal_strlit("announce_channel");
            reveal_strlit("channel_amount_sats");
            assert("announce_channel"@[0] != "channel_amount_sats"@[0]);
        }
        lemma_agree_at(a1, a2, "channel_amount_sats"@, "announce_channel"@);
        assert("cltv_expiry_delta"@ != "channel_amount_sats"@) by {
            reveal_strlit("cltv_expiry_delta");
            reveal_strlit("channel_amount_sats");
            assert("cltv_expiry_delta"@[1] != "channel_amount_sats"@[1]);
        }
        lemma_agree_at(a1, a2, "channel_amount_sats"@, "cltv_expiry_delta"@);
        assert("forwarding_fee_base_msat"@ != "channel_amount_sats"@) by {
            reveal_strlit("forwarding_fee_base_msat");
            reveal_strlit("channel_amount_sats");
            assert("forwarding_fee_base_msat"@[0] != "channel_amount_sats"@[0]);
        }
        lemma_agree_at(a1, a2, "channel_amount_sats"@, "forwarding_fee_base_msat"@);
        assert("forwarding_fee_proportional_millionths"@ != "channel_amount_sats"@) by {
            reveal_strlit("forwarding_fee_proportional_millionths");
            reveal_strlit("channel_amount_sats");
            assert("forwarding_fee_proportional_millionths"@[0] != "channel_amount_sats"@[0]);
        }
        lemma_agree_at(a1, a2, "channel_amount_sats"@, "forwarding_fee_proportional_millionths"@);
        assert("node_pubkey"@ != "channel_amount_sats"@) by {
            reveal_strlit("node_pubkey");
            reveal_strlit("channel_amount_sats");
            assert("node_pubkey"@[0] != "channel_amount_sats"@[0]);
        }
        lemma_agree_at(a1, a2, "channel_amount_sats"@, "node_pubkey"@);
        assert("push_to_counterparty_msat"@ != "channel_amount_sats"@) by {
            reveal_strlit("push_to_counterparty_msat");
            reveal_strlit("channel_amount_sats");
            assert("push_to_counterparty_msat"@[0] != "channel_amount_sats"@[0]);
        }
        lemma_agree_at(a1, a2, "channel_amount_sats"@, "push_to_counterparty_msat"@);
    } else if i == 3 {
        assert(props[3].0 == "push_to_counterparty_msat"@);
        assert("address"@ != "push_to_counterparty_msat"@) by {
            reveal_strlit("address");
            reveal_strlit("push_to_counterparty_msat");
            assert("address"@[0] != "push_to_counterparty_msat"@[0]);
        }
        lemma_agree_at(a1, a2, "push_to_counterparty_msat"@, "address"@);
        assert("announce_channel"@ != "push_to_counterparty_msat"@) by {
            reveal_strlit("announce_channel");
            reveal_strlit("push_to_counterparty_msat");
            assert("announce_channel"@[0] != "push_to_counterparty_msat"@[0]);
        }
        lemma_agree_at(a1, a2, "push_to_counterparty_msat"@, "announce_channel"@);
        assert("channel_amount_sats"@ != "push_to_counterparty_msat"@) by {
            reveal_strlit("channel_amount_sats");
            reveal_strlit("push_to_counterparty_msat");
            assert("channel_amount_sats"@[0] != "push_to_counterparty_msat"@[0]);
        }
        lemma_agree_at(a1, a2, "push_to_counterparty_msat"@, "channel_amount_sats"@);
        assert("cltv_expiry_delta"@ != "push_to_counterparty_msat"@) by {
            reveal_strlit("cltv_expiry_delta");
            reveal_strlit("push_to_counterparty_msat");
            assert("cltv_expiry_delta"@[0] != "push_to_counterparty_msat"@[0]);
        }
        lemma_agree_at(a1, a2, "push_to_counterparty_msat"@, "cltv_expiry_delta"@);
        assert("forwarding_fee_base_msat"@ != "push_to_counterparty_msat"@) by {
            reveal_strlit("forwarding_fee_base_msat");
            reveal_strlit("push_to_counterparty_msat");
            assert("forwarding_fee_base_msat"@[0] != "push_to_counterparty_msat"@[0]);
        }
        lemma_agree_at(a1, a2, "push_to_counterparty_msat"@, "forwarding_fee_base_msat"@);
        assert("forwarding_fee_proportional_millionths"@ != "push_to_counterparty_msat"@) by {
            reveal_strlit("forwarding_fee_proportional_millionths");
            reveal_strlit("push_to_counterparty_msat");
            assert("forwarding_fee_proportional_millionths"@[0] != "push_to_counterparty_msat"@[0]);
        }
        lemma_agree_at(a1, a2, "push_to_counterparty_msat"@, "forwarding_fee_proportional_millionths"@);
        assert("node_pubkey"@ != "push_to_counterparty_msat"@) by {
            reveal_strlit("node_pubkey");
            reveal_strlit("push_to_counterparty_msat");
            assert("node_pubkey"@[0] != "push_to_counterparty_msat"@[0]);
        }
        lemma_agree_at(a1, a2, "push_to_counterparty_msat"@, "node_pubkey"@);
    } else if i == 4 {
        assert(props[4].0 == "announce_channel"@);
        assert("address"@ != "announce_channel"@) by {
            reveal_strlit("address");
            reveal_strlit("announce_channel");
            assert("address"@[1] != "announce_channel"@[1]);
        }
        lemma_agree_at(a1, a2, "announce_channel"@, "address"@);
        assert("channel_amount_sats"@ != "announce_channel"@) by {
            reveal_strlit("channel_amount_sats");
            reveal_strlit("announce_channel");
            assert("channel_amount_sats"@[0] != "announce_channel"@[0]);
        }
        lemma_agree_at(a1, a2, "announce_channel"@, "channel_amount_sats"@);
        assert("cltv_expiry_delta"@ != "announce_channel"@) by {
            reveal_strlit("cltv_expiry_delta");
            reveal_strlit("announce_channel");
            assert("cltv_expiry_delta"@[0] != "announce_channel"@[0]);
        }
        lemma_agree_at(a1, a2, "announce_channel"@, "cltv_expiry_delta"@);
        assert("forwarding_fee_base_msat"@ != "announce_channel"@) by {
            reveal_strlit("forwarding_fee_base_msat");
            reveal_strlit("announce_channel");
            assert("forwarding_fee_base_msat"@[0] != "announce_channel"@[0]);
        }
        lemma_agree_at(a1, a2, "announce_channel"@, "forwarding_fee_base_msat"@);
        assert("forwarding_fee_proportional_millionths"@ != "announce_channel"@) by {
            reveal_strlit("forwarding_fee_proportional_millionths");
            reveal_strlit("announce_channel");
            assert("forwarding_fee_proportional_millionths"@[0] != "announce_channel"@[0]);
        }
        lemma_agree_at(a1, a2, "announce_channel"@, "forwarding_fee_proportional_millionths"@);
        assert("node_pubkey"@ != "announce_channel"@) by {
            reveal_strlit("node_pubkey");
            reveal_strlit("announce_channel");
            assert("node_pubkey"@[0] != "announce_channel"@[0]);
        }
        lemma_agree_at(a1, a2, "announce_channel"@, "node_pubkey"@);
        assert("push_to_counterparty_msat"@ != "announce_channel"@) by {
            reveal_strlit("push_to_counterparty_msat");
            reveal_strlit("announce_channel");
            assert("push_to_counterparty_msat"@[0] != "announce_channel"@[0]);
        }
        lemma_agree_at(a1, a2, "announce_channel"@, "push_to_counterparty_msat"@);
    } else if i == 5 {
        assert(props[5].0 == "forwarding_fee_proportional_millionths"@);
        assert("address"@ != "forwarding_fee_proportional_millionths"@) by {
            reveal_strlit("address");
            reveal_strlit("forwarding_fee_proportional_millionths");
            assert("address"@[0] != "forwarding_fee_proportional_millionths"@[0]);
        }
        lemma_agree_at(a1, a2, "forwarding_fee_proportional_millionths"@, "address"@);
        assert("announce_channel"@ != "forwarding_fee_proportional_millionths"@) by {
            reveal_strlit("announce_channel");
            reveal_strlit("forwarding_fee_proportional_millionths");
            assert("announce_channel"@[0] != "forwarding_fee_proportional_millionths"@[0]);
        }
        lemma_agree_at(a1, a2, "forwarding_fee_proportional_millionths"@, "announce_channel"@);
        assert("channel_amount_sats"@ != "forwarding_fee_proportional_millionths"@) by {
            reveal_strlit("channel_amount_sats");
            reveal_strlit("forwarding_fee_proportional_millionths");
            assert("channel_amount_sats"@[0] != "forwarding_fee_proportional_millionths"@[0]);
        }
        lemma_agree_at(a1, a2, "forwarding_fee_proportional_millionths"@, "channel_amount_sats"@);
        assert("cltv_expiry_delta"@ != "forwarding_fee_proportional_millionths"@) by {
            reveal_strlit("cltv_expiry_delta");
            reveal_strlit("forwarding_fee_proportional_millionths");
            assert("cltv_expiry_delta"@[0] != "forwarding_fee_proportional_millionths"@[0]);
        }
        lemma_agree_at(a1, a2, "forwarding_fee_proportional_millionths"@, "cltv_expiry_delta"@);
        assert("forwarding_fee_base_msat"@ != "forwarding_fee_proportional_millionths"@) by {
            reveal_strlit("forwarding_fee_base_msat");
            reveal_strlit("forwarding_fee_proportional_millionths");
            assert("forwarding_fee_base_msat"@[15] != "forwarding_fee_proportional_millionths"@[15]);
        }
        lemma_agree_at(a1, a2, "forwarding_fee_proportional_millionths"@, "forwarding_fee_base_msat"@);
        assert("node_pubkey"@ != "forwarding_fee_proportional_millionths"@) by {
            reveal_strlit("node_pubkey");
            reveal_strlit("forwarding_fee_proportional_millionths");
            assert("node_pubkey"@[0] != "forwarding_fee_proportional_millionths"@[0]);
        }
        lemma_agree_at(a1, a2, "forwarding_fee_proportional_millionths"@, "node_pubkey"@);
        assert("push_to_counterparty_msat"@ != "forwarding_fee_proportional_millionths"@) by {
            reveal_strlit("push_to_counterparty_msat");
            reveal_strlit("forwarding_fee_proportional_millionths");
            assert("push_to_counterparty_msat"@[0] != "forwarding_fee_proportional_millionths"@[0]);
        }
        lemma_agree_at(a1, a2, "forwarding_fee_proportional_millionths"@, "push_to_counterparty_msat"@);
    } else if i == 6 {
        assert(props[6].0 == "forwarding_fee_base_msat"@);
        assert("address"@ != "forwarding_fee_base_msat"@) by {
            reveal_strlit("address");
            reveal_strlit("forwarding_fee_base_msat");
            assert("address"@[0] != "forwarding_fee_base_msat"@[0]);
        }
        lemma_agree_at(a1, a2, "forwarding_fee_base_msat"@, "address"@);
        assert("announce_channel"@ != "forwarding_fee_base_msat"@) by {
            reveal_strlit("announce_channel");
            reveal_strlit("forwarding_fee_base_msat");
            assert("announce_channel"@[0] != "forwarding_fee_base_msat"@[0]);
        }
        lemma_agree_at(a1, a2, "forwarding_fee_base_msat"@, "announce_channel"@);
        assert("channel_amount_sats"@ != "forwarding_fee_base_msat"@) by {
            reveal_strlit("channel_amount_sats");
            reveal_strlit("forwarding_fee_base_msat");
            assert("channel_amount_sats"@[0] != "forwarding_fee_base_msat"@[0]);
        }
        lemma_agree_at(a1, a2, "forwarding_fee_base_msat"@, "channel_amount_sats"@);
        assert("cltv_expiry_delta"@ != "forwarding_fee_base_msat"@) by {
            reveal_strlit("cltv_expiry_delta");
            reveal_strlit("forwarding_fee_base_msat");
            assert("cltv_expiry_delta"@[0] != "forwarding_fee_base_msat"@[0]);
        }
        lemma_agree_at(a1, a2, "forwarding_fee_base_msat"@, "cltv_expiry_delta"@);
        assert("forwarding_fee_proportional_millionths"@ != "forwarding_fee_base_msat"@) by {
            reveal_strlit("forwarding_fee_proportional_millionths");
            reveal_strlit("forwarding_fee_base_msat");
            assert("forwarding_fee_proportional_millionths"@[15] != "forwarding_fee_base_msat"@[15]);
        }
        lemma_agree_at(a1, a2, "forwarding_fee_base_msat"@, "forwarding_fee_proportional_millionths"@);
        assert("node_pubkey"@ != "forwarding_fee_base_msat"@) by {
            reveal_strlit("node_pubkey");
            reveal_strlit("forwarding_fee_base_msat");
            assert("node_pubkey"@[0] != "forwarding_fee_base_msat"@[0]);
        }
        lemma_agree_at(a1, a2, "forwarding_fee_base_msat"@, "node_pubkey"@);
        assert("push_to_counterparty_msat"@ != "forwarding_fee_base_msat"@) by {
            reveal_strlit("push_to_counterparty_msat");
            reveal_strlit("forwarding_fee_base_msat");
            assert("push_to_counterparty_msat"@[0] != "forwarding_fee_base_msat"@[0]);
        }
        lemma_agree_at(a1, a2, "forwarding_fee_base_msat"@, "push_to_counterparty_msat"@);
    } else if i == 7 {
        assert(props[7].0 == "cltv_expiry_delta"@);
        assert("address"@ != "cltv_expiry_delta"@) by {
            reveal_strlit("address");
            reveal_strlit("cltv_expiry_delta");
            assert("address"@[0] != "cltv_expiry_delta"@[0]);
        }
        lemma_agree_at(a1, a2, "cltv_expiry_delta"@, "address"@);
        assert("announce_channel"@ != "cltv_expiry_delta"@) by {
            reveal_strlit("announce_channel");
            reveal_strlit("cltv_expiry_delta");
            assert("announce_channel"@[0] != "cltv_expiry_delta"@[0]);
        }
        lemma_agree_at(a1, a2, "cltv_expiry_delta"@, "announce_channel"@);
        assert("channel_amount_sats"@ != "cltv_expiry_delta"@) by {
            reveal_strlit("channel_amount_sats");
            reveal_strlit("cltv_expiry_delta");
            assert("channel_amount_sats"@[1] != "cltv_expiry_delta"@[1]);
        }
        lemma_agree_at(a1, a2, "cltv_expiry_delta"@, "channel_amount_sats"@);
        assert("forwarding_fee_base_msat"@ != "cltv_expiry_delta"@) by {
            reveal_strlit("forwarding_fee_base_msat");
            reveal_strlit("cltv_expiry_delta");
            assert("forwarding_fee_base_msat"@[0] != "cltv_expiry_delta"@[0]);
        }
        lemma_agree_at(a1, a2, "cltv_expiry_delta"@, "forwarding_fee_base_msat"@);
        assert("forwarding_fee_proportional_millionths"@ != "cltv_expiry_delta"@) by {
            reveal_strlit("forwarding_fee_proportional_millionths");
            reveal_strlit("cltv_expiry_delta");
            assert("forwarding_fee_proportional_millionths"@[0] != "cltv_expiry_delta"@[0]);
        }
        lemma_agree_at(a1, a2, "cltv_expiry_delta"@, "forwarding_fee_proportional_millionths"@);
        assert("node_pubkey"@ != "cltv_expiry_delta"@) by {
            reveal_strlit("node_pubkey");
            reveal_strlit("cltv_expiry_delta");
            assert("node_pubkey"@[0] != "cltv_expiry_delta"@[0]);
        }
        lemma_agree_at(a1, a2, "cltv_expiry_delta"@, "node_pubkey"@);
        assert("push_to_counterparty_msat"@ != "cltv_expiry_delta"@) by {
            reveal_strlit("push_to_counterparty_msat");
            reveal_strlit("cltv_expiry_delta");
            assert("push_to_counterparty_msat"@[0] != "cltv_expiry_delta"@[0]);
        }
        lemma_agree_at(a1, a2, "cltv_expiry_delta"@, "push_to_counterparty_msat"@);
    }
    lemma_first_missing_3(a1, ("node_pubkey"@, ParamType::String), ("address"@, ParamType::String), ("channel_amount_sats"@, ParamType::Integer));
    lemma_first_missing_2(a1, ("address"@, ParamType::String), ("channel_amount_sats"@, ParamType::Integer));
    lemma_first_missing_1(a1, ("channel_amount_sats"@, ParamType::Integer));
    lemma_first_missing_3(a2, ("node_pubkey"@, ParamType::String), ("address"@, ParamType::String), ("channel_amount_sats"@, ParamType::Integer));
    lemma_first_missing_2(a2, ("address"@, ParamType::String), ("channel_amount_sats"@, ParamType::Integer));
    lemma_first_missing_1(a2, ("channel_amount_sats"@, ParamType::Integer));
}

/// `lemma_properties_read_as_declared` for the tool `splice_in`.
proof fn lemma_splice_in_reads_as_declared(i: int, a1: ToolArgs, a2: ToolArgs)
    requires
        0 <= i < schema_model(ToolKind::SpliceIn).properties.len(),
        agree_except(a1, a2, schema_model(ToolKind::SpliceIn).properties[i].0),
        reads_alike(
            a1,
            a2,
            schema_model(ToolKind::SpliceIn).properties[i].0,
            schema_model(ToolKind::SpliceIn).properties[i].1,
        ),
    ensures
        tool_refusal(ToolKind::SpliceIn, a1) == tool_refusal(ToolKind::SpliceIn, a2),
        forall|req: ClientRequest|
            request_matches(ToolKind::SpliceIn, a1, req) == request_matches(ToolKind::SpliceIn, a2, req),
{
    let props = schema_model(ToolKind::SpliceIn).properties;
    if i == 0 {
        assert(props[0].0 == "user_channel_id"@);
        assert("counterparty_node_id"@ != "user_channel_id"@) by {
            reveal_strlit("counterparty_node_id");
            reveal_strlit("user_channel_id");
            assert("counterparty_node_id"@[0] != "user_channel_id"@[0]);
        }
        lemma_agree_at(a1, a2, "user_channel_id"@, "counterparty_node_id"@);
        assert("splice_amount_sats"@ != "user_channel_id"@) by {
            reveal_strlit("splice_amount_sats");
            reveal_strlit("user_channel_id");
            assert("splice_amount_sats"@[0] != "user_channel_id"@[0]);
        }
        lemma_agree_at(a1, a2, "user_channel_id"@, "splice_amount_sats"@);
    } else if i == 1 {
        assert(props[1].0 == "counterparty_node_id"@);
        assert("splice_amount_sats"@ != "counterparty_node_id"@) by {
            reveal_strlit("splice_amount_sats");
            reveal_strlit("counterparty_node_id");
            assert("splice_amount_sats"@[0] != "counterparty_node_id"@[0]);
        }
        lemma_agree_at(a1, a2, "counterparty_node_id"@, "splice_amount_sats"@);
        assert("user_channel_id"@ != "counterparty_node_id"@) by {
            reveal_strlit("user_channel_id");
            reveal_strlit("counterparty_node_id");
            assert("user_channel_id"@[0] != "counterparty_node_id"@[0]);
        }
        lemma_agree_at(a1, a2, "counterparty_node_id"@, "user_channel_id"@);
    } else if i == 2 {
        assert(props[2].0 == "splice_amount_sats"@);
        assert("counterparty_node_id"@ != "splice_amount_sats"@) by {
            reveal_strlit("counterparty_node_id");
            reveal_strlit("splice_amount_sats");
            assert("counterparty_node_id"@[0] != "splice_amount_sats"@[0]);
        }
        lemma_agree_at(a1, a2, "splice_amount_sats"@, "counterparty_node_id"@);
        assert("user_channel_id"@ != "splice_amount_sats"@) by {
            reveal_strlit("user_channel_id");
            reveal_strlit("splice_amount_sats");
            assert("user_channel_id"@[0] != "splice_amount_sats"@[0]);
        }
        lemma_agree_at(a1, a2, "splice_amount_sats"@, "user_channel_id"@);
    }
    lemma_first_missing_3(a1, ("user_channel_id"@, ParamType::String), ("counterparty_node_id"@, ParamType::String), ("splice_amount_sats"@, ParamType::Integer));
    lemma_first_missing_2(a1, ("counterparty_node_id"@, ParamType::String), ("splice_amount_sats"@, ParamType::Integer));
    lemma_first_missing_1(a1, ("splice_amount_sats"@, ParamType::Integer));
    lemma_first_missing_3(a2, ("user_channel_id"@, ParamType::String), ("counterparty_node_id"@, ParamType::String), ("splice_amount_sats"@, ParamType::Integer));
    lemma_first_missing_2(a2, ("counterparty_node_id"@, ParamType::String), ("splice_amount_sats"@, ParamType::Integer));
    lemma_first_missing_1(a2, ("splice_amount_sats"@, ParamType::Integer));
}

/// `lemma_properties_read_as_declared` for the tool `splice_out`.
proof fn lemma_splice_out_reads_as_declared(i: int, a1: ToolArgs, a2: ToolArgs)
    requires
        0 <= i < schema_model(ToolKind::SpliceOut).properties.len(),
        agree_except(a1, a2, schema_model(ToolKind::SpliceOut).properties[i].0),
        reads_alike(
            a1,
            a2,
            schema_model(ToolKind::SpliceOut).properties[i].0,
            schema_model(ToolKind::SpliceOut).properties[i].1,
        ),
    ensures
        tool_refusal(ToolKind::SpliceOut, a1) == tool_refusal(ToolKind::SpliceOut, a2),
        forall|req: ClientRequest|
            request_matches(ToolKind::SpliceOut, a1, req) == request_matches(ToolKind::SpliceOut, a2, req),
{
    let props = schema_model(ToolKind::SpliceOut).properties;
    if i == 0 {
        assert(props[0].0 == "user_channel_id"@);
        assert("address"@ != "user_channel_id"@) by {
            reveal_strlit("address");
            reveal_strlit("user_channel_id");
            assert("address"@[0] != "user_channel_id"@[0]);
        }
        lemma_agree_at(a1, a2, "user_channel_id"@, "address"@);
        assert("counterparty_node_id"@ != "user_channel_id"@) by {
            reveal_strlit("counterparty_node_id");
            reveal_strlit("user_channel_id");
            assert("counterparty_node_id"@[0] != "user_channel_id"@[0]);
        }
        lemma_agree_at(a1, a2, "user_channel_id"@, "counterparty_node_id"@);
        assert("splice_amount_sats"@ != "user_channel_id"@) by {
            reveal_strlit("splice_amount_sats");
            reveal_strlit("user_channel_id");
            assert("splice_amount_sats"@[0] != "user_channel_id"@[0]);
        }
        lemma_agree_at(a1, a2, "user_channel_id"@, "splice_amount_sats"@);
    } else if i == 1 {
        assert(props[1].0 == "counterparty_node_id"@);
        assert("address"@ != "counterparty_node_id"@) by {
            reveal_strlit("address");
            reveal_strlit("counterparty_node_id");
            assert("address"@[0] != "counterparty_node_id"@[0]);
        }
        lemma_agree_at(a1, a2, "counterparty_node_id"@, "address"@);
        assert("splice_amount_sats"@ != "counterparty_node_id"@) by {
            reveal_strlit("splice_amount_sats");
            reveal_strlit("counterparty_node_id");
            assert("splice_amount_sats"@[0] != "counterparty_node_id"@[0]);
        }
        lemma_agree_at(a1, a2, "counterparty_node_id"@, "splice_amount_sats"@);
        assert("user_channel_id"@ != "counterparty_node_id"@) by {
            reveal_strlit("user_channel_id");
            reveal_strlit("counterparty_node_id");
            assert("user_channel_id"@[0] != "counterparty_node_id"@[0]);
        }
        lemma_agree_at(a1, a2, "counterparty_node_id"@, "user_channel_id"@);
    } else if i == 2 {
        assert(props[2].0 == "splice_amount_sats"@);
        assert("address"@ != "splice_amount_sats"@) by {
            reveal_strlit("address");
            reveal_strlit("splice_amount_sats");
            assert("address"@[0] != "splice_amount_sats"@[0]);
        }
        lemma_agree_at(a1, a2, "splice_amount_sats"@, "address"@);
        assert("counterparty_node_id"@ != "splice_amount_sats"@) by {
            reveal_strlit("counterparty_node_id");
            reveal_strlit("splice_amount_sats");
            assert("counterparty_node_id"@[0] != "splice_amount_sats"@[0]);
        }
        lemma_agree_at(a1, a2, "splice_amount_sats"@, "counterparty_node_id"@);
        assert("user_channel_id"@ != "splice_amount_sats"@) by {
            reveal_strlit("user_channel_id");
            reveal_strlit("splice_amount_sats");
            assert("user_channel_id"@[0] != "splice_amount_sats"@[0]);
        }
        lemma_agree_at(a1, a2, "splice_amount_sats"@, "user_channel_id"@);
    } else if i == 3 {
        assert(props[3].0 == "address"@);
        assert("counterparty_node_id"@ != "address"@) by {
            reveal_strlit("counterparty_node_id");
            reveal_strlit("address");
            assert("counterparty_node_id"@[0] != "address"@[0]);
        }
        lemma_agree_at(a1, a2, "address"@, "counterparty_node_id"@);
        assert("splice_amount_sats"@ != "address"@) by {
            reveal_strlit("splice_amount_sats");
            reveal_strlit("address");
            assert("splice_amount_sats"@[0] != "address"@[0]);
        }
        lemma_agree_at(a1, a2, "address"@, "splice_amount_sats"@);
        assert("user_channel_id"@ != "address"@) by {
            reveal_strlit("user_channel_id");
            reveal_strlit("address");
            assert("user_channel_id"@[0] != "address"@[0]);
        }
        lemma_agree_at(a1, a2, "address"@, "user_channel_id"@);
    }
    lemma_first_missing_3(a1, ("user_channel_id"@, ParamType::String), ("counterparty_node_id"@, ParamType::String), ("splice_amount_sats"@, ParamType::Integer));
    lemma_first_missing_2(a1, ("counterparty_node_id"@, ParamType::String), ("splice_amount_sats"@, ParamType::Integer));
    lemma_first_missing_1(a1, ("splice_amount_sats"@, ParamType::Integer));
    lemma_first_missing_3(a2, ("user_channel_id"@, ParamType::String), ("counterparty_node_id"@, ParamType::String), ("splice_amount_sats"@, ParamType::Integer));
    lemma_first_missing_2(a2, ("counterparty_node_id"@, ParamType::String), ("splice_amount_sats"@, ParamType::Integer));
    lemma_first_missing_1(a2, ("splice_amount_sats"@, ParamType::Integer));
}

/// `lemma_properties_read_as_declared` for the tool `close_channel`.
proof fn lemma_close_channel_reads_as_declared(i: int, a1: ToolArgs, a2: ToolArgs)
    requires
        0 <= i < schema_model(ToolKind::CloseChannel).properties.len(),
        agree_except(a1, a2, schema_model(ToolKind::CloseChannel).properties[i].0),
        reads_alike(
            a1,
            a2,
            schema_model(ToolKind::CloseChannel).properties[i].0,
            schema_model(ToolKind::CloseChannel).properties[i].1,
        ),
    ensures
        tool_refusal(ToolKind::CloseChannel, a1) == tool_refusal(ToolKind::CloseChannel, a2),
        forall|req: ClientRequest|
            request_matches(ToolKind::CloseChannel, a1, req) == request_matches(ToolKind::CloseChannel, a2, req),
{
    let props = schema_model(ToolKind::CloseChannel).properties;
    if i == 0 {
        assert(props[0].0 == "user_channel_id"@);
        assert("counterparty_node_id"@ != "user_channel_id"@) by {
            reveal_strlit("counterparty_node_id");
            reveal_strlit("user_channel_id");
            assert("counterparty_node_id"@[0] != "user_channel_id"@[0]);
        }
        lemma_agree_at(a1, a2, "user_channel_id"@, "counterparty_node_id"@);
    } else if i == 1 {
        assert(props[1].0 == "counterparty_node_id"@);
        assert("user_channel_id"@ != "counterparty_node_id"@) by {
            reveal_strlit("user_channel_id");
            reveal_strlit("counterparty_node_id");
            assert("user_channel_id"@[0] != "counterparty_node_id"@[0]);
        }
        lemma_agree_at(a1, a2, "counterparty_node_id"@, "user_channel_id"@);
    }
    lemma_first_missing_2(a1, ("user_channel_id"@, ParamType::String), ("counterparty_node_id"@, ParamType::String));
    lemma_first_missing_1(a1, ("counterparty_node_id"@, ParamType::String));
    lemma_first_missing_2(a2, ("user_channel_id"@, ParamType::String), ("counterparty_node_id"@, ParamType::String));
    lemma_first_missing_1(a2, ("counterparty_node_id"@, ParamType::String));
}

/// `lemma_properties_read_as_declared` for the tool `force_close_channel`.
proof fn lemma_force_close_channel_reads_as_declared(i: int, a1: ToolArgs, a2: ToolArgs)
    requires
        0 <= i < schema_model(ToolKind::ForceCloseChannel).properties.len(),
        agree_except(a1, a2, schema_model(ToolKind::ForceCloseChannel).properties[i].0),
        reads_alike(
            a1,
            a2,
            schema_model(ToolKind::ForceCloseChannel).properties[i].0,
            schema_model(ToolKind::ForceCloseChannel).properties[i].1,
        ),
    ensures
        tool_refusal(ToolKind::ForceCloseChannel, a1) == tool_refusal(ToolKind::ForceCloseChannel, a2),
        forall|req: ClientRequest|
            request_matches(ToolKind::ForceCloseChannel, a1, req) == request_matches(ToolKind::ForceCloseChannel, a2, req),
{
    let props = schema_model(ToolKind::ForceCloseChannel).properties;
    if i == 0 {
        assert(props[0].0 == "user_channel_id"@);
        assert("counterparty_node_id"@ != "user_channel_id"@) by {
            reveal_strlit("counterparty_node_id");
            reveal_strlit("user_channel_id");
            assert("counterparty_node_id"@[0] != "user_channel_id"@[0]);
        }
        lemma_agree_at(a1, a2, "user_channel_id"@, "counterparty_node_id"@);
        assert("force_close_reason"@ != "user_channel_id"@) by {
            reveal_strlit("force_close_reason");
            reveal_strlit("user_channel_id");
            assert("force_close_reason"@[0] != "user_channel_id"@[0]);
        }
        lemma_agree_at(a1, a2, "user_channel_id"@, "force_close_reason"@);
    } else if i == 1 {
        assert(props[1].0 == "counterparty_node_id"@);
        assert("force_close_reason"@ != "counterparty_node_id"@) by {
            reveal_strlit("force_close_reason");
            reveal_strlit("counterparty_node_id");
            assert("force_close_reason"@[0] != "counterparty_node_id"@[0]);
        }
        lemma_agree_at(a1, a2, "counterparty_node_id"@, "force_close_reason"@);
        assert("user_channel_id"@ != "counterparty_node_id"@) by {
            reveal_strlit("user_channel_id");
            reveal_strlit("counterparty_node_id");
            assert("user_channel_id"@[0] != "counterparty_node_id"@[0]);
        }
        lemma_agree_at(a1, a2, "counterparty_node_id"@, "user_channel_id"@);
    } else if i == 2 {
        assert(props[2].0 == "force_close_reason"@);
        assert("counterparty_node_id"@ != "force_close_reason"@) by {
            reveal_strlit("counterparty_node_id");
            reveal_strlit("force_close_reason");
            assert("counterparty_node_id"@[0] != "force_close_reason"@[0]);
        }
        lemma_agree_at(a1, a2, "force_close_reason"@, "counterparty_node_id"@);
        assert("user_channel_id"@ != "force_close_reason"@) by {
            reveal_strlit("user_channel_id");
            reveal_strlit("force_close_reason");
            assert("user_channel_id"@[0] != "force_close_reason"@[0]);
        }
        lemma_agree_at(a1, a2, "force_close_reason"@, "user_channel_id"@);
    }
    lemma_first_missing_2(a1, ("user_channel_id"@, ParamType::String), ("counterparty_node_id"@, ParamType::String));
    lemma_first_missing_1(a1, ("counterparty_node_id"@, ParamType::String));
    lemma_first_missing_2(a2, ("user_channel_id"@, ParamType::String), ("counterparty_node_id"@, ParamType::String));
    lemma_first_missing_1(a2, ("counterparty_node_id"@, ParamType::String));
}

/// `lemma_properties_read_as_declared` for the tool `update_channel_config`.
proof fn lemma_update_channel_config_reads_as_declared(i: int, a1: ToolArgs, a2: ToolArgs)
    requires
        0 <= i < schema_model(ToolKind::UpdateChannelConfig).properties.len(),
        agree_except(a1, a2, schema_model(ToolKind::UpdateChannelConfig).properties[i].0),
        reads_alike(
            a1,
            a2,
            schema_model(ToolKind::UpdateChannelConfig).properties[i].0,
            schema_model(ToolKind::UpdateChannelConfig).properties[i].1,
        ),
    ensures
        tool_refusal(ToolKind::UpdateChannelConfig, a1) == tool_refusal(ToolKind::UpdateChannelConfig, a2),
        forall|req: ClientRequest|
            request_matches(ToolKind::UpdateChannelConfig, a1, req) == request_matches(ToolKind::UpdateChannelConfig, a2, req),
{
    let props = schema_model(ToolKind::UpdateChannelConfig).properties;
    if i == 0 {
        assert(props[0].0 == "user_channel_id"@);
        assert("cltv_expiry_delta"@ != "user_channel_id"@) by {
            reveal_strlit("cltv_expiry_delta");
            reveal_strlit("user_channel_id");
            assert("cltv_expiry_delta"@[0] != "user_channel_id"@[0]);
        }
        lemma_agree_at(a1, a2, "user_channel_id"@, "cltv_expiry_delta"@);
        assert("counterparty_node_id"@ != "user_channel_id"@) by {
            reveal_strlit("counterparty_node_id");
            reveal_strlit("user_channel_id");
            assert("counterparty_node_id"@[0] != "user_channel_id"@[0]);
        }
        lemma_agree_at(a1, a2, "user_channel_id"@, "counterparty_node_id"@);
        assert("forwarding_fee_base_msat"@ != "user_channel_id"@) by {
            reveal_strlit("forwarding_fee_base_msat");
            reveal_strlit("user_channel_id");
            assert("forwarding_fee_base_msat"@[0] != "user_channel_id"@[0]);
        }
        lemma_agree_at(a1, a2, "user_channel_id"@, "forwarding_fee_base_msat"@);
        assert("forwarding_fee_proportional_millionths"@ != "user_channel_id"@) by {
            reveal_strlit("forwarding_fee_proportional_millionths");
            reveal_strlit("user_channel_id");
            assert("forwarding_fee_proportional_millionths"@[0] != "user_channel_id"@[0]);
        }
        lemma_agree_at(a1, a2, "user_channel_id"@, "forwarding_fee_proportional_millionths"@);
    } else if i == 1 {
        assert(props[1].0 == "counterparty_node_id"@);
        assert("cltv_expiry_delta"@ != "counterparty_node_id"@) by {
            reveal_strlit("cltv_expiry_delta");
            reveal_strlit("counterparty_node_id");
            assert("cltv_expiry_delta"@[1] != "counterparty_node_id"@[1]);
        }
        lemma_agree_at(a1, a2, "counterparty_node_id"@, "cltv_expiry_delta"@);
        assert("forwarding_fee_base_msat"@ != "counterparty_node_id"@) by {
            reveal_strlit("forwarding_fee_base_msat");
            reveal_strlit("counterparty_node_id");
            assert("forwarding_fee_base_msat"@[0] != "counterparty_node_id"@[0]);
        }
        lemma_agree_at(a1, a2, "counterparty_node_id"@, "forwarding_fee_base_msat"@);
        assert("forwarding_fee_proportional_millionths"@ != "counterparty_node_id"@) by {
            reveal_strlit("forwarding_fee_proportional_millionths");
            reveal_strlit("counterparty_node_id");
            assert("forwarding_fee_proportional_millionths"@[0] != "counterparty_node_id"@[0]);
        }
        lemma_agree_at(a1, a2, "counterparty_node_id"@, "forwarding_fee_proportional_millionths"@);
        assert("user_channel_id"@ != "counterparty_node_id"@) by {
            reveal_strlit("user_channel_id");
            reveal_strlit("counterparty_node_id");
            assert("user_channel_id"@[0] != "counterparty_node_id"@[0]);
        }
        lemma_agree_at(a1, a2, "counterparty_node_id"@, "user_channel_id"@);
    } else if i == 2 {
        assert(props[2].0 == "forwarding_fee_proportional_millionths"@);
        assert("cltv_expiry_delta"@ != "forwarding_fee_proportional_millionths"@) by {
            reveal_strlit("cltv_expiry_delta");
            reveal_strlit("forwarding_fee_proportional_millionths");
            assert("cltv_expiry_delta"@[0] != "forwarding_fee_proportional_millionths"@[0]);
        }
        lemma_agree_at(a1, a2, "forwarding_fee_proportional_millionths"@, "cltv_expiry_delta"@);
        assert("counterparty_node_id"@ != "forwarding_fee_proportional_millionths"@) by {
            reveal_strlit("counterparty_node_id");
            reveal_strlit("forwarding_fee_proportional_millionths");
            assert("counterparty_node_id"@[0] != "forwarding_fee_proportional_millionths"@[0]);
        }
        lemma_agree_at(a1, a2, "forwarding_fee_proportional_millionths"@, "counterparty_node_id"@);
        assert("forwarding_fee_base_msat"@ != "forwarding_fee_proportional_millionths"@) by {
            reveal_strlit("forwarding_fee_base_msat");
            reveal_strlit("forwarding_fee_proportional_millionths");
            assert("forwarding_fee_base_msat"@[15] != "forwarding_fee_proportional_millionths"@[15]);
        }
        lemma_agree_at(a1, a2, "forwarding_fee_proportional_millionths"@, "forwarding_fee_base_msat"@);
        assert("user_channel_id"@ != "forwarding_fee_proportional_millionths"@) by {
            reveal_strlit("user_channel_id");
            reveal_strlit("forwarding_fee_proportional_millionths");
            assert("user_channel_id"@[0] != "forwarding_fee_proportional_millionths"@[0]);
        }
        lemma_agree_at(a1, a2, "forwarding_fee_proportional_millionths"@, "user_channel_id"@);
    } else if i == 3 {
        assert(props[3].0 == "forwarding_fee_base_msat"@);
        assert("cltv_expiry_delta"@ != "forwarding_fee_base_msat"@) by {
            reveal_strlit("cltv_expiry_delta");
            reveal_strlit("forwarding_fee_base_msat");
            assert("cltv_expiry_delta"@[0] != "forwarding_fee_base_msat"@[0]);
        }
        lemma_agree_at(a1, a2, "forwarding_fee_base_msat"@, "cltv_expiry_delta"@);
        assert("counterparty_node_id"@ != "forwarding_fee_base_msat"@) by {
            reveal_strlit("counterparty_node_id");
            reveal_strlit("forwarding_fee_base_msat");
            assert("counterparty_node_id"@[0] != "forwarding_fee_base_msat"@[0]);
        }
        lemma_agree_at(a1, a2, "forwarding_fee_base_msat"@, "counterparty_node_id"@);
        assert("forwarding_fee_proportional_millionths"@ != "forwarding_fee_base_msat"@) by {
            reveal_strlit("forwarding_fee_proportional_millionths");
            reveal_strlit("forwarding_fee_base_msat");
            assert("forwarding_fee_proportional_millionths"@[15] != "forwarding_fee_base_msat"@[15]);
        }
        lemma_agree_at(a1, a2, "forwarding_fee_base_msat"@, "forwarding_fee_proportional_millionths"@);
        assert("user_channel_id"@ != "forwarding_fee_base_msat"@) by {
            reveal_strlit("user_channel_id");
            reveal_strlit("forwarding_fee_base_msat");
            assert("user_channel_id"@[0] != "forwarding_fee_base_msat"@[0]);
        }
        lemma_agree_at(a1, a2, "forwarding_fee_base_msat"@, "user_channel_id"@);
    } else if i == 4 {
        assert(props[4].0 == "cltv_expiry_delta"@);
        assert("counterparty_node_id"@ != "cltv_expiry_delta"@) by {
            reveal_strlit("counterparty_node_id");
            reveal_strlit("cltv_expiry_delta");
            assert("counterparty_node_id"@[1] != "cltv_expiry_delta"@[1]);
        }
        lemma_agree_at(a1, a2, "cltv_expiry_delta"@, "counterparty_node_id"@);
        assert("forwarding_fee_base_msat"@ != "cltv_expiry_delta"@) by {
            reveal_strlit("forwarding_fee_base_msat");
            reveal_strlit("cltv_expiry_delta");
            assert("forwarding_fee_base_msat"@[0] != "cltv_expiry_delta"@[0]);
        }
        lemma_agree_at(a1, a2, "cltv_expiry_delta"@, "forwarding_fee_base_msat"@);
        assert("forwarding_fee_proportional_millionths"@ != "cltv_expiry_delta"@) by {
            reveal_strlit("forwarding_fee_proportional_millionths");
            reveal_strlit("cltv_expiry_delta");
            assert("forwarding_fee_proportional_millionths"@[0] != "cltv_expiry_delta"@[0]);
        }
        lemma_agree_at(a1, a2, "cltv_expiry_delta"@, "forwarding_fee_proportional_millionths"@);
        assert("user_channel_id"@ != "cltv_expiry_delta"@) by {
            reveal_strlit("user_channel_id");
            reveal_strlit("cltv_expiry_delta");
            assert("user_channel_id"@[0] != "cltv_expiry_delta"@[0]);
        }
        lemma_agree_at(a1, a2, "cltv_expiry_delta"@, "user_channel_id"@);
    }
    lemma_first_missing_2(a1, ("user_channel_id"@, ParamType::String), ("counterparty_node_id"@, ParamType::String));
    lemma_first_missing_1(a1, ("counterparty_node_id"@, ParamType::String));
    lemma_first_missing_2(a2, ("user_channel_id"@, ParamType::String), ("counterparty_node_id"@, ParamType::String));
    lemma_first_missing_1(a2, ("counterparty_node_id"@, ParamType::String));
}

/// `lemma_properties_read_as_declared` for the tool `list_payments`.
proof fn lemma_list_payments_reads_as_declared(i: int, a1: ToolArgs, a2: ToolArgs)
    requires
        0 <= i < schema_model(ToolKind::ListPayments).properties.len(),
        agree_except(a1, a2, schema_model(ToolKind::ListPayments).properties[i].0),
        reads_alike(
            a1,
            a2,
            schema_model(ToolKind::ListPayments).properties[i].0,
            schema_model(ToolKind::ListPayments).properties[i].1,
        ),
    ensures
        tool_refusal(ToolKind::ListPayments, a1) == tool_refusal(ToolKind::ListPayments, a2),
        forall|req: ClientRequest|
            request_matches(ToolKind::ListPayments, a1, req) == request_matches(ToolKind::ListPayments, a2, req),
{
    let props = schema_model(ToolKind::ListPayments).properties;
    if i == 0 {
        assert(props[0].0 == "page_token"@);
    }
}

/// `lemma_properties_read_as_declared` for the tool `get_payment_details`.
proof fn lemma_get_payment_details_reads_as_declared(i: int, a1: ToolArgs, a2: ToolArgs)
    requires
        0 <= i < schema_model(ToolKind::GetPaymentDetails).properties.len(),
        agree_except(a1, a2, schema_model(ToolKind::GetPaymentDetails).properties[i].0),
        reads_alike(
            a1,
            a2,
            schema_model(ToolKind::GetPaymentDetails).properties[i].0,
            schema_model(ToolKind::GetPaymentDetails).properties[i].1,
        ),
    ensures
        tool_refusal(ToolKind::GetPaymentDetails, a1) == tool_refusal(ToolKind::GetPaymentDetails, a2),
        forall|req: ClientRequest|
            request_matches(ToolKind::GetPaymentDetails, a1, req) == request_matches(ToolKind::GetPaymentDetails, a2, req),
{
    let props = schema_model(ToolKind::GetPaymentDetails).properties;
    if i == 0 {
        assert(props[0].0 == "payment_id"@);
    }
    lemma_first_missing_1(a1, ("payment_id"@, ParamType::String));
    lemma_first_missing_1(a2, ("payment_id"@, ParamType::String));
}

/// `lemma_properties_read_as_declared` for the tool `list_forwarded_payments`.
proof fn lemma_list_forwarded_payments_reads_as_declared(i: int, a1: ToolArgs, a2: ToolArgs)
    requires
        0 <= i < schema_model(ToolKind::ListForwardedPayments).properties.len(),
        agree_except(a1, a2, schema_model(ToolKind::ListForwardedPayments).properties[i].0),
        reads_alike(
            a1,
            a2,
            schema_model(ToolKind::ListForwardedPayments).properties[i].0,
            schema_model(ToolKind::ListForwardedPayments).properties[i].1,
        ),
    ensures
        tool_refusal(ToolKind::ListForwardedPayments, a1) == tool_refusal(ToolKind::ListForwardedPayments, a2),
        forall|req: ClientRequest|
            request_matches(ToolKind::ListForwardedPayments, a1, req) == request_matches(ToolKind::ListForwardedPayments, a2, req),
{
    let props = schema_model(ToolKind::ListForwardedPayments).properties;
    if i == 0 {
        assert(props[0].0 == "page_token"@);
    }
}

/// `lemma_properties_read_as_declared` for the tool `connect_peer`.
proof fn lemma_connect_peer_reads_as_declared(i: int, a1: ToolArgs, a2: ToolArgs)
    requires
        0 <= i < schema_model(ToolKind::ConnectPeer).properties.len(),
        agree_except(a1, a2, schema_model(ToolKind::ConnectPeer).properties[i].0),
        reads_alike(
            a1,
            a2,
            schema_model(ToolKind::ConnectPeer).properties[i].0,
            schema_model(ToolKind::ConnectPeer).properties[i].1,
        ),
    ensures
        tool_refusal(ToolKind::ConnectPeer, a1) == tool_refusal(ToolKind::ConnectPeer, a2),
        forall|req: ClientRequest|
            request_matches(ToolKind::ConnectPeer, a1, req) == request_matches(ToolKind::ConnectPeer, a2, req),
{
    let props = schema_model(ToolKind::ConnectPeer).properties;
    if i == 0 {
        assert(props[0].0 == "node_pubkey"@);
        assert("address"@ != "node_pubkey"@) by {
            reveal_strlit("address");
            reveal_strlit("node_pubkey");
            assert("address"@[0] != "node_pubkey"@[0]);
        }
        lemma_agree_at(a1, a2, "node_pubkey"@, "address"@);
        assert("persist"@ != "node_pubkey"@) by {
            reveal_strlit("persist");
            reveal_strlit("node_pubkey");
            assert("persist"@[0] != "node_pubkey"@[0]);
        }
        lemma_agree_at(a1, a2, "node_pubkey"@, "persist"@);
    } else if i == 1 {
        assert(props[1].0 == "address"@);
        assert("node_pubkey"@ != "address"@) by {
            reveal_strlit("node_pubkey");
            reveal_strlit("address");
            assert("node_pubkey"@[0] != "address"@[0]);
        }
        lemma_agree_at(a1, a2, "address"@, "node_pubkey"@);
        assert("persist"@ != "address"@) by {
            reveal_strlit("persist");
            reveal_strlit("address");
            assert("persist"@[0] != "address"@[0]);
        }
        lemma_agree_at(a1, a2, "address"@, "persist"@);
    } else if i == 2 {
        assert(props[2].0 == "persist"@);
        assert("address"@ != "persist"@) by {
            reveal_strlit("address");
            reveal_strlit("persist");
            assert("address"@[0] != "persist"@[0]);
        }
        lemma_agree_at(a1, a2, "persist"@, "address"@);
        assert("node_pubkey"@ != "persist"@) by {
            reveal_strlit("node_pubkey");
            reveal_strlit("persist");
            assert("node_pubkey"@[0] != "persist"@[0]);
        }
        lemma_agree_at(a1, a2, "persist"@, "node_pubkey"@);
    }
    lemma_first_missing_2(a1, ("node_pubkey"@, ParamType::String), ("address"@, ParamType::String));
    lemma_first_missing_1(a1, ("address"@, ParamType::String));
    lemma_first_missing_2(a2, ("node_pubkey"@, ParamType::String), ("address"@, ParamType::String));
    lemma_first_missing_1(a2, ("address"@, ParamType::String));
}

/// `lemma_properties_read_as_declared` for the tool `disconnect_peer`.
proof fn lemma_disconnect_peer_reads_as_declared(i: int, a1: ToolArgs, a2: ToolArgs)
    requires
        0 <= i < schema_model(ToolKind::DisconnectPeer).properties.len(),
        agree_except(a1, a2, schema_model(ToolKind::DisconnectPeer).properties[i].0),
        reads_alike(
            a1,
            a2,
            schema_model(ToolKind::DisconnectPeer).properties[i].0,
            schema_model(ToolKind::DisconnectPeer).properties[i].1,
        ),
    ensures
        tool_refusal(ToolKind::DisconnectPeer, a1) == tool_refusal(ToolKind::DisconnectPeer, a2),
        forall|req: ClientRequest|
            request_matches(ToolKind::DisconnectPeer, a1, req) == request_matches(ToolKind::DisconnectPeer, a2, req),
{
    let props = schema_model(ToolKind::DisconnectPeer).properties;
    if i == 0 {
        assert(props[0].0 == "node_pubkey"@);
    }
    lemma_first_missing_1(a1, ("node_pubkey"@, ParamType::String));
    lemma_first_missing_1(a2, ("node_pubkey"@, ParamType::String));
}

/// `lemma_properties_read_as_declared` for the tool `sign_message`.
proof fn lemma_sign_message_reads_as_declared(i: int, a1: ToolArgs, a2: ToolArgs)
    requires
        0 <= i < schema_model(ToolKind::SignMessage).properties.len(),
        agree_except(a1, a2, schema_model(ToolKind::SignMessage).properties[i].0),
        reads_alike(
            a1,
            a2,
            schema_model(ToolKind::SignMessage).properties[i].0,
            schema_model(ToolKind::SignMessage).properties[i].1,
        ),
    ensures
        tool_refusal(ToolKind::SignMessage, a1) == tool_refusal(ToolKind::SignMessage, a2),
        forall|req: ClientRequest|
            request_matches(ToolKind::SignMessage, a1, req) == request_matches(ToolKind::SignMessage, a2, req),
{
    let props = schema_model(ToolKind::SignMessage).properties;
    if i == 0 {
        assert(props[0].0 == "message"@);
    }
    lemma_first_missing_1(a1, ("message"@, ParamType::String));
    lemma_first_missing_1(a2, ("message"@, ParamType::String));
}

/// `lemma_properties_read_as_declared` for the tool `verify_signature`.
proof fn lemma_verify_signature_reads_as_declared(i: int, a1: ToolArgs, a2: ToolArgs)
    requires
        0 <= i < schema_model(ToolKind::VerifySignature).properties.len(),
        agree_except(a1, a2, schema_model(ToolKind::VerifySignature).properties[i].0),
        reads_alike(
            a1,
            a2,
            schema_model(ToolKind::VerifySignature).properties[i].0,
            schema_model(ToolKind::VerifySignature).properties[i].1,
        ),
    ensures
        tool_refusal(ToolKind::VerifySignature, a1) == tool_refusal(ToolKind::VerifySignature, a2),
        forall|req: ClientRequest|
            request_matches(ToolKind::VerifySignature, a1, req) == request_matches(ToolKind::VerifySignature, a2, req),
{
    let props = schema_model(ToolKind::VerifySignature).properties;
    if i == 0 {
        assert(props[0].0 == "message"@);
        assert("public_key"@ != "message"@) by {
            reveal_strlit("public_key");
            reveal_strlit("message");
            assert("public_key"@[0] != "message"@[0]);
        }
        lemma_agree_at(a1, a2, "message"@, "public_key"@);
        assert("signature"@ != "message"@) by {
            reveal_strlit("signature");
            reveal_strlit("message");
            assert("signature"@[0] != "message"@[0]);
        }
        lemma_agree_at(a1, a2, "message"@, "signature"@);
    } else if i == 1 {
        assert(props[1].0 == "signature"@);
        assert("message"@ != "signature"@) by {
            reveal_strlit("message");
            reveal_strlit("signature");
            assert("message"@[0] != "signature"@[0]);
        }
        lemma_agree_at(a1, a2, "signature"@, "message"@);
        assert("public_key"@ != "signature"@) by {
            reveal_strlit("public_key");
            reveal_strlit("signature");
            assert("public_key"@[0] != "signature"@[0]);
        }
        lemma_agree_at(a1, a2, "signature"@, "public_key"@);
    } else if i == 2 {
        assert(props[2].0 == "public_key"@);
        assert("message"@ != "public_key"@) by {
            reveal_strlit("message");
            reveal_strlit("public_key");
            assert("message"@[0] != "public_key"@[0]);
        }
        lemma_agree_at(a1, a2, "public_key"@, "message"@);
        assert("signature"@ != "public_key"@) by {
            reveal_strlit("signature");
            reveal_strlit("public_key");
            assert("signature"@[0] != "public_key"@[0]);
        }
        lemma_agree_at(a1, a2, "public_key"@, "signature"@);
    }
    lemma_first_missing_3(a1, ("message"@, ParamType::String), ("signature"@, ParamType::String), ("public_key"@, ParamType::String));
    lemma_first_missing_2(a1, ("signature"@, ParamType::String), ("public_key"@, ParamType::String));
    lemma_first_missing_1(a1, ("public_key"@, ParamType::String));
    lemma_first_missing_3(a2, ("message"@, ParamType::String), ("signature"@, ParamType::String), ("public_key"@, ParamType::String));
    lemma_first_missing_2(a2, ("signature"@, ParamType::String), ("public_key"@, ParamType::String));
    lemma_first_missing_1(a2, ("public_key"@, ParamType::String));
}

/// `lemma_properties_read_as_declared` for the tool `graph_get_channel`.
proof fn lemma_graph_get_channel_reads_as_declared(i: int, a1: ToolArgs, a2: ToolArgs)
    requires
        0 <= i < schema_model(ToolKind::GraphGetChannel).properties.len(),
        agree_except(a1, a2, schema_model(ToolKind::GraphGetChannel).properties[i].0),
        reads_alike(
            a1,
            a2,
            schema_model(ToolKind::GraphGetChannel).properties[i].0,
            schema_model(ToolKind::GraphGetChannel).properties[i].1,
        ),
    ensures
        tool_refusal(ToolKind::GraphGetChannel, a1) == tool_refusal(ToolKind::GraphGetChannel, a2),
        forall|req: ClientRequest|
            request_matches(ToolKind::GraphGetChannel, a1, req) == request_matches(ToolKind::GraphGetChannel, a2, req),
{
    let props = schema_model(ToolKind::GraphGetChannel).properties;
    if i == 0 {
        assert(props[0].0 == "short_channel_id"@);
    }
    lemma_first_missing_1(a1, ("short_channel_id"@, ParamType::Integer));
    lemma_first_missing_1(a2, ("short_channel_id"@, ParamType::Integer));
}

/// `lemma_properties_read_as_declared` for the tool `graph_get_node`.
proof fn lemma_graph_get_node_reads_as_declared(i: int, a1: ToolArgs, a2: ToolArgs)
    requires
        0 <= i < schema_model(ToolKind::GraphGetNode).properties.len(),
        agree_except(a1, a2, schema_model(ToolKind::GraphGetNode).properties[i].0),
        reads_alike(
            a1,
            a2,
            schema_model(ToolKind::GraphGetNode).properties[i].0,
            schema_model(ToolKind::GraphGetNode).properties[i].1,
        ),
    ensures
        tool_refusal(ToolKind::GraphGetNode, a1) == tool_refusal(ToolKind::GraphGetNode, a2),
        forall|req: ClientRequest|
            request_matches(ToolKind::GraphGetNode, a1, req) == request_matches(ToolKind::GraphGetNode, a2, req),
{
    let props = schema_model(ToolKind::GraphGetNode).properties;
    if i == 0 {
        assert(props[0].0 == "node_id"@);
    }
    lemma_first_missing_1(a1, ("node_id"@, ParamType::String));
    lemma_first_missing_1(a2, ("node_id"@, ParamType::String));
}

/// Each property that the schema of a registered tool declares is read by
/// the tool as the type that the schema gives it, and as nothing else: two
/// calls whose arguments differ only in that property, and read alike there as
/// the declared type, are refused alike and send the same requests. So a
/// value of another type counts as no value at all: an `amount_sats` of
/// `onchain_send`, declared an integer, is never read from a string.
pub proof fn lemma_properties_read_as_declared(kind: ToolKind, i: int, a1: ToolArgs, a2: ToolArgs)
    requires
        is_registered(kind),
        0 <= i < schema_model(kind).properties.len(),
        agree_except(a1, a2, schema_model(kind).properties[i].0),
        reads_alike(a1, a2, schema_model(kind).properties[i].0, schema_model(kind).properties[i].1),
    ensures
        tool_refusal(kind, a1) == tool_refusal(kind, a2),
        forall|req: ClientRequest| request_matches(kind, a1, req) == request_matches(kind, a2, req),
{
    match kind {
        ToolKind::OnchainSend => lemma_onchain_send_reads_as_declared(i, a1, a2),
        ToolKind::Bolt11Receive => lemma_bolt11_receive_reads_as_declared(i, a1, a2),
        ToolKind::Bolt11ReceiveViaJitChannel => lemma_bolt11_receive_via_jit_channel_reads_as_declared(i, a1, a2),
        ToolKind::Bolt11ReceiveVariableAmountViaJitChannel => lemma_bolt11_receive_variable_amount_via_jit_channel_reads_as_declared(i, a1, a2),
        ToolKind::Bolt11Send => lemma_bolt11_send_reads_as_declared(i, a1, a2),
        ToolKind::Bolt12Receive => lemma_bolt12_receive_reads_as_declared(i, a1, a2),
        ToolKind::Bolt12Send => lemma_bolt12_send_reads_as_declared(i, a1, a2),
        ToolKind::SpontaneousSend => lemma_spontaneous_send_reads_as_declared(i, a1, a2),
        ToolKind::OpenChannel => lemma_open_channel_reads_as_declared(i, a1, a2),
        ToolKind::SpliceIn => lemma_splice_in_reads_as_declared(i, a1, a2),
        ToolKind::SpliceOut => lemma_splice_out_reads_as_declared(i, a1, a2),
        ToolKind::CloseChannel => lemma_close_channel_reads_as_declared(i, a1, a2),
        ToolKind::ForceCloseChannel => lemma_force_close_channel_reads_as_declared(i, a1, a2),
        ToolKind::UpdateChannelConfig => lemma_update_channel_config_reads_as_declared(i, a1, a2),
        ToolKind::ListPayments => lemma_list_payments_reads_as_declared(i, a1, a2),
        ToolKind::GetPaymentDetails => lemma_get_payment_details_reads_as_declared(i, a1, a2),
        ToolKind::ListForwardedPayments => lemma_list_forwarded_payments_reads_as_declared(i, a1, a2),
        ToolKind::ConnectPeer => lemma_connect_peer_reads_as_declared(i, a1, a2),
        ToolKind::DisconnectPeer => lemma_disconnect_peer_reads_as_declared(i, a1, a2),
        ToolKind::SignMessage => lemma_sign_message_reads_as_declared(i, a1, a2),
        ToolKind::VerifySignature => lemma_verify_signature_reads_as_declared(i, a1, a2),
        ToolKind::GraphGetChannel => lemma_graph_get_channel_reads_as_declared(i, a1, a2),
        ToolKind::GraphGetNode => lemma_graph_get_node_reads_as_declared(i, a1, a2),
        _ => {},
    }
}

} // verus!
