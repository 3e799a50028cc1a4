//! How the arguments of each tool call become a request to the node.
//!
//! Every handler reads the call's arguments, refuses the call with an error
//! message when a required argument is missing or an argument is unusable, and
//! otherwise builds the request that the server sends to the node.
use vstd::prelude::*;
use vstd::string::*;

use crate::json_args::{opt_str, ArgValue, ToolArgs};
use crate::text::{
    int_decimal, lemma_parse_int_decimal, parse_i64, parse_i64_spec, push_char, push_i64_decimal,
};
use crate::tools::requests::{
    Bolt11ClaimForHashRequest, Bolt11FailForHashRequest, Bolt11InvoiceDescription,
    Bolt11ReceiveForHashRequest, Bolt11ReceiveRequest,
    Bolt11ReceiveVariableAmountViaJitChannelRequest, Bolt11ReceiveViaJitChannelRequest,
    Bolt11SendRequest, Bolt12ReceiveRequest, Bolt12SendRequest, ChannelConfig,
    CloseChannelRequest, ConnectPeerRequest, DecodeInvoiceRequest, DecodeOfferRequest,
    DisconnectPeerRequest, ForceCloseChannelRequest, GetPaymentDetailsRequest,
    GraphGetChannelRequest, GraphGetNodeRequest, ListForwardedPaymentsRequest,
    ListPaymentsRequest, OnchainSendRequest, OpenChannelRequest, PageToken,
    RouteParametersConfig, SignMessageRequest, SpliceInRequest, SpliceOutRequest,
    SpontaneousSendRequest, UnifiedSendRequest, UpdateChannelConfigRequest,
    VerifySignatureRequest,
};
use crate::tools::schema::ParamType;
use crate::tools::ToolKind;
use vstd::slice::slice_to_vec;
use vstd::utf8::encode_utf8;

pub use crate::text::hex_encode;
use crate::text::hex_spec;

verus! {

pub const DEFAULT_MAX_TOTAL_CLTV_EXPIRY_DELTA: u32 = 1008;

pub const DEFAULT_MAX_PATH_COUNT: u32 = 10;

pub const DEFAULT_MAX_CHANNEL_SATURATION_POWER_OF_HALF: u32 = 2;

pub const DEFAULT_EXPIRY_SECS: u32 = 86_400;

/// The error for a call that lacks a required argument.
pub open spec fn missing_param(name: Seq<char>) -> Seq<char> {
    "Missing required parameter: "@ + name
}

/// Whether the arguments supply `key` as a value of type `ty`.
pub open spec fn supplies(args: ToolArgs, key: Seq<char>, ty: ParamType) -> bool {
    match ty {
        ParamType::String => args.str_arg(key) is Some,
        ParamType::Integer => args.u64_arg(key) is Some,
        ParamType::Boolean => args.bool_arg(key) is Some,
    }
}

/// The first of the required arguments that the call does not supply.
pub open spec fn first_missing(args: ToolArgs, required: Seq<(Seq<char>, ParamType)>) -> Option<
    Seq<char>,
>
    decreases required.len(),
{
    if required.len() == 0 {
        None
    } else if !supplies(args, required[0].0, required[0].1) {
        Some(required[0].0)
    } else {
        first_missing(args, required.drop_first())
    }
}

/// The refusal for the first required argument that is missing, if any.
pub open spec fn missing_refusal(args: ToolArgs, required: Seq<(Seq<char>, ParamType)>) -> Option<
    Seq<char>,
> {
    match first_missing(args, required) {
        Some(p) => Some(missing_param(p)),
        None => None,
    }
}

/// The first missing of one required argument.
pub(crate) proof fn lemma_first_missing_1(args: ToolArgs, a: (Seq<char>, ParamType))
    ensures
        first_missing(args, seq![a]) == if !supplies(args, a.0, a.1) {
            Some(a.0)
        } else {
            None::<Seq<char>>
        },
{
    assert(seq![a].drop_first() =~= Seq::<(Seq<char>, ParamType)>::empty());
    assert(first_missing(args, Seq::<(Seq<char>, ParamType)>::empty()) is None);
    assert(seq![a][0] == a);
}

/// The first missing of two required arguments.
pub(crate) proof fn lemma_first_missing_2(
    args: ToolArgs,
    a: (Seq<char>, ParamType),
    b: (Seq<char>, ParamType),
)
    ensures
        first_missing(args, seq![a, b]) == if !supplies(args, a.0, a.1) {
            Some(a.0)
        } else {
            first_missing(args, seq![b])
        },
{
    assert(seq![a, b].drop_first() =~= seq![b]);
}

/// The first missing of three required arguments.
pub(crate) proof fn lemma_first_missing_3(
    args: ToolArgs,
    a: (Seq<char>, ParamType),
    b: (Seq<char>, ParamType),
    c: (Seq<char>, ParamType),
)
    ensures
        first_missing(args, seq![a, b, c]) == if !supplies(args, a.0, a.1) {
            Some(a.0)
        } else {
            first_missing(args, seq![b, c])
        },
{
    assert(seq![a, b, c].drop_first() =~= seq![b, c]);
}

/// Argument `key` as a `u32`: a `u64` argument cut to its low 32 bits.
pub open spec fn u32_arg(args: ToolArgs, key: Seq<char>) -> Option<u32> {
    match args.u64_arg(key) {
        Some(v) => Some(v as u32),
        None => None,
    }
}

/// Argument `key` as a `u32`, or `default` when it is not given.
pub open spec fn u32_arg_or(args: ToolArgs, key: Seq<char>, default: u32) -> u32 {
    match u32_arg(args, key) {
        Some(v) => v,
        None => default,
    }
}

fn missing(name: &str) -> (e: String)
    ensures
        e@ == missing_param(name@),
{
    let mut e = String::from_str("Missing required parameter: ");
    e.append(name);
    e
}

/// A required string argument.
fn required_str(args: &ToolArgs, key: &str) -> (r: Result<String, String>)
    ensures
        match r {
            Ok(s) => args.str_arg(key@) == Some(s@),
            Err(e) => args.str_arg(key@) is None && e@ == missing_param(key@),
        },
{
    match args.get_str(key) {
        Some(s) => Ok(s),
        None => Err(missing(key)),
    }
}

/// A required unsigned integer argument.
fn required_u64(args: &ToolArgs, key: &str) -> (r: Result<u64, String>)
    ensures
        match r {
            Ok(v) => args.u64_arg(key@) == Some(v),
            Err(e) => args.u64_arg(key@) is None && e@ == missing_param(key@),
        },
{
    match args.get_u64(key) {
        Some(v) => Ok(v),
        None => Err(missing(key)),
    }
}

/// An optional argument read as a `u32` (the low 32 bits of a `u64`).
fn optional_u32(args: &ToolArgs, key: &str) -> (r: Option<u32>)
    ensures
        r == u32_arg(*args, key@),
{
    match args.get_u64(key) {
        Some(v) => Some(#[verifier::truncate] (v as u32)),
        None => None,
    }
}

/// The invoice expiry: argument `expiry_secs`, one day by default.
fn expiry_secs(args: &ToolArgs) -> (r: u32)
    ensures
        r == u32_arg_or(*args, "expiry_secs"@, DEFAULT_EXPIRY_SECS),
{
    match optional_u32(args, "expiry_secs") {
        Some(v) => v,
        None => DEFAULT_EXPIRY_SECS,
    }
}

// ---------------------------------------------------------------------------
// Page tokens
// ---------------------------------------------------------------------------

/// The number of occurrences of `c` in `s`.
pub open spec fn count_char(s: Seq<char>, c: char) -> nat
    decreases s.len(),
{
    if s.len() == 0 {
        0
    } else {
        count_char(s.drop_last(), c) + if s.last() == c {
            1nat
        } else {
            0nat
        }
    }
}

/// The position of the first `c` in `s`, or the length of `s` when there is none.
pub open spec fn first_index_of(s: Seq<char>, c: char) -> int
    decreases s.len(),
{
    if s.len() == 0 {
        0
    } else {
        let p = s.drop_last();
        if first_index_of(p, c) < p.len() {
            first_index_of(p, c)
        } else if s.last() == c {
            p.len() as int
        } else {
            s.len() as int
        }
    }
}

/// The text of a page token: the token, a colon, and the index in decimal.
pub open spec fn page_token_text(token: Seq<char>, index: i64) -> Seq<char> {
    token + seq![':'] + int_decimal(index as int)
}

/// What `parse_page_token` makes of a text: exactly one colon, with the token
/// before it and a decimal `i64` index after it.
pub open spec fn page_token_spec(s: Seq<char>) -> Result<(Seq<char>, i64), Seq<char>> {
    if count_char(s, ':') != 1 {
        Err("Page token must be in format 'token:index'"@)
    } else {
        let k = first_index_of(s, ':');
        match parse_i64_spec(s.subrange(k + 1, s.len() as int)) {
            Some(i) => Ok((s.subrange(0, k), i)),
            None => Err("Invalid page token index"@),
        }
    }
}

proof fn lemma_first_index_bounds(s: Seq<char>, c: char)
    ensures
        0 <= first_index_of(s, c) <= s.len(),
        first_index_of(s, c) < s.len() ==> s[first_index_of(s, c)] == c,
        first_index_of(s, c) < s.len() ==> count_char(s, c) > 0,
        first_index_of(s, c) == s.len() ==> count_char(s, c) == 0,
    decreases s.len(),
{
    if s.len() > 0 {
        let p = s.drop_last();
        lemma_first_index_bounds(p, c);
        if first_index_of(p, c) < p.len() {
            assert(s[first_index_of(p, c)] == p[first_index_of(p, c)]);
        }
    }
}

/// Occurrences add up over a concatenation.
proof fn lemma_count_concat(a: Seq<char>, b: Seq<char>, c: char)
    ensures
        count_char(a + b, c) == count_char(a, c) + count_char(b, c),
    decreases b.len(),
{
    if b.len() == 0 {
        assert(a + b =~= a);
    } else {
        lemma_count_concat(a, b.drop_last(), c);
        assert((a + b).drop_last() =~= a + b.drop_last());
    }
}

/// A string without `c` has no `c` to find.
proof fn lemma_count_zero(s: Seq<char>, c: char)
    requires
        forall|i: int| 0 <= i < s.len() ==> s[i] != c,
    ensures
        count_char(s, c) == 0,
        first_index_of(s, c) == s.len(),
    decreases s.len(),
{
    if s.len() > 0 {
        lemma_count_zero(s.drop_last(), c);
    }
}

/// The first `c` of `a + b`, when `a` holds none and `b` starts with one.
proof fn lemma_first_index_concat(a: Seq<char>, b: Seq<char>, c: char)
    requires
        count_char(a, c) == 0,
        b.len() > 0,
        b[0] == c,
    ensures
        first_index_of(a + b, c) == a.len(),
    decreases b.len(),
{
    lemma_first_index_bounds(a, c);
    if b.len() == 1 {
        assert((a + b).drop_last() =~= a);
    } else {
        lemma_first_index_concat(a, b.drop_last(), c);
        assert((a + b).drop_last() =~= a + b.drop_last());
    }
}

/// Reading back the text of a page token whose token holds no colon gives
/// the same token and index.
pub proof fn lemma_page_token_round_trip(token: Seq<char>, index: i64)
    requires
        count_char(token, ':') == 0,
    ensures
        page_token_spec(page_token_text(token, index)) == Ok::<(Seq<char>, i64), Seq<char>>((token, index)),
{
    let d = int_decimal(index as int);
    let s = page_token_text(token, index);
    let colon_d = seq![':'] + d;
    assert(s =~= token + colon_d);
    assert forall|i: int| 0 <= i < d.len() implies d[i] != ':' by {
        if index < 0 {
            crate::text::lemma_nat_decimal((-(index as int)) as nat);
            if i > 0 {
                assert(d[i] == crate::text::nat_decimal((-(index as int)) as nat)[i - 1]);
            }
        } else {
            crate::text::lemma_nat_decimal(index as nat);
        }
    }
    lemma_count_zero(d, ':');
    lemma_count_concat(seq![':'], d, ':');
    assert(count_char(seq![':'], ':') == 1) by {
        let one = seq![':'];
        assert(one.drop_last() =~= Seq::<char>::empty());
        assert(count_char(Seq::<char>::empty(), ':') == 0);
        assert(one.last() == ':');
    }
    lemma_count_concat(token, colon_d, ':');
    lemma_first_index_concat(token, colon_d, ':');
    assert(s.subrange(token.len() as int + 1, s.len() as int) =~= d);
    assert(s.subrange(0, token.len() as int) =~= token);
    lemma_parse_int_decimal(index);
}

/// Reads a page token written as `token:index`.
pub fn parse_page_token(token_str: &str) -> (r: Result<PageToken, String>)
    ensures
        match r {
            Ok(pt) => page_token_spec(token_str@) == Ok::<(Seq<char>, i64), Seq<char>>(
                (pt.token@, pt.index),
            ),
            Err(e) => page_token_spec(token_str@) == Err::<(Seq<char>, i64), Seq<char>>(e@),
        },
{
    let n = token_str.unicode_len();
    let mut colons: usize = 0;
    let mut first: usize = 0;
    let mut i: usize = 0;
    while i < n
        invariant
            n == token_str@.len(),
            i <= n,
            colons == count_char(token_str@.take(i as int), ':'),
            first == first_index_of(token_str@.take(i as int), ':'),
            colons <= i,
        decreases n - i,
    {
        let c = token_str.get_char(i);
        let ghost t = token_str@.take(i + 1);
        assert(t.drop_last() =~= token_str@.take(i as int));
        if first == i && c == ':' {
            first = i;
        } else if first == i {
            first = i + 1;
        }
        if c == ':' {
            colons = colons + 1;
        }
        i = i + 1;
    }
    assert(token_str@.take(n as int) =~= token_str@);
    if colons != 1 {
        return Err(String::from_str("Page token must be in format 'token:index'"));
    }
    proof {
        lemma_first_index_bounds(token_str@, ':');
    }
    let token = token_str.substring_char(0, first);
    let index_str = token_str.substring_char(first + 1, n);
    match parse_i64(index_str) {
        Some(index) => Ok(PageToken { token: String::from_str(token), index }),
        None => Err(String::from_str("Invalid page token index")),
    }
}

/// Writes a page token as `token:index`.
pub fn format_page_token(pt: &PageToken) -> (r: String)
    ensures
        r@ == page_token_text(pt.token@, pt.index),
{
    let mut r = pt.token.clone();
    push_char(&mut r, ':');
    push_i64_decimal(&mut r, pt.index);
    assert(r@ =~= page_token_text(pt.token@, pt.index));
    r
}

/// The `next_page_token` member of a listing's answer: the node's next page
/// token written as `token:index`, when the node gives one.
pub fn next_page_token_text(next: &Option<PageToken>) -> (r: Option<String>)
    ensures
        match next {
            Some(pt) => r matches Some(t) && t@ == page_token_text(pt.token@, pt.index),
            None => r is None,
        },
{
    match next {
        Some(pt) => Some(format_page_token(pt)),
        None => None,
    }
}

/// The one member of the answer of `export_pathfinding_scores`: its name,
/// and the scores in lowercase hex.
pub fn pathfinding_scores_member(scores: &[u8]) -> (r: (String, String))
    ensures
        r.0@ == "pathfinding_scores"@,
        r.1@ == hex_spec(scores@),
{
    (String::from_str("pathfinding_scores"), hex_encode(scores))
}

// ---------------------------------------------------------------------------
// Shared parts of requests
// ---------------------------------------------------------------------------

/// The route limits that a payment request carries.
pub open spec fn route_parameters_match(args: ToolArgs, r: RouteParametersConfig) -> bool {
    &&& r.max_total_routing_fee_msat == args.u64_arg("max_total_routing_fee_msat"@)
    &&& r.max_total_cltv_expiry_delta == u32_arg_or(
        args,
        "max_total_cltv_expiry_delta"@,
        DEFAULT_MAX_TOTAL_CLTV_EXPIRY_DELTA,
    )
    &&& r.max_path_count == u32_arg_or(args, "max_path_count"@, DEFAULT_MAX_PATH_COUNT)
    &&& r.max_channel_saturation_power_of_half == u32_arg_or(
        args,
        "max_channel_saturation_power_of_half"@,
        DEFAULT_MAX_CHANNEL_SATURATION_POWER_OF_HALF,
    )
}

/// Builds the route limits of a payment from its arguments, with the
/// defaults 1008 (CLTV delta), 10 (paths) and 2 (channel saturation).
pub fn build_route_parameters(args: &ToolArgs) -> (r: RouteParametersConfig)
    ensures
        route_parameters_match(*args, r),
{
    RouteParametersConfig {
        max_total_routing_fee_msat: args.get_u64("max_total_routing_fee_msat"),
        max_total_cltv_expiry_delta: match optional_u32(args, "max_total_cltv_expiry_delta") {
            Some(v) => v,
            None => DEFAULT_MAX_TOTAL_CLTV_EXPIRY_DELTA,
        },
        max_path_count: match optional_u32(args, "max_path_count") {
            Some(v) => v,
            None => DEFAULT_MAX_PATH_COUNT,
        },
        max_channel_saturation_power_of_half: match optional_u32(
            args,
            "max_channel_saturation_power_of_half",
        ) {
            Some(v) => v,
            None => DEFAULT_MAX_CHANNEL_SATURATION_POWER_OF_HALF,
        },
    }
}

/// The forwarding settings given in the arguments.
pub open spec fn channel_config_match(args: ToolArgs, c: ChannelConfig) -> bool {
    &&& c.forwarding_fee_proportional_millionths == u32_arg(
        args,
        "forwarding_fee_proportional_millionths"@,
    )
    &&& c.forwarding_fee_base_msat == u32_arg(args, "forwarding_fee_base_msat"@)
    &&& c.cltv_expiry_delta == u32_arg(args, "cltv_expiry_delta"@)
}

/// Whether the arguments give any forwarding setting.
pub open spec fn channel_config_given(args: ToolArgs) -> bool {
    ||| u32_arg(args, "forwarding_fee_proportional_millionths"@) is Some
    ||| u32_arg(args, "forwarding_fee_base_msat"@) is Some
    ||| u32_arg(args, "cltv_expiry_delta"@) is Some
}

fn read_channel_config(args: &ToolArgs) -> (c: ChannelConfig)
    ensures
        channel_config_match(*args, c),
{
    ChannelConfig {
        forwarding_fee_proportional_millionths: optional_u32(
            args,
            "forwarding_fee_proportional_millionths",
        ),
        forwarding_fee_base_msat: optional_u32(args, "forwarding_fee_base_msat"),
        cltv_expiry_delta: optional_u32(args, "cltv_expiry_delta"),
    }
}

/// Builds the forwarding settings of a new channel: none when the arguments
/// give no setting.
pub fn build_channel_config(args: &ToolArgs) -> (r: Option<ChannelConfig>)
    ensures
        match r {
            Some(c) => channel_config_given(*args) && channel_config_match(*args, c),
            None => !channel_config_given(*args),
        },
{
    let c = read_channel_config(args);
    if c.forwarding_fee_proportional_millionths.is_none() && c.forwarding_fee_base_msat.is_none()
        && c.cltv_expiry_delta.is_none() {
        return None;
    }
    Some(c)
}

/// The refusal when both a description and its hash are given.
pub open spec fn description_refusal(args: ToolArgs) -> Option<Seq<char>> {
    if args.str_arg("description"@) is Some && args.str_arg("description_hash"@) is Some {
        Some("Only one of description or description_hash can be set"@)
    } else {
        None
    }
}

/// The invoice description that the arguments give.
pub open spec fn description_match(args: ToolArgs, d: Option<Bolt11InvoiceDescription>) -> bool {
    match (args.str_arg("description"@), args.str_arg("description_hash"@)) {
        (Some(t), None) => d matches Some(Bolt11InvoiceDescription::Direct(s)) && s@ == t,
        (None, Some(h)) => d matches Some(Bolt11InvoiceDescription::Hash(s)) && s@ == h,
        _ => d is None,
    }
}

/// Builds the description of a BOLT11 invoice from `description` or
/// `description_hash`; giving both is refused.
pub fn build_bolt11_invoice_description(args: &ToolArgs) -> (r: Result<
    Option<Bolt11InvoiceDescription>,
    String,
>)
    ensures
        match r {
            Ok(d) => description_refusal(*args) is None && description_match(*args, d),
            Err(e) => description_refusal(*args) == Some(e@),
        },
{
    let description_str = args.get_str("description");
    let description_hash = args.get_str("description_hash");
    match (description_str, description_hash) {
        (Some(desc), None) => Ok(Some(Bolt11InvoiceDescription::Direct(desc))),
        (None, Some(hash)) => Ok(Some(Bolt11InvoiceDescription::Hash(hash))),
        (Some(_), Some(_)) => Err(
            String::from_str("Only one of description or description_hash can be set"),
        ),
        (None, None) => Ok(None),
    }
}

// ---------------------------------------------------------------------------
// Refusals
// ---------------------------------------------------------------------------

/// The refusal for a page token argument that cannot be read.
pub open spec fn page_token_refusal(args: ToolArgs) -> Option<Seq<char>> {
    match args.str_arg("page_token"@) {
        Some(t) => match page_token_spec(t) {
            Ok(_) => None,
            Err(e) => Some(e),
        },
        None => None,
    }
}

/// The first of two refusals that applies.
pub open spec fn either(first: Option<Seq<char>>, second: Option<Seq<char>>) -> Option<Seq<char>> {
    if first is Some {
        first
    } else {
        second
    }
}

/// Why a call of tool `kind` with arguments `args` is refused, if it is: the
/// handler's checks, in the order in which it makes them.
pub open spec fn tool_refusal(kind: ToolKind, args: ToolArgs) -> Option<Seq<char>> {
    match kind {
        ToolKind::OnchainSend => missing_refusal(args, seq![("address"@, ParamType::String)]),
        ToolKind::Bolt11Receive => description_refusal(args),
        ToolKind::Bolt11ReceiveForHash => either(
            description_refusal(args),
            missing_refusal(args, seq![("payment_hash"@, ParamType::String)]),
        ),
        ToolKind::Bolt11ClaimForHash => missing_refusal(
            args,
            seq![("preimage"@, ParamType::String)],
        ),
        ToolKind::Bolt11FailForHash => missing_refusal(
            args,
            seq![("payment_hash"@, ParamType::String)],
        ),
        ToolKind::Bolt11ReceiveViaJitChannel => either(
            missing_refusal(args, seq![("amount_msat"@, ParamType::Integer)]),
            description_refusal(args),
        ),
        ToolKind::Bolt11ReceiveVariableAmountViaJitChannel => description_refusal(args),
        ToolKind::Bolt11Send => missing_refusal(args, seq![("invoice"@, ParamType::String)]),
        ToolKind::Bolt12Receive => missing_refusal(
            args,
            seq![("description"@, ParamType::String)],
        ),
        ToolKind::Bolt12Send => missing_refusal(args, seq![("offer"@, ParamType::String)]),
        ToolKind::SpontaneousSend => missing_refusal(
            args,
            seq![("amount_msat"@, ParamType::Integer), ("node_id"@, ParamType::String)],
        ),
        ToolKind::UnifiedSend => missing_refusal(args, seq![("uri"@, ParamType::String)]),
        ToolKind::OpenChannel => missing_refusal(
            args,
            seq![
                ("node_pubkey"@, ParamType::String),
                ("address"@, ParamType::String),
                ("channel_amount_sats"@, ParamType::Integer),
            ],
        ),
        ToolKind::SpliceIn | ToolKind::SpliceOut => missing_refusal(
            args,
            seq![
                ("user_channel_id"@, ParamType::String),
                ("counterparty_node_id"@, ParamType::String),
                ("splice_amount_sats"@, ParamType::Integer),
            ],
        ),
        ToolKind::CloseChannel | ToolKind::ForceCloseChannel
        | ToolKind::UpdateChannelConfig => missing_refusal(
            args,
            seq![
                ("user_channel_id"@, ParamType::String),
                ("counterparty_node_id"@, ParamType::String),
            ],
        ),
        ToolKind::ListPayments | ToolKind::ListForwardedPayments => page_token_refusal(args),
        ToolKind::GetPaymentDetails => missing_refusal(
            args,
            seq![("payment_id"@, ParamType::String)],
        ),
        ToolKind::ConnectPeer => missing_refusal(
            args,
            seq![("node_pubkey"@, ParamType::String), ("address"@, ParamType::String)],
        ),
        ToolKind::DisconnectPeer => missing_refusal(
            args,
            seq![("node_pubkey"@, ParamType::String)],
        ),
        ToolKind::DecodeInvoice => missing_refusal(args, seq![("invoice"@, ParamType::String)]),
        ToolKind::DecodeOffer => missing_refusal(args, seq![("offer"@, ParamType::String)]),
        ToolKind::SignMessage => missing_refusal(args, seq![("message"@, ParamType::String)]),
        ToolKind::VerifySignature => missing_refusal(
            args,
            seq![
                ("message"@, ParamType::String),
                ("signature"@, ParamType::String),
                ("public_key"@, ParamType::String),
            ],
        ),
        ToolKind::GraphGetChannel => missing_refusal(
            args,
            seq![("short_channel_id"@, ParamType::Integer)],
        ),
        ToolKind::GraphGetNode => missing_refusal(args, seq![("node_id"@, ParamType::String)]),
        _ => None,
    }
}

/// A boolean argument, `false` when it is not given.
pub open spec fn bool_arg_or_false(args: ToolArgs, key: Seq<char>) -> bool {
    match args.bool_arg(key) {
        Some(b) => b,
        None => false,
    }
}

/// A page token argument, read.
pub open spec fn page_token_match(args: ToolArgs, p: Option<PageToken>) -> bool {
    match args.str_arg("page_token"@) {
        Some(t) => p matches Some(pt) && page_token_spec(t) == Ok::<(Seq<char>, i64), Seq<char>>(
            (pt.token@, pt.index),
        ),
        None => p is None,
    }
}

// ---------------------------------------------------------------------------
// What each request holds
// ---------------------------------------------------------------------------

pub open spec fn onchain_send_match(args: ToolArgs, r: OnchainSendRequest) -> bool {
    &&& args.str_arg("address"@) == Some(r.address@)
    &&& r.amount_sats == args.u64_arg("amount_sats"@)
    &&& r.send_all == args.bool_arg("send_all"@)
    &&& r.fee_rate_sat_per_vb == args.u64_arg("fee_rate_sat_per_vb"@)
}

pub open spec fn bolt11_receive_match(args: ToolArgs, r: Bolt11ReceiveRequest) -> bool {
    &&& description_match(args, r.description)
    &&& r.expiry_secs == u32_arg_or(args, "expiry_secs"@, DEFAULT_EXPIRY_SECS)
    &&& r.amount_msat == args.u64_arg("amount_msat"@)
}

pub open spec fn bolt11_receive_for_hash_match(
    args: ToolArgs,
    r: Bolt11ReceiveForHashRequest,
) -> bool {
    &&& r.amount_msat == args.u64_arg("amount_msat"@)
    &&& description_match(args, r.description)
    &&& r.expiry_secs == u32_arg_or(args, "expiry_secs"@, DEFAULT_EXPIRY_SECS)
    &&& args.str_arg("payment_hash"@) == Some(r.payment_hash@)
}

pub open spec fn bolt11_claim_for_hash_match(args: ToolArgs, r: Bolt11ClaimForHashRequest) -> bool {
    &&& opt_str(r.payment_hash) == args.str_arg("payment_hash"@)
    &&& r.claimable_amount_msat == args.u64_arg("claimable_amount_msat"@)
    &&& args.str_arg("preimage"@) == Some(r.preimage@)
}

pub open spec fn bolt11_fail_for_hash_match(args: ToolArgs, r: Bolt11FailForHashRequest) -> bool {
    args.str_arg("payment_hash"@) == Some(r.payment_hash@)
}

pub open spec fn bolt11_receive_via_jit_channel_match(
    args: ToolArgs,
    r: Bolt11ReceiveViaJitChannelRequest,
) -> bool {
    &&& args.u64_arg("amount_msat"@) == Some(r.amount_msat)
    &&& description_match(args, r.description)
    &&& r.expiry_secs == u32_arg_or(args, "expiry_secs"@, DEFAULT_EXPIRY_SECS)
    &&& r.max_total_lsp_fee_limit_msat == args.u64_arg("max_total_lsp_fee_limit_msat"@)
}

pub open spec fn bolt11_receive_variable_amount_via_jit_channel_match(
    args: ToolArgs,
    r: Bolt11ReceiveVariableAmountViaJitChannelRequest,
) -> bool {
    &&& description_match(args, r.description)
    &&& r.expiry_secs == u32_arg_or(args, "expiry_secs"@, DEFAULT_EXPIRY_SECS)
    &&& r.max_proportional_lsp_fee_limit_ppm_msat == args.u64_arg(
        "max_proportional_lsp_fee_limit_ppm_msat"@,
    )
}

pub open spec fn bolt11_send_match(args: ToolArgs, r: Bolt11SendRequest) -> bool {
    &&& args.str_arg("invoice"@) == Some(r.invoice@)
    &&& r.amount_msat == args.u64_arg("amount_msat"@)
    &&& r.route_parameters matches Some(p) && route_parameters_match(args, p)
}

pub open spec fn bolt12_receive_match(args: ToolArgs, r: Bolt12ReceiveRequest) -> bool {
    &&& args.str_arg("description"@) == Some(r.description@)
    &&& r.amount_msat == args.u64_arg("amount_msat"@)
    &&& r.expiry_secs == u32_arg(args, "expiry_secs"@)
    &&& r.quantity == args.u64_arg("quantity"@)
}

pub open spec fn bolt12_send_match(args: ToolArgs, r: Bolt12SendRequest) -> bool {
    &&& args.str_arg("offer"@) == Some(r.offer@)
    &&& r.amount_msat == args.u64_arg("amount_msat"@)
    &&& r.quantity == args.u64_arg("quantity"@)
    &&& opt_str(r.payer_note) == args.str_arg("payer_note"@)
    &&& r.route_parameters matches Some(p) && route_parameters_match(args, p)
}

pub open spec fn spontaneous_send_match(args: ToolArgs, r: SpontaneousSendRequest) -> bool {
    &&& args.u64_arg("amount_msat"@) == Some(r.amount_msat)
    &&& args.str_arg("node_id"@) == Some(r.node_id@)
    &&& r.route_parameters matches Some(p) && route_parameters_match(args, p)
}

pub open spec fn unified_send_match(args: ToolArgs, r: UnifiedSendRequest) -> bool {
    &&& args.str_arg("uri"@) == Some(r.uri@)
    &&& r.amount_msat == args.u64_arg("amount_msat"@)
    &&& r.route_parameters matches Some(p) && route_parameters_match(args, p)
}

pub open spec fn open_channel_match(args: ToolArgs, r: OpenChannelRequest) -> bool {
    &&& args.str_arg("node_pubkey"@) == Some(r.node_pubkey@)
    &&& args.str_arg("address"@) == Some(r.address@)
    &&& args.u64_arg("channel_amount_sats"@) == Some(r.channel_amount_sats)
    &&& r.push_to_counterparty_msat == args.u64_arg("push_to_counterparty_msat"@)
    &&& (r.channel_config is Some <==> channel_config_given(args))
    &&& (r.channel_config matches Some(c) ==> channel_config_match(args, c))
    &&& r.announce_channel == bool_arg_or_false(args, "announce_channel"@)
    &&& !r.disable_counterparty_reserve
}

pub open spec fn splice_in_match(args: ToolArgs, r: SpliceInRequest) -> bool {
    &&& args.str_arg("user_channel_id"@) == Some(r.user_channel_id@)
    &&& args.str_arg("counterparty_node_id"@) == Some(r.counterparty_node_id@)
    &&& args.u64_arg("splice_amount_sats"@) == Some(r.splice_amount_sats)
}

pub open spec fn splice_out_match(args: ToolArgs, r: SpliceOutRequest) -> bool {
    &&& args.str_arg("user_channel_id"@) == Some(r.user_channel_id@)
    &&& args.str_arg("counterparty_node_id"@) == Some(r.counterparty_node_id@)
    &&& args.u64_arg("splice_amount_sats"@) == Some(r.splice_amount_sats)
    &&& opt_str(r.address) == args.str_arg("address"@)
}

pub open spec fn close_channel_match(args: ToolArgs, r: CloseChannelRequest) -> bool {
    &&& args.str_arg("user_channel_id"@) == Some(r.user_channel_id@)
    &&& args.str_arg("counterparty_node_id"@) == Some(r.counterparty_node_id@)
}

pub open spec fn force_close_channel_match(args: ToolArgs, r: ForceCloseChannelRequest) -> bool {
    &&& args.str_arg("user_channel_id"@) == Some(r.user_channel_id@)
    &&& args.str_arg("counterparty_node_id"@) == Some(r.counterparty_node_id@)
    &&& opt_str(r.force_close_reason) == args.str_arg("force_close_reason"@)
}

pub open spec fn update_channel_config_match(
    args: ToolArgs,
    r: UpdateChannelConfigRequest,
) -> bool {
    &&& args.str_arg("user_channel_id"@) == Some(r.user_channel_id@)
    &&& args.str_arg("counterparty_node_id"@) == Some(r.counterparty_node_id@)
    &&& r.channel_config matches Some(c) && channel_config_match(args, c)
}

pub open spec fn list_payments_match(args: ToolArgs, r: ListPaymentsRequest) -> bool {
    page_token_match(args, r.page_token)
}

pub open spec fn get_payment_details_match(args: ToolArgs, r: GetPaymentDetailsRequest) -> bool {
    args.str_arg("payment_id"@) == Some(r.payment_id@)
}

pub open spec fn list_forwarded_payments_match(
    args: ToolArgs,
    r: ListForwardedPaymentsRequest,
) -> bool {
    page_token_match(args, r.page_token)
}

pub open spec fn connect_peer_match(args: ToolArgs, r: ConnectPeerRequest) -> bool {
    &&& args.str_arg("node_pubkey"@) == Some(r.node_pubkey@)
    &&& args.str_arg("address"@) == Some(r.address@)
    &&& r.persist == bool_arg_or_false(args, "persist"@)
}

pub open spec fn disconnect_peer_match(args: ToolArgs, r: DisconnectPeerRequest) -> bool {
    args.str_arg("node_pubkey"@) == Some(r.node_pubkey@)
}

pub open spec fn decode_invoice_match(args: ToolArgs, r: DecodeInvoiceRequest) -> bool {
    args.str_arg("invoice"@) == Some(r.invoice@)
}

pub open spec fn decode_offer_match(args: ToolArgs, r: DecodeOfferRequest) -> bool {
    args.str_arg("offer"@) == Some(r.offer@)
}

/// The message to sign is the UTF-8 encoding of argument `message`.
pub open spec fn sign_message_match(args: ToolArgs, r: SignMessageRequest) -> bool {
    args.str_arg("message"@) matches Some(m) && r.message@ == encode_utf8(m)
}

pub open spec fn verify_signature_match(args: ToolArgs, r: VerifySignatureRequest) -> bool {
    &&& args.str_arg("message"@) matches Some(m) && r.message@ == encode_utf8(m)
    &&& args.str_arg("signature"@) == Some(r.signature@)
    &&& args.str_arg("public_key"@) == Some(r.public_key@)
}

pub open spec fn graph_get_channel_match(args: ToolArgs, r: GraphGetChannelRequest) -> bool {
    args.u64_arg("short_channel_id"@) == Some(r.short_channel_id)
}

pub open spec fn graph_get_node_match(args: ToolArgs, r: GraphGetNodeRequest) -> bool {
    args.str_arg("node_id"@) == Some(r.node_id@)
}

// ---------------------------------------------------------------------------
// Handlers
// ---------------------------------------------------------------------------

/// The UTF-8 bytes of a string.
fn utf8_bytes(s: &String) -> (b: Vec<u8>)
    ensures
        b@ == encode_utf8(s@),
{
    slice_to_vec(s.as_str().as_bytes())
}

/// The request of tool `onchain_send` (send an on-chain Bitcoin payment to an address).
pub fn handle_onchain_send(args: &ToolArgs) -> (r: Result<OnchainSendRequest, String>)
    ensures
        match r {
            Ok(req) => tool_refusal(ToolKind::OnchainSend, *args) is None && onchain_send_match(
                *args,
                req,
            ),
            Err(e) => tool_refusal(ToolKind::OnchainSend, *args) == Some(e@),
        },
{
    proof {
        lemma_first_missing_1(*args, ("address"@, ParamType::String));
    }
    let address = required_str(args, "address")?;
    let amount_sats = args.get_u64("amount_sats");
    let send_all = args.get_bool("send_all");
    let fee_rate_sat_per_vb = args.get_u64("fee_rate_sat_per_vb");
    Ok(OnchainSendRequest { address, amount_sats, send_all, fee_rate_sat_per_vb })
}

/// The request of tool `bolt11_receive` (create a BOLT11 Lightning invoice to receive a payment).
pub fn handle_bolt11_receive(args: &ToolArgs) -> (r: Result<Bolt11ReceiveRequest, String>)
    ensures
        match r {
            Ok(req) => tool_refusal(ToolKind::Bolt11Receive, *args) is None
                && bolt11_receive_match(*args, req),
            Err(e) => tool_refusal(ToolKind::Bolt11Receive, *args) == Some(e@),
        },
{
    let amount_msat = args.get_u64("amount_msat");
    let invoice_description = build_bolt11_invoice_description(args)?;
    let expiry_secs = expiry_secs(args);
    Ok(Bolt11ReceiveRequest { description: invoice_description, expiry_secs, amount_msat })
}

/// The request of tool `bolt11_receive_for_hash` (create a BOLT11 Lightning invoice for a specific payment hash).
pub fn handle_bolt11_receive_for_hash(args: &ToolArgs) -> (r: Result<
    Bolt11ReceiveForHashRequest,
    String,
>)
    ensures
        match r {
            Ok(req) => tool_refusal(ToolKind::Bolt11ReceiveForHash, *args) is None
                && bolt11_receive_for_hash_match(*args, req),
            Err(e) => tool_refusal(ToolKind::Bolt11ReceiveForHash, *args) == Some(e@),
        },
{
    proof {
        lemma_first_missing_1(*args, ("payment_hash"@, ParamType::String));
    }
    let amount_msat = args.get_u64("amount_msat");
    let description = build_bolt11_invoice_description(args)?;
    let expiry_secs = expiry_secs(args);
    let payment_hash = required_str(args, "payment_hash")?;
    Ok(Bolt11ReceiveForHashRequest { amount_msat, description, expiry_secs, payment_hash })
}

/// The request of tool `bolt11_claim_for_hash` (manually claim a BOLT11 payment for a specific payment hash).
pub fn handle_bolt11_claim_for_hash(args: &ToolArgs) -> (r: Result<
    Bolt11ClaimForHashRequest,
    String,
>)
    ensures
        match r {
            Ok(req) => tool_refusal(ToolKind::Bolt11ClaimForHash, *args) is None
                && bolt11_claim_for_hash_match(*args, req),
            Err(e) => tool_refusal(ToolKind::Bolt11ClaimForHash, *args) == Some(e@),
        },
{
    proof {
        lemma_first_missing_1(*args, ("preimage"@, ParamType::String));
    }
    let payment_hash = args.get_str("payment_hash");
    let claimable_amount_msat = args.get_u64("claimable_amount_msat");
    let preimage = required_str(args, "preimage")?;
    Ok(Bolt11ClaimForHashRequest { payment_hash, claimable_amount_msat, preimage })
}

/// The request of tool `bolt11_fail_for_hash` (manually fail a BOLT11 payment for a specific payment hash).
pub fn handle_bolt11_fail_for_hash(args: &ToolArgs) -> (r: Result<
    Bolt11FailForHashRequest,
    String,
>)
    ensures
        match r {
            Ok(req) => tool_refusal(ToolKind::Bolt11FailForHash, *args) is None
                && bolt11_fail_for_hash_match(*args, req),
            Err(e) => tool_refusal(ToolKind::Bolt11FailForHash, *args) == Some(e@),
        },
{
    proof {
        lemma_first_missing_1(*args, ("payment_hash"@, ParamType::String));
    }
    let payment_hash = required_str(args, "payment_hash")?;
    Ok(Bolt11FailForHashRequest { payment_hash })
}

/// The request of tool `bolt11_receive_via_jit_channel` (create a BOLT11 Lightning invoice to receive via an LSPS2 JIT channel).
pub fn handle_bolt11_receive_via_jit_channel(args: &ToolArgs) -> (r: Result<
    Bolt11ReceiveViaJitChannelRequest,
    String,
>)
    ensures
        match r {
            Ok(req) => tool_refusal(ToolKind::Bolt11ReceiveViaJitChannel, *args) is None
                && bolt11_receive_via_jit_channel_match(*args, req),
            Err(e) => tool_refusal(ToolKind::Bolt11ReceiveViaJitChannel, *args) == Some(e@),
        },
{
    proof {
        lemma_first_missing_1(*args, ("amount_msat"@, ParamType::Integer));
    }
    let amount_msat = required_u64(args, "amount_msat")?;
    let description = build_bolt11_invoice_description(args)?;
    let expiry_secs = expiry_secs(args);
    let max_total_lsp_fee_limit_msat = args.get_u64("max_total_lsp_fee_limit_msat");
    Ok(
        Bolt11ReceiveViaJitChannelRequest {
            amount_msat,
            description,
            expiry_secs,
            max_total_lsp_fee_limit_msat,
        },
    )
}

/// The request of tool `bolt11_receive_variable_amount_via_jit_channel` (create a variable-amount BOLT11 Lightning invoice to receive via an LSPS2 JIT channel).
pub fn handle_bolt11_receive_variable_amount_via_jit_channel(args: &ToolArgs) -> (r: Result<
    Bolt11ReceiveVariableAmountViaJitChannelRequest,
    String,
>)
    ensures
        match r {
            Ok(req) => tool_refusal(ToolKind::Bolt11ReceiveVariableAmountViaJitChannel, *args) is None
                && bolt11_receive_variable_amount_via_jit_channel_match(*args, req),
            Err(e) => tool_refusal(ToolKind::Bolt11ReceiveVariableAmountViaJitChannel, *args) == Some(
                e@,
            ),
        },
{
    let description = build_bolt11_invoice_description(args)?;
    let expiry_secs = expiry_secs(args);
    let max_proportional_lsp_fee_limit_ppm_msat = args.get_u64(
        "max_proportional_lsp_fee_limit_ppm_msat",
    );
    Ok(
        Bolt11ReceiveVariableAmountViaJitChannelRequest {
            description,
            expiry_secs,
            max_proportional_lsp_fee_limit_ppm_msat,
        },
    )
}

/// The request of tool `bolt11_send` (pay a BOLT11 Lightning invoice).
pub fn handle_bolt11_send(args: &ToolArgs) -> (r: Result<Bolt11SendRequest, String>)
    ensures
        match r {
            Ok(req) => tool_refusal(ToolKind::Bolt11Send, *args) is None && bolt11_send_match(
                *args,
                req,
            ),
            Err(e) => tool_refusal(ToolKind::Bolt11Send, *args) == Some(e@),
        },
{
    proof {
        lemma_first_missing_1(*args, ("invoice"@, ParamType::String));
    }
    let invoice = required_str(args, "invoice")?;
    let amount_msat = args.get_u64("amount_msat");
    let route_parameters = build_route_parameters(args);
    Ok(Bolt11SendRequest { invoice, amount_msat, route_parameters: Some(route_parameters) })
}

/// The request of tool `bolt12_receive` (create a BOLT12 offer for receiving Lightning payments).
pub fn handle_bolt12_receive(args: &ToolArgs) -> (r: Result<Bolt12ReceiveRequest, String>)
    ensures
        match r {
            Ok(req) => tool_refusal(ToolKind::Bolt12Receive, *args) is None
                && bolt12_receive_match(*args, req),
            Err(e) => tool_refusal(ToolKind::Bolt12Receive, *args) == Some(e@),
        },
{
    proof {
        lemma_first_missing_1(*args, ("description"@, ParamType::String));
    }
    let description = required_str(args, "description")?;
    let amount_msat = args.get_u64("amount_msat");
    let expiry_secs = optional_u32(args, "expiry_secs");
    let quantity = args.get_u64("quantity");
    Ok(Bolt12ReceiveRequest { description, amount_msat, expiry_secs, quantity })
}

/// The request of tool `bolt12_send` (pay a BOLT12 Lightning offer).
pub fn handle_bolt12_send(args: &ToolArgs) -> (r: Result<Bolt12SendRequest, String>)
    ensures
        match r {
            Ok(req) => tool_refusal(ToolKind::Bolt12Send, *args) is None && bolt12_send_match(
                *args,
                req,
            ),
            Err(e) => tool_refusal(ToolKind::Bolt12Send, *args) == Some(e@),
        },
{
    proof {
        lemma_first_missing_1(*args, ("offer"@, ParamType::String));
    }
    let offer = required_str(args, "offer")?;
    let amount_msat = args.get_u64("amount_msat");
    let quantity = args.get_u64("quantity");
    let payer_note = args.get_str("payer_note");
    let route_parameters = build_route_parameters(args);
    Ok(
        Bolt12SendRequest {
            offer,
            amount_msat,
            quantity,
            payer_note,
            route_parameters: Some(route_parameters),
        },
    )
}

/// The request of tool `spontaneous_send` (send a spontaneous (keysend) payment to a Lightning node).
pub fn handle_spontaneous_send(args: &ToolArgs) -> (r: Result<SpontaneousSendRequest, String>)
    ensures
        match r {
            Ok(req) => tool_refusal(ToolKind::SpontaneousSend, *args) is None
                && spontaneous_send_match(*args, req),
            Err(e) => tool_refusal(ToolKind::SpontaneousSend, *args) == Some(e@),
        },
{
    proof {
        lemma_first_missing_2(
            *args,
            ("amount_msat"@, ParamType::Integer),
            ("node_id"@, ParamType::String),
        );
        lemma_first_missing_1(*args, ("node_id"@, ParamType::String));
    }
    let amount_msat = required_u64(args, "amount_msat")?;
    let node_id = required_str(args, "node_id")?;
    let route_parameters = build_route_parameters(args);
    Ok(SpontaneousSendRequest { amount_msat, node_id, route_parameters: Some(route_parameters) })
}

/// The request of tool `unified_send` (send a payment given a BIP 21 URI or BIP 353 Human-Readable Name).
pub fn handle_unified_send(args: &ToolArgs) -> (r: Result<UnifiedSendRequest, String>)
    ensures
        match r {
            Ok(req) => tool_refusal(ToolKind::UnifiedSend, *args) is None && unified_send_match(
                *args,
                req,
            ),
            Err(e) => tool_refusal(ToolKind::UnifiedSend, *args) == Some(e@),
        },
{
    proof {
        lemma_first_missing_1(*args, ("uri"@, ParamType::String));
    }
    let uri = required_str(args, "uri")?;
    let amount_msat = args.get_u64("amount_msat");
    let route_parameters = build_route_parameters(args);
    Ok(UnifiedSendRequest { uri, amount_msat, route_parameters: Some(route_parameters) })
}

/// The request of tool `open_channel` (open a new Lightning channel with a remote node).
pub fn handle_open_channel(args: &ToolArgs) -> (r: Result<OpenChannelRequest, String>)
    ensures
        match r {
            Ok(req) => tool_refusal(ToolKind::OpenChannel, *args) is None && open_channel_match(
                *args,
                req,
            ),
            Err(e) => tool_refusal(ToolKind::OpenChannel, *args) == Some(e@),
        },
{
    proof {
        lemma_first_missing_3(
            *args,
            ("node_pubkey"@, ParamType::String),
            ("address"@, ParamType::String),
            ("channel_amount_sats"@, ParamType::Integer),
        );
        lemma_first_missing_2(
            *args,
            ("address"@, ParamType::String),
            ("channel_amount_sats"@, ParamType::Integer),
        );
        lemma_first_missing_1(*args, ("channel_amount_sats"@, ParamType::Integer));
    }
    let node_pubkey = required_str(args, "node_pubkey")?;
    let address = required_str(args, "address")?;
    let channel_amount_sats = required_u64(args, "channel_amount_sats")?;
    let push_to_counterparty_msat = args.get_u64("push_to_counterparty_msat");
    let announce_channel = match args.get_bool("announce_channel") {
        Some(b) => b,
        None => false,
    };
    let channel_config = build_channel_config(args);
    Ok(
        OpenChannelRequest {
            node_pubkey,
            address,
            channel_amount_sats,
            push_to_counterparty_msat,
            channel_config,
            announce_channel,
            disable_counterparty_reserve: false,
        },
    )
}

/// The channel and counterparty that a channel operation names.
fn channel_ids(args: &ToolArgs) -> (r: Result<(String, String), String>)
    ensures
        match r {
            Ok((u, c)) => missing_refusal(
                *args,
                seq![
                    ("user_channel_id"@, ParamType::String),
                    ("counterparty_node_id"@, ParamType::String),
                ],
            ) is None && args.str_arg("user_channel_id"@) == Some(u@) && args.str_arg(
                "counterparty_node_id"@,
            ) == Some(c@),
            Err(e) => missing_refusal(
                *args,
                seq![
                    ("user_channel_id"@, ParamType::String),
                    ("counterparty_node_id"@, ParamType::String),
                ],
            ) == Some(e@),
        },
{
    proof {
        lemma_first_missing_2(
            *args,
            ("user_channel_id"@, ParamType::String),
            ("counterparty_node_id"@, ParamType::String),
        );
        lemma_first_missing_1(*args, ("counterparty_node_id"@, ParamType::String));
    }
    let user_channel_id = required_str(args, "user_channel_id")?;
    let counterparty_node_id = required_str(args, "counterparty_node_id")?;
    Ok((user_channel_id, counterparty_node_id))
}

/// The channel, counterparty and amount that a splice names.
fn splice_args(args: &ToolArgs) -> (r: Result<(String, String, u64), String>)
    ensures
        match r {
            Ok((u, c, a)) => tool_refusal(ToolKind::SpliceIn, *args) is None && args.str_arg(
                "user_channel_id"@,
            ) == Some(u@) && args.str_arg("counterparty_node_id"@) == Some(c@) && args.u64_arg(
                "splice_amount_sats"@,
            ) == Some(a),
            Err(e) => tool_refusal(ToolKind::SpliceIn, *args) == Some(e@),
        },
{
    proof {
        lemma_first_missing_3(
            *args,
            ("user_channel_id"@, ParamType::String),
            ("counterparty_node_id"@, ParamType::String),
            ("splice_amount_sats"@, ParamType::Integer),
        );
        lemma_first_missing_2(
            *args,
            ("counterparty_node_id"@, ParamType::String),
            ("splice_amount_sats"@, ParamType::Integer),
        );
        lemma_first_missing_1(*args, ("splice_amount_sats"@, ParamType::Integer));
    }
    let user_channel_id = required_str(args, "user_channel_id")?;
    let counterparty_node_id = required_str(args, "counterparty_node_id")?;
    let splice_amount_sats = required_u64(args, "splice_amount_sats")?;
    Ok((user_channel_id, counterparty_node_id, splice_amount_sats))
}

/// The request of tool `splice_in` (increase a channel's balance by splicing in on-chain funds).
pub fn handle_splice_in(args: &ToolArgs) -> (r: Result<SpliceInRequest, String>)
    ensures
        match r {
            Ok(req) => tool_refusal(ToolKind::SpliceIn, *args) is None && splice_in_match(
                *args,
                req,
            ),
            Err(e) => tool_refusal(ToolKind::SpliceIn, *args) == Some(e@),
        },
{
    let (user_channel_id, counterparty_node_id, splice_amount_sats) = splice_args(args)?;
    Ok(SpliceInRequest { user_channel_id, counterparty_node_id, splice_amount_sats })
}

/// The request of tool `splice_out` (decrease a channel's balance by splicing out to on-chain).
pub fn handle_splice_out(args: &ToolArgs) -> (r: Result<SpliceOutRequest, String>)
    ensures
        match r {
            Ok(req) => tool_refusal(ToolKind::SpliceOut, *args) is None && splice_out_match(
                *args,
                req,
            ),
            Err(e) => tool_refusal(ToolKind::SpliceOut, *args) == Some(e@),
        },
{
    let (user_channel_id, counterparty_node_id, splice_amount_sats) = splice_args(args)?;
    let address = args.get_str("address");
    Ok(SpliceOutRequest { user_channel_id, counterparty_node_id, address, splice_amount_sats })
}

/// The request of tool `close_channel` (cooperatively close a Lightning channel).
pub fn handle_close_channel(args: &ToolArgs) -> (r: Result<CloseChannelRequest, String>)
    ensures
        match r {
            Ok(req) => tool_refusal(ToolKind::CloseChannel, *args) is None && close_channel_match(
                *args,
                req,
            ),
            Err(e) => tool_refusal(ToolKind::CloseChannel, *args) == Some(e@),
        },
{
    let (user_channel_id, counterparty_node_id) = channel_ids(args)?;
    Ok(CloseChannelRequest { user_channel_id, counterparty_node_id })
}

/// The request of tool `force_close_channel` (force close a Lightning channel unilaterally).
pub fn handle_force_close_channel(args: &ToolArgs) -> (r: Result<
    ForceCloseChannelRequest,
    String,
>)
    ensures
        match r {
            Ok(req) => tool_refusal(ToolKind::ForceCloseChannel, *args) is None
                && force_close_channel_match(*args, req),
            Err(e) => tool_refusal(ToolKind::ForceCloseChannel, *args) == Some(e@),
        },
{
    let (user_channel_id, counterparty_node_id) = channel_ids(args)?;
    let force_close_reason = args.get_str("force_close_reason");
    Ok(ForceCloseChannelRequest { user_channel_id, counterparty_node_id, force_close_reason })
}

/// The request of tool `update_channel_config` (update forwarding fees and CLTV delta for a channel).
pub fn handle_update_channel_config(args: &ToolArgs) -> (r: Result<
    UpdateChannelConfigRequest,
    String,
>)
    ensures
        match r {
            Ok(req) => tool_refusal(ToolKind::UpdateChannelConfig, *args) is None
                && update_channel_config_match(*args, req),
            Err(e) => tool_refusal(ToolKind::UpdateChannelConfig, *args) == Some(e@),
        },
{
    let (user_channel_id, counterparty_node_id) = channel_ids(args)?;
    let channel_config = read_channel_config(args);
    Ok(
        UpdateChannelConfigRequest {
            user_channel_id,
            counterparty_node_id,
            channel_config: Some(channel_config),
        },
    )
}

/// Reads the optional `page_token` argument.
fn page_token_arg(args: &ToolArgs) -> (r: Result<Option<PageToken>, String>)
    ensures
        match r {
            Ok(p) => page_token_refusal(*args) is None && page_token_match(*args, p),
            Err(e) => page_token_refusal(*args) == Some(e@),
        },
{
    match args.get_str("page_token") {
        Some(token_str) => Ok(Some(parse_page_token(token_str.as_str())?)),
        None => Ok(None),
    }
}

/// The request of tool `list_payments` (list all payments (supports pagination via page_token)).
pub fn handle_list_payments(args: &ToolArgs) -> (r: Result<ListPaymentsRequest, String>)
    ensures
        match r {
            Ok(req) => tool_refusal(ToolKind::ListPayments, *args) is None && list_payments_match(
                *args,
                req,
            ),
            Err(e) => tool_refusal(ToolKind::ListPayments, *args) == Some(e@),
        },
{
    let page_token = page_token_arg(args)?;
    Ok(ListPaymentsRequest { page_token })
}

/// The request of tool `get_payment_details` (get details of a specific payment by its ID).
pub fn handle_get_payment_details(args: &ToolArgs) -> (r: Result<
    GetPaymentDetailsRequest,
    String,
>)
    ensures
        match r {
            Ok(req) => tool_refusal(ToolKind::GetPaymentDetails, *args) is None
                && get_payment_details_match(*args, req),
            Err(e) => tool_refusal(ToolKind::GetPaymentDetails, *args) == Some(e@),
        },
{
    proof {
        lemma_first_missing_1(*args, ("payment_id"@, ParamType::String));
    }
    let payment_id = required_str(args, "payment_id")?;
    Ok(GetPaymentDetailsRequest { payment_id })
}

/// The request of tool `list_forwarded_payments` (list all forwarded payments (supports pagination via page_token)).
pub fn handle_list_forwarded_payments(args: &ToolArgs) -> (r: Result<
    ListForwardedPaymentsRequest,
    String,
>)
    ensures
        match r {
            Ok(req) => tool_refusal(ToolKind::ListForwardedPayments, *args) is None
                && list_forwarded_payments_match(*args, req),
            Err(e) => tool_refusal(ToolKind::ListForwardedPayments, *args) == Some(e@),
        },
{
    let page_token = page_token_arg(args)?;
    Ok(ListForwardedPaymentsRequest { page_token })
}

/// The request of tool `connect_peer` (connect to a Lightning peer without opening a channel).
pub fn handle_connect_peer(args: &ToolArgs) -> (r: Result<ConnectPeerRequest, String>)
    ensures
        match r {
            Ok(req) => tool_refusal(ToolKind::ConnectPeer, *args) is None && connect_peer_match(
                *args,
                req,
            ),
            Err(e) => tool_refusal(ToolKind::ConnectPeer, *args) == Some(e@),
        },
{
    proof {
        lemma_first_missing_2(
            *args,
            ("node_pubkey"@, ParamType::String),
            ("address"@, ParamType::String),
        );
        lemma_first_missing_1(*args, ("address"@, ParamType::String));
    }
    let node_pubkey = required_str(args, "node_pubkey")?;
    let address = required_str(args, "address")?;
    let persist = match args.get_bool("persist") {
        Some(b) => b,
        None => false,
    };
    Ok(ConnectPeerRequest { node_pubkey, address, persist })
}

/// The request of tool `disconnect_peer` (disconnect from a Lightning peer).
pub fn handle_disconnect_peer(args: &ToolArgs) -> (r: Result<DisconnectPeerRequest, String>)
    ensures
        match r {
            Ok(req) => tool_refusal(ToolKind::DisconnectPeer, *args) is None
                && disconnect_peer_match(*args, req),
            Err(e) => tool_refusal(ToolKind::DisconnectPeer, *args) == Some(e@),
        },
{
    proof {
        lemma_first_missing_1(*args, ("node_pubkey"@, ParamType::String));
    }
    let node_pubkey = required_str(args, "node_pubkey")?;
    Ok(DisconnectPeerRequest { node_pubkey })
}

/// The request of tool `decode_invoice` (decode a BOLT11 invoice and return its parsed fields).
pub fn handle_decode_invoice(args: &ToolArgs) -> (r: Result<DecodeInvoiceRequest, String>)
    ensures
        match r {
            Ok(req) => tool_refusal(ToolKind::DecodeInvoice, *args) is None
                && decode_invoice_match(*args, req),
            Err(e) => tool_refusal(ToolKind::DecodeInvoice, *args) == Some(e@),
        },
{
    proof {
        lemma_first_missing_1(*args, ("invoice"@, ParamType::String));
    }
    let invoice = required_str(args, "invoice")?;
    Ok(DecodeInvoiceRequest { invoice })
}

/// The request of tool `decode_offer` (decode a BOLT12 offer and return its parsed fields).
pub fn handle_decode_offer(args: &ToolArgs) -> (r: Result<DecodeOfferRequest, String>)
    ensures
        match r {
            Ok(req) => tool_refusal(ToolKind::DecodeOffer, *args) is None && decode_offer_match(
                *args,
                req,
            ),
            Err(e) => tool_refusal(ToolKind::DecodeOffer, *args) == Some(e@),
        },
{
    proof {
        lemma_first_missing_1(*args, ("offer"@, ParamType::String));
    }
    let offer = required_str(args, "offer")?;
    Ok(DecodeOfferRequest { offer })
}

/// The request of tool `sign_message` (sign a message with the node's secret key).
pub fn handle_sign_message(args: &ToolArgs) -> (r: Result<SignMessageRequest, String>)
    ensures
        match r {
            Ok(req) => tool_refusal(ToolKind::SignMessage, *args) is None && sign_message_match(
                *args,
                req,
            ),
            Err(e) => tool_refusal(ToolKind::SignMessage, *args) == Some(e@),
        },
{
    proof {
        lemma_first_missing_1(*args, ("message"@, ParamType::String));
    }
    let message = required_str(args, "message")?;
    Ok(SignMessageRequest { message: utf8_bytes(&message) })
}

/// The request of tool `verify_signature` (verify a signature against a message and public key).
pub fn handle_verify_signature(args: &ToolArgs) -> (r: Result<VerifySignatureRequest, String>)
    ensures
        match r {
            Ok(req) => tool_refusal(ToolKind::VerifySignature, *args) is None
                && verify_signature_match(*args, req),
            Err(e) => tool_refusal(ToolKind::VerifySignature, *args) == Some(e@),
        },
{
    proof {
        lemma_first_missing_3(
            *args,
            ("message"@, ParamType::String),
            ("signature"@, ParamType::String),
            ("public_key"@, ParamType::String),
        );
        lemma_first_missing_2(
            *args,
            ("signature"@, ParamType::String),
            ("public_key"@, ParamType::String),
        );
        lemma_first_missing_1(*args, ("public_key"@, ParamType::String));
    }
    let message = required_str(args, "message")?;
    let signature = required_str(args, "signature")?;
    let public_key = required_str(args, "public_key")?;
    Ok(VerifySignatureRequest { message: utf8_bytes(&message), signature, public_key })
}

/// The request of tool `graph_get_channel` (get channel information from the network graph by short channel ID).
pub fn handle_graph_get_channel(args: &ToolArgs) -> (r: Result<GraphGetChannelRequest, String>)
    ensures
        match r {
            Ok(req) => tool_refusal(ToolKind::GraphGetChannel, *args) is None
                && graph_get_channel_match(*args, req),
            Err(e) => tool_refusal(ToolKind::GraphGetChannel, *args) == Some(e@),
        },
{
    proof {
        lemma_first_missing_1(*args, ("short_channel_id"@, ParamType::Integer));
    }
    let short_channel_id = required_u64(args, "short_channel_id")?;
    Ok(GraphGetChannelRequest { short_channel_id })
}

/// The request of tool `graph_get_node` (get node information from the network graph by node ID).
pub fn handle_graph_get_node(args: &ToolArgs) -> (r: Result<GraphGetNodeRequest, String>)
    ensures
        match r {
            Ok(req) => tool_refusal(ToolKind::GraphGetNode, *args) is None && graph_get_node_match(
                *args,
                req,
            ),
            Err(e) => tool_refusal(ToolKind::GraphGetNode, *args) == Some(e@),
        },
{
    proof {
        lemma_first_missing_1(*args, ("node_id"@, ParamType::String));
    }
    let node_id = required_str(args, "node_id")?;
    Ok(GraphGetNodeRequest { node_id })
}

} // verus!
