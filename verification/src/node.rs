//! What the node hands its component and add-on builders, and the payload
//! attribute overrides that let a dev chain run.
//!
//! The node's builder types come from the reth SDK; the decisions that the node
//! makes when it wires them up stand here, over the rollup settings it reads.

use crate::eth_api_builder::{ConduitOpEthApiBuilder, EthApiBuilderView, clone_url};
use alloy_primitives::B64;
use op_alloy_consensus::interop::SafetyLevel;
use reqwest::Url;
use vstd::prelude::*;

verus! {

#[verifier::external_type_specification]
#[verifier::external_body]
pub struct ExSafetyLevel(SafetyLevel);

#[verifier::external_type_specification]
#[verifier::external_body]
pub struct ExFixedBytes<const N: usize>(alloy_primitives::FixedBytes<N>);

/// The `B64` whose bytes are `bytes`, in order.
pub uninterp spec fn b64_of(bytes: Seq<u8>) -> B64;

/// `FixedBytes::<8>::from_slice` of alloy-primitives: the `B64` holding the 8
/// bytes of `bytes`, in order. It panics on a slice of another length, which
/// `requires` leaves out.
#[verifier::external_body]
fn b64_from_slice(bytes: &[u8]) -> (res: B64)
    requires
        bytes@.len() == 8,
    ensures
        res == b64_of(bytes@),
{
    B64::from_slice(bytes)
}

/// The rollup settings that the node reads when it wires up its components and
/// add-ons.
pub struct RollupArgs {
    /// HTTP endpoint of the sequencer.
    pub sequencer: Option<String>,
    /// Headers sent to the sequencer.
    pub sequencer_headers: Vec<String>,
    /// Endpoint that serves historical RPC requests.
    pub historical_rpc: Option<String>,
    /// Whether transaction pool gossip is disabled.
    pub disable_txpool_gossip: bool,
    /// Whether the pending block is computed.
    pub compute_pending_block: bool,
    /// Whether discovery v4 is enabled.
    pub discovery_v4: bool,
    /// Whether conditional transactions are accepted.
    pub enable_tx_conditional: bool,
    /// HTTP endpoint of the interop supervisor.
    pub supervisor_http: String,
    /// Safety level for the supervisor.
    pub supervisor_safety_level: SafetyLevel,
    /// Minimum suggested priority fee, in wei.
    pub min_suggested_priority_fee: u64,
    /// Websocket URL of the flashblocks stream.
    pub flashblocks_url: Option<Url>,
    /// Whether a flashblock consensus client is launched.
    pub flashblock_consensus: bool,
}

/// The values that the node hands the builders of its components.
pub struct ComponentsPlan {
    /// Pool builder: accept conditional transactions.
    pub pool_enable_tx_conditional: bool,
    /// Pool builder: the supervisor's HTTP endpoint.
    pub pool_supervisor_http: String,
    /// Pool builder: the supervisor's safety level.
    pub pool_supervisor_safety_level: SafetyLevel,
    /// Payload builder: compute the pending block.
    pub payload_compute_pending_block: bool,
    /// Network builder: disable transaction pool gossip.
    pub network_disable_txpool_gossip: bool,
    /// Network builder: disable discovery v4.
    pub network_disable_discovery_v4: bool,
}

/// Decides what the node hands the pool, payload and network builders.
pub fn components_plan(args: &RollupArgs) -> (res: ComponentsPlan)
    ensures
        res.pool_enable_tx_conditional == args.enable_tx_conditional,
        res.pool_supervisor_http@ == args.supervisor_http@,
        res.pool_supervisor_safety_level == args.supervisor_safety_level,
        res.payload_compute_pending_block == args.compute_pending_block,
        res.network_disable_txpool_gossip == args.disable_txpool_gossip,
        res.network_disable_discovery_v4 == !args.discovery_v4,
{
    ComponentsPlan {
        pool_enable_tx_conditional: args.enable_tx_conditional,
        pool_supervisor_http: args.supervisor_http.clone(),
        pool_supervisor_safety_level: args.supervisor_safety_level,
        payload_compute_pending_block: args.compute_pending_block,
        network_disable_txpool_gossip: args.disable_txpool_gossip,
        network_disable_discovery_v4: !args.discovery_v4,
    }
}

/// The values that the node hands its add-ons: the eth API builder, and the
/// settings that the OP add-ons receive beside it.
pub struct AddOnsPlan<NetworkT> {
    /// The eth API builder of the RPC add-ons.
    pub eth_api_builder: ConduitOpEthApiBuilder<NetworkT>,
    /// Sequencer endpoint of the OP add-ons.
    pub sequencer_url: Option<String>,
    /// Sequencer headers of the OP add-ons.
    pub sequencer_headers: Vec<String>,
    /// Historical RPC endpoint of the OP add-ons.
    pub historical_rpc: Option<String>,
    /// Whether the OP add-ons accept conditional transactions.
    pub enable_tx_conditional: bool,
    /// Minimum suggested priority fee of the OP add-ons.
    pub min_suggested_priority_fee: u64,
}

/// The eth API builder settings that the rollup settings `args` call for.
pub open spec fn eth_api_settings_of(args: RollupArgs) -> EthApiBuilderView {
    EthApiBuilderView {
        sequencer_url: args.sequencer.deep_view(),
        sequencer_headers: args.sequencer_headers.deep_view(),
        min_suggested_priority_fee: args.min_suggested_priority_fee,
        flashblocks_url: args.flashblocks_url,
        flashblock_consensus: args.flashblock_consensus,
    }
}

fn clone_opt_string(s: &Option<String>) -> (res: Option<String>)
    ensures
        res.deep_view() == s.deep_view(),
{
    match s {
        Some(s) => Some(s.clone()),
        None => None,
    }
}

fn clone_opt_url(u: &Option<Url>) -> (res: Option<Url>)
    ensures
        res == *u,
{
    match u {
        Some(u) => Some(clone_url(u)),
        None => None,
    }
}

fn clone_strings(v: &Vec<String>) -> (res: Vec<String>)
    ensures
        res.deep_view() == v.deep_view(),
{
    let mut res: Vec<String> = Vec::new();
    let mut i: usize = 0;
    while i < v.len()
        invariant
            i <= v.len(),
            res@.len() == i,
            forall|j: int| 0 <= j < i ==> #[trigger] res@[j]@ == v@[j]@,
        decreases v.len() - i,
    {
        let item = v[i].clone();
        res.push(item);
        i = i + 1;
    }
    assert(res.deep_view() =~= v.deep_view());
    res
}

/// Decides what the node hands its add-ons: an eth API builder with default
/// settings but for the sequencer, its headers, the minimum priority fee, the
/// flashblocks URL and the flashblock consensus flag of `args`, and to the OP
/// add-ons the same sequencer, headers and fee, with the historical RPC endpoint
/// and the conditional transaction flag.
pub fn add_ons_plan<NetworkT>(args: &RollupArgs) -> (res: AddOnsPlan<NetworkT>)
    ensures
        res.eth_api_builder@ == eth_api_settings_of(*args),
        res.sequencer_url.deep_view() == args.sequencer.deep_view(),
        res.sequencer_headers.deep_view() == args.sequencer_headers.deep_view(),
        res.historical_rpc.deep_view() == args.historical_rpc.deep_view(),
        res.enable_tx_conditional == args.enable_tx_conditional,
        res.min_suggested_priority_fee == args.min_suggested_priority_fee,
{
    let eth_api_builder = ConduitOpEthApiBuilder::<NetworkT>::default()
        .with_sequencer(clone_opt_string(&args.sequencer))
        .with_sequencer_headers(clone_strings(&args.sequencer_headers))
        .with_min_suggested_priority_fee(args.min_suggested_priority_fee)
        .with_flashblocks(clone_opt_url(&args.flashblocks_url))
        .with_flashblock_consensus(args.flashblock_consensus);
    AddOnsPlan {
        eth_api_builder,
        sequencer_url: clone_opt_string(&args.sequencer),
        sequencer_headers: clone_strings(&args.sequencer_headers),
        historical_rpc: clone_opt_string(&args.historical_rpc),
        enable_tx_conditional: args.enable_tx_conditional,
        min_suggested_priority_fee: args.min_suggested_priority_fee,
    }
}

/// The eth API that the node's add-ons build connects a sequencer client
/// exactly when the rollup settings name a sequencer, with the sequencer URL and
/// headers that the OP add-ons receive too; it launches the flashblocks service
/// exactly when they name a flashblocks URL, and a flashblock consensus client
/// exactly when they also enable flashblock consensus.
pub proof fn lemma_node_eth_api_follows_rollup_args<NetworkT>(
    args: RollupArgs,
    add_ons: AddOnsPlan<NetworkT>,
    plan: crate::eth_api_builder::EthApiBuildPlan,
)
    requires
        add_ons.eth_api_builder@ == eth_api_settings_of(args),
        add_ons.sequencer_url.deep_view() == args.sequencer.deep_view(),
        add_ons.sequencer_headers.deep_view() == args.sequencer_headers.deep_view(),
        add_ons.min_suggested_priority_fee == args.min_suggested_priority_fee,
        plan.follows(add_ons.eth_api_builder@),
    ensures
        plan.sequencer is Some <==> args.sequencer is Some,
        plan.sequencer matches Some(s) ==> {
            &&& add_ons.sequencer_url.deep_view() == Some(s.url@)
            &&& add_ons.sequencer_headers.deep_view() == s.headers.deep_view()
        },
        plan.flashblocks is Some <==> args.flashblocks_url is Some,
        plan.flashblocks matches Some(f) ==> args.flashblocks_url == Some(f.ws_url),
        plan.launches_consensus_client() <==> (args.flashblocks_url is Some
            && args.flashblock_consensus),
        plan.min_suggested_priority_fee == crate::eth_api_builder::u256_of(
            args.min_suggested_priority_fee,
        ),
        plan.min_suggested_priority_fee == crate::eth_api_builder::u256_of(
            add_ons.min_suggested_priority_fee,
        ),
{
}

/// Base fee change denominator of the dev chain's EIP-1559 parameters.
pub const DEV_EIP1559_DENOMINATOR: u32 = 50;

/// Elasticity multiplier of the dev chain's EIP-1559 parameters.
pub const DEV_EIP1559_ELASTICITY: u32 = 6;

/// The four big-endian bytes of `x`.
pub open spec fn be_bytes_u32(x: u32) -> Seq<u8> {
    seq![
        (x / 0x100_0000) as u8,
        (x / 0x1_0000 % 0x100) as u8,
        (x / 0x100 % 0x100) as u8,
        (x % 0x100) as u8,
    ]
}

/// The big-endian value of four bytes.
pub open spec fn be_u32_value(b: Seq<u8>) -> int {
    b[0] * 0x100_0000 + b[1] * 0x1_0000 + b[2] * 0x100 + b[3]
}

/// The OP encoding of EIP-1559 parameters in payload attributes: the
/// denominator, then the elasticity, each as four big-endian bytes.
pub open spec fn spec_eip1559_params(denominator: u32, elasticity: u32) -> Seq<u8> {
    be_bytes_u32(denominator) + be_bytes_u32(elasticity)
}

/// The denominator and the elasticity that eight encoded bytes stand for.
pub open spec fn spec_decode_eip1559_params(b: Seq<u8>) -> (int, int) {
    (be_u32_value(b.subrange(0, 4)), be_u32_value(b.subrange(4, 8)))
}

/// Encodes EIP-1559 parameters as the OP payload attributes carry them.
pub fn encode_eip1559_params(denominator: u32, elasticity: u32) -> (res: [u8; 8])
    ensures
        res@ == spec_eip1559_params(denominator, elasticity),
{
    let d: u32 = denominator;
    let e: u32 = elasticity;
    let res: [u8; 8] = [
        (d >> 24) as u8,
        (d >> 16) as u8,
        (d >> 8) as u8,
        d as u8,
        (e >> 24) as u8,
        (e >> 16) as u8,
        (e >> 8) as u8,
        e as u8,
    ];
    proof {
        lemma_be_byte_shifts(d);
        lemma_be_byte_shifts(e);
    }
    assert(res@ =~= spec_eip1559_params(denominator, elasticity));
    res
}

proof fn lemma_be_byte_shifts(x: u32)
    ensures
        (x >> 24) as u8 == (x / 0x100_0000) as u8,
        (x >> 16) as u8 == (x / 0x1_0000 % 0x100) as u8,
        (x >> 8) as u8 == (x / 0x100 % 0x100) as u8,
        x as u8 == (x % 0x100) as u8,
{
    assert((x >> 24) as u8 == (x / 0x100_0000) as u8) by (bit_vector);
    assert((x >> 16) as u8 == (x / 0x1_0000 % 0x100) as u8) by (bit_vector);
    assert((x >> 8) as u8 == (x / 0x100 % 0x100) as u8) by (bit_vector);
    assert(x as u8 == (x % 0x100) as u8) by (bit_vector);
}

/// The encoded EIP-1559 parameters decode back to the denominator and the
/// elasticity that were encoded.
pub proof fn lemma_eip1559_params_roundtrip(denominator: u32, elasticity: u32)
    ensures
        spec_eip1559_params(denominator, elasticity).len() == 8,
        spec_decode_eip1559_params(spec_eip1559_params(denominator, elasticity)) == (
            denominator as int,
            elasticity as int,
        ),
{
    lemma_be_roundtrip(denominator);
    lemma_be_roundtrip(elasticity);
    let s = spec_eip1559_params(denominator, elasticity);
    assert(s.subrange(0, 4) =~= be_bytes_u32(denominator));
    assert(s.subrange(4, 8) =~= be_bytes_u32(elasticity));
}

proof fn lemma_be_roundtrip(x: u32)
    ensures
        be_u32_value(be_bytes_u32(x)) == x,
{
    let a = x / 0x100_0000;
    let b = x / 0x1_0000 % 0x100;
    let c = x / 0x100 % 0x100;
    let d = x % 0x100;
    assert(a < 0x100 && b < 0x100 && c < 0x100 && d < 0x100);
    assert(a * 0x100_0000 + b * 0x1_0000 + c * 0x100 + d == x) by (nonlinear_arith)
        requires
            a == x / 0x100_0000,
            b == x / 0x1_0000 % 0x100,
            c == x / 0x100 % 0x100,
            d == x % 0x100,
            0 <= x < 0x1_0000_0000,
    ;
}

/// The dev chain's EIP-1559 parameters are the bytes `0, 0, 0, 50, 0, 0, 0, 6`,
/// which decode to denominator 50 and elasticity 6.
pub proof fn lemma_dev_eip1559_params()
    ensures
        spec_eip1559_params(DEV_EIP1559_DENOMINATOR, DEV_EIP1559_ELASTICITY)
            == seq![0u8, 0, 0, 50, 0, 0, 0, 6],
        spec_decode_eip1559_params(
            spec_eip1559_params(DEV_EIP1559_DENOMINATOR, DEV_EIP1559_ELASTICITY),
        ) == (50int, 6int),
{
    lemma_eip1559_params_roundtrip(DEV_EIP1559_DENOMINATOR, DEV_EIP1559_ELASTICITY);
    assert(spec_eip1559_params(DEV_EIP1559_DENOMINATOR, DEV_EIP1559_ELASTICITY)
        =~= seq![0u8, 0, 0, 50, 0, 0, 0, 6]);
}

/// The payload attribute overrides that let the node run a dev chain.
pub struct DevPayloadOverrides {
    /// The encoded EIP-1559 parameters.
    pub eip_1559_params: [u8; 8],
    /// The minimum base fee.
    pub min_base_fee: u64,
}

impl DevPayloadOverrides {
    /// The default OP EIP-1559 parameters (denominator 50, elasticity 6) and a
    /// minimum base fee of zero.
    pub fn dev() -> (res: Self)
        ensures
            res.eip_1559_params@ == spec_eip1559_params(
                DEV_EIP1559_DENOMINATOR,
                DEV_EIP1559_ELASTICITY,
            ),
            res.min_base_fee == 0,
    {
        DevPayloadOverrides {
            eip_1559_params: encode_eip1559_params(DEV_EIP1559_DENOMINATOR, DEV_EIP1559_ELASTICITY),
            min_base_fee: 0,
        }
    }

    /// The encoded EIP-1559 parameters as the `B64` that payload attributes hold.
    pub fn eip_1559_params_b64(&self) -> (res: B64)
        ensures
            res == b64_of(self.eip_1559_params@),
    {
        b64_from_slice(vstd::array::array_as_slice(&self.eip_1559_params))
    }
}

} // verus!
