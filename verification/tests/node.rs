use alloy_primitives::{B64, U256};
use conduit_op_node::node::{
    add_ons_plan, components_plan, encode_eip1559_params, DevPayloadOverrides, RollupArgs,
    DEV_EIP1559_DENOMINATOR, DEV_EIP1559_ELASTICITY,
};
use op_alloy_consensus::{decode_eip_1559_params, interop::SafetyLevel};
use reqwest::Url;

fn args() -> RollupArgs {
    RollupArgs {
        sequencer: Some("http://sequencer:8545".to_string()),
        sequencer_headers: vec!["k: v".to_string()],
        historical_rpc: Some("http://history:8545".to_string()),
        disable_txpool_gossip: true,
        compute_pending_block: false,
        discovery_v4: false,
        enable_tx_conditional: true,
        supervisor_http: "http://supervisor:8545".to_string(),
        supervisor_safety_level: SafetyLevel::CrossUnsafe,
        min_suggested_priority_fee: 42,
        flashblocks_url: Some(Url::parse("ws://flash:1111").unwrap()),
        flashblock_consensus: true,
    }
}

#[test]
fn components_get_rollup_settings() {
    let plan = components_plan(&args());
    assert!(plan.pool_enable_tx_conditional);
    assert_eq!(plan.pool_supervisor_http, "http://supervisor:8545");
    assert_eq!(plan.pool_supervisor_safety_level, SafetyLevel::CrossUnsafe);
    assert!(!plan.payload_compute_pending_block);
    assert!(plan.network_disable_txpool_gossip);
    assert!(plan.network_disable_discovery_v4);

    let mut a = args();
    a.discovery_v4 = true;
    a.compute_pending_block = true;
    a.disable_txpool_gossip = false;
    let plan = components_plan(&a);
    assert!(!plan.network_disable_discovery_v4);
    assert!(plan.payload_compute_pending_block);
    assert!(!plan.network_disable_txpool_gossip);
}

#[test]
fn add_ons_get_rollup_settings() {
    let plan = add_ons_plan::<()>(&args());
    assert_eq!(plan.sequencer_url.as_deref(), Some("http://sequencer:8545"));
    assert_eq!(plan.sequencer_headers, vec!["k: v".to_string()]);
    assert_eq!(plan.historical_rpc.as_deref(), Some("http://history:8545"));
    assert!(plan.enable_tx_conditional);
    assert_eq!(plan.min_suggested_priority_fee, 42);

    let eth = plan.eth_api_builder.into_build_plan();
    let seq = eth.sequencer.expect("sequencer client planned");
    assert_eq!(seq.url, "http://sequencer:8545");
    assert_eq!(seq.headers, vec!["k: v".to_string()]);
    let fb = eth.flashblocks.expect("flashblocks planned");
    assert_eq!(fb.ws_url, Url::parse("ws://flash:1111").unwrap());
    assert!(fb.launch_consensus_client);
    assert_eq!(eth.min_suggested_priority_fee, U256::from(42u64));
}

#[test]
fn add_ons_without_sequencer_or_flashblocks() {
    let mut a = args();
    a.sequencer = None;
    a.flashblocks_url = None;
    a.historical_rpc = None;
    let plan = add_ons_plan::<()>(&a);
    assert!(plan.sequencer_url.is_none());
    assert!(plan.historical_rpc.is_none());
    let eth = plan.eth_api_builder.into_build_plan();
    assert!(eth.sequencer.is_none());
    assert!(eth.flashblocks.is_none());
}

#[test]
fn dev_eip1559_params_are_denominator_50_elasticity_6() {
    assert_eq!(encode_eip1559_params(50, 6), [0, 0, 0, 50, 0, 0, 0, 6]);
    let dev = DevPayloadOverrides::dev();
    assert_eq!(dev.eip_1559_params, [0, 0, 0, 50, 0, 0, 0, 6]);
    assert_eq!(dev.min_base_fee, 0);
    let b64 = dev.eip_1559_params_b64();
    assert_eq!(b64, B64::from_slice(&[0, 0, 0, 50, 0, 0, 0, 6]));
    // op-alloy decodes (elasticity, denominator).
    assert_eq!(decode_eip_1559_params(b64), (DEV_EIP1559_ELASTICITY, DEV_EIP1559_DENOMINATOR));
    assert_eq!(decode_eip_1559_params(b64), (6, 50));
}

#[test]
fn eip1559_params_are_big_endian() {
    assert_eq!(
        encode_eip1559_params(0x0102_0304, 0xA0B0_C0D0),
        [0x01, 0x02, 0x03, 0x04, 0xA0, 0xB0, 0xC0, 0xD0]
    );
    for (d, e) in [(0u32, 0u32), (u32::MAX, 1), (250, 2), (1 << 24, 255)] {
        let bytes = encode_eip1559_params(d, e);
        assert_eq!(decode_eip_1559_params(B64::from(bytes)), (e, d));
    }
}
