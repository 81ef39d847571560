//! Causal chains.

use mdoctor::causal::{CausalChain, CausalNode, CausalNodeType};

#[test]
fn test_causal_chain_building() {
    let mut chain = CausalChain::new("504 Gateway Timeout");
    chain.add_node(CausalNode::new(CausalNodeType::Symptom, "PHP-FPM", "Pool 95% saturated"));
    chain.add_node(CausalNode::new(CausalNodeType::Mechanism, "MySQL", "Lock wait on sales_order_grid").with_metric("wait_time: 14s"));
    chain.add_node(CausalNode::new(CausalNodeType::Culprit, "Vendor_OrderSync", "Missing index on created_at"));

    assert_eq!(chain.nodes.len(), 3);
    assert_eq!(chain.nodes[0].node_type, CausalNodeType::Symptom);
    assert_eq!(chain.nodes[2].node_type, CausalNodeType::Culprit);
}

#[test]
fn steps_name_their_kind_and_carry_their_metric() {
    let node = CausalNode::new(CausalNodeType::Trigger, "Cron", "run").with_metric("5 min");
    assert_eq!(node.metric.as_deref(), Some("5 min"));
    assert_eq!(node.node_type.describe(), "Trigger");
}
