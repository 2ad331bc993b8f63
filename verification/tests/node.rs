use opcua::types::NodeId;
use opcua_tag_monitor::node::{monitored_nodes, NodeIdentity, TAG_NAMESPACE};

#[test]
fn tag_node_is_in_namespace_two() {
    let node = NodeIdentity::for_tag("Tank.Level");
    assert_eq!(TAG_NAMESPACE, 2);
    assert_eq!(node, NodeIdentity { namespace: 2, name: "Tank.Level".to_string() });
}

#[test]
fn node_text_names_namespace_and_name() {
    assert_eq!(NodeIdentity::for_tag("Tag").text(), "ns=2;s=Tag");
    let far = NodeIdentity { namespace: 65535, name: "x y".to_string() };
    assert_eq!(far.text(), "ns=65535;s=x y");
    let ten = NodeIdentity { namespace: 10, name: String::new() };
    assert_eq!(ten.text(), "ns=10;s=");
}

#[test]
fn node_text_omits_namespace_zero() {
    let node = NodeIdentity { namespace: 0, name: "Tag".to_string() };
    assert_eq!(node.text(), "s=Tag");
}

#[test]
fn node_text_is_the_display_of_the_node_id() {
    for namespace in [0u16, 1, 2, 9, 10, 99, 100, 255, 256, 1000, 9999, 10000, 65535] {
        for name in ["Tag", "", "a b", "ns=3;s=x", "é😀"] {
            let node = NodeIdentity { namespace, name: name.to_string() };
            assert_eq!(node.text(), NodeId::new(namespace, name.to_string()).to_string());
        }
    }
}

#[test]
fn nodes_follow_the_tags() {
    let tags = vec!["A".to_string(), "B".to_string(), "A".to_string()];
    let nodes = monitored_nodes(&tags);
    assert_eq!(
        nodes,
        vec![NodeIdentity::for_tag("A"), NodeIdentity::for_tag("B"), NodeIdentity::for_tag("A")]
    );
    assert_eq!(monitored_nodes(&Vec::new()), Vec::<NodeIdentity>::new());
}
