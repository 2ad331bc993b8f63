use opcua::types::{NodeId, StatusCode, Variant};
use opcua_tag_monitor::dispatch::{
    absent_report, on_change, present_report, ChangeEvent, MonitoredItem, Value,
};
use opcua_tag_monitor::node::NodeIdentity;

fn present(tag: &str, value: &Variant) -> MonitoredItem {
    MonitoredItem { node: NodeIdentity::for_tag(tag), value: Value::Present(format!("{:?}", value)) }
}

fn absent(tag: &str, status: StatusCode) -> MonitoredItem {
    MonitoredItem { node: NodeIdentity::for_tag(tag), value: Value::Absent(status.bits()) }
}

#[test]
fn present_value_is_printed_with_its_node() {
    let event = ChangeEvent { items: vec![present("Tag", &Variant::Int32(42))] };
    let lines = on_change(&event);
    assert_eq!(lines.len(), 2);
    assert_eq!(lines[0], "Data change from server:");
    assert_eq!(lines[1], "Item \"ns=2;s=Tag\", Value = Int32(42)");
    assert!(lines[1].contains("ns=2;s=Tag"));
    assert!(lines[1].contains("42"));
}

#[test]
fn absent_value_is_printed_as_its_status() {
    let event = ChangeEvent { items: vec![absent("Tag", StatusCode::BadNoData)] };
    let lines = on_change(&event);
    assert_eq!(lines.len(), 2);
    assert_eq!(lines[1], "Item \"ns=2;s=Tag\", Value not found, error: BadNoData");
    assert!(lines[1].contains("BadNoData"));
    let reported = lines[1].split("error: ").nth(1).unwrap();
    assert_eq!(reported, "BadNoData");
    assert!(!reported.chars().any(|c| c.is_ascii_digit()));
    assert!(!lines[1].contains("Value ="));
}

#[test]
fn lines_are_those_of_the_formatting_they_stand_for() {
    let node_id = NodeId::new(2, "Tank.Level".to_string());
    let values = [
        Variant::Int32(42),
        Variant::Boolean(true),
        Variant::from("on"),
        Variant::UInt64(18446744073709551615),
        Variant::Empty,
    ];
    for value in values.iter() {
        let line = present("Tank.Level", value).line();
        assert_eq!(line, format!("Item \"{}\", Value = {:?}", node_id, value));
    }
    let codes = [
        StatusCode::BadNoData,
        StatusCode::Good,
        StatusCode::BadNodeIdUnknown,
        StatusCode::UncertainLastUsableValue,
        StatusCode::BadNoData | StatusCode::OVERFLOW,
        StatusCode::from_bits_retain(0x1234_0000),
    ];
    for status in codes {
        let line = absent("Tank.Level", status).line();
        assert_eq!(line, format!("Item \"{}\", Value not found, error: {}", node_id, status));
    }
}

#[test]
fn every_item_has_its_line_in_order() {
    let event = ChangeEvent {
        items: vec![
            present("A", &Variant::Int32(1)),
            absent("B", StatusCode::BadNoData),
            present("C", &Variant::Int32(3)),
        ],
    };
    let lines = on_change(&event);
    assert_eq!(
        lines,
        vec![
            "Data change from server:".to_string(),
            "Item \"ns=2;s=A\", Value = Int32(1)".to_string(),
            "Item \"ns=2;s=B\", Value not found, error: BadNoData".to_string(),
            "Item \"ns=2;s=C\", Value = Int32(3)".to_string(),
        ]
    );
}

#[test]
fn empty_notification_has_the_heading_alone() {
    let lines = on_change(&ChangeEvent { items: Vec::new() });
    assert_eq!(lines, vec!["Data change from server:".to_string()]);
}

#[test]
fn line_shows_node_and_value() {
    let item = MonitoredItem {
        node: NodeIdentity { namespace: 7, name: "Pump".to_string() },
        value: Value::Present("Double(1.5)".to_string()),
    };
    let line = item.line();
    assert!(line.contains(&item.node.text()));
    assert!(line.ends_with("Double(1.5)"));
}

#[test]
fn reports_are_built_from_the_texts_given() {
    assert_eq!(present_report("ns=2;s=Tag", "42"), "Item \"ns=2;s=Tag\", Value = 42");
    assert_eq!(present_report("", ""), "Item \"\", Value = ");
    assert_eq!(
        absent_report("ns=2;s=Tag", "BadNoData"),
        "Item \"ns=2;s=Tag\", Value not found, error: BadNoData"
    );
    assert_eq!(absent_report("s=é", ""), "Item \"s=é\", Value not found, error: ");
}
