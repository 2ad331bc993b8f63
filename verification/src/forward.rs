//! Forwarding to a message queue: the record that carries the value of one
//! item, and how the producer that sends it is set up.

use crate::dispatch::{present_line, MonitoredItemView, Value, ValueView};
use vstd::prelude::*;
use vstd::utf8::{decode_utf8, encode_utf8, encode_utf8_decode_utf8};

verus! {

/// The partition to which every record goes.
pub const PARTITION: i32 = 1;

/// How long the producer waits for an acknowledgement, in seconds.
pub const ACK_TIMEOUT_SECS: u64 = 1;

/// How many brokers have to acknowledge a record.
#[derive(Debug, Clone, Copy, PartialEq, Eq, Structural)]
pub enum Acknowledgement {
    NotRequired,
    One,
    All,
}

/// How the producer is set up: the brokers to reach, the time to wait for
/// an acknowledgement, and whose acknowledgement is required.
#[derive(Debug, PartialEq, Eq)]
pub struct ProducerSettings {
    pub hosts: Vec<String>,
    pub ack_timeout_secs: u64,
    pub required_acks: Acknowledgement,
}

/// A record for the queue.
#[derive(Debug, PartialEq, Eq)]
pub struct QueueRecord {
    pub topic: String,
    pub partition: i32,
    pub key: String,
    pub payload: Vec<u8>,
}

/// What a `QueueRecord` stands for.
pub struct QueueRecordView {
    pub topic: Seq<char>,
    pub partition: i32,
    pub key: Seq<char>,
    pub payload: Seq<u8>,
}

impl View for QueueRecord {
    type V = QueueRecordView;

    open spec fn view(&self) -> QueueRecordView {
        QueueRecordView {
            topic: self.topic@,
            partition: self.partition,
            key: self.key@,
            payload: self.payload@,
        }
    }
}

/// The topic to which every record goes.
pub open spec fn topic() -> Seq<char> {
    "pss"@
}

/// The key of every record.
pub open spec fn key() -> Seq<char> {
    "start_kanban"@
}

/// The text that is sent for a value: the payload as the dispatcher
/// prints it where the value is present, and `None` where it is absent.
pub open spec fn payload_text(value: ValueView) -> Seq<char> {
    match value {
        ValueView::Present(payload) => payload,
        ValueView::Absent(_) => "None"@,
    }
}

/// The record that carries `value`: the payload text in UTF-8, under the
/// fixed topic, partition and key.
pub open spec fn record_for(value: ValueView) -> QueueRecordView {
    QueueRecordView {
        topic: topic(),
        partition: PARTITION,
        key: key(),
        payload: encode_utf8(payload_text(value)),
    }
}

/// The settings of a producer that reaches the queue through `broker`
/// alone, waits one second, and requires one acknowledgement.
pub fn producer_settings(broker: String) -> (settings: ProducerSettings)
    ensures
        settings.hosts.deep_view() == seq![broker@],
        settings.ack_timeout_secs == ACK_TIMEOUT_SECS,
        settings.required_acks == Acknowledgement::One,
{
    let mut hosts: Vec<String> = Vec::new();
    hosts.push(broker);
    assert(hosts.deep_view() =~= seq![broker@]);
    ProducerSettings {
        hosts,
        ack_timeout_secs: ACK_TIMEOUT_SECS,
        required_acks: Acknowledgement::One,
    }
}

/// The record to send for `value`.
pub fn queue_record(value: &Value) -> (record: QueueRecord)
    ensures
        record@ == record_for(value@),
{
    let payload = match value {
        Value::Present(payload) => payload.as_str().as_bytes_vec(),
        Value::Absent(_) => "None".as_bytes_vec(),
    };
    QueueRecord {
        topic: "pss".to_owned(),
        partition: PARTITION,
        key: "start_kanban".to_owned(),
        payload,
    }
}

/// For a value that is present, the record carries the very text that the
/// dispatcher prints: the line of the item ends in it, the payload of the
/// record is its UTF-8 form, and decoding the payload gives it back.
pub proof fn lemma_payload_is_printed_text(item: MonitoredItemView)
    requires
        item.value is Present,
    ensures
        item.line() == present_line(item.node.text(), item.value.text()),
        record_for(item.value).payload == encode_utf8(item.value.text()),
        decode_utf8(record_for(item.value).payload) == item.value.text(),
{
    encode_utf8_decode_utf8(item.value.text());
}

} // verus!
