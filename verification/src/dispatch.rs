//! The value dispatcher: the lines that report a batch of changed items.

use crate::node::{NodeIdentity, NodeIdentityView};
use crate::rendering::{status_code_to_string, status_text};
use vstd::prelude::*;

verus! {

/// The latest value of a data point: present, with its payload as text,
/// or absent, with the status code that the server gave in its place.
#[derive(Debug, PartialEq, Eq)]
pub enum Value {
    Present(String),
    Absent(u32),
}

/// What a `Value` stands for.
pub enum ValueView {
    Present(Seq<char>),
    Absent(u32),
}

impl View for Value {
    type V = ValueView;

    open spec fn view(&self) -> ValueView {
        match self {
            Value::Present(payload) => ValueView::Present(payload@),
            Value::Absent(status) => ValueView::Absent(*status),
        }
    }
}

/// A data point under watch: its node and the value last received for it.
#[derive(Debug, PartialEq, Eq)]
pub struct MonitoredItem {
    pub node: NodeIdentity,
    pub value: Value,
}

/// What a `MonitoredItem` stands for.
pub struct MonitoredItemView {
    pub node: NodeIdentityView,
    pub value: ValueView,
}

impl View for MonitoredItem {
    type V = MonitoredItemView;

    open spec fn view(&self) -> MonitoredItemView {
        MonitoredItemView { node: self.node@, value: self.value@ }
    }
}

/// One notification: the items whose values changed, in the order in
/// which they were reported.
#[derive(Debug, PartialEq, Eq)]
pub struct ChangeEvent {
    pub items: Vec<MonitoredItem>,
}

/// What a `ChangeEvent` stands for.
pub struct ChangeEventView {
    pub items: Seq<MonitoredItemView>,
}

impl View for ChangeEvent {
    type V = ChangeEventView;

    open spec fn view(&self) -> ChangeEventView {
        ChangeEventView { items: self.items@.map_values(|item: MonitoredItem| item@) }
    }
}

/// The line that opens the report of a notification.
pub open spec fn heading() -> Seq<char> {
    "Data change from server:"@
}

/// The line for an item whose value is present.
pub open spec fn present_line(node: Seq<char>, payload: Seq<char>) -> Seq<char> {
    "Item \""@ + node + "\", Value = "@ + payload
}

/// The line for an item whose value is absent.
pub open spec fn absent_line(node: Seq<char>, status: Seq<char>) -> Seq<char> {
    "Item \""@ + node + "\", Value not found, error: "@ + status
}

/// Whether `part` stands somewhere in `line`, in one piece.
pub open spec fn shows(line: Seq<char>, part: Seq<char>) -> bool {
    exists|k: int|
        0 <= k && k + part.len() <= line.len() && #[trigger] line.subrange(k, k + part.len())
            == part
}

impl ValueView {
    /// The text that reports this value: the payload where it is present,
    /// the status where it is not.
    pub open spec fn text(self) -> Seq<char> {
        match self {
            ValueView::Present(payload) => payload,
            ValueView::Absent(status) => status_text(status),
        }
    }
}

impl MonitoredItemView {
    /// The line that reports this item.
    pub open spec fn line(self) -> Seq<char> {
        match self.value {
            ValueView::Present(payload) => present_line(self.node.text(), payload),
            ValueView::Absent(status) => absent_line(self.node.text(), status_text(status)),
        }
    }
}

impl ChangeEventView {
    /// The lines that report this notification: the heading, then one line
    /// for each item.
    pub open spec fn lines(self) -> Seq<Seq<char>> {
        seq![heading()] + self.items.map_values(|item: MonitoredItemView| item.line())
    }
}

/// The line for an item whose value is present, from the text of its node
/// and the text of its payload.
pub fn present_report(node: &str, payload: &str) -> (line: String)
    ensures
        line@ == present_line(node@, payload@),
{
    let mut line = "Item \"".to_owned();
    line.append(node);
    line.append("\", Value = ");
    line.append(payload);
    line
}

/// The line for an item whose value is absent, from the text of its node
/// and the text of the status that stands in place of the value.
pub fn absent_report(node: &str, status: &str) -> (line: String)
    ensures
        line@ == absent_line(node@, status@),
{
    let mut line = "Item \"".to_owned();
    line.append(node);
    line.append("\", Value not found, error: ");
    line.append(status);
    line
}

impl MonitoredItem {
    /// The line that reports this item: its node and its payload, or its
    /// node and the status that stands in place of a value.
    pub fn line(&self) -> (line: String)
        ensures
            line@ == self@.line(),
    {
        let node = self.node.text();
        match &self.value {
            Value::Present(payload) => present_report(node.as_str(), payload.as_str()),
            Value::Absent(status) => {
                let status = status_code_to_string(*status);
                absent_report(node.as_str(), status.as_str())
            },
        }
    }
}

/// Reports a notification: the heading, then the line of each changed
/// item, in the order of the items.
pub fn on_change(event: &ChangeEvent) -> (lines: Vec<String>)
    ensures
        lines.deep_view() == event@.lines(),
{
    let mut lines: Vec<String> = Vec::new();
    lines.push("Data change from server:".to_owned());
    let mut i: usize = 0;
    while i < event.items.len()
        invariant
            i <= event.items.len(),
            lines.len() == i + 1,
            lines[0]@ == heading(),
            forall|j: int| 1 <= j <= i ==> (#[trigger] lines[j])@ == event.items[j - 1]@.line(),
        decreases event.items.len() - i,
    {
        lines.push(event.items[i].line());
        i += 1;
    }
    assert forall|k: int| 0 <= k < lines.len() implies #[trigger] lines.deep_view()[k]
        == event@.lines()[k] by {
        assert(lines.deep_view()[k] == lines[k]@);
        if k > 0 {
            assert(event@.lines()[k] == event@.items[k - 1].line());
        }
    }
    assert(lines.deep_view() =~= event@.lines());
    lines
}

/// The line of an item shows its node, and with it the payload where the
/// value is present, the status where it is absent.
pub proof fn lemma_line_shows_node_and_value(item: MonitoredItemView)
    ensures
        shows(item.line(), item.node.text()),
        shows(item.line(), item.value.text()),
{
    let line = item.line();
    let node = item.node.text();
    let text = item.value.text();
    let start = "Item \""@.len() as int;
    assert(line.subrange(start, start + node.len()) == node);
    let at = line.len() - text.len();
    assert(line.subrange(at, at + text.len()) == text);
}

} // verus!
