//! The diagnostic lines of the start-up: the tag list as it was
//! configured, the tags read from it, and the notice that no subscription
//! could be set up.

use crate::rendering::{quoted_text, str_to_quoted};
use vstd::prelude::*;

verus! {

/// The items in a row, with a comma and a space between neighbours.
pub open spec fn comma_joined(items: Seq<Seq<char>>) -> Seq<char>
    decreases items.len(),
{
    if items.len() == 0 {
        Seq::empty()
    } else if items.len() == 1 {
        items[0]
    } else {
        comma_joined(items.drop_last()) + ", "@ + items.last()
    }
}

/// The line that shows a tag list, given in its quoted form.
pub open spec fn raw_line(quoted: Seq<char>) -> Seq<char> {
    "OPC UA tags: "@ + quoted
}

/// The line that shows a list of tags, each given in its quoted form.
pub open spec fn list_line(quoted: Seq<Seq<char>>) -> Seq<char> {
    "Monitored tags: ["@ + comma_joined(quoted) + "]"@
}

/// Each of the tags in its quoted form.
pub open spec fn all_quoted(tags: Seq<Seq<char>>) -> Seq<Seq<char>> {
    tags.map_values(|tag: Seq<char>| quoted_text(tag))
}

/// The line that shows the tag list as configured.
pub open spec fn raw_tags_line(raw: Seq<char>) -> Seq<char> {
    raw_line(quoted_text(raw))
}

/// The line that shows the tags read from the tag list.
pub open spec fn parsed_tags_line(tags: Seq<Seq<char>>) -> Seq<char> {
    list_line(all_quoted(tags))
}

/// The line that says that the subscription could not be set up.
pub open spec fn failure_line() -> Seq<char> {
    "Error creating subscription"@
}

/// The line that shows a tag list, given in its quoted form.
pub fn raw_report(quoted: &str) -> (line: String)
    ensures
        line@ == raw_line(quoted@),
{
    let mut line = "OPC UA tags: ".to_owned();
    line.append(quoted);
    line
}

/// The line that shows a list of tags, each given in its quoted form:
/// the tags in their order between square brackets, with a comma and a
/// space between neighbours.
pub fn list_report(quoted: &Vec<String>) -> (line: String)
    ensures
        line@ == list_line(quoted.deep_view()),
{
    let ghost all = quoted.deep_view();
    let mut line = "Monitored tags: [".to_owned();
    let mut i: usize = 0;
    while i < quoted.len()
        invariant
            i <= quoted.len(),
            all == quoted.deep_view(),
            line@ == "Monitored tags: ["@ + comma_joined(all.take(i as int)),
        decreases quoted.len() - i,
    {
        if i > 0 {
            line.append(", ");
        }
        line.append(quoted[i].as_str());
        proof {
            let upto = all.take(i + 1);
            assert(upto.drop_last() == all.take(i as int));
            assert(upto.last() == quoted[i as int]@);
        }
        i += 1;
    }
    assert(all.take(i as int) == all);
    line.append("]");
    line
}

/// Each of the tags in its quoted form, in the order of the tags.
pub fn quote_all(tags: &Vec<String>) -> (quoted: Vec<String>)
    ensures
        quoted.deep_view() == all_quoted(tags.deep_view()),
{
    let mut quoted: Vec<String> = Vec::new();
    let mut i: usize = 0;
    while i < tags.len()
        invariant
            i <= tags.len(),
            quoted.len() == i,
            forall|j: int| 0 <= j < i ==> (#[trigger] quoted[j])@ == quoted_text(tags[j]@),
        decreases tags.len() - i,
    {
        quoted.push(str_to_quoted(tags[i].as_str()));
        i += 1;
    }
    assert forall|k: int| 0 <= k < quoted.len() implies #[trigger] quoted.deep_view()[k]
        == all_quoted(tags.deep_view())[k] by {
        assert(quoted.deep_view()[k] == quoted[k]@);
        assert(tags.deep_view()[k] == tags[k]@);
    }
    assert(quoted.deep_view() =~= all_quoted(tags.deep_view()));
    quoted
}

/// Shows the tag list as configured.
pub fn raw_tags_report(raw: &str) -> (line: String)
    ensures
        line@ == raw_tags_line(raw@),
{
    let quoted = str_to_quoted(raw);
    raw_report(quoted.as_str())
}

/// Shows the tags read from the tag list, in their order.
pub fn parsed_tags_report(tags: &Vec<String>) -> (line: String)
    ensures
        line@ == parsed_tags_line(tags.deep_view()),
{
    let quoted = quote_all(tags);
    list_report(&quoted)
}

/// Says that the subscription could not be set up.
pub fn failure_report() -> (line: String)
    ensures
        line@ == failure_line(),
{
    "Error creating subscription".to_owned()
}

} // verus!
