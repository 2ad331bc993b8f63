//! Text forms that this library takes from elsewhere: node ids and status
//! codes as the `opcua` crate displays them, and strings as `std` quotes
//! them for debugging. The contracts of the three functions that make
//! these calls are taken on trust; everything else is built on them.

use opcua::types::node_id::NodeId;
use opcua::types::status_code::StatusCode;
use vstd::prelude::*;

verus! {

/// The decimal digit for `d`, which is below ten.
pub open spec fn digit(d: nat) -> char {
    (0x30 + d) as char
}

/// `n` in decimal, without sign or leading zeros.
pub open spec fn decimal(n: nat) -> Seq<char>
    decreases n,
{
    if n < 10 {
        seq![digit(n)]
    } else {
        decimal(n / 10).push(digit(n % 10))
    }
}

/// How a node with a string identifier is written: `s=` and the name,
/// and before them `ns=`, the namespace index and `;` unless the index
/// is zero.
pub open spec fn node_text(namespace: u16, name: Seq<char>) -> Seq<char> {
    if namespace != 0 {
        "ns="@ + decimal(namespace as nat) + ";s="@ + name
    } else {
        "s="@ + name
    }
}

/// How the status code with these 32 bits is written.
pub uninterp spec fn status_text(code: u32) -> Seq<char>;

/// How `s` is written between double quotes, with its special characters
/// escaped.
pub uninterp spec fn quoted_text(s: Seq<char>) -> Seq<char>;

/// `Display` of `opcua::types::NodeId`, for the node id that
/// `NodeId::new` makes of a namespace index and a string identifier.
/// Trusted: the text is the one `node_text` spells out, as the `fmt` of
/// `NodeId`, `Identifier` and `UAString` write it.
#[verifier::external_body]
pub(crate) fn node_id_to_string(namespace: u16, name: &str) -> (text: String)
    ensures
        text@ == node_text(namespace, name@),
{
    NodeId::new(namespace, name.to_string()).to_string()
}

/// `Display` of `opcua::types::StatusCode`, for the code that
/// `StatusCode::from_bits_retain` makes of `code`. Trusted: the text
/// depends on the bits alone; `status_text` is the name for it.
#[verifier::external_body]
pub(crate) fn status_code_to_string(code: u32) -> (text: String)
    ensures
        text@ == status_text(code),
{
    StatusCode::from_bits_retain(code).to_string()
}

/// `Debug` of `str`. Trusted: the text depends on the characters of `s`
/// alone; `quoted_text` is the name for it.
#[verifier::external_body]
pub(crate) fn str_to_quoted(s: &str) -> (text: String)
    ensures
        text@ == quoted_text(s@),
{
    format!("{:?}", s)
}

} // verus!
