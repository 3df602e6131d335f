//! Cadence: the transaction template, and arguments in the JSON-Cadence
//! form that the ledger reads.

use vstd::prelude::*;
use vstd::string::StringExecFns;
use vstd::string::StringSliceAdditionalSpecFns;
use vstd::utf8::encode_utf8;

use crate::errors::{MtmfError, Result};
use crate::text::str_eq;
use crate::wire::append_bytes;

verus! {

/// The transaction that mints one token into the collection of the
/// recipient.
pub const MINT_TEMPLATE: &'static str = "// Mint a media token (Cadence 1.0)
import NonFungibleToken from 0x631e88ae7f1d7c20
import MetadataViews from 0x631e88ae7f1d7c20
import MintThisMF from 0x631e88ae7f1d7c20

transaction(
    recipient: Address,
    name: String,
    description: String,
    thumbnail: String,
    ipfsHash: String
) {
    let minter: &MintThisMF.Minter
    let receiver: &{NonFungibleToken.Receiver}

    prepare(signer: auth(BorrowValue) &Account) {
        self.minter = signer.storage.borrow<&MintThisMF.Minter>(from: MintThisMF.MinterStoragePath)
            ?? panic(\"The signer holds no minter\")
        self.receiver = getAccount(recipient).capabilities
            .borrow<&{NonFungibleToken.Receiver}>(MintThisMF.CollectionPublicPath)
            ?? panic(\"The recipient holds no collection\")
    }

    execute {
        self.minter.mint(
            recipient: self.receiver,
            name: name,
            description: description,
            thumbnail: thumbnail,
            ipfsHash: ipfsHash
        )
    }
}
";

/// The failure to write a value as JSON.
#[verifier::external_type_specification]
#[verifier::external_body]
pub struct ExJsonError(serde_json::Error);

/// The JSON form of a text: the text between quotes, with the characters
/// that JSON cannot hold escaped. `None` where the text cannot be written.
pub uninterp spec fn spec_json_string(text: Seq<char>) -> Option<Seq<u8>>;

/// Writes a text as a JSON string with `serde_json::to_vec`.
///
/// Trusted: the bytes depend on the text alone.
#[verifier::external_body]
pub(crate) fn json_string(text: &str) -> (r: std::result::Result<Vec<u8>, serde_json::Error>)
    ensures
        match r {
            Ok(json) => spec_json_string(text@) == Some(json@),
            Err(_) => spec_json_string(text@) is None,
        },
{
    serde_json::to_vec(text)
}

/// Loads a transaction template by name. The only template is `mint`; any
/// other name fails with `InvalidInput`.
pub fn load_template(name: &str) -> (r: Result<String>)
    ensures
        match r {
            Ok(template) => name@ == "mint"@ && template@ == MINT_TEMPLATE@,
            Err(e) => {
                &&& name@ != "mint"@
                &&& e matches MtmfError::InvalidInput(m)
                &&& m@ == "Unknown template: "@ + name@
            },
        },
{
    if str_eq(name, "mint") {
        Ok(String::from_str(MINT_TEMPLATE))
    } else {
        let mut message = String::from_str("Unknown template: ");
        message.append(name);
        Err(MtmfError::InvalidInput(message))
    }
}

/// The kinds of JSON values.
#[derive(Debug, Clone, Copy, PartialEq, Eq, Structural)]
pub enum JsonKind {
    String,
    Number,
    Bool,
    Array,
    Object,
    Null,
}

/// The Cadence type that a JSON value of a kind is sent as.
pub open spec fn spec_cadence_type(kind: JsonKind) -> Seq<char> {
    match kind {
        JsonKind::String => "String"@,
        JsonKind::Number => "UInt64"@,
        JsonKind::Bool => "Bool"@,
        JsonKind::Array => "Array"@,
        JsonKind::Object => "Dictionary"@,
        JsonKind::Null => "Optional"@,
    }
}

/// The Cadence type that a JSON value of a kind is sent as.
pub fn infer_cadence_type(kind: JsonKind) -> (name: &'static str)
    ensures
        name@ == spec_cadence_type(kind),
{
    match kind {
        JsonKind::String => "String",
        JsonKind::Number => "UInt64",
        JsonKind::Bool => "Bool",
        JsonKind::Array => "Array",
        JsonKind::Object => "Dictionary",
        JsonKind::Null => "Optional",
    }
}

/// A value in JSON-Cadence form: an object with the type under `type` and
/// the value, already written as JSON, under `value`, without any space.
pub open spec fn spec_json_cdc(cadence_type: Seq<char>, value_json: Seq<u8>) -> Seq<u8> {
    encode_utf8("{\"type\":\""@ + cadence_type + "\",\"value\":"@) + value_json + encode_utf8("}"@)
}

/// Puts a value that is already written as JSON into JSON-Cadence form.
/// The type name is written as it is and must need no escaping.
pub fn json_cdc(cadence_type: &str, value_json: &[u8]) -> (encoded: Vec<u8>)
    ensures
        encoded@ == spec_json_cdc(cadence_type@, value_json@),
{
    let mut head = String::from_str("{\"type\":\"");
    head.append(cadence_type);
    head.append("\",\"value\":");
    let mut encoded = vstd::slice::slice_to_vec(head.as_str().as_bytes());
    let value = vstd::slice::slice_to_vec(value_json);
    append_bytes(&mut encoded, &value);
    let tail = vstd::slice::slice_to_vec("}".as_bytes());
    append_bytes(&mut encoded, &tail);
    encoded
}

/// Encodes an argument given by its kind and its JSON text: the Cadence
/// type is inferred from the kind.
pub fn encode_argument(kind: JsonKind, value_json: &[u8]) -> (encoded: Vec<u8>)
    ensures
        encoded@ == spec_json_cdc(spec_cadence_type(kind), value_json@),
{
    json_cdc(infer_cadence_type(kind), value_json)
}

/// A text in JSON-Cadence form, if it can be written as JSON.
pub open spec fn spec_encode_string(value: Seq<char>) -> Option<Seq<u8>> {
    match spec_json_string(value) {
        Some(json) => Some(spec_json_cdc("String"@, json)),
        None => None,
    }
}

/// Encodes a text as a Cadence `String`. Fails with a `Serialization` error
/// where the text cannot be written as JSON.
pub fn encode_string(value: &str) -> (r: Result<Vec<u8>>)
    ensures
        match r {
            Ok(encoded) => spec_encode_string(value@) == Some(encoded@),
            Err(e) => spec_encode_string(value@) is None && e is Serialization,
        },
{
    match json_string(value) {
        Ok(json) => Ok(json_cdc("String", json.as_slice())),
        Err(_) => Err(MtmfError::Serialization(String::from_str("Failed to encode string"))),
    }
}

/// An address as text with exactly one leading `0x`: one is put in front,
/// after one that is there was taken away.
pub open spec fn spec_prefixed_address(address: Seq<char>) -> Seq<char> {
    if address.len() >= 2 && address[0] == '0' && address[1] == 'x' {
        address
    } else {
        "0x"@ + address
    }
}

/// An address in JSON-Cadence form, if it can be written as JSON.
pub open spec fn spec_encode_address(address: Seq<char>) -> Option<Seq<u8>> {
    match spec_json_string(spec_prefixed_address(address)) {
        Some(json) => Some(spec_json_cdc("Address"@, json)),
        None => None,
    }
}

/// Whether a text starts with `0x`.
fn has_0x(address: &str) -> (has: bool)
    ensures
        has == (address@.len() >= 2 && address@[0] == '0' && address@[1] == 'x'),
{
    let mut head = address.chars();
    let first = head.next();
    let second = head.next();
    proof {
        broadcast use vstd::string::group_string_axioms;

    }
    match (first, second) {
        (Some(a), Some(b)) => a == '0' && b == 'x',
        _ => false,
    }
}

/// Encodes an address, given with or without a leading `0x`, as a Cadence
/// `Address`. Fails with a `Serialization` error where the address cannot be
/// written as JSON.
pub fn encode_address(address: &str) -> (r: Result<Vec<u8>>)
    ensures
        match r {
            Ok(encoded) => spec_encode_address(address@) == Some(encoded@),
            Err(e) => spec_encode_address(address@) is None && e is Serialization,
        },
{
    let prefixed = if has_0x(address) {
        String::from_str(address)
    } else {
        let mut text = String::from_str("0x");
        text.append(address);
        text
    };
    match json_string(prefixed.as_str()) {
        Ok(json) => Ok(json_cdc("Address", json.as_slice())),
        Err(_) => Err(MtmfError::Serialization(String::from_str("Failed to encode address"))),
    }
}

} // verus!
