//! Minting: what is decided between the upload of a file and the
//! submission of the transaction that mints it.

use vstd::prelude::*;
use vstd::string::StringExecFns;
use vstd::string::StringSliceAdditionalSpecFns;

use crate::cadence::{encode_address, encode_string, spec_encode_address, spec_encode_string};
use crate::config::Profile;
use crate::errors::{MtmfError, Result};
use crate::flow::{
    flowscan_link, spec_flowscan_link, ProposalKeyView, Transaction, TransactionBuilder,
    TransactionView,
};
use crate::hexfmt::{hex_encode, hex_text};
use crate::wire::byte_strings;

verus! {

/// The gas limit of a mint.
pub const MINT_GAS_LIMIT: u64 = 9999;

/// The index of the account key that signs a mint.
pub const MINT_KEY_INDEX: u32 = 0;

/// The number of polls that a mint waits for its seal.
pub const MINT_SEAL_ATTEMPTS: u32 = 30;

/// What a successful mint reports.
#[derive(Debug, Clone, PartialEq, Eq)]
pub struct MintResult {
    pub transaction_id: String,
    pub flowscan_link: String,
    pub ipfs_cid: String,
    pub nft_name: String,
}

/// The address of a stored file.
pub fn ipfs_url(ipfs_cid: &str) -> (url: String)
    ensures
        url@ == "ipfs://"@ + ipfs_cid@,
{
    let mut url = String::from_str("ipfs://");
    url.append(ipfs_cid);
    url
}

/// The text that an answer to a prompt stands for: the answer itself, or
/// the default where the answer is empty. Fails with `InvalidInput` where
/// the answer is empty and there is no default.
pub fn required_answer(prompt: &str, input: &str, default: Option<&str>) -> (r: Result<String>)
    ensures
        match r {
            Ok(answer) => if input@.len() > 0 {
                answer@ == input@
            } else {
                default matches Some(d) && answer@ == d@
            },
            Err(e) => {
                &&& input@.len() == 0
                &&& default is None
                &&& e matches MtmfError::InvalidInput(m)
                &&& m@ == prompt@ + " is required"@
            },
        },
{
    if !input.is_empty() {
        return Ok(String::from_str(input));
    }
    match default {
        Some(d) => Ok(String::from_str(d)),
        None => {
            let mut message = String::from_str(prompt);
            message.append(" is required");
            Err(MtmfError::InvalidInput(message))
        },
    }
}

/// The account that receives the token: the one named, or else the address
/// of the profile. Fails with a `Config` error where there is neither.
pub fn recipient_for(to: Option<String>, profile: &Profile) -> (r: Result<String>)
    ensures
        match r {
            Ok(recipient) => match to {
                Some(named) => recipient@ == named@,
                None => profile.flow.address matches Some(own) && recipient@ == own@,
            },
            Err(e) => to is None && profile.flow.address is None && e is Config,
        },
{
    match to {
        Some(named) => Ok(named),
        None => match &profile.flow.address {
            Some(own) => Ok(own.clone()),
            None => Err(MtmfError::Config(String::from_str("No Flow address configured"))),
        },
    }
}

/// The sequence number to propose with: that of the account key at
/// `key_index`, or zero where the account has no such key.
pub fn sequence_number_at(sequence_numbers: &[u32], key_index: u32) -> (sequence_number: u64)
    ensures
        sequence_number == (if key_index < sequence_numbers@.len() {
            sequence_numbers@[key_index as int] as u64
        } else {
            0
        }),
{
    let index: usize = key_index as usize;
    if index < sequence_numbers.len() {
        sequence_numbers[index] as u64
    } else {
        0
    }
}

/// The five arguments of a mint, if each can be written: the recipient, the
/// name, the description, the address of the file and its content
/// identifier.
pub open spec fn spec_mint_arguments(
    recipient: Seq<char>,
    name: Seq<char>,
    description: Seq<char>,
    ipfs_cid: Seq<char>,
) -> Option<Seq<Seq<u8>>> {
    match (
        spec_encode_address(recipient),
        spec_encode_string(name),
        spec_encode_string(description),
        spec_encode_string("ipfs://"@ + ipfs_cid),
        spec_encode_string(ipfs_cid),
    ) {
        (Some(a), Some(b), Some(c), Some(d), Some(e)) => Some(seq![a, b, c, d, e]),
        _ => None,
    }
}

/// Encodes the arguments of a mint, in the order of the transaction's
/// parameters. Fails with a `Serialization` error where one of them cannot
/// be written.
pub fn mint_arguments(recipient: &str, name: &str, description: &str, ipfs_cid: &str) -> (r: Result<
    Vec<Vec<u8>>,
>)
    ensures
        match r {
            Ok(arguments) => spec_mint_arguments(recipient@, name@, description@, ipfs_cid@)
                == Some(byte_strings(arguments@)),
            Err(e) => spec_mint_arguments(recipient@, name@, description@, ipfs_cid@) is None
                && e is Serialization,
        },
{
    let url = ipfs_url(ipfs_cid);
    let a = encode_address(recipient)?;
    let b = encode_string(name)?;
    let c = encode_string(description)?;
    let d = encode_string(url.as_str())?;
    let e = encode_string(ipfs_cid)?;
    let ghost expected = seq![a@, b@, c@, d@, e@];
    let mut arguments: Vec<Vec<u8>> = Vec::new();
    arguments.push(a);
    arguments.push(b);
    arguments.push(c);
    arguments.push(d);
    arguments.push(e);
    assert(byte_strings(arguments@) =~= expected);
    Ok(arguments)
}

/// The transaction of a mint: the signer proposes, pays and authorizes.
pub open spec fn spec_mint_transaction(
    script: Seq<u8>,
    arguments: Seq<Seq<u8>>,
    reference_block_id: Seq<u8>,
    signer: Seq<u8>,
    sequence_number: u64,
) -> TransactionView {
    TransactionView {
        script,
        arguments,
        reference_block_id,
        gas_limit: MINT_GAS_LIMIT,
        proposal_key: Some(
            ProposalKeyView { address: signer, key_index: MINT_KEY_INDEX, sequence_number },
        ),
        payer: signer,
        authorizers: seq![signer],
        payload_signatures: Seq::empty(),
        envelope_signatures: Seq::empty(),
    }
}

/// Builds the transaction of a mint, unsigned.
pub fn mint_transaction(
    script: &str,
    arguments: Vec<Vec<u8>>,
    reference_block_id: Vec<u8>,
    signer: &[u8],
    sequence_number: u64,
) -> (transaction: Transaction)
    ensures
        transaction@ == spec_mint_transaction(
            script.spec_bytes(),
            byte_strings(arguments@),
            reference_block_id@,
            signer@,
            sequence_number,
        ),
{
    let mut transaction = TransactionBuilder::new(script).reference_block_id(
        reference_block_id,
    ).gas_limit(MINT_GAS_LIMIT).proposal_key(
        vstd::slice::slice_to_vec(signer),
        MINT_KEY_INDEX,
        sequence_number,
    ).payer(vstd::slice::slice_to_vec(signer)).add_authorizer(
        vstd::slice::slice_to_vec(signer),
    ).build();
    transaction.arguments = arguments;
    assert(transaction@.authorizers =~= seq![signer@]);
    transaction
}

/// The report of a mint that was sealed.
pub fn mint_result(tx_id: &[u8], ipfs_cid: &str, nft_name: &str, is_mainnet: bool) -> (result:
    MintResult)
    ensures
        result.transaction_id@ == hex_text(tx_id@),
        result.flowscan_link@ == spec_flowscan_link(tx_id@, is_mainnet),
        result.ipfs_cid@ == ipfs_cid@,
        result.nft_name@ == nft_name@,
{
    MintResult {
        transaction_id: hex_encode(tx_id),
        flowscan_link: flowscan_link(tx_id, is_mainnet),
        ipfs_cid: String::from_str(ipfs_cid),
        nft_name: String::from_str(nft_name),
    }
}

} // verus!
