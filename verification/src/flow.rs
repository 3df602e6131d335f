//! Transactions: the data model, the builder and the envelope that is signed.

use vstd::prelude::*;
use vstd::string::StringExecFns;
use vstd::string::StringSliceAdditionalSpecFns;
use vstd::utf8::encode_utf8;

use crate::errors::{MtmfError, Result};
use crate::hexfmt::{hex_decode, hex_encode, hex_text, is_hex, unhex};
use crate::key::{sign_message, spec_sign_message, SigningKey};
use crate::wire::{
    append_bytes, byte_strings, encode_string, encode_strings, encode_uint, fits_prefix,
    frame_list, lemma_encoded_len, lemma_list_then_rest_injective,
    lemma_string_then_rest_injective, lemma_strings_injective, lemma_uint_then_rest_injective,
    rlp_list, rlp_string, rlp_strings, rlp_uint,
};

verus! {

/// Identifies the key that proposes a transaction, with its replay counter.
#[derive(Debug, Clone, PartialEq, Eq)]
pub struct ProposalKey {
    pub address: Vec<u8>,
    pub key_index: u32,
    pub sequence_number: u64,
}

/// A signature together with the account key that made it.
#[derive(Debug, Clone, PartialEq, Eq)]
pub struct TransactionSignature {
    pub address: Vec<u8>,
    pub key_index: u32,
    pub signature: Vec<u8>,
}

/// A transaction as it is sent to the ledger.
#[derive(Debug, Clone, PartialEq, Eq)]
pub struct Transaction {
    pub script: Vec<u8>,
    pub arguments: Vec<Vec<u8>>,
    pub reference_block_id: Vec<u8>,
    pub gas_limit: u64,
    pub proposal_key: Option<ProposalKey>,
    pub payer: Vec<u8>,
    pub authorizers: Vec<Vec<u8>>,
    pub payload_signatures: Vec<TransactionSignature>,
    pub envelope_signatures: Vec<TransactionSignature>,
}

/// What a `ProposalKey` holds.
pub struct ProposalKeyView {
    pub address: Seq<u8>,
    pub key_index: u32,
    pub sequence_number: u64,
}

/// What a `TransactionSignature` holds.
pub struct SignatureView {
    pub address: Seq<u8>,
    pub key_index: u32,
    pub signature: Seq<u8>,
}

/// What a `Transaction` holds.
pub struct TransactionView {
    pub script: Seq<u8>,
    pub arguments: Seq<Seq<u8>>,
    pub reference_block_id: Seq<u8>,
    pub gas_limit: u64,
    pub proposal_key: Option<ProposalKeyView>,
    pub payer: Seq<u8>,
    pub authorizers: Seq<Seq<u8>>,
    pub payload_signatures: Seq<SignatureView>,
    pub envelope_signatures: Seq<SignatureView>,
}

impl View for ProposalKey {
    type V = ProposalKeyView;

    open spec fn view(&self) -> ProposalKeyView {
        ProposalKeyView {
            address: self.address@,
            key_index: self.key_index,
            sequence_number: self.sequence_number,
        }
    }
}

impl View for TransactionSignature {
    type V = SignatureView;

    open spec fn view(&self) -> SignatureView {
        SignatureView {
            address: self.address@,
            key_index: self.key_index,
            signature: self.signature@,
        }
    }
}

/// The views of a vector of signatures.
pub open spec fn signature_views(signatures: Seq<TransactionSignature>) -> Seq<SignatureView> {
    Seq::new(signatures.len(), |i: int| signatures[i]@)
}

/// The view of an optional proposal key.
pub open spec fn proposal_key_view(key: Option<ProposalKey>) -> Option<ProposalKeyView> {
    match key {
        Some(k) => Some(k@),
        None => None,
    }
}

impl View for Transaction {
    type V = TransactionView;

    open spec fn view(&self) -> TransactionView {
        TransactionView {
            script: self.script@,
            arguments: byte_strings(self.arguments@),
            reference_block_id: self.reference_block_id@,
            gas_limit: self.gas_limit,
            proposal_key: proposal_key_view(self.proposal_key),
            payer: self.payer@,
            authorizers: byte_strings(self.authorizers@),
            payload_signatures: signature_views(self.payload_signatures@),
            envelope_signatures: signature_views(self.envelope_signatures@),
        }
    }
}

/// The transaction that a fresh builder describes: the script and nothing
/// else, with a gas limit of zero and no proposal key.
pub open spec fn blank_transaction(script: Seq<u8>) -> TransactionView {
    TransactionView {
        script,
        arguments: Seq::empty(),
        reference_block_id: Seq::empty(),
        gas_limit: 0,
        proposal_key: None,
        payer: Seq::empty(),
        authorizers: Seq::empty(),
        payload_signatures: Seq::empty(),
        envelope_signatures: Seq::empty(),
    }
}

/// Collects the fields of a transaction, one call at a time.
///
/// The builder checks nothing: a transaction without a proposal key can be
/// built and looked at, and is refused only when its envelope is encoded.
pub struct TransactionBuilder {
    script: Vec<u8>,
    arguments: Vec<Vec<u8>>,
    reference_block_id: Vec<u8>,
    gas_limit: u64,
    proposal_key: Option<ProposalKey>,
    payer: Vec<u8>,
    authorizers: Vec<Vec<u8>>,
}

impl View for TransactionBuilder {
    type V = TransactionView;

    /// The transaction that `build` would return now.
    closed spec fn view(&self) -> TransactionView {
        TransactionView {
            script: self.script@,
            arguments: byte_strings(self.arguments@),
            reference_block_id: self.reference_block_id@,
            gas_limit: self.gas_limit,
            proposal_key: proposal_key_view(self.proposal_key),
            payer: self.payer@,
            authorizers: byte_strings(self.authorizers@),
            payload_signatures: Seq::empty(),
            envelope_signatures: Seq::empty(),
        }
    }
}

impl TransactionBuilder {
    /// Starts a transaction that runs `script`.
    pub fn new(script: &str) -> (builder: TransactionBuilder)
        ensures
            builder@ == blank_transaction(script.spec_bytes()),
    {
        let builder = TransactionBuilder {
            script: vstd::slice::slice_to_vec(script.as_bytes()),
            arguments: Vec::new(),
            reference_block_id: Vec::new(),
            gas_limit: 0,
            proposal_key: None,
            payer: Vec::new(),
            authorizers: Vec::new(),
        };
        assert(builder@.arguments =~= Seq::<Seq<u8>>::empty());
        assert(builder@.authorizers =~= Seq::<Seq<u8>>::empty());
        builder
    }

    /// Adds one encoded argument after those already given.
    pub fn add_argument(self, arg: Vec<u8>) -> (builder: TransactionBuilder)
        ensures
            builder@ == (TransactionView { arguments: self@.arguments.push(arg@), ..self@ }),
    {
        let mut builder = self;
        builder.arguments.push(arg);
        assert(builder@.arguments =~= self@.arguments.push(arg@));
        builder
    }

    /// Sets the block that the transaction refers to.
    pub fn reference_block_id(self, block_id: Vec<u8>) -> (builder: TransactionBuilder)
        ensures
            builder@ == (TransactionView { reference_block_id: block_id@, ..self@ }),
    {
        let mut builder = self;
        builder.reference_block_id = block_id;
        builder
    }

    /// Sets the gas limit.
    pub fn gas_limit(self, limit: u64) -> (builder: TransactionBuilder)
        ensures
            builder@ == (TransactionView { gas_limit: limit, ..self@ }),
    {
        let mut builder = self;
        builder.gas_limit = limit;
        builder
    }

    /// Sets the proposal key.
    pub fn proposal_key(self, address: Vec<u8>, key_index: u32, sequence_number: u64) -> (builder:
        TransactionBuilder)
        ensures
            builder@ == (TransactionView {
                proposal_key: Some(
                    ProposalKeyView { address: address@, key_index, sequence_number },
                ),
                ..self@
            }),
    {
        let mut builder = self;
        builder.proposal_key = Some(ProposalKey { address, key_index, sequence_number });
        builder
    }

    /// Sets the account that pays.
    pub fn payer(self, address: Vec<u8>) -> (builder: TransactionBuilder)
        ensures
            builder@ == (TransactionView { payer: address@, ..self@ }),
    {
        let mut builder = self;
        builder.payer = address;
        builder
    }

    /// Adds one authorizer after those already given.
    pub fn add_authorizer(self, address: Vec<u8>) -> (builder: TransactionBuilder)
        ensures
            builder@ == (TransactionView { authorizers: self@.authorizers.push(address@), ..self@ }),
    {
        let mut builder = self;
        builder.authorizers.push(address);
        assert(builder@.authorizers =~= self@.authorizers.push(address@));
        builder
    }

    /// Finishes the transaction. This never fails, and the transaction
    /// carries no signature yet.
    pub fn build(self) -> (transaction: Transaction)
        ensures
            transaction@ == self@,
    {
        let transaction = Transaction {
            script: self.script,
            arguments: self.arguments,
            reference_block_id: self.reference_block_id,
            gas_limit: self.gas_limit,
            proposal_key: self.proposal_key,
            payer: self.payer,
            authorizers: self.authorizers,
            payload_signatures: Vec::new(),
            envelope_signatures: Vec::new(),
        };
        assert(transaction@.payload_signatures =~= Seq::<SignatureView>::empty());
        assert(transaction@.envelope_signatures =~= Seq::<SignatureView>::empty());
        transaction
    }
}

/// The encoding of a proposal key: the list of its address, key index and
/// sequence number.
pub open spec fn spec_proposal_key(key: ProposalKeyView) -> Seq<u8> {
    rlp_list(
        rlp_string(key.address) + rlp_uint(key.key_index as nat) + rlp_uint(
            key.sequence_number as nat,
        ),
    )
}

/// The seven fields of the envelope in their fixed order, each encoded.
pub open spec fn spec_envelope_payload(
    transaction: TransactionView,
    key: ProposalKeyView,
) -> Seq<u8> {
    rlp_string(transaction.script) + rlp_list(rlp_strings(transaction.arguments)) + rlp_string(
        transaction.reference_block_id,
    ) + rlp_uint(transaction.gas_limit as nat) + spec_proposal_key(key) + rlp_string(
        transaction.payer,
    ) + rlp_list(rlp_strings(transaction.authorizers))
}

/// The envelope of a transaction: the list of its seven fields. The
/// signatures are no part of it. There is none without a proposal key.
pub open spec fn spec_envelope(transaction: TransactionView) -> Option<Seq<u8>> {
    match transaction.proposal_key {
        Some(key) => Some(rlp_list(spec_envelope_payload(transaction, key))),
        None => None,
    }
}

/// Encodes a proposal key.
fn encode_proposal_key(key: &ProposalKey) -> (out: Vec<u8>)
    ensures
        out@ == spec_proposal_key(key@),
{
    let mut payload = encode_string(key.address.as_slice());
    let index = encode_uint(key.key_index as u64);
    append_bytes(&mut payload, &index);
    let sequence = encode_uint(key.sequence_number);
    append_bytes(&mut payload, &sequence);
    frame_list(payload.as_slice())
}

/// Encodes the envelope of a transaction, the exact bytes that get signed.
///
/// Fails with `EncodingFailed` when, and only when, the transaction has no
/// proposal key.
pub fn encode_transaction_envelope(transaction: &Transaction) -> (r: Result<Vec<u8>>)
    ensures
        match r {
            Ok(bytes) => spec_envelope(transaction@) == Some(bytes@),
            Err(e) => spec_envelope(transaction@) is None && e == MtmfError::EncodingFailed,
        },
{
    match &transaction.proposal_key {
        None => Err(MtmfError::EncodingFailed),
        Some(key) => {
            let mut payload = encode_string(transaction.script.as_slice());
            let arguments = frame_list(encode_strings(&transaction.arguments).as_slice());
            append_bytes(&mut payload, &arguments);
            let block = encode_string(transaction.reference_block_id.as_slice());
            append_bytes(&mut payload, &block);
            let gas = encode_uint(transaction.gas_limit);
            append_bytes(&mut payload, &gas);
            let proposal = encode_proposal_key(key);
            append_bytes(&mut payload, &proposal);
            let payer = encode_string(transaction.payer.as_slice());
            append_bytes(&mut payload, &payer);
            let authorizers = frame_list(encode_strings(&transaction.authorizers).as_slice());
            append_bytes(&mut payload, &authorizers);
            Ok(frame_list(payload.as_slice()))
        },
    }
}

/// The tag that separates transaction signatures from every other use of
/// a key.
pub const DOMAIN_TAG: &'static str = "FLOW-V0.0-transaction";

/// The bytes of the domain tag.
pub open spec fn spec_domain_tag() -> Seq<u8> {
    encode_utf8("FLOW-V0.0-transaction"@)
}

/// The message that is hashed and signed for an envelope: the domain tag,
/// then the envelope.
pub open spec fn spec_signing_message(envelope: Seq<u8>) -> Seq<u8> {
    spec_domain_tag() + envelope
}

/// Puts the domain tag in front of an envelope.
pub fn signing_message(envelope: &[u8]) -> (message: Vec<u8>)
    ensures
        message@ == spec_signing_message(envelope@),
{
    let mut message = vstd::slice::slice_to_vec(DOMAIN_TAG.as_bytes());
    let tail = vstd::slice::slice_to_vec(envelope);
    append_bytes(&mut message, &tail);
    message
}

/// The signature that a key gives a transaction: that of the signing
/// message of its envelope. There is none without an envelope.
pub open spec fn spec_transaction_signature(
    transaction: TransactionView,
    secret: Seq<u8>,
) -> Option<Seq<u8>> {
    match spec_envelope(transaction) {
        Some(envelope) => spec_sign_message(secret, spec_signing_message(envelope)),
        None => None,
    }
}

/// Signs the envelope of a transaction and appends the signature to its
/// envelope signatures.
///
/// Fails with `EncodingFailed` when the transaction has no proposal key, and
/// with a `Crypto` error when the signature scheme produces no signature.
/// The transaction is then unchanged. Neither error is worth a retry: both
/// follow from the inputs alone.
pub fn sign_transaction(
    transaction: &mut Transaction,
    signing_key: &SigningKey,
    signer_address: &[u8],
    key_index: u32,
) -> (r: Result<()>)
    ensures
        match r {
            Ok(_) => {
                &&& spec_transaction_signature(old(transaction)@, signing_key@) matches Some(
                    signature,
                )
                &&& final(transaction)@ == (TransactionView {
                    envelope_signatures: old(transaction)@.envelope_signatures.push(
                        SignatureView { address: signer_address@, key_index, signature },
                    ),
                    ..old(transaction)@
                })
            },
            Err(e) => {
                &&& final(transaction)@ == old(transaction)@
                &&& spec_transaction_signature(old(transaction)@, signing_key@) is None
                &&& if spec_envelope(old(transaction)@) is None {
                    e == MtmfError::EncodingFailed
                } else {
                    e is Crypto
                }
            },
        },
{
    let envelope = match encode_transaction_envelope(transaction) {
        Ok(envelope) => envelope,
        Err(e) => {
            return Err(e);
        },
    };
    let message = signing_message(envelope.as_slice());
    let signature = match sign_message(signing_key, message.as_slice()) {
        Ok(signature) => signature,
        Err(e) => {
            return Err(e);
        },
    };
    let ghost before = transaction@;
    let ghost added = SignatureView { address: signer_address@, key_index, signature: signature@ };
    transaction.envelope_signatures.push(
        TransactionSignature {
            address: vstd::slice::slice_to_vec(signer_address),
            key_index,
            signature,
        },
    );
    assert(transaction@.envelope_signatures =~= before.envelope_signatures.push(added));
    Ok(())
}

/// An address as text without a leading `0x`.
pub open spec fn strip_0x(text: Seq<u8>) -> Seq<u8> {
    if text.len() >= 2 && text[0] == 0x30 && text[1] == 0x78 {
        text.skip(2)
    } else {
        text
    }
}

/// Writes an address as `0x` and its hexadecimal digits.
pub fn format_address(address: &[u8]) -> (text: String)
    ensures
        text@ == "0x"@ + hex_text(address@),
{
    let digits = hex_encode(address);
    let mut text = String::from_str("0x");
    text.append(digits.as_str());
    text
}

/// Reads an address written in hexadecimal, with or without a leading
/// `0x`. Fails with a `Flow` error unless the rest is hexadecimal.
pub fn parse_address(address: &str) -> (r: Result<Vec<u8>>)
    ensures
        match r {
            Ok(bytes) => is_hex(strip_0x(address.spec_bytes())) && bytes@ == unhex(
                strip_0x(address.spec_bytes()),
            ),
            Err(e) => !is_hex(strip_0x(address.spec_bytes())) && e is Flow,
        },
{
    let text = address.as_bytes();
    let digits = if text.len() >= 2 && text[0] == 0x30 && text[1] == 0x78 {
        vstd::slice::slice_subrange(text, 2, text.len())
    } else {
        text
    };
    assert(digits@ =~= strip_0x(address.spec_bytes()));
    match hex_decode(digits) {
        Ok(bytes) => Ok(bytes),
        Err(_) => Err(MtmfError::Flow(String::from_str("Invalid address"))),
    }
}

/// The page of a block explorer that shows a transaction.
pub open spec fn spec_flowscan_link(tx_id: Seq<u8>, is_mainnet: bool) -> Seq<char> {
    if is_mainnet {
        "https://flowscan.org/transaction"@ + "/"@ + hex_text(tx_id)
    } else {
        "https://testnet.flowscan.org/transaction"@ + "/"@ + hex_text(tx_id)
    }
}

/// The link to a transaction on the block explorer of the main or the test
/// network.
pub fn flowscan_link(tx_id: &[u8], is_mainnet: bool) -> (link: String)
    ensures
        link@ == spec_flowscan_link(tx_id@, is_mainnet),
{
    let base = if is_mainnet {
        "https://flowscan.org/transaction"
    } else {
        "https://testnet.flowscan.org/transaction"
    };
    let digits = hex_encode(tx_id);
    let mut link = String::from_str(base);
    link.append("/");
    link.append(digits.as_str());
    link
}

/// A transaction has an envelope exactly when it has a proposal key: one
/// without is refused, and setting a key makes the same transaction
/// encodable.
pub proof fn lemma_envelope_needs_proposal_key(transaction: TransactionView, key: ProposalKeyView)
    ensures
        spec_envelope(transaction) is Some <==> transaction.proposal_key is Some,
        spec_envelope(TransactionView { proposal_key: Some(key), ..transaction }) is Some,
{
}

/// The envelope of the transaction is short enough for every length in it
/// to be written whole: its seven encoded fields take less than `2^32`
/// bytes together.
pub open spec fn envelope_fits(transaction: TransactionView) -> bool {
    &&& transaction.proposal_key matches Some(key)
    &&& fits_prefix(spec_envelope_payload(transaction, key).len())
}

/// The two transactions agree in every field that the envelope covers.
pub open spec fn same_envelope_fields(a: TransactionView, b: TransactionView) -> bool {
    &&& a.script == b.script
    &&& a.arguments == b.arguments
    &&& a.reference_block_id == b.reference_block_id
    &&& a.gas_limit == b.gas_limit
    &&& a.proposal_key == b.proposal_key
    &&& a.payer == b.payer
    &&& a.authorizers == b.authorizers
}

/// The fields of the envelope from the reference block on.
spec fn tail_from_block(transaction: TransactionView, key: ProposalKeyView) -> Seq<u8> {
    rlp_string(transaction.reference_block_id) + tail_from_gas(transaction, key)
}

/// The fields of the envelope from the gas limit on.
spec fn tail_from_gas(transaction: TransactionView, key: ProposalKeyView) -> Seq<u8> {
    rlp_uint(transaction.gas_limit as nat) + tail_from_key(transaction, key)
}

/// The fields of the envelope from the proposal key on.
spec fn tail_from_key(transaction: TransactionView, key: ProposalKeyView) -> Seq<u8> {
    spec_proposal_key(key) + tail_from_payer(transaction)
}

/// The last two fields of the envelope.
spec fn tail_from_payer(transaction: TransactionView) -> Seq<u8> {
    rlp_string(transaction.payer) + rlp_list(rlp_strings(transaction.authorizers))
}

/// The fields of the envelope from the arguments on.
spec fn tail_from_arguments(transaction: TransactionView, key: ProposalKeyView) -> Seq<u8> {
    rlp_list(rlp_strings(transaction.arguments)) + tail_from_block(transaction, key)
}

/// Seven byte strings joined are as long as all of them together, and are
/// the first followed by the others.
proof fn lemma_seven_parts(
    p1: Seq<u8>,
    p2: Seq<u8>,
    p3: Seq<u8>,
    p4: Seq<u8>,
    p5: Seq<u8>,
    p6: Seq<u8>,
    p7: Seq<u8>,
)
    ensures
        (p1 + p2 + p3 + p4 + p5 + p6 + p7).len() == p1.len() + p2.len() + p3.len() + p4.len()
            + p5.len() + p6.len() + p7.len(),
        p1 + p2 + p3 + p4 + p5 + p6 + p7 == p1 + (p2 + (p3 + (p4 + (p5 + (p6 + p7))))),
{
    assert(p1 + p2 + p3 + p4 + p5 + p6 + p7 =~= p1 + (p2 + (p3 + (p4 + (p5 + (p6 + p7))))));
}

/// The payload of the envelope is the script followed by the other fields,
/// and no part of it is longer than the whole.
proof fn lemma_payload_parts(transaction: TransactionView, key: ProposalKeyView)
    ensures
        spec_envelope_payload(transaction, key) == rlp_string(transaction.script)
            + tail_from_arguments(transaction, key),
        transaction.script.len() <= spec_envelope_payload(transaction, key).len(),
        rlp_strings(transaction.arguments).len() <= spec_envelope_payload(transaction, key).len(),
        transaction.reference_block_id.len() <= spec_envelope_payload(transaction, key).len(),
        (rlp_string(key.address) + rlp_uint(key.key_index as nat) + rlp_uint(
            key.sequence_number as nat,
        )).len() <= spec_envelope_payload(transaction, key).len(),
        transaction.payer.len() <= spec_envelope_payload(transaction, key).len(),
        rlp_strings(transaction.authorizers).len() <= spec_envelope_payload(
            transaction,
            key,
        ).len(),
{
    let p1 = rlp_string(transaction.script);
    let p2 = rlp_list(rlp_strings(transaction.arguments));
    let p3 = rlp_string(transaction.reference_block_id);
    let p4 = rlp_uint(transaction.gas_limit as nat);
    let p5 = spec_proposal_key(key);
    let p6 = rlp_string(transaction.payer);
    let p7 = rlp_list(rlp_strings(transaction.authorizers));
    lemma_seven_parts(p1, p2, p3, p4, p5, p6, p7);
    assert(spec_envelope_payload(transaction, key) == p1 + p2 + p3 + p4 + p5 + p6 + p7);
    assert(tail_from_arguments(transaction, key) == p2 + (p3 + (p4 + (p5 + (p6 + p7)))));
    assert(p1.len() >= transaction.script.len()) by {
        lemma_encoded_len(transaction.script);
    }
    assert(p2.len() >= rlp_strings(transaction.arguments).len()) by {
        lemma_encoded_len(rlp_strings(transaction.arguments));
    }
    assert(p3.len() >= transaction.reference_block_id.len()) by {
        lemma_encoded_len(transaction.reference_block_id);
    }
    assert(p5.len() >= (rlp_string(key.address) + rlp_uint(key.key_index as nat) + rlp_uint(
        key.sequence_number as nat,
    )).len()) by {
        lemma_encoded_len(
            rlp_string(key.address) + rlp_uint(key.key_index as nat) + rlp_uint(
                key.sequence_number as nat,
            ),
        );
    }
    assert(p6.len() >= transaction.payer.len()) by {
        lemma_encoded_len(transaction.payer);
    }
    assert(p7.len() >= rlp_strings(transaction.authorizers).len()) by {
        lemma_encoded_len(rlp_strings(transaction.authorizers));
    }
}

/// Two proposal keys with the same encoding, followed by the same or other
/// bytes, are the same key, and what follows is the same.
proof fn lemma_proposal_key_injective(
    a: ProposalKeyView,
    rest_a: Seq<u8>,
    b: ProposalKeyView,
    rest_b: Seq<u8>,
)
    requires
        fits_prefix(
            (rlp_string(a.address) + rlp_uint(a.key_index as nat) + rlp_uint(
                a.sequence_number as nat,
            )).len(),
        ),
        fits_prefix(
            (rlp_string(b.address) + rlp_uint(b.key_index as nat) + rlp_uint(
                b.sequence_number as nat,
            )).len(),
        ),
        spec_proposal_key(a) + rest_a == spec_proposal_key(b) + rest_b,
    ensures
        a == b,
        rest_a == rest_b,
{
    let index_a = rlp_uint(a.key_index as nat);
    let index_b = rlp_uint(b.key_index as nat);
    let sequence_a = rlp_uint(a.sequence_number as nat);
    let sequence_b = rlp_uint(b.sequence_number as nat);
    let address_a = rlp_string(a.address);
    let address_b = rlp_string(b.address);
    let inner_a = address_a + index_a + sequence_a;
    let inner_b = address_b + index_b + sequence_b;
    assert(inner_a == inner_b && rest_a == rest_b) by {
        lemma_list_then_rest_injective(inner_a, rest_a, inner_b, rest_b);
    }
    assert(fits_prefix(a.address.len()) && fits_prefix(b.address.len())) by {
        lemma_encoded_len(a.address);
        lemma_encoded_len(b.address);
        assert(inner_a.len() == address_a.len() + index_a.len() + sequence_a.len());
        assert(inner_b.len() == address_b.len() + index_b.len() + sequence_b.len());
    }
    assert(address_a + (index_a + sequence_a) == address_b + (index_b + sequence_b)) by {
        assert(inner_a =~= address_a + (index_a + sequence_a));
        assert(inner_b =~= address_b + (index_b + sequence_b));
    }
    assert(a.address == b.address && index_a + sequence_a == index_b + sequence_b) by {
        lemma_string_then_rest_injective(
            a.address,
            index_a + sequence_a,
            b.address,
            index_b + sequence_b,
        );
    }
    assert(a.key_index == b.key_index && sequence_a == sequence_b) by {
        lemma_uint_then_rest_injective(
            a.key_index as nat,
            sequence_a,
            b.key_index as nat,
            sequence_b,
        );
    }
    assert(a.sequence_number == b.sequence_number) by {
        let none = Seq::<u8>::empty();
        assert(sequence_a + none =~= sequence_a);
        assert(sequence_b + none =~= sequence_b);
        lemma_uint_then_rest_injective(
            a.sequence_number as nat,
            none,
            b.sequence_number as nat,
            none,
        );
    }
}

/// Encoding is a function, and one that loses nothing: two transactions
/// have the same envelope if and only if they agree in every field that the
/// envelope covers. Changing the script, an argument, the reference block,
/// the gas limit, the proposal key, the payer or an authorizer changes the
/// bytes.
///
/// This holds of envelopes whose fields take less than `2^32` bytes, the
/// longest length that the encoding writes whole.
pub proof fn lemma_envelope_injective(a: TransactionView, b: TransactionView)
    requires
        envelope_fits(a),
        envelope_fits(b),
    ensures
        spec_envelope(a) == spec_envelope(b) <==> same_envelope_fields(a, b),
{
    let key_a = a.proposal_key->0;
    let key_b = b.proposal_key->0;
    let payload_a = spec_envelope_payload(a, key_a);
    let payload_b = spec_envelope_payload(b, key_b);
    if spec_envelope(a) == spec_envelope(b) {
        let none = Seq::<u8>::empty();
        assert(rlp_list(payload_a) + none =~= rlp_list(payload_a));
        assert(rlp_list(payload_b) + none =~= rlp_list(payload_b));
        lemma_list_then_rest_injective(payload_a, none, payload_b, none);
        lemma_payload_parts(a, key_a);
        lemma_payload_parts(b, key_b);
        lemma_string_then_rest_injective(
            a.script,
            tail_from_arguments(a, key_a),
            b.script,
            tail_from_arguments(b, key_b),
        );
        lemma_list_then_rest_injective(
            rlp_strings(a.arguments),
            tail_from_block(a, key_a),
            rlp_strings(b.arguments),
            tail_from_block(b, key_b),
        );
        lemma_strings_injective(a.arguments, b.arguments);
        lemma_string_then_rest_injective(
            a.reference_block_id,
            tail_from_gas(a, key_a),
            b.reference_block_id,
            tail_from_gas(b, key_b),
        );
        lemma_uint_then_rest_injective(
            a.gas_limit as nat,
            tail_from_key(a, key_a),
            b.gas_limit as nat,
            tail_from_key(b, key_b),
        );
        lemma_proposal_key_injective(key_a, tail_from_payer(a), key_b, tail_from_payer(b));
        lemma_string_then_rest_injective(
            a.payer,
            rlp_list(rlp_strings(a.authorizers)),
            b.payer,
            rlp_list(rlp_strings(b.authorizers)),
        );
        assert(rlp_list(rlp_strings(a.authorizers)) + none =~= rlp_list(
            rlp_strings(a.authorizers),
        ));
        assert(rlp_list(rlp_strings(b.authorizers)) + none =~= rlp_list(
            rlp_strings(b.authorizers),
        ));
        lemma_list_then_rest_injective(
            rlp_strings(a.authorizers),
            none,
            rlp_strings(b.authorizers),
            none,
        );
        lemma_strings_injective(a.authorizers, b.authorizers);
    }
}

} // verus!
