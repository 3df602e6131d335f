//! Recursive-length-prefix encoding: what the bytes are, and the calls that
//! produce them.
//!
//! The encoder writes length prefixes of at most four bytes. A length of
//! `2^32` bytes or more is therefore written modulo `2^32`; the functions
//! below say so, and `fits_prefix` names the lengths that are written whole.

use vstd::prelude::*;

use crate::crypto::be_value;

verus! {

/// The number of lengths that a four-byte prefix can hold.
pub open spec fn prefix_modulus() -> nat {
    0x1_0000_0000
}

/// A length that the encoder writes without truncating it.
pub open spec fn fits_prefix(len: nat) -> bool {
    len < prefix_modulus()
}

/// The big-endian bytes of `n` without leading zeros; empty for zero.
pub open spec fn be_bytes(n: nat) -> Seq<u8>
    decreases n,
{
    if n == 0 {
        Seq::empty()
    } else {
        be_bytes(n / 256).push((n % 256) as u8)
    }
}

/// The header of an item whose payload is `len` bytes long: one byte for a
/// short payload, otherwise a byte that counts the length bytes that follow.
/// `base` is `0x80` for a byte string and `0xc0` for a list.
pub open spec fn header(base: u8, len: nat) -> Seq<u8> {
    if len <= 55 {
        seq![(base + len) as u8]
    } else {
        let prefix = be_bytes(len % prefix_modulus());
        seq![(base + 55 + prefix.len()) as u8] + prefix
    }
}

/// The encoding of a byte string: a single byte below `0x80` stands for
/// itself, anything else follows its header.
pub open spec fn rlp_string(data: Seq<u8>) -> Seq<u8> {
    if data.len() == 1 && data[0] < 0x80 {
        data
    } else {
        header(0x80, data.len()) + data
    }
}

/// The encoding of an unsigned integer: its shortest big-endian bytes as a
/// byte string.
pub open spec fn rlp_uint(value: nat) -> Seq<u8> {
    rlp_string(be_bytes(value))
}

/// The encoding of a list whose items are already encoded in `payload`.
pub open spec fn rlp_list(payload: Seq<u8>) -> Seq<u8> {
    header(0xc0, payload.len()) + payload
}

/// The encodings of `items`, one after the other.
pub open spec fn rlp_strings(items: Seq<Seq<u8>>) -> Seq<u8>
    decreases items.len(),
{
    if items.len() == 0 {
        Seq::empty()
    } else {
        rlp_strings(items.drop_last()) + rlp_string(items.last())
    }
}

/// Encodes a byte string with `rlp::encode`.
///
/// Trusted: the result is the item that `BasicEncoder::encode_value` writes
/// for a slice, which is `rlp_string` of the bytes, the length prefix being
/// cut to 32 bits as `BasicEncoder::insert_size` does.
#[verifier::external_body]
pub(crate) fn encode_string(data: &[u8]) -> (out: Vec<u8>)
    ensures
        out@ == rlp_string(data@),
{
    ::rlp::encode(&data).to_vec()
}

/// Encodes an unsigned integer with `rlp::encode`.
///
/// Trusted: the crate drops the leading zero bytes of the big-endian form
/// and encodes the rest as a byte string, so zero becomes the empty string.
#[verifier::external_body]
pub(crate) fn encode_uint(value: u64) -> (out: Vec<u8>)
    ensures
        out@ == rlp_uint(value as nat),
{
    ::rlp::encode(&value).to_vec()
}

/// Puts a list header in front of an encoded payload, with
/// `rlp::RlpStream::new_list`, `append_raw` and `out`.
///
/// Trusted: the stream is opened as a list of one item and handed the
/// payload as that one raw item, which closes the list at once; the stream
/// then holds the list header for the payload's length, followed by the
/// payload, and `out` returns it.
#[verifier::external_body]
pub(crate) fn frame_list(payload: &[u8]) -> (out: Vec<u8>)
    ensures
        out@ == rlp_list(payload@),
{
    let mut stream = ::rlp::RlpStream::new_list(1);
    stream.append_raw(payload, 1);
    stream.out().to_vec()
}

/// Appends `more` to `buffer`.
pub(crate) fn append_bytes(buffer: &mut Vec<u8>, more: &Vec<u8>)
    ensures
        final(buffer)@ == old(buffer)@ + more@,
{
    let mut i: usize = 0;
    while i < more.len()
        invariant
            i <= more.len(),
            buffer@ == old(buffer)@ + more@.take(i as int),
        decreases more.len() - i,
    {
        buffer.push(more[i]);
        i = i + 1;
    }
    assert(more@.take(more.len() as int) == more@);
}

/// Encodes each byte string of `items` and returns the encodings joined.
pub fn encode_strings(items: &Vec<Vec<u8>>) -> (out: Vec<u8>)
    ensures
        out@ == rlp_strings(byte_strings(items@)),
{
    let mut out: Vec<u8> = Vec::new();
    let mut i: usize = 0;
    while i < items.len()
        invariant
            i <= items.len(),
            out@ == rlp_strings(byte_strings(items@).take(i as int)),
        decreases items.len() - i,
    {
        let item = encode_string(items[i].as_slice());
        proof {
            let all = byte_strings(items@);
            assert(all.take(i + 1).drop_last() == all.take(i as int));
            assert(all.take(i + 1).last() == items@[i as int]@);
        }
        append_bytes(&mut out, &item);
        i = i + 1;
    }
    assert(byte_strings(items@).take(items.len() as int) == byte_strings(items@));
    out
}

/// The byte strings that a vector of byte vectors holds.
pub open spec fn byte_strings(items: Seq<Vec<u8>>) -> Seq<Seq<u8>> {
    Seq::new(items.len(), |i: int| items[i]@)
}

/// The length of the header of the first item of `encoded`; zero where the
/// item is a single byte that stands for itself.
pub open spec fn item_header_len(encoded: Seq<u8>) -> nat {
    let first = encoded[0];
    if first < 0x80 {
        0
    } else if first <= 0xb7 {
        1
    } else if first < 0xc0 {
        (1 + (first - 0xb7)) as nat
    } else if first <= 0xf7 {
        1
    } else {
        (1 + (first - 0xf7)) as nat
    }
}

/// The length of the payload of the first item of `encoded`, read from its
/// header.
pub open spec fn item_payload_len(encoded: Seq<u8>) -> nat {
    let first = encoded[0];
    if first < 0x80 {
        1
    } else if first <= 0xb7 {
        (first - 0x80) as nat
    } else if first < 0xc0 {
        be_value(encoded.subrange(1, item_header_len(encoded) as int))
    } else if first <= 0xf7 {
        (first - 0xc0) as nat
    } else {
        be_value(encoded.subrange(1, item_header_len(encoded) as int))
    }
}

/// The payload of the first item of `encoded`.
pub open spec fn item_payload(encoded: Seq<u8>) -> Seq<u8> {
    encoded.subrange(
        item_header_len(encoded) as int,
        (item_header_len(encoded) + item_payload_len(encoded)) as int,
    )
}

/// What follows the first item of `encoded`.
pub open spec fn item_rest(encoded: Seq<u8>) -> Seq<u8> {
    encoded.skip((item_header_len(encoded) + item_payload_len(encoded)) as int)
}

/// Whether the first item of `encoded` is a list.
pub open spec fn item_is_list(encoded: Seq<u8>) -> bool {
    encoded[0] >= 0xc0
}

/// Reading the shortest big-endian bytes of a number gives the number.
pub proof fn lemma_be_value_of_be_bytes(n: nat)
    ensures
        be_value(be_bytes(n)) == n,
    decreases n,
{
    if n > 0 {
        lemma_be_value_of_be_bytes(n / 256);
        let bytes = be_bytes(n);
        assert(bytes.drop_last() =~= be_bytes(n / 256));
        assert(bytes.last() == (n % 256) as u8);
    }
}

/// A number below `2^32` takes at most four bytes, one below `2^64` at most
/// eight, and any number but zero at least one.
pub proof fn lemma_be_bytes_len(n: nat)
    ensures
        n > 0 ==> be_bytes(n).len() >= 1,
        n < 0x1_0000_0000 ==> be_bytes(n).len() <= 4,
        n < 0x1_0000_0000_0000_0000 ==> be_bytes(n).len() <= 8,
{
    reveal_with_fuel(be_bytes, 10);
    if n < 0x1_0000_0000_0000_0000 {
        let n1 = n / 256;
        let n2 = n1 / 256;
        let n3 = n2 / 256;
        let n4 = n3 / 256;
        let n5 = n4 / 256;
        let n6 = n5 / 256;
        let n7 = n6 / 256;
        let n8 = n7 / 256;
        assert(n8 == 0);
        if n < 0x1_0000_0000 {
            assert(n4 == 0);
        }
    }
}

/// The header of a payload is at most five bytes long and starts with a
/// byte that tells a byte string from a list.
pub proof fn lemma_header_shape(base: u8, len: nat)
    requires
        base == 0x80 || base == 0xc0,
        fits_prefix(len),
    ensures
        1 <= header(base, len).len() <= 5,
        base <= header(base, len)[0] <= base + 59,
{
    if len > 55 {
        lemma_be_bytes_len(len);
    }
}

/// The first item of an encoded byte string, followed by anything, is that
/// byte string, and what follows it is read off whole.
pub proof fn lemma_read_string(data: Seq<u8>, rest: Seq<u8>)
    requires
        fits_prefix(data.len()),
    ensures
        item_payload(rlp_string(data) + rest) == data,
        item_rest(rlp_string(data) + rest) == rest,
        !item_is_list(rlp_string(data) + rest),
        rlp_string(data).len() >= 1,
        rlp_string(data).len() >= data.len(),
{
    let encoded = rlp_string(data) + rest;
    if data.len() == 1 && data[0] < 0x80 {
        assert(encoded[0] == data[0]);
        assert(item_payload(encoded) =~= data);
        assert(item_rest(encoded) =~= rest);
    } else {
        lemma_read_framed(0x80, data, rest);
    }
}

/// The first item of an encoded list, followed by anything, has the
/// payload of the list, and what follows it is read off whole.
pub proof fn lemma_read_list(payload: Seq<u8>, rest: Seq<u8>)
    requires
        fits_prefix(payload.len()),
    ensures
        item_payload(rlp_list(payload) + rest) == payload,
        item_rest(rlp_list(payload) + rest) == rest,
        item_is_list(rlp_list(payload) + rest),
        rlp_list(payload).len() >= 1,
        rlp_list(payload).len() >= payload.len(),
{
    lemma_read_framed(0xc0, payload, rest);
}

/// A header, its payload and anything after: the header tells the payload
/// from the rest.
proof fn lemma_read_framed(base: u8, payload: Seq<u8>, rest: Seq<u8>)
    requires
        base == 0x80 || base == 0xc0,
        fits_prefix(payload.len()),
    ensures
        item_payload(header(base, payload.len()) + payload + rest) == payload,
        item_rest(header(base, payload.len()) + payload + rest) == rest,
        item_is_list(header(base, payload.len()) + payload + rest) == (base == 0xc0),
        (header(base, payload.len()) + payload + rest)[0] >= 0x80,
{
    let len = payload.len();
    let head = header(base, len);
    let encoded = head + payload + rest;
    lemma_header_shape(base, len);
    assert(encoded[0] == head[0]);
    if len <= 55 {
        assert(item_header_len(encoded) == 1);
        assert(item_payload_len(encoded) == len);
    } else {
        let prefix = be_bytes(len % prefix_modulus());
        assert(len % prefix_modulus() == len);
        lemma_be_bytes_len(len);
        lemma_be_value_of_be_bytes(len);
        assert(item_header_len(encoded) == 1 + prefix.len());
        assert(encoded.subrange(1, 1 + prefix.len() as int) =~= prefix);
        assert(item_payload_len(encoded) == len);
    }
    assert(item_payload(encoded) =~= payload);
    assert(item_rest(encoded) =~= rest);
}

/// An encoding is never empty, and never shorter than what it encodes.
pub proof fn lemma_encoded_len(data: Seq<u8>)
    ensures
        rlp_string(data).len() >= 1,
        rlp_string(data).len() >= data.len(),
        rlp_list(data).len() >= data.len() + 1,
{
}

/// Two encoded byte strings, each followed by something, are the same bytes
/// only if the byte strings are the same and what follows is the same.
pub proof fn lemma_string_then_rest_injective(
    a: Seq<u8>,
    rest_a: Seq<u8>,
    b: Seq<u8>,
    rest_b: Seq<u8>,
)
    requires
        fits_prefix(a.len()),
        fits_prefix(b.len()),
        rlp_string(a) + rest_a == rlp_string(b) + rest_b,
    ensures
        a == b,
        rest_a == rest_b,
{
    lemma_read_string(a, rest_a);
    lemma_read_string(b, rest_b);
}

/// Two encoded lists, each followed by something, are the same bytes only
/// if their payloads are the same and what follows is the same.
pub proof fn lemma_list_then_rest_injective(
    a: Seq<u8>,
    rest_a: Seq<u8>,
    b: Seq<u8>,
    rest_b: Seq<u8>,
)
    requires
        fits_prefix(a.len()),
        fits_prefix(b.len()),
        rlp_list(a) + rest_a == rlp_list(b) + rest_b,
    ensures
        a == b,
        rest_a == rest_b,
{
    lemma_read_list(a, rest_a);
    lemma_read_list(b, rest_b);
}

/// Two encoded integers below `2^64`, each followed by something, are the
/// same bytes only if the integers are the same and what follows is the
/// same.
pub proof fn lemma_uint_then_rest_injective(a: nat, rest_a: Seq<u8>, b: nat, rest_b: Seq<u8>)
    requires
        a < 0x1_0000_0000_0000_0000,
        b < 0x1_0000_0000_0000_0000,
        rlp_uint(a) + rest_a == rlp_uint(b) + rest_b,
    ensures
        a == b,
        rest_a == rest_b,
{
    lemma_be_bytes_len(a);
    lemma_be_bytes_len(b);
    lemma_string_then_rest_injective(be_bytes(a), rest_a, be_bytes(b), rest_b);
    lemma_be_value_of_be_bytes(a);
    lemma_be_value_of_be_bytes(b);
}

/// The joined encodings of byte strings start with the encoding of the
/// first.
pub proof fn lemma_strings_first(items: Seq<Seq<u8>>)
    requires
        items.len() > 0,
    ensures
        rlp_strings(items) == rlp_string(items[0]) + rlp_strings(items.drop_first()),
    decreases items.len(),
{
    if items.len() == 1 {
        assert(items.drop_last() =~= Seq::<Seq<u8>>::empty());
        assert(items.drop_first() =~= Seq::<Seq<u8>>::empty());
        assert(rlp_strings(items) =~= rlp_string(items[0]) + rlp_strings(items.drop_first()));
    } else {
        lemma_strings_first(items.drop_last());
        assert(items.drop_last().drop_first() =~= items.drop_first().drop_last());
        assert(items.drop_last()[0] == items[0]);
        assert(items.drop_first().last() == items.last());
        assert(rlp_strings(items) =~= rlp_string(items[0]) + rlp_strings(items.drop_first()));
    }
}

/// The joined encodings of byte strings are at least as long as each of the
/// byte strings, and at least one byte long for each.
pub proof fn lemma_strings_len(items: Seq<Seq<u8>>)
    ensures
        rlp_strings(items).len() >= items.len(),
        forall|i: int| 0 <= i < items.len() ==> rlp_strings(items).len() >= (#[trigger] items[i]).len(),
    decreases items.len(),
{
    if items.len() > 0 {
        lemma_strings_len(items.drop_last());
        let last = items.last();
        if last.len() == 1 && last[0] < 0x80 {
        } else {
            assert(rlp_string(last).len() == header(0x80, last.len()).len() + last.len());
        }
        assert forall|i: int| 0 <= i < items.len() implies rlp_strings(items).len() >= (
        #[trigger] items[i]).len() by {
            if i < items.len() - 1 {
                assert(items[i] == items.drop_last()[i]);
            }
        }
    }
}

/// Two lists of byte strings whose joined encodings are the same bytes, and
/// shorter than `2^32` bytes, are the same list.
pub proof fn lemma_strings_injective(a: Seq<Seq<u8>>, b: Seq<Seq<u8>>)
    requires
        fits_prefix(rlp_strings(a).len()),
        rlp_strings(a) == rlp_strings(b),
    ensures
        a == b,
    decreases a.len(),
{
    lemma_strings_len(a);
    lemma_strings_len(b);
    if a.len() == 0 {
        assert(b.len() == 0);
        assert(a =~= b);
    } else {
        assert(b.len() > 0);
        lemma_strings_first(a);
        lemma_strings_first(b);
        lemma_string_then_rest_injective(
            a[0],
            rlp_strings(a.drop_first()),
            b[0],
            rlp_strings(b.drop_first()),
        );
        lemma_strings_injective(a.drop_first(), b.drop_first());
        assert(a =~= seq![a[0]] + a.drop_first());
        assert(b =~= seq![b[0]] + b.drop_first());
    }
}

} // verus!
