use mtmf::flow;
use mtmf::flow::TransactionBuilder;
use mtmf::text;
use mtmf::wire;
use rand::Rng;

fn random_bytes(rng: &mut rand::rngs::ThreadRng, max: usize) -> Vec<u8> {
    let len = rng.gen_range(0..=max);
    (0..len).map(|_| rng.gen::<u8>()).collect()
}

#[test]
fn test_encode_strings_joins_the_items() {
    assert_eq!(wire::encode_strings(&vec![]), Vec::<u8>::new());
    assert_eq!(
        wire::encode_strings(&vec![b"cat".to_vec(), b"dog".to_vec(), vec![], vec![0x05]]),
        vec![0x83, b'c', b'a', b't', 0x83, b'd', b'o', b'g', 0x80, 0x05]
    );
}

#[test]
fn test_encode_strings_matches_the_list_encoder() {
    let mut rng = rand::thread_rng();
    for _ in 0..50 {
        let count = rng.gen_range(0..6);
        let items: Vec<Vec<u8>> = (0..count).map(|_| random_bytes(&mut rng, 80)).collect();
        let listed = rlp::encode_list::<Vec<u8>, Vec<u8>>(&items).to_vec();
        let joined = wire::encode_strings(&items);
        assert!(listed.ends_with(&joined));
        assert_eq!(rlp::Rlp::new(&listed).as_list::<Vec<u8>>().unwrap(), items);
    }
}

#[test]
fn test_random_envelopes_decode_to_their_fields() {
    let mut rng = rand::thread_rng();
    for _ in 0..100 {
        let script = random_bytes(&mut rng, 200);
        let script_text: String = script.iter().map(|b| (b % 0x60 + 0x20) as char).collect();
        let mut builder = TransactionBuilder::new(&script_text)
            .reference_block_id(random_bytes(&mut rng, 40))
            .gas_limit(rng.gen::<u64>() >> rng.gen_range(0..64))
            .proposal_key(
                random_bytes(&mut rng, 10),
                rng.gen::<u32>() >> rng.gen_range(0..32),
                rng.gen::<u64>() >> rng.gen_range(0..64),
            )
            .payer(random_bytes(&mut rng, 10));
        for _ in 0..rng.gen_range(0..4) {
            builder = builder.add_argument(random_bytes(&mut rng, 70));
        }
        for _ in 0..rng.gen_range(0..3) {
            builder = builder.add_authorizer(random_bytes(&mut rng, 10));
        }
        let transaction = builder.build();
        let envelope = flow::encode_transaction_envelope(&transaction).unwrap();

        let decoded = rlp::Rlp::new(&envelope);
        assert_eq!(decoded.item_count().unwrap(), 7);
        assert_eq!(decoded.val_at::<Vec<u8>>(0).unwrap(), transaction.script);
        assert_eq!(decoded.list_at::<Vec<u8>>(1).unwrap(), transaction.arguments);
        assert_eq!(decoded.val_at::<Vec<u8>>(2).unwrap(), transaction.reference_block_id);
        assert_eq!(decoded.val_at::<u64>(3).unwrap(), transaction.gas_limit);
        let key = decoded.at(4).unwrap();
        let expected = transaction.proposal_key.as_ref().unwrap();
        assert_eq!(key.item_count().unwrap(), 3);
        assert_eq!(key.val_at::<Vec<u8>>(0).unwrap(), expected.address);
        assert_eq!(key.val_at::<u32>(1).unwrap(), expected.key_index);
        assert_eq!(key.val_at::<u64>(2).unwrap(), expected.sequence_number);
        assert_eq!(decoded.val_at::<Vec<u8>>(5).unwrap(), transaction.payer);
        assert_eq!(decoded.list_at::<Vec<u8>>(6).unwrap(), transaction.authorizers);
    }
}

#[test]
fn test_text_helpers() {
    assert!(text::str_eq("", ""));
    assert!(text::str_eq("héllo", "héllo"));
    assert!(!text::str_eq("a", "b"));
    assert!(!text::str_eq("a", "ab"));
    assert!(text::bytes_eq(&[1, 2], &[1, 2]));
    assert!(!text::bytes_eq(&[1, 2], &[1, 3]));
    assert!(!text::bytes_eq(&[1, 2], &[1]));
}
