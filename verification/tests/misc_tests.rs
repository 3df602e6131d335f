use mtmf::config::{Profile, StorageProvider};
use mtmf::doctor;
use mtmf::doctor::Findings;
use mtmf::flow::ProposalKey;
use mtmf::mint;
use mtmf::storage;
use mtmf::storage::{UploadAttempt, UploadDecision};
use mtmf::utils;
use mtmf::MtmfError;

#[test]
fn test_hash_file() {
    let hash_value = utils::hash_file(b"test content");
    assert_eq!(hash_value.len(), 64, "SHA3-256 hash should be 64 hex characters");

    // Hash should be deterministic
    let hash2 = utils::hash_file(b"test content");
    assert_eq!(hash_value, hash2, "Hash should be deterministic");
}

#[test]
fn test_hash_file_known_digests() {
    assert_eq!(
        utils::hash_file(b""),
        "a7ffc6f8bf1ed76651c14756a061d662f580ff4de43b49fa82d80a4b80f8434a"
    );
    assert_eq!(
        utils::hash_file(b"abc"),
        "3a985da74fe225b2045c172d6bd390bd855f086e3e9d525b46bfe24511431532"
    );
}

#[test]
fn test_validate_file_exists() {
    let result = utils::validate_file("/tmp/some/file.txt", true, true);
    assert!(result.is_ok(), "File validation should succeed for existing file");
}

#[test]
fn test_validate_file_not_exists() {
    let result = utils::validate_file("/nonexistent/file.txt", false, false);
    assert!(result.is_err(), "File validation should fail for non-existent file");
    assert_eq!(result, Err(MtmfError::FileNotFound("/nonexistent/file.txt".to_string())));
}

#[test]
fn test_validate_file_is_directory() {
    let result = utils::validate_file("/tmp", true, false);
    assert!(result.is_err(), "File validation should fail for directory");
    assert_eq!(result, Err(MtmfError::InvalidInput("/tmp is not a file".to_string())));
}

fn profile_with(provider: StorageProvider, api_key: Option<&str>) -> Profile {
    let mut profile = Profile::default();
    profile.storage.provider = provider;
    profile.storage.api_key = api_key.map(|k| k.to_string());
    profile
}

#[test]
fn test_provider_named() {
    assert_eq!(storage::provider_named("pinata"), Ok(StorageProvider::Pinata));
    assert_eq!(storage::provider_named("PINATA"), Ok(StorageProvider::Pinata));
    assert_eq!(storage::provider_named("LightHouse"), Ok(StorageProvider::Lighthouse));
    assert_eq!(
        storage::provider_named("Arweave"),
        Err(MtmfError::Storage(
            "Unknown storage provider: Arweave. Supported: pinata, lighthouse".to_string()
        ))
    );
    assert!(storage::provider_named("").is_err());
}

#[test]
fn test_select_provider() {
    let profile = profile_with(StorageProvider::Lighthouse, Some("key"));
    assert_eq!(
        storage::select_provider(None, &profile),
        Ok((StorageProvider::Lighthouse, "key".to_string()))
    );
    assert_eq!(
        storage::select_provider(Some("Pinata"), &profile),
        Ok((StorageProvider::Pinata, "key".to_string()))
    );
    assert!(matches!(
        storage::select_provider(Some("ipfs"), &profile),
        Err(MtmfError::Storage(_))
    ));
    assert!(matches!(
        storage::select_provider(None, &profile_with(StorageProvider::Arweave, Some("key"))),
        Err(MtmfError::Storage(_))
    ));
    assert!(matches!(
        storage::select_provider(None, &profile_with(StorageProvider::Pinata, None)),
        Err(MtmfError::Storage(_))
    ));
}

#[test]
fn test_upload_urls() {
    assert_eq!(
        storage::upload_url(StorageProvider::Pinata),
        "https://api.pinata.cloud/pinning/pinFileToIPFS"
    );
    assert_eq!(
        storage::upload_url(StorageProvider::Lighthouse),
        "https://node.lighthouse.storage/api/v0/add"
    );
    assert_eq!(storage::upload_url(StorageProvider::Arweave), "");
}

#[test]
fn test_upload_decision() {
    assert_eq!(storage::MAX_RETRIES, 3);
    assert!(matches!(
        storage::upload_decision(1, UploadAttempt::Stored("Qm".to_string())),
        UploadDecision::Done(cid) if cid == "Qm"
    ));
    assert!(matches!(
        storage::upload_decision(1, UploadAttempt::Refused("500".to_string())),
        UploadDecision::RetryAfter(1000)
    ));
    assert!(matches!(
        storage::upload_decision(2, UploadAttempt::Refused("500".to_string())),
        UploadDecision::RetryAfter(2000)
    ));
    match storage::upload_decision(3, UploadAttempt::Refused("500 - down".to_string())) {
        UploadDecision::Fail(MtmfError::Storage(message)) => {
            assert_eq!(message, "Upload failed after 3 attempts: 500 - down")
        }
        _ => panic!("expected the upload to be given up"),
    }
}

#[test]
fn test_doctor_summary() {
    let good = Findings {
        config_loaded: true,
        profile_found: true,
        has_api_key: true,
        keys_listed: true,
        network_reachable: true,
    };
    assert!(doctor::run(&good));
    assert_eq!(doctor::summary(true), "All checks passed!");
    for broken in 0..5 {
        let mut findings = good;
        match broken {
            0 => findings.config_loaded = false,
            1 => findings.profile_found = false,
            2 => findings.has_api_key = false,
            3 => findings.keys_listed = false,
            _ => findings.network_reachable = false,
        }
        assert!(!doctor::run(&findings));
    }
    assert_eq!(doctor::summary(false), "Some checks failed. Please review the issues above.");
}

#[test]
fn test_mint_transaction() {
    let signer = vec![0x0a; 8];
    let arguments = vec![vec![1], vec![2, 3]];
    let transaction =
        mint::mint_transaction("transaction {}", arguments.clone(), vec![0xbb; 32], &signer, 5);
    assert_eq!(transaction.script, b"transaction {}");
    assert_eq!(transaction.arguments, arguments);
    assert_eq!(transaction.reference_block_id, vec![0xbb; 32]);
    assert_eq!(transaction.gas_limit, 9999);
    assert_eq!(
        transaction.proposal_key,
        Some(ProposalKey { address: signer.clone(), key_index: 0, sequence_number: 5 })
    );
    assert_eq!(transaction.payer, signer);
    assert_eq!(transaction.authorizers, vec![signer]);
    assert!(transaction.envelope_signatures.is_empty());
    assert!(transaction.payload_signatures.is_empty());
}

#[test]
fn test_mint_arguments() {
    let arguments = mint::mint_arguments("01", "Name", "About", "QmCid").unwrap();
    let texts: Vec<String> =
        arguments.iter().map(|a| String::from_utf8(a.clone()).unwrap()).collect();
    assert_eq!(
        texts,
        vec![
            "{\"type\":\"Address\",\"value\":\"0x01\"}".to_string(),
            "{\"type\":\"String\",\"value\":\"Name\"}".to_string(),
            "{\"type\":\"String\",\"value\":\"About\"}".to_string(),
            "{\"type\":\"String\",\"value\":\"ipfs://QmCid\"}".to_string(),
            "{\"type\":\"String\",\"value\":\"QmCid\"}".to_string(),
        ]
    );
}

#[test]
fn test_mint_helpers() {
    assert_eq!(mint::ipfs_url("QmCid"), "ipfs://QmCid");
    assert_eq!(mint::sequence_number_at(&[7, 9], 0), 7);
    assert_eq!(mint::sequence_number_at(&[7, 9], 1), 9);
    assert_eq!(mint::sequence_number_at(&[7, 9], 2), 0);
    assert_eq!(mint::sequence_number_at(&[], 0), 0);
    assert_eq!(mint::MINT_SEAL_ATTEMPTS, 30);

    assert_eq!(mint::required_answer("NFT Name", "art", None), Ok("art".to_string()));
    assert_eq!(
        mint::required_answer("NFT Description", "", Some("A unique NFT")),
        Ok("A unique NFT".to_string())
    );
    assert_eq!(
        mint::required_answer("NFT Name", "", None),
        Err(MtmfError::InvalidInput("NFT Name is required".to_string()))
    );

    let mut profile = Profile::default();
    assert!(matches!(mint::recipient_for(None, &profile), Err(MtmfError::Config(_))));
    profile.flow.address = Some("0x01".to_string());
    assert_eq!(mint::recipient_for(None, &profile), Ok("0x01".to_string()));
    assert_eq!(
        mint::recipient_for(Some("0x02".to_string()), &profile),
        Ok("0x02".to_string())
    );
}

#[test]
fn test_mint_result() {
    let result = mint::mint_result(&[0xab, 0xcd], "QmCid", "Name", false);
    assert_eq!(result.transaction_id, "abcd");
    assert_eq!(result.flowscan_link, "https://testnet.flowscan.org/transaction/abcd");
    assert_eq!(result.ipfs_cid, "QmCid");
    assert_eq!(result.nft_name, "Name");
    let result = mint::mint_result(&[0x01], "c", "n", true);
    assert_eq!(result.flowscan_link, "https://flowscan.org/transaction/01");
}

#[test]
fn test_error_messages() {
    assert_eq!(
        MtmfError::Config("missing".to_string()).message(),
        "Configuration error: missing"
    );
    assert_eq!(MtmfError::Key("k".to_string()).message(), "Key management error: k");
    assert_eq!(MtmfError::Storage("s".to_string()).message(), "Storage error: s");
    assert_eq!(MtmfError::Flow("f".to_string()).message(), "Flow blockchain error: f");
    assert_eq!(MtmfError::Crypto("c".to_string()).message(), "Cryptography error: c");
    assert_eq!(MtmfError::Io("i".to_string()).message(), "I/O error: i");
    assert_eq!(MtmfError::InvalidInput("x".to_string()).message(), "Invalid input: x");
    assert_eq!(MtmfError::FileNotFound("p".to_string()).message(), "File not found: p");
    assert_eq!(MtmfError::KeyNotFound("k1".to_string()).message(), "Key not found: k1");
    assert_eq!(
        MtmfError::KeyAlreadyExists("k1".to_string()).message(),
        "Key already exists: k1"
    );
    assert_eq!(
        MtmfError::DecryptionFailed.message(),
        "Decryption failed. Incorrect passphrase?"
    );
    assert_eq!(MtmfError::EncodingFailed.message(), "Proposal key is required");
    assert_eq!(MtmfError::TransactionExpired.message(), "Transaction expired");
    assert_eq!(
        MtmfError::ExecutionFailed(1, "boom".to_string()).message(),
        "Transaction failed: boom"
    );
    assert_eq!(
        MtmfError::FinalityTimeout(30).message(),
        "Transaction not sealed within the allowed attempts"
    );
}
