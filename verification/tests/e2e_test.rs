use mtmf::flow::TransactionBuilder;

#[test]
fn test_e2e_instructions() {
    println!();
    println!("╔════════════════════════════════════════════════════════════╗");
    println!("║         End-to-End Integration Test Instructions          ║");
    println!("╚════════════════════════════════════════════════════════════╝");
    println!();
    println!("These tests verify the complete NFT minting workflow.");
    println!();
    println!("📋 Prerequisites:");
    println!("  1. Flow testnet account with balance");
    println!("  2. IPFS storage API key (Pinata or Lighthouse)");
    println!("  3. Test image file (PNG, JPG, etc.)");
    println!();
    println!("🔧 Setup:");
    println!("  export E2E_FLOW_ADDRESS=\"0x1234567890abcdef\"");
    println!("  export E2E_STORAGE_PROVIDER=\"pinata\"");
    println!("  export E2E_API_KEY=\"your-api-key\"");
    println!("  export E2E_PRIVATE_KEY=\"your-private-key-hex\"");
    println!("  export E2E_TEST_FILE=\"test_image.png\"");
    println!();
    println!("🚀 Run:");
    println!("  cargo test e2e --ignored -- --nocapture");
    println!();
    println!("⚠️  Warning:");
    println!("  - Only use testnet credentials");
    println!("  - Never commit real private keys");
    println!("  - E2E tests will upload files to IPFS");
    println!("  - E2E tests may consume testnet FLOW");
    println!();
    println!("💡 Alternative:");
    println!("  Use the CLI directly for full E2E testing:");
    println!("  1. mtmf init");
    println!("  2. mtmf key generate --alias test-key");
    println!("  3. mtmf doctor");
    println!("  4. mtmf mint test.png --dry-run");
    println!("  5. mtmf mint test.png");
    println!();
    let transaction = TransactionBuilder::new("transaction {}").build();
    assert!(transaction.envelope_signatures.is_empty());
}
