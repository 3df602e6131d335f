use mtmf::config;
use mtmf::config::{Config, InitAnswers, Mode, Network, Profile, StorageProvider};
use mtmf::profile;
use mtmf::MtmfError;

#[test]
fn test_config_default() {
    let config = Config::default();

    assert_eq!(config.version, "1.0");
    assert_eq!(config.active_profile, "default");
    assert_eq!(config.profiles.len(), 1);

    let profile = &config.profiles[0];
    assert_eq!(profile.name, "default");
    assert!(matches!(profile.mode, Mode::SelfCustodial));
    assert!(matches!(profile.network, Network::Testnet));
}

#[test]
fn test_get_active_profile() {
    let config = Config::default();

    let profile = config.get_active_profile();
    assert!(profile.is_ok());

    let profile = profile.unwrap();
    assert_eq!(profile.name, "default");
}

#[test]
fn test_profile_default() {
    let profile = Profile::default();

    assert_eq!(profile.name, "default");
    assert!(matches!(profile.mode, Mode::SelfCustodial));
    assert!(matches!(profile.network, Network::Testnet));
    assert!(matches!(profile.storage.provider, StorageProvider::Pinata));
    assert!(profile.storage.api_key.is_none());
    assert!(profile.flow.address.is_none());
}

#[test]
fn test_default_profile_talks_to_the_test_network() {
    let profile = Profile::default();
    assert!(profile.flow.key_alias.is_none());
    assert_eq!(profile.flow.access_node, "access.devnet.nodes.onflow.org:9000");
    assert_eq!(
        config::access_node_for(Network::Mainnet),
        "access.mainnet.nodes.onflow.org:9000"
    );
}

#[test]
fn test_get_active_profile_missing() {
    let mut config = Config::default();
    config.active_profile = "test".to_string();
    match config.get_active_profile() {
        Err(MtmfError::Config(message)) => {
            assert_eq!(message, "Active profile 'test' not found")
        }
        _ => panic!("expected a configuration error"),
    }
    assert!(matches!(config.get_active_profile_mut(), Err(MtmfError::Config(_))));
    assert_eq!(config.find_profile("default"), Some(0));
    assert_eq!(config.find_profile("test"), None);
}

#[test]
fn test_get_active_profile_takes_the_first_of_a_name() {
    let mut config = Config::default();
    let mut second = Profile::default();
    second.name = "work".to_string();
    second.network = Network::Mainnet;
    let mut third = Profile::default();
    third.name = "work".to_string();
    config.profiles.push(second);
    config.profiles.push(third);
    config.active_profile = "work".to_string();
    assert_eq!(config.find_profile("work"), Some(1));
    assert!(matches!(config.get_active_profile().unwrap().network, Network::Mainnet));
}

#[test]
fn test_get_active_profile_mut_changes_only_that_profile() {
    let mut config = Config::default();
    profile::create(&mut config, "work").unwrap();
    profile::switch(&mut config, "work").unwrap();
    {
        let active = config.get_active_profile_mut().unwrap();
        active.flow.address = Some("0x01".to_string());
    }
    assert_eq!(config.profiles[1].flow.address, Some("0x01".to_string()));
    assert_eq!(config.profiles[0], Profile::default());
    assert_eq!(config.active_profile, "work");
}

#[test]
fn test_choices() {
    assert_eq!(config::mode_from_choice("1"), Mode::SelfCustodial);
    assert_eq!(config::mode_from_choice("2"), Mode::Managed);
    assert_eq!(config::mode_from_choice("x"), Mode::SelfCustodial);
    assert_eq!(config::network_from_choice("1"), Network::Testnet);
    assert_eq!(config::network_from_choice("2"), Network::Mainnet);
    assert_eq!(config::network_from_choice(""), Network::Testnet);
    assert_eq!(config::storage_provider_from_choice("1"), StorageProvider::Pinata);
    assert_eq!(config::storage_provider_from_choice("2"), StorageProvider::Lighthouse);
    assert_eq!(config::storage_provider_from_choice("3"), StorageProvider::Arweave);
    assert_eq!(config::storage_provider_from_choice("4"), StorageProvider::Pinata);
    assert!(config::asks_api_key(StorageProvider::Pinata));
    assert!(config::asks_api_key(StorageProvider::Lighthouse));
    assert!(!config::asks_api_key(StorageProvider::Arweave));
}

#[test]
fn test_answer_or_default() {
    assert_eq!(config::answer_or_default("mine", Some("default")), "mine");
    assert_eq!(config::answer_or_default("", Some("default")), "default");
    assert_eq!(config::answer_or_default("", None), "");
}

fn answers(provider: StorageProvider, api_key: &str) -> InitAnswers {
    InitAnswers {
        profile_name: "main".to_string(),
        mode: Mode::Managed,
        network: Network::Mainnet,
        storage_provider: provider,
        api_key: api_key.to_string(),
    }
}

#[test]
fn test_init_builds_the_first_configuration() {
    let config = config::init(false, false, answers(StorageProvider::Lighthouse, "secret")).unwrap();
    assert_eq!(config.version, "1.0");
    assert_eq!(config.active_profile, "main");
    assert_eq!(config.profiles.len(), 1);
    let profile = &config.profiles[0];
    assert_eq!(profile.name, "main");
    assert_eq!(profile.mode, Mode::Managed);
    assert_eq!(profile.network, Network::Mainnet);
    assert_eq!(profile.storage.provider, StorageProvider::Lighthouse);
    assert_eq!(profile.storage.api_key, Some("secret".to_string()));
    assert_eq!(profile.flow.access_node, "access.mainnet.nodes.onflow.org:9000");
    assert!(profile.flow.address.is_none());
    assert!(profile.flow.key_alias.is_none());
}

#[test]
fn test_init_keeps_no_empty_or_unused_api_key() {
    let config = config::init(false, false, answers(StorageProvider::Pinata, "")).unwrap();
    assert!(config.profiles[0].storage.api_key.is_none());
    let config = config::init(false, false, answers(StorageProvider::Arweave, "secret")).unwrap();
    assert!(config.profiles[0].storage.api_key.is_none());
}

#[test]
fn test_init_needs_force_to_overwrite() {
    assert!(matches!(
        config::init(true, false, answers(StorageProvider::Pinata, "")),
        Err(MtmfError::Config(_))
    ));
    assert!(config::init(true, true, answers(StorageProvider::Pinata, "")).is_ok());
    assert!(config::init(false, true, answers(StorageProvider::Pinata, "")).is_ok());
}

#[test]
fn test_profile_list_marks_the_active_one() {
    let mut config = Config::default();
    profile::create(&mut config, "work").unwrap();
    assert_eq!(profile::list(&config), vec!["default (active)".to_string(), "work".to_string()]);
    profile::switch(&mut config, "work").unwrap();
    assert_eq!(profile::list(&config), vec!["default".to_string(), "work (active)".to_string()]);
}

#[test]
fn test_profile_create_refuses_duplicates() {
    let mut config = Config::default();
    assert!(matches!(profile::create(&mut config, "default"), Err(MtmfError::Config(_))));
    assert_eq!(config.profiles.len(), 1);
    profile::create(&mut config, "work").unwrap();
    assert_eq!(config.profiles.len(), 2);
    assert_eq!(config.profiles[1].name, "work");
    assert_eq!(config.profiles[1].mode, Mode::SelfCustodial);
    assert_eq!(config.profiles[1].storage.provider, StorageProvider::Pinata);
    assert_eq!(config.active_profile, "default");
}

#[test]
fn test_profile_switch_needs_the_profile() {
    let mut config = Config::default();
    assert!(matches!(profile::switch(&mut config, "work"), Err(MtmfError::Config(_))));
    assert_eq!(config.active_profile, "default");
}

#[test]
fn test_profile_delete() {
    let mut config = Config::default();
    profile::create(&mut config, "a").unwrap();
    profile::create(&mut config, "b").unwrap();
    let mut again = Profile::default();
    again.name = "a".to_string();
    config.profiles.push(again);

    assert!(matches!(profile::delete(&mut config, "default"), Err(MtmfError::Config(_))));
    assert!(matches!(profile::delete(&mut config, "missing"), Err(MtmfError::Config(_))));
    assert_eq!(config.profiles.len(), 4);

    profile::delete(&mut config, "a").unwrap();
    let names: Vec<String> = config.profiles.iter().map(|p| p.name.clone()).collect();
    assert_eq!(names, vec!["default".to_string(), "b".to_string()]);
    assert_eq!(config.active_profile, "default");
}
