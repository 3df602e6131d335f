//! The configuration: profiles, and the choices that make one.

use vstd::prelude::*;
use vstd::string::StringExecFns;

use crate::errors::{MtmfError, Result};
use crate::text::str_eq;

verus! {

/// Who keeps the keys.
#[derive(Debug, Clone, Copy, PartialEq, Eq, Structural)]
pub enum Mode {
    SelfCustodial,
    Managed,
}

/// The network that a profile talks to.
#[derive(Debug, Clone, Copy, PartialEq, Eq, Structural)]
pub enum Network {
    Testnet,
    Mainnet,
}

/// Where media files are stored.
#[derive(Debug, Clone, Copy, PartialEq, Eq, Structural)]
pub enum StorageProvider {
    Pinata,
    Lighthouse,
    Arweave,
}

/// The storage settings of a profile.
#[derive(Debug, Clone, PartialEq, Eq)]
pub struct StorageConfig {
    pub provider: StorageProvider,
    pub api_key: Option<String>,
}

/// The ledger settings of a profile.
#[derive(Debug, Clone, PartialEq, Eq)]
pub struct FlowConfig {
    pub address: Option<String>,
    pub key_alias: Option<String>,
    pub access_node: String,
}

/// One named set of settings.
#[derive(Debug, Clone, PartialEq, Eq)]
pub struct Profile {
    pub name: String,
    pub mode: Mode,
    pub network: Network,
    pub storage: StorageConfig,
    pub flow: FlowConfig,
}

/// All profiles, and the name of the one in use.
#[derive(Debug, Clone, PartialEq, Eq)]
pub struct Config {
    pub version: String,
    pub active_profile: String,
    pub profiles: Vec<Profile>,
}

/// The index of the first profile called `name`, if there is one.
pub open spec fn spec_find_profile(profiles: Seq<Profile>, name: Seq<char>) -> Option<int>
    decreases profiles.len(),
{
    if profiles.len() == 0 {
        None
    } else {
        match spec_find_profile(profiles.drop_last(), name) {
            Some(i) => Some(i),
            None => if profiles.last().name@ == name {
                Some(profiles.len() - 1)
            } else {
                None
            },
        }
    }
}

/// What `spec_find_profile` finds is the first profile of that name, and it
/// finds nothing only where no profile has the name.
proof fn lemma_find_profile(profiles: Seq<Profile>, name: Seq<char>)
    ensures
        match spec_find_profile(profiles, name) {
            Some(i) => {
                &&& 0 <= i < profiles.len()
                &&& profiles[i].name@ == name
                &&& forall|j: int| 0 <= j < i ==> (#[trigger] profiles[j]).name@ != name
            },
            None => forall|j: int| 0 <= j < profiles.len() ==> (#[trigger] profiles[j]).name@ != name,
        },
    decreases profiles.len(),
{
    if profiles.len() > 0 {
        lemma_find_profile(profiles.drop_last(), name);
        assert forall|j: int| 0 <= j < profiles.len() - 1 implies profiles[j]
            == profiles.drop_last()[j] by {}
    }
}

/// The address of the access node of a network.
pub open spec fn spec_access_node(network: Network) -> Seq<char> {
    match network {
        Network::Testnet => "access.devnet.nodes.onflow.org:9000"@,
        Network::Mainnet => "access.mainnet.nodes.onflow.org:9000"@,
    }
}

/// The address of the access node of a network.
pub fn access_node_for(network: Network) -> (node: String)
    ensures
        node@ == spec_access_node(network),
{
    match network {
        Network::Testnet => String::from_str("access.devnet.nodes.onflow.org:9000"),
        Network::Mainnet => String::from_str("access.mainnet.nodes.onflow.org:9000"),
    }
}

/// The text of the error for a missing active profile.
pub open spec fn spec_profile_missing(name: Seq<char>) -> Seq<char> {
    "Active profile '"@ + name + "' not found"@
}

/// The error for a missing active profile.
fn profile_missing(name: &str) -> (e: MtmfError)
    ensures
        e matches MtmfError::Config(m) && m@ == spec_profile_missing(name@),
{
    let mut message = String::from_str("Active profile '");
    message.append(name);
    message.append("' not found");
    MtmfError::Config(message)
}

impl Config {
    /// The index of the first profile called `name`: no profile before it
    /// has the name, and none at all where nothing is found.
    pub fn find_profile(&self, name: &str) -> (found: Option<usize>)
        ensures
            match found {
                Some(i) => {
                    &&& spec_find_profile(self.profiles@, name@) == Some(i as int)
                    &&& i < self.profiles@.len()
                    &&& self.profiles@[i as int].name@ == name@
                    &&& forall|j: int| 0 <= j < i ==> (#[trigger] self.profiles@[j]).name@ != name@
                },
                None => {
                    &&& spec_find_profile(self.profiles@, name@) is None
                    &&& forall|j: int|
                        0 <= j < self.profiles@.len() ==> (#[trigger] self.profiles@[j]).name@
                            != name@
                },
            },
    {
        let mut i: usize = 0;
        while i < self.profiles.len()
            invariant
                i <= self.profiles.len(),
                spec_find_profile(self.profiles@.take(i as int), name@) is None,
            decreases self.profiles.len() - i,
        {
            proof {
                assert(self.profiles@.take(i + 1).drop_last() =~= self.profiles@.take(i as int));
                lemma_found_stays(self.profiles@, name@, i + 1);
                lemma_find_profile(self.profiles@, name@);
            }
            if str_eq(self.profiles[i].name.as_str(), name) {
                return Some(i);
            }
            i = i + 1;
        }
        proof {
            assert(self.profiles@.take(i as int) =~= self.profiles@);
            lemma_find_profile(self.profiles@, name@);
        }
        None
    }

    /// The profile in use: the first one whose name is that of the active
    /// profile. Fails with a `Config` error when there is none.
    pub fn get_active_profile(&self) -> (r: Result<&Profile>)
        ensures
            match r {
                Ok(profile) => {
                    &&& spec_find_profile(self.profiles@, self.active_profile@) matches Some(i)
                    &&& *profile == self.profiles@[i]
                },
                Err(e) => {
                    &&& spec_find_profile(self.profiles@, self.active_profile@) is None
                    &&& e matches MtmfError::Config(m)
                    &&& m@ == spec_profile_missing(self.active_profile@)
                },
            },
    {
        match self.find_profile(self.active_profile.as_str()) {
            Some(i) => Ok(&self.profiles[i]),
            None => Err(profile_missing(self.active_profile.as_str())),
        }
    }

    /// The profile in use, to be changed in place. Only that profile can
    /// change through the reference.
    pub fn get_active_profile_mut(&mut self) -> (r: Result<&mut Profile>)
        ensures
            match r {
                Ok(profile) => {
                    &&& spec_find_profile(old(self).profiles@, old(self).active_profile@)
                        matches Some(i)
                    &&& *profile == old(self).profiles@[i]
                    &&& final(self).profiles@ == old(self).profiles@.update(i, *final(profile))
                    &&& final(self).version == old(self).version
                    &&& final(self).active_profile == old(self).active_profile
                },
                Err(e) => {
                    &&& spec_find_profile(old(self).profiles@, old(self).active_profile@) is None
                    &&& *final(self) == *old(self)
                    &&& e matches MtmfError::Config(m)
                    &&& m@ == spec_profile_missing(old(self).active_profile@)
                },
            },
    {
        match self.find_profile(self.active_profile.as_str()) {
            Some(i) => Ok(&mut self.profiles[i]),
            None => Err(profile_missing(self.active_profile.as_str())),
        }
    }
}

/// Once a name is found among the first profiles, it is found at the same
/// place among all of them.
proof fn lemma_found_stays(profiles: Seq<Profile>, name: Seq<char>, upto: int)
    requires
        0 <= upto <= profiles.len(),
    ensures
        spec_find_profile(profiles.take(upto), name) matches Some(i) ==> spec_find_profile(
            profiles,
            name,
        ) == Some(i),
    decreases profiles.len() - upto,
{
    if upto < profiles.len() {
        lemma_found_stays(profiles, name, upto + 1);
        assert(profiles.take(upto + 1).drop_last() =~= profiles.take(upto));
    } else {
        assert(profiles.take(upto) =~= profiles);
    }
}

impl Default for Profile {
    /// The profile called `default`: self-custodial, on the test network,
    /// storing with Pinata, with no key, address or API key yet.
    fn default() -> (profile: Profile)
        ensures
            profile.name@ == "default"@,
            profile.mode == Mode::SelfCustodial,
            profile.network == Network::Testnet,
            profile.storage.provider == StorageProvider::Pinata,
            profile.storage.api_key is None,
            profile.flow.address is None,
            profile.flow.key_alias is None,
            profile.flow.access_node@ == spec_access_node(Network::Testnet),
    {
        Profile {
            name: String::from_str("default"),
            mode: Mode::SelfCustodial,
            network: Network::Testnet,
            storage: StorageConfig { provider: StorageProvider::Pinata, api_key: None },
            flow: FlowConfig {
                address: None,
                key_alias: None,
                access_node: access_node_for(Network::Testnet),
            },
        }
    }
}

impl Default for Config {
    /// The configuration with the default profile alone, which is active.
    fn default() -> (config: Config)
        ensures
            config.version@ == "1.0"@,
            config.active_profile@ == "default"@,
            config.profiles@.len() == 1,
            config.profiles@[0].name@ == "default"@,
            config.profiles@[0].mode == Mode::SelfCustodial,
            config.profiles@[0].network == Network::Testnet,
    {
        let mut profiles: Vec<Profile> = Vec::new();
        profiles.push(Profile::default());
        Config {
            version: String::from_str("1.0"),
            active_profile: String::from_str("default"),
            profiles,
        }
    }
}

/// The mode that an answer chooses: `2` is managed, anything else
/// self-custodial.
pub fn mode_from_choice(choice: &str) -> (mode: Mode)
    ensures
        mode == (if choice@ == "2"@ {
            Mode::Managed
        } else {
            Mode::SelfCustodial
        }),
{
    if str_eq(choice, "2") {
        Mode::Managed
    } else {
        Mode::SelfCustodial
    }
}

/// The network that an answer chooses: `2` is the main network, anything
/// else the test network.
pub fn network_from_choice(choice: &str) -> (network: Network)
    ensures
        network == (if choice@ == "2"@ {
            Network::Mainnet
        } else {
            Network::Testnet
        }),
{
    if str_eq(choice, "2") {
        Network::Mainnet
    } else {
        Network::Testnet
    }
}

/// The storage provider that an answer chooses: `2` is Lighthouse, `3` is
/// Arweave, anything else Pinata.
pub fn storage_provider_from_choice(choice: &str) -> (provider: StorageProvider)
    ensures
        provider == (if choice@ == "2"@ {
            StorageProvider::Lighthouse
        } else if choice@ == "3"@ {
            StorageProvider::Arweave
        } else {
            StorageProvider::Pinata
        }),
{
    if str_eq(choice, "2") {
        StorageProvider::Lighthouse
    } else if str_eq(choice, "3") {
        StorageProvider::Arweave
    } else {
        StorageProvider::Pinata
    }
}

/// Whether setting up a provider asks for an API key.
pub fn asks_api_key(provider: StorageProvider) -> (asks: bool)
    ensures
        asks == (provider is Pinata || provider is Lighthouse),
{
    match provider {
        StorageProvider::Pinata => true,
        StorageProvider::Lighthouse => true,
        StorageProvider::Arweave => false,
    }
}

/// The text that an answer stands for: the answer itself, or the default
/// where the answer is empty; empty where there is neither.
pub fn answer_or_default(input: &str, default: Option<&str>) -> (answer: String)
    ensures
        answer@ == (if input@.len() > 0 {
            input@
        } else {
            match default {
                Some(d) => d@,
                None => Seq::<char>::empty(),
            }
        }),
{
    if input.is_empty() {
        match default {
            Some(d) => String::from_str(d),
            None => String::new(),
        }
    } else {
        String::from_str(input)
    }
}

/// The answers that set up a configuration.
pub struct InitAnswers {
    pub profile_name: String,
    pub mode: Mode,
    pub network: Network,
    pub storage_provider: StorageProvider,
    /// The API key as typed; empty to set it later.
    pub api_key: String,
}

/// Makes the first configuration from the answers of the user.
///
/// Fails with a `Config` error when a configuration is present already and
/// `force` is not given. Otherwise the configuration holds one profile, which is
/// active: it has the chosen name, mode, network and provider, the access
/// node of the network, and the API key if one was typed for a provider
/// that takes one.
pub fn init(present: bool, force: bool, answers: InitAnswers) -> (r: Result<Config>)
    ensures
        r is Err <==> present && !force,
        r matches Err(e) ==> e is Config,
        r matches Ok(config) ==> {
            &&& config.version@ == "1.0"@
            &&& config.active_profile@ == answers.profile_name@
            &&& config.profiles@.len() == 1
            &&& config.profiles@[0].name@ == answers.profile_name@
            &&& config.profiles@[0].mode == answers.mode
            &&& config.profiles@[0].network == answers.network
            &&& config.profiles@[0].storage.provider == answers.storage_provider
            &&& config.profiles@[0].storage.api_key is Some <==> (answers.api_key@.len() > 0 && (
            answers.storage_provider is Pinata || answers.storage_provider is Lighthouse))
            &&& config.profiles@[0].storage.api_key matches Some(key) ==> key@
                == answers.api_key@
            &&& config.profiles@[0].flow.address is None
            &&& config.profiles@[0].flow.key_alias is None
            &&& config.profiles@[0].flow.access_node@ == spec_access_node(answers.network)
        },
{
    if present && !force {
        return Err(
            MtmfError::Config(
                String::from_str("Configuration already exists. Use --force to overwrite."),
            ),
        );
    }
    let active = answers.profile_name.clone();
    let api_key = if asks_api_key(answers.storage_provider) && !answers.api_key.as_str().is_empty() {
        Some(answers.api_key)
    } else {
        None
    };
    let profile = Profile {
        name: answers.profile_name,
        mode: answers.mode,
        network: answers.network,
        storage: StorageConfig { provider: answers.storage_provider, api_key },
        flow: FlowConfig {
            address: None,
            key_alias: None,
            access_node: access_node_for(answers.network),
        },
    };
    let mut profiles: Vec<Profile> = Vec::new();
    profiles.push(profile);
    Ok(Config { version: String::from_str("1.0"), active_profile: active, profiles })
}

} // verus!
