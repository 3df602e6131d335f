//! Choosing where a file is stored, and how often an upload is tried.
//!
//! The upload itself is the caller's part: this module says which provider
//! and key to use, and what to do after each attempt.

use vstd::prelude::*;
use vstd::string::StringExecFns;

use crate::config::{Profile, StorageProvider};
use crate::errors::{MtmfError, Result};
use crate::text::{lowercase, spec_lowercase, str_eq};

verus! {

/// The number of times an upload is tried.
pub const MAX_RETRIES: u32 = 3;

/// The milliseconds to wait after the first failed attempt; the wait grows
/// with each attempt.
pub const RETRY_DELAY_MS: u64 = 1000;

/// The provider that a name given on the command line stands for, whatever
/// its case.
pub open spec fn spec_provider_named(name: Seq<char>) -> Option<StorageProvider> {
    if spec_lowercase(name) == "pinata"@ {
        Some(StorageProvider::Pinata)
    } else if spec_lowercase(name) == "lighthouse"@ {
        Some(StorageProvider::Lighthouse)
    } else {
        None
    }
}

/// The provider that a name stands for. Fails with a `Storage` error for
/// any name but `pinata` and `lighthouse`.
pub fn provider_named(name: &str) -> (r: Result<StorageProvider>)
    ensures
        match r {
            Ok(provider) => spec_provider_named(name@) == Some(provider),
            Err(e) => spec_provider_named(name@) is None && e is Storage,
        },
{
    let lower = lowercase(name);
    if str_eq(lower.as_str(), "pinata") {
        Ok(StorageProvider::Pinata)
    } else if str_eq(lower.as_str(), "lighthouse") {
        Ok(StorageProvider::Lighthouse)
    } else {
        let mut message = String::from_str("Unknown storage provider: ");
        message.append(name);
        message.append(". Supported: pinata, lighthouse");
        Err(MtmfError::Storage(message))
    }
}

/// The provider to upload to: the one asked for, or else that of the
/// profile. `None` where the name asked for is unknown.
pub open spec fn spec_chosen_provider(
    requested: Option<Seq<char>>,
    profile: Profile,
) -> Option<StorageProvider> {
    match requested {
        Some(name) => spec_provider_named(name),
        None => Some(profile.storage.provider),
    }
}

/// Chooses the provider and the API key for an upload.
///
/// Fails with a `Storage` error when the provider asked for is unknown,
/// when the provider is Arweave, which is not supported, or when the profile
/// holds no API key. Otherwise returns the provider, which is Pinata or
/// Lighthouse, and the API key of the profile.
pub fn select_provider(requested: Option<&str>, profile: &Profile) -> (r: Result<
    (StorageProvider, String),
>)
    ensures
        match r {
            Ok((provider, api_key)) => {
                &&& spec_chosen_provider(
                    match requested {
                        Some(name) => Some(name@),
                        None => None,
                    },
                    *profile,
                ) == Some(provider)
                &&& !(provider is Arweave)
                &&& profile.storage.api_key matches Some(key)
                &&& api_key@ == key@
            },
            Err(e) => {
                &&& e is Storage
                &&& match spec_chosen_provider(
                    match requested {
                        Some(name) => Some(name@),
                        None => None,
                    },
                    *profile,
                ) {
                    None => true,
                    Some(provider) => provider is Arweave || profile.storage.api_key is None,
                }
            },
        },
{
    let provider = match requested {
        Some(name) => match provider_named(name) {
            Ok(provider) => provider,
            Err(e) => {
                return Err(e);
            },
        },
        None => profile.storage.provider,
    };
    match provider {
        StorageProvider::Arweave => {
            return Err(
                MtmfError::Storage(
                    String::from_str(
                        "Arweave is not currently supported. Please use Pinata or Lighthouse.",
                    ),
                ),
            );
        },
        _ => {},
    }
    match &profile.storage.api_key {
        Some(key) => Ok((provider, key.clone())),
        None => Err(
            MtmfError::Storage(
                String::from_str("No API key configured. Run 'mtmf init' or set it in config."),
            ),
        ),
    }
}

/// The address that a provider takes uploads at; empty for Arweave, which
/// takes none.
pub fn upload_url(provider: StorageProvider) -> (url: &'static str)
    ensures
        url@ == (match provider {
            StorageProvider::Pinata => "https://api.pinata.cloud/pinning/pinFileToIPFS"@,
            StorageProvider::Lighthouse => "https://node.lighthouse.storage/api/v0/add"@,
            StorageProvider::Arweave => ""@,
        }),
{
    match provider {
        StorageProvider::Pinata => "https://api.pinata.cloud/pinning/pinFileToIPFS",
        StorageProvider::Lighthouse => "https://node.lighthouse.storage/api/v0/add",
        StorageProvider::Arweave => "",
    }
}

/// How one attempt to upload ended.
pub enum UploadAttempt {
    /// The provider stored the file under this content identifier.
    Stored(String),
    /// The provider or the network refused, with this description.
    Refused(String),
}

/// What to do after an attempt.
pub enum UploadDecision {
    /// The upload is done; this is the content identifier.
    Done(String),
    /// Wait this many milliseconds, then try again.
    RetryAfter(u64),
    /// Give up with this error.
    Fail(MtmfError),
}

/// The wait after failed attempt number `attempt`.
pub open spec fn spec_retry_delay(attempt: u32) -> int {
    RETRY_DELAY_MS * attempt
}

/// Decides what to do after attempt number `attempt`, counted from one.
///
/// A stored file ends the upload. A refusal is followed by another try,
/// after a wait that grows with the attempts, while fewer than
/// `MAX_RETRIES` were made, and by a `Storage` error on the last.
pub fn upload_decision(attempt: u32, outcome: UploadAttempt) -> (decision: UploadDecision)
    ensures
        match outcome {
            UploadAttempt::Stored(cid) => decision matches UploadDecision::Done(done) && done@
                == cid@,
            UploadAttempt::Refused(_) => if attempt < MAX_RETRIES {
                decision matches UploadDecision::RetryAfter(wait) && wait == spec_retry_delay(
                    attempt,
                )
            } else {
                decision matches UploadDecision::Fail(e) && e is Storage
            },
        },
{
    match outcome {
        UploadAttempt::Stored(cid) => UploadDecision::Done(cid),
        UploadAttempt::Refused(reason) => {
            if attempt < MAX_RETRIES {
                let turn: u64 = attempt as u64;
                UploadDecision::RetryAfter(RETRY_DELAY_MS * turn)
            } else {
                let mut message = String::from_str("Upload failed after 3 attempts: ");
                message.append(reason.as_str());
                UploadDecision::Fail(MtmfError::Storage(message))
            }
        },
    }
}

} // verus!
