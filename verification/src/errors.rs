//! The error type shared by every operation of the crate.

use vstd::prelude::*;
use vstd::string::StringExecFns;

verus! {

/// Everything that can go wrong, one variant per kind a caller may need to
/// tell apart.
///
/// No variant carries key material, a passphrase or ciphertext.
#[derive(Debug, Clone, PartialEq, Eq)]
pub enum MtmfError {
    /// The configuration is missing or inconsistent.
    Config(String),
    /// A passphrase was refused before any key was touched.
    Key(String),
    /// No storage provider could be chosen, or an upload was given up.
    Storage(String),
    /// An address or an answer of the access node could not be used.
    Flow(String),
    /// A cryptographic primitive refused its input.
    Crypto(String),
    /// Reading or writing failed.
    Io(String),
    /// A value could not be written out or read back.
    Serialization(String),
    /// The network could not be reached.
    Network(String),
    /// The caller supplied something that cannot be used.
    InvalidInput(String),
    /// The named file does not exist.
    FileNotFound(String),
    /// A secret was needed and could not be asked for.
    Auth(String),
    /// A value failed validation.
    Validation(String),
    /// No key is stored under the alias.
    KeyNotFound(String),
    /// A key is already stored under the alias.
    KeyAlreadyExists(String),
    /// The passphrase is wrong or the record is damaged; the two are
    /// deliberately not told apart.
    DecryptionFailed,
    /// Imported key material has the wrong format, length or value.
    InvalidKeyMaterial(String),
    /// The transaction has no proposal key, so no envelope exists.
    EncodingFailed,
    /// The access node did not take the transaction.
    SubmissionFailed(String),
    /// The ledger reported the transaction as expired.
    TransactionExpired,
    /// The transaction was not sealed within the given number of polls.
    FinalityTimeout(u32),
    /// The transaction was sealed, but its execution failed with this status
    /// code and message.
    ExecutionFailed(u32, String),
}

pub type Result<T> = std::result::Result<T, MtmfError>;

impl MtmfError {
    /// The text that introduces the detail of each kind of error.
    pub open spec fn spec_prefix(&self) -> Seq<char> {
        match self {
            MtmfError::Config(_) => "Configuration error: "@,
            MtmfError::Key(_) => "Key management error: "@,
            MtmfError::Storage(_) => "Storage error: "@,
            MtmfError::Flow(_) => "Flow blockchain error: "@,
            MtmfError::Crypto(_) => "Cryptography error: "@,
            MtmfError::Io(_) => "I/O error: "@,
            MtmfError::Serialization(_) => "Serialization error: "@,
            MtmfError::Network(_) => "Network error: "@,
            MtmfError::InvalidInput(_) => "Invalid input: "@,
            MtmfError::FileNotFound(_) => "File not found: "@,
            MtmfError::Auth(_) => "Authentication error: "@,
            MtmfError::Validation(_) => "Validation error: "@,
            MtmfError::KeyNotFound(_) => "Key not found: "@,
            MtmfError::KeyAlreadyExists(_) => "Key already exists: "@,
            MtmfError::DecryptionFailed => "Decryption failed. Incorrect passphrase?"@,
            MtmfError::InvalidKeyMaterial(_) => "Invalid key material: "@,
            MtmfError::EncodingFailed => "Proposal key is required"@,
            MtmfError::SubmissionFailed(_) => "Submission failed: "@,
            MtmfError::TransactionExpired => "Transaction expired"@,
            MtmfError::FinalityTimeout(_) => "Transaction not sealed within the allowed attempts"@,
            MtmfError::ExecutionFailed(_, _) => "Transaction failed: "@,
        }
    }

    /// The detail that the error carries, empty where it carries none.
    pub open spec fn spec_detail(&self) -> Seq<char> {
        match self {
            MtmfError::Config(m) => m@,
            MtmfError::Key(m) => m@,
            MtmfError::Storage(m) => m@,
            MtmfError::Flow(m) => m@,
            MtmfError::Crypto(m) => m@,
            MtmfError::Io(m) => m@,
            MtmfError::Serialization(m) => m@,
            MtmfError::Network(m) => m@,
            MtmfError::InvalidInput(m) => m@,
            MtmfError::FileNotFound(m) => m@,
            MtmfError::Auth(m) => m@,
            MtmfError::Validation(m) => m@,
            MtmfError::KeyNotFound(alias) => alias@,
            MtmfError::KeyAlreadyExists(alias) => alias@,
            MtmfError::DecryptionFailed => Seq::empty(),
            MtmfError::InvalidKeyMaterial(m) => m@,
            MtmfError::EncodingFailed => Seq::empty(),
            MtmfError::SubmissionFailed(m) => m@,
            MtmfError::TransactionExpired => Seq::empty(),
            MtmfError::FinalityTimeout(_) => Seq::empty(),
            MtmfError::ExecutionFailed(_, m) => m@,
        }
    }

    /// The message shown to a user: the prefix of the kind, then the detail.
    pub open spec fn spec_message(&self) -> Seq<char> {
        self.spec_prefix() + self.spec_detail()
    }

    /// The prefix of the kind as text.
    fn prefix(&self) -> (text: &'static str)
        ensures
            text@ == self.spec_prefix(),
    {
        match self {
            MtmfError::Config(_) => "Configuration error: ",
            MtmfError::Key(_) => "Key management error: ",
            MtmfError::Storage(_) => "Storage error: ",
            MtmfError::Flow(_) => "Flow blockchain error: ",
            MtmfError::Crypto(_) => "Cryptography error: ",
            MtmfError::Io(_) => "I/O error: ",
            MtmfError::Serialization(_) => "Serialization error: ",
            MtmfError::Network(_) => "Network error: ",
            MtmfError::InvalidInput(_) => "Invalid input: ",
            MtmfError::FileNotFound(_) => "File not found: ",
            MtmfError::Auth(_) => "Authentication error: ",
            MtmfError::Validation(_) => "Validation error: ",
            MtmfError::KeyNotFound(_) => "Key not found: ",
            MtmfError::KeyAlreadyExists(_) => "Key already exists: ",
            MtmfError::DecryptionFailed => "Decryption failed. Incorrect passphrase?",
            MtmfError::InvalidKeyMaterial(_) => "Invalid key material: ",
            MtmfError::EncodingFailed => "Proposal key is required",
            MtmfError::SubmissionFailed(_) => "Submission failed: ",
            MtmfError::TransactionExpired => "Transaction expired",
            MtmfError::FinalityTimeout(_) => "Transaction not sealed within the allowed attempts",
            MtmfError::ExecutionFailed(_, _) => "Transaction failed: ",
        }
    }

    /// Renders the error for a user.
    pub fn message(&self) -> (text: String)
        ensures
            text@ == self.spec_message(),
    {
        let mut text = String::from_str(self.prefix());
        match self {
            MtmfError::Config(m) => text.append(m.as_str()),
            MtmfError::Key(m) => text.append(m.as_str()),
            MtmfError::Storage(m) => text.append(m.as_str()),
            MtmfError::Flow(m) => text.append(m.as_str()),
            MtmfError::Crypto(m) => text.append(m.as_str()),
            MtmfError::Io(m) => text.append(m.as_str()),
            MtmfError::Serialization(m) => text.append(m.as_str()),
            MtmfError::Network(m) => text.append(m.as_str()),
            MtmfError::InvalidInput(m) => text.append(m.as_str()),
            MtmfError::FileNotFound(m) => text.append(m.as_str()),
            MtmfError::Auth(m) => text.append(m.as_str()),
            MtmfError::Validation(m) => text.append(m.as_str()),
            MtmfError::KeyNotFound(alias) => text.append(alias.as_str()),
            MtmfError::KeyAlreadyExists(alias) => text.append(alias.as_str()),
            MtmfError::InvalidKeyMaterial(m) => text.append(m.as_str()),
            MtmfError::SubmissionFailed(m) => text.append(m.as_str()),
            MtmfError::ExecutionFailed(_, m) => text.append(m.as_str()),
            MtmfError::DecryptionFailed => {},
            MtmfError::EncodingFailed => {},
            MtmfError::TransactionExpired => {},
            MtmfError::FinalityTimeout(_) => {},
        }
        text
    }
}

} // verus!
