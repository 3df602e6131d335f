//! Small helpers around files.

use vstd::prelude::*;
use vstd::string::StringExecFns;

use crate::crypto::{sha3_256, spec_sha3_256};
use crate::errors::{MtmfError, Result};
use crate::hexfmt::{hex_encode, hex_text};

verus! {

/// The fingerprint of a file: the SHA3-256 digest of its content, written
/// in hexadecimal.
pub fn hash_file(content: &[u8]) -> (fingerprint: String)
    ensures
        fingerprint@ == hex_text(spec_sha3_256(content@)),
{
    let digest = sha3_256(content);
    hex_encode(digest.as_slice())
}

/// Says whether a path can be used as an input file, from what the file
/// system reports about it: whether anything is there, and whether it is a
/// regular file.
///
/// Fails with `FileNotFound` when nothing is at the path, and with
/// `InvalidInput` when what is there is no file.
pub fn validate_file(path: &str, present: bool, regular: bool) -> (r: Result<()>)
    ensures
        r is Ok <==> present && regular,
        r matches Err(e) ==> spec_file_error(e, path@, present),
{
    if !present {
        return Err(MtmfError::FileNotFound(String::from_str(path)));
    }
    if !regular {
        let mut message = String::from_str(path);
        message.append(" is not a file");
        return Err(MtmfError::InvalidInput(message));
    }
    Ok(())
}

/// The error for a path that cannot be used: `FileNotFound` with the path
/// where nothing is there, `InvalidInput` otherwise.
pub open spec fn spec_file_error(e: MtmfError, path: Seq<char>, present: bool) -> bool {
    if present {
        e matches MtmfError::InvalidInput(m) && m@ == path + " is not a file"@
    } else {
        e matches MtmfError::FileNotFound(missing) && missing@ == path
    }
}

} // verus!
