use crate::migrations::GraphMigrator;
use vstd::prelude::*;

verus! {

/// The SHA-256 digest of a text's UTF-8 bytes, written as lower-case
/// hexadecimal digits.
pub uninterp spec fn sha256_hex(text: Seq<char>) -> Seq<char>;

/// `sha256::digest` on a string slice: it hashes the bytes of the text and
/// writes the digest in hexadecimal. The digest depends on the text alone.
#[verifier::external_body]
fn digest_text(content: &str) -> (checksum: String)
    ensures
        checksum@ == sha256_hex(content@),
{
    sha256::digest(content)
}

impl GraphMigrator {
    /// Calculates a checksum for the given text.
    pub fn calculate_checksum(&self, content: &str) -> (checksum: String)
        ensures
            checksum@ == sha256_hex(content@),
    {
        digest_text(content)
    }
}

} // verus!
