//! Bookkeeping of the self-update: the fingerprint of the running program,
//! the name its old copy is kept under, and what a server reply means.

use vstd::prelude::*;
use vstd::string::StringExecFns;

use crate::text::{hex_lower, is_lower_hex_digit, lemma_hex_lower_injective, lemma_hex_lower_len, to_hex_lower};

verus! {

/// The MD5 digest of `data`, as `md5::compute` returns it.
pub uninterp spec fn md5_digest(data: Seq<u8>) -> Seq<u8>;

/// Calls `md5::compute`, which returns the 16-byte MD5 digest of `data`.
#[verifier::external_body]
fn md5_compute(data: &[u8]) -> (d: [u8; 16])
    ensures
        d@ == md5_digest(data@),
{
    md5::compute(data).0
}

/// The MD5 digest of `data` as 32 lower-case hexadecimal digits.
pub fn md5sum(data: &[u8]) -> (s: String)
    ensures
        s@ == hex_lower(md5_digest(data@)),
        s@.len() == 32,
        forall|i: int| 0 <= i < s@.len() ==> is_lower_hex_digit(#[trigger] s@[i]),
{
    let digest = md5_compute(data);
    proof {
        lemma_hex_lower_len(digest@);
    }
    digest_to_hex(digest.as_slice())
}

/// The hexadecimal rendering of a digest: the fingerprint text that
/// `md5sum` returns for data with that digest.
pub fn digest_to_hex(digest: &[u8]) -> (s: String)
    ensures
        s@ == hex_lower(digest@),
        s@.len() == 2 * digest@.len(),
{
    proof {
        lemma_hex_lower_len(digest@);
    }
    to_hex_lower(digest)
}

/// The name under which the replaced program is kept: `se-` followed by
/// its version.
pub fn backup_file_name(version: &str) -> (s: String)
    ensures
        s@ == "se-"@ + version@,
{
    let mut s = String::new();
    s.append("se-");
    s.append(version);
    s
}

/// What an update request's answer means.
#[derive(Clone, Copy, Debug, PartialEq, Eq, Structural)]
pub enum UpdateOutcome {
    /// A new program came back (any 2xx status): install it.
    Install,
    /// The server has nothing newer (304 Not Modified).
    UpToDate,
    /// Any other status: report it and change nothing.
    Failed,
}

/// The outcome for an HTTP status code.
pub open spec fn outcome_of_status(code: u16) -> UpdateOutcome {
    if 200 <= code && code <= 299 {
        UpdateOutcome::Install
    } else if code == 304 {
        UpdateOutcome::UpToDate
    } else {
        UpdateOutcome::Failed
    }
}

impl UpdateOutcome {
    /// Classifies the status code of the server's answer.
    pub fn from_status(code: u16) -> (r: UpdateOutcome)
        ensures
            r == outcome_of_status(code),
            r == UpdateOutcome::Install <==> 200 <= code <= 299,
            r == UpdateOutcome::UpToDate <==> code == 304,
            r == UpdateOutcome::Failed <==> !(200 <= code <= 299) && code != 304,
    {
        proof {
            lemma_status_outcomes(code);
        }
        if 200 <= code && code <= 299 {
            UpdateOutcome::Install
        } else if code == 304 {
            UpdateOutcome::UpToDate
        } else {
            UpdateOutcome::Failed
        }
    }
}

/// Every status code gets exactly one outcome: install for the success
/// codes `200..=299`, up to date for `304` alone, and failed for every
/// other code (informational, other redirections, client and server
/// errors, and codes outside the classes).
pub proof fn lemma_status_outcomes(code: u16)
    ensures
        outcome_of_status(code) == UpdateOutcome::Install <==> 200 <= code <= 299,
        outcome_of_status(code) == UpdateOutcome::UpToDate <==> code == 304,
        outcome_of_status(code) == UpdateOutcome::Failed <==> !(200 <= code <= 299) && code != 304,
{
}

/// A fingerprint is 32 lower-case hexadecimal digits whenever the digest
/// has 16 bytes, and two contents get the same fingerprint exactly when
/// they have the same digest.
pub proof fn lemma_fingerprint_shape(a: Seq<u8>, b: Seq<u8>)
    ensures
        hex_lower(a).len() == 2 * a.len(),
        forall|i: int| 0 <= i < hex_lower(a).len() ==> is_lower_hex_digit(#[trigger] hex_lower(a)[i]),
        hex_lower(a) == hex_lower(b) <==> a == b,
{
    lemma_hex_lower_len(a);
    if hex_lower(a) == hex_lower(b) {
        lemma_hex_lower_injective(a, b);
    }
}

} // verus!
