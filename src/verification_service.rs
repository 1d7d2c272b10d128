//! Verification service: validates signatures and proof metadata that gate
//! state transitions. It keeps no state.

use vstd::prelude::*;
use vstd::string::StringSliceAdditionalSpecFns;
use crate::error::EscrowError;
use crate::external::{is_blank, is_blank_text, lower_of, lowercase, now_secs};
use crate::models::Task;

verus! {

/// Length in bytes of a hex-encoded SHA-256 digest.
pub const PROOF_HASH_LEN: usize = 64;

/// Configuration for the verification service.
#[derive(Debug, Clone)]
pub struct VerificationServiceConfig {
    /// Maximum proof size in bytes
    pub max_proof_size_bytes: usize,
    /// Allowed proof file extensions, in lower case
    pub allowed_proof_extensions: Vec<String>,
    /// Require publish-network signature verification
    pub require_nostr_verification: bool,
}

impl Default for VerificationServiceConfig {
    fn default() -> (r: Self)
        ensures
            r.max_proof_size_bytes == 10 * 1024 * 1024,
            r.allowed_proof_extensions@.map_values(|e: String| e@) == seq![
                "jpg"@,
                "jpeg"@,
                "png"@,
                "gif"@,
                "pdf"@,
                "txt"@,
                "md"@,
            ],
            r.require_nostr_verification,
    {
        let mut exts: Vec<String> = Vec::new();
        exts.push(String::from_str("jpg"));
        exts.push(String::from_str("jpeg"));
        exts.push(String::from_str("png"));
        exts.push(String::from_str("gif"));
        exts.push(String::from_str("pdf"));
        exts.push(String::from_str("txt"));
        exts.push(String::from_str("md"));
        let r = VerificationServiceConfig {
            max_proof_size_bytes: 10 * 1024 * 1024,
            allowed_proof_extensions: exts,
            require_nostr_verification: true,
        };
        assert(r.allowed_proof_extensions@.map_values(|e: String| e@) =~= seq![
            "jpg"@,
            "jpeg"@,
            "png"@,
            "gif"@,
            "pdf"@,
            "txt"@,
            "md"@,
        ]);
        r
    }
}

/// Result of proof verification.
#[derive(Debug, Clone)]
pub struct ProofVerificationResult {
    pub is_valid: bool,
    pub content_hash: String,
    pub file_size: u64,
    pub content_type: String,
    pub verification_timestamp: i64,
}

/// Result of task completion verification.
#[derive(Debug, Clone)]
pub struct CompletionVerificationResult {
    pub approved: bool,
    pub score: u32,
    pub feedback: String,
    pub verification_method: String,
    pub verified_at: i64,
    pub verifier_notes: Option<String>,
}

/// The text after the last `.` of a file name, or the whole name if it has
/// no `.`.
pub open spec fn extension_of(name: Seq<char>) -> Seq<char>
    decreases name.len(),
{
    if name.len() == 0 {
        name
    } else if name.last() == '.' {
        Seq::empty()
    } else {
        extension_of(name.drop_last()).push(name.last())
    }
}

/// Whether `s` starts with `prefix`.
pub open spec fn has_prefix(s: Seq<char>, prefix: Seq<char>) -> bool {
    prefix.len() <= s.len() && s.subrange(0, prefix.len() as int) == prefix
}

/// Whether a proof URL uses HTTP or HTTPS.
pub open spec fn is_web_url(url: Seq<char>) -> bool {
    has_prefix(url, "http://"@) || has_prefix(url, "https://"@)
}

/// Main verification service.
pub struct VerificationService {
    config: VerificationServiceConfig,
}

impl VerificationService {
    /// The service's configuration.
    pub closed spec fn spec_config(&self) -> VerificationServiceConfig {
        self.config
    }

    /// Whether `ext` is one of the allowed extensions.
    pub open spec fn allows(&self, ext: Seq<char>) -> bool {
        exists|i: int|
            0 <= i < self.spec_config().allowed_proof_extensions@.len()
                && #[trigger] self.spec_config().allowed_proof_extensions@[i]@ == ext
    }

    /// Create a new verification service.
    pub fn new(config: VerificationServiceConfig) -> (r: Self)
        ensures
            r.spec_config() == config,
    {
        VerificationService { config }
    }

    /// Verify a publish-network signature over an event id. When such
    /// verification is required, both must be present (not blank).
    pub fn verify_nostr_signature(&self, signature: &str, event_id: &str) -> (r: Result<
        (),
        EscrowError,
    >)
        ensures
            r is Ok <==> (!self.spec_config().require_nostr_verification || (!is_blank_text(
                signature@,
            ) && !is_blank_text(event_id@))),
            r matches Err(e) ==> e is ProofVerification,
    {
        if !self.config.require_nostr_verification {
            return Ok(());
        }
        if is_blank(signature) {
            return Err(EscrowError::ProofVerification(String::from_str("Signature is required")));
        }
        if is_blank(event_id) {
            return Err(EscrowError::ProofVerification(String::from_str("Event ID is required")));
        }
        Ok(())
    }

    /// Verify a generic signature by a public key; both must be present
    /// (not blank).
    pub fn verify_signature(&self, signature: &str, pubkey: &str) -> (r: Result<(), EscrowError>)
        ensures
            r is Ok <==> !is_blank_text(signature@) && !is_blank_text(pubkey@),
            r matches Err(e) ==> e is ProofVerification,
    {
        if is_blank(signature) {
            return Err(EscrowError::ProofVerification(String::from_str("Signature is required")));
        }
        if is_blank(pubkey) {
            return Err(EscrowError::ProofVerification(String::from_str("Public key is required")));
        }
        Ok(())
    }

    /// Verify proof metadata: the URL is present and uses HTTP or HTTPS, the
    /// hash is present and 64 bytes long; the proof is valid if it matches
    /// the expected hash, where one is given.
    pub fn verify_proof(&self, proof_url: &str, proof_hash: &str, expected_hash: Option<&str>) -> (r:
        Result<ProofVerificationResult, EscrowError>)
        ensures
            r is Ok <==> !is_blank_text(proof_url@) && is_web_url(proof_url@) && !is_blank_text(
                proof_hash@,
            ) && proof_hash.spec_bytes().len() as usize == PROOF_HASH_LEN,
            r matches Err(e) ==> e is ProofVerification,
            r matches Ok(res) ==> res.content_hash@ == proof_hash@ && res.is_valid == match
                expected_hash {
                Some(x) => x@ == proof_hash@,
                None => true,
            },
    {
        if is_blank(proof_url) {
            return Err(EscrowError::ProofVerification(String::from_str("Proof URL cannot be empty")));
        }
        if !starts_with(proof_url, "http://") && !starts_with(proof_url, "https://") {
            return Err(
                EscrowError::ProofVerification(String::from_str("Proof URL must use HTTP/HTTPS")),
            );
        }
        if is_blank(proof_hash) {
            return Err(
                EscrowError::ProofVerification(String::from_str("Proof hash cannot be empty")),
            );
        }
        if proof_hash.len() != PROOF_HASH_LEN {
            return Err(
                EscrowError::ProofVerification(
                    String::from_str("Proof hash must be 64 characters (SHA256)"),
                ),
            );
        }
        let hash = String::from_str(proof_hash);
        let is_valid = match expected_hash {
            Some(expected) => hash == String::from_str(expected),
            None => true,
        };
        Ok(
            ProofVerificationResult {
                is_valid,
                content_hash: hash,
                file_size: 1024,
                content_type: String::from_str("application/octet-stream"),
                verification_timestamp: now_secs(),
            },
        )
    }

    /// Verify task completion criteria; proofs that passed the metadata
    /// checks are approved.
    pub fn verify_task_completion(&self, task: &Task, proof_url: &str) -> (r: Result<
        CompletionVerificationResult,
        EscrowError,
    >)
        ensures
            r matches Ok(c) && c.approved && c.score == 100 && c.verifier_notes is None,
    {
        Ok(
            CompletionVerificationResult {
                approved: true,
                score: 100,
                feedback: String::from_str("Proof submitted successfully"),
                verification_method: String::from_str("automated"),
                verified_at: now_secs(),
                verifier_notes: None,
            },
        )
    }

    /// Whether a lower-case extension is one of the allowed ones.
    pub fn is_allowed_extension(&self, ext: &str) -> (r: bool)
        ensures
            r == self.allows(ext@),
    {
        let key = String::from_str(ext);
        let exts = &self.config.allowed_proof_extensions;
        let mut i: usize = 0;
        while i < exts.len()
            invariant
                i <= exts@.len(),
                key@ == ext@,
                exts == &self.spec_config().allowed_proof_extensions,
                forall|j: int| 0 <= j < i ==> exts@[j]@ != ext@,
            decreases exts@.len() - i,
        {
            if exts[i] == key {
                return true;
            }
            i = i + 1;
        }
        false
    }

    /// Validate a proof file's extension (the text after its last `.`,
    /// compared in lower case) against the allowed ones.
    pub fn validate_file_extension(&self, filename: &str) -> (r: Result<(), EscrowError>)
        ensures
            r is Ok <==> self.allows(lower_of(extension_of(filename@))),
            r matches Err(e) ==> e is ProofVerification,
    {
        let ext = extension(filename);
        let lower = lowercase(ext);
        if !self.is_allowed_extension(lower.as_str()) {
            return Err(
                EscrowError::ProofVerification(String::from_str("File extension not allowed")),
            );
        }
        Ok(())
    }
}

impl Default for VerificationService {
    fn default() -> (r: Self)
        ensures
            r.spec_config().require_nostr_verification,
            r.spec_config().allowed_proof_extensions@.map_values(|e: String| e@) == seq![
                "jpg"@,
                "jpeg"@,
                "png"@,
                "gif"@,
                "pdf"@,
                "txt"@,
                "md"@,
            ],
    {
        VerificationService::new(VerificationServiceConfig::default())
    }
}

/// Whether `s` starts with `prefix`.
fn starts_with(s: &str, prefix: &str) -> (r: bool)
    ensures
        r == has_prefix(s@, prefix@),
{
    let n = s.unicode_len();
    let m = prefix.unicode_len();
    if m > n {
        return false;
    }
    let mut i: usize = 0;
    while i < m
        invariant
            m <= n,
            n == s@.len(),
            m == prefix@.len(),
            i <= m,
            forall|j: int| 0 <= j < i ==> s@[j] == prefix@[j],
        decreases m - i,
    {
        if s.get_char(i) != prefix.get_char(i) {
            assert(s@.subrange(0, m as int)[i as int] != prefix@[i as int]);
            return false;
        }
        i = i + 1;
    }
    assert(s@.subrange(0, m as int) =~= prefix@);
    true
}

/// The text after the last `.` of a file name, or the whole name.
fn extension(name: &str) -> (r: &str)
    ensures
        r@ == extension_of(name@),
{
    let n = name.unicode_len();
    let mut start: usize = n;
    while start > 0 && name.get_char(start - 1) != '.'
        invariant
            start <= n,
            n == name@.len(),
            forall|j: int| start <= j < n ==> name@[j] != '.',
        decreases start,
    {
        start = start - 1;
    }
    proof {
        lemma_extension_of(name@, start as int);
    }
    name.substring_char(start, n)
}

/// The extension of `s` is its tail after position `start`, when the
/// character just before `start` (if any) is `.` and none after it is.
proof fn lemma_extension_of(s: Seq<char>, start: int)
    requires
        0 <= start <= s.len(),
        start > 0 ==> s[start - 1] == '.',
        forall|j: int| start <= j < s.len() ==> s[j] != '.',
    ensures
        extension_of(s) == s.subrange(start, s.len() as int),
    decreases s.len(),
{
    if s.len() == 0 {
        assert(s.subrange(start, s.len() as int) =~= s);
    } else if s.len() == start {
        assert(s.last() == '.');
        assert(s.subrange(start, s.len() as int) =~= Seq::<char>::empty());
    } else {
        lemma_extension_of(s.drop_last(), start);
        assert(s.subrange(start, s.len() as int) =~= s.drop_last().subrange(
            start,
            s.len() - 1,
        ).push(s.last()));
    }
}

} // verus!
