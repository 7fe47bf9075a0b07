//! The data the migration works over.
//!
//! A contract's verified-source metadata is fetched from the source explorer
//! and handed to the library as plain values: name, compiler settings,
//! constructor arguments, and the source code in one of three encodings. The
//! library reshapes it into a [`VerificationRequest`], the payload the target
//! explorer's verification endpoint accepts.

use vstd::prelude::*;

verus! {

/// How the verified source code was delivered by the source explorer.
#[derive(Debug, Clone, PartialEq, Eq)]
pub enum SourceEncoding {
    /// One flattened source blob.
    SingleFile { content: String },
    /// Already in the multi-file standard-json-input shape, kept as its
    /// serialized text and passed through unchanged.
    StandardJsonInput { raw: String },
    /// Multiple named files, not yet assembled into compiler-input shape.
    SourcesMap { entries: Vec<(String, String)> },
}

/// Verified-source metadata fetched from the source explorer for one
/// contract. Immutable once fetched.
#[derive(Debug, Clone, PartialEq, Eq)]
pub struct SourceMetadata {
    /// The name of the contract.
    pub contract_name: String,
    /// The compiler version string, possibly missing the leading `v` marker.
    pub compiler_version: String,
    /// The EVM version the contract was compiled for.
    pub evm_version: String,
    /// Whether the optimizer was used: only `0` or `1`.
    pub optimization_used: u64,
    /// The optimizer run count.
    pub runs: u64,
    /// The constructor arguments the contract was deployed with.
    pub constructor_arguments: Vec<u8>,
    /// The source code and its encoding.
    pub source_code: SourceEncoding,
}

/// Whether the contract name in a request is qualified as `<name>.sol:<name>`
/// or left bare; which form a target explorer expects varies, so it is a
/// policy the caller picks.
#[derive(Debug, Clone, Copy, PartialEq, Eq, Structural)]
pub enum NameStyle {
    /// The contract name as the source explorer reported it.
    Bare,
    /// The contract name qualified by its synthesized file name.
    FileQualified,
}

/// The payload submitted to the target explorer's verification endpoint.
#[derive(Debug, Clone, PartialEq, Eq)]
pub struct VerificationRequest {
    /// The contract address, in validated `0x`-prefixed hex form.
    pub address: String,
    /// The contract name, qualified according to the chosen [`NameStyle`].
    pub contract_name: String,
    /// The compiler version, normalized to carry the leading `v` marker.
    pub compiler_version: String,
    /// The optimizer flag as decimal text.
    pub optimization_used: String,
    /// The optimizer run count as decimal text.
    pub runs: String,
    /// The constructor arguments, hex-encoded.
    pub constructor_arguments_hex: String,
    /// The EVM version, unchanged from the metadata.
    pub evm_version: String,
    /// The source payload as standard-json-input text.
    pub source: String,
}

/// A terminal verification outcome under which the contract ends up verified
/// on the target explorer. Failures are carried by an error alongside, not
/// by this type.
#[derive(Debug, Clone, Copy, PartialEq, Eq, Structural)]
pub enum VerificationResult {
    /// The contract was newly verified on the target explorer.
    Success,
    /// The target explorer already held a verification for the contract.
    AlreadyVerified,
}

/// Why reshaping metadata into a request failed. A conversion failure is a
/// data error and is never retried.
#[derive(Debug, Clone, Copy, PartialEq, Eq, Structural)]
pub enum ConversionError {
    /// The contract address is not a `0x`-prefixed 40-digit hex string.
    InvalidAddress,
}

/// The character is a hex digit, in either case.
pub open spec fn spec_is_hex_char(c: char) -> bool {
    ('0' <= c && c <= '9') || ('a' <= c && c <= 'f') || ('A' <= c && c <= 'F')
}

/// A well-formed chain address: `0x` followed by exactly forty hex digits.
pub open spec fn spec_valid_address(s: Seq<char>) -> bool {
    &&& s.len() == 42
    &&& s[0] == '0'
    &&& s[1] == 'x'
    &&& forall|i: int| 2 <= i < 42 ==> spec_is_hex_char(#[trigger] s[i])
}

/// Check that the address is a `0x`-prefixed 40-digit hex string.
pub fn is_valid_address(s: &str) -> (r: bool)
    ensures
        r == spec_valid_address(s@),
{
    let n = s.unicode_len();
    if n != 42 {
        return false;
    }
    if s.get_char(0) != '0' || s.get_char(1) != 'x' {
        return false;
    }
    let mut i: usize = 2;
    while i < 42
        invariant
            s@.len() == 42,
            2 <= i <= 42,
            forall|j: int| 2 <= j < i ==> spec_is_hex_char(#[trigger] s@[j]),
        decreases 42 - i,
    {
        let c = s.get_char(i);
        let ok = (c >= '0' && c <= '9') || (c >= 'a' && c <= 'f') || (c >= 'A' && c <= 'F');
        if !ok {
            return false;
        }
        i += 1;
    }
    true
}

} // verus!
