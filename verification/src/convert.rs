//! Reshaping source-explorer metadata into a target-explorer request.
//!
//! The target explorer accepts source code only as standard-json-input text,
//! so a single flattened file is wrapped into a synthesized document keyed by
//! the contract name, an already-standard document is passed through
//! unchanged, and a bare map of named files is serialized directly. The
//! compiler version is normalized to carry its leading `v` marker and the
//! constructor arguments are hex-encoded.

use vstd::prelude::*;

verus! {

use crate::json::{
    spec_sources_obj,
    spec_standard_json_doc,
    spec_views,
    serialize_sources_obj,
    serialize_standard_json_doc,
};
use crate::model::{
    ConversionError,
    NameStyle,
    SourceEncoding,
    SourceMetadata,
    VerificationRequest,
    is_valid_address,
    spec_valid_address,
};
use crate::text::{spec_decimal, spec_hex, to_hex, u64_to_decimal};
use crate::version::{normalize_compiler_version, spec_normalize_version};

/// The contract name as it appears in the request: bare, or qualified as
/// `<name>.sol:<name>`.
pub open spec fn spec_request_name(name: Seq<char>, style: NameStyle) -> Seq<char> {
    match style {
        NameStyle::Bare => name,
        NameStyle::FileQualified => name + ".sol:"@ + name,
    }
}

/// The standard-json-input text embedded in the request for the given
/// metadata: a synthesized single-entry document for a flattened file, the
/// raw text for an already-standard document, and the bare sources object
/// for a map of named files.
pub open spec fn spec_source_text(meta: SourceMetadata, style: NameStyle) -> Seq<char> {
    match meta.source_code {
        SourceEncoding::SingleFile { content } => spec_standard_json_doc(
            meta.evm_version@,
            meta.optimization_used == 1,
            meta.runs as nat,
            seq![(spec_request_name(meta.contract_name@, style), content@)],
        ),
        SourceEncoding::StandardJsonInput { raw } => raw@,
        SourceEncoding::SourcesMap { entries } => spec_sources_obj(spec_views(entries@)),
    }
}

/// For single-file metadata the embedded source document holds exactly one
/// sources entry: it is keyed by the request's contract name, and its
/// escaped content unescapes back to the metadata's content unchanged, so
/// the content round-trips through the document byte for byte.
pub proof fn lemma_single_file_document_round_trip(
    meta: SourceMetadata,
    style: NameStyle,
    content: String,
)
    requires
        meta.source_code == (SourceEncoding::SingleFile { content }),
    ensures
        spec_source_text(meta, style) == crate::json::spec_standard_json_doc(
            meta.evm_version@,
            meta.optimization_used == 1,
            meta.runs as nat,
            seq![(spec_request_name(meta.contract_name@, style), content@)],
        ),
        crate::json::spec_unescape(crate::json::spec_escape(content@)) == content@,
{
    crate::json::lemma_escape_round_trip(content@);
}

/// Qualify a contract name by its synthesized file name.
fn qualify_name(name: &str) -> (r: String)
    ensures
        r@ == name@ + ".sol:"@ + name@,
{
    let mut r = name.to_owned();
    r.append(".sol:");
    r.append(name);
    r
}

/// Reshape fetched metadata into the target explorer's verification request.
///
/// Succeeds exactly when the address is a well-formed `0x`-prefixed hex
/// address; the conversion itself is total. On success every request field
/// is pinned: the name follows the chosen style, the compiler version is
/// normalized, optimizer settings become decimal text, constructor arguments
/// are hex-encoded and the source payload is the standard-json-input text
/// for the metadata's encoding.
pub fn convert_metadata_to_verification_request(
    contract_address: &str,
    metadata: &SourceMetadata,
    style: NameStyle,
) -> (r: Result<VerificationRequest, ConversionError>)
    ensures
        r is Ok <==> spec_valid_address(contract_address@),
        r matches Err(e) ==> e == ConversionError::InvalidAddress,
        r matches Ok(req) ==> {
            &&& req.address@ == contract_address@
            &&& req.contract_name@ == spec_request_name(metadata.contract_name@, style)
            &&& req.compiler_version@ == spec_normalize_version(metadata.compiler_version@)
            &&& req.optimization_used@ == spec_decimal(metadata.optimization_used as nat)
            &&& req.runs@ == spec_decimal(metadata.runs as nat)
            &&& req.constructor_arguments_hex@ == spec_hex(metadata.constructor_arguments@)
            &&& req.evm_version@ == metadata.evm_version@
            &&& req.source@ == spec_source_text(*metadata, style)
        },
{
    if !is_valid_address(contract_address) {
        return Err(ConversionError::InvalidAddress);
    }
    let contract_name: String = match style {
        NameStyle::Bare => metadata.contract_name.as_str().to_owned(),
        NameStyle::FileQualified => qualify_name(metadata.contract_name.as_str()),
    };
    let source: String = match &metadata.source_code {
        SourceEncoding::SingleFile { content } => {
            let mut entries: Vec<(String, String)> = Vec::new();
            let key = contract_name.clone();
            let body = content.clone();
            entries.push((key, body));
            let doc = serialize_standard_json_doc(
                metadata.evm_version.as_str(),
                metadata.optimization_used == 1,
                metadata.runs,
                &entries,
            );
            proof {
                assert(spec_views(entries@) =~= seq![
                    (spec_request_name(metadata.contract_name@, style), content@),
                ]);
            }
            doc
        },
        SourceEncoding::StandardJsonInput { raw } => raw.clone(),
        SourceEncoding::SourcesMap { entries } => serialize_sources_obj(entries),
    };
    Ok(
        VerificationRequest {
            address: contract_address.to_owned(),
            contract_name,
            compiler_version: normalize_compiler_version(metadata.compiler_version.as_str()),
            optimization_used: u64_to_decimal(metadata.optimization_used),
            runs: u64_to_decimal(metadata.runs),
            constructor_arguments_hex: to_hex(&metadata.constructor_arguments),
            evm_version: metadata.evm_version.as_str().to_owned(),
            source,
        },
    )
}

} // verus!
