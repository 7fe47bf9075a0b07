//! Tests for metadata conversion, version normalization and the embedded
//! source document.

use contract_verification_migrator::convert::convert_metadata_to_verification_request;
use contract_verification_migrator::model::{
    ConversionError, NameStyle, SourceEncoding, SourceMetadata,
};
use contract_verification_migrator::normalize_compiler_version;

const GOOD_ADDRESS: &str = "0xE592427A0AEce92De3Edee1F18E0157C05861564";

fn single_file_metadata() -> SourceMetadata {
    SourceMetadata {
        contract_name: "Counter".to_string(),
        compiler_version: "0.8.19+commit.7dd6d404".to_string(),
        evm_version: "london".to_string(),
        optimization_used: 1,
        runs: 200,
        constructor_arguments: vec![0xde, 0xad, 0xbe, 0xef],
        source_code: SourceEncoding::SingleFile {
            content: "contract Counter {}".to_string(),
        },
    }
}

#[test]
fn normalize_adds_missing_marker() {
    assert_eq!(normalize_compiler_version("0.8.19"), "v0.8.19");
}

#[test]
fn normalize_keeps_existing_marker() {
    assert_eq!(normalize_compiler_version("v0.8.19"), "v0.8.19");
}

#[test]
fn normalize_is_idempotent() {
    let once = normalize_compiler_version("0.8.19+commit.7dd6d404");
    let twice = normalize_compiler_version(&once);
    assert_eq!(once, twice);
    assert!(once.starts_with('v'));
}

#[test]
fn normalize_empty_version() {
    assert_eq!(normalize_compiler_version(""), "v");
}

#[test]
fn single_file_request_fields() {
    let meta = single_file_metadata();
    let req = convert_metadata_to_verification_request(GOOD_ADDRESS, &meta, NameStyle::FileQualified)
        .unwrap();
    assert_eq!(req.address, GOOD_ADDRESS);
    assert_eq!(req.contract_name, "Counter.sol:Counter");
    assert_eq!(req.compiler_version, "v0.8.19+commit.7dd6d404");
    assert_eq!(req.optimization_used, "1");
    assert_eq!(req.runs, "200");
    assert_eq!(req.constructor_arguments_hex, "deadbeef");
    assert_eq!(req.evm_version, "london");
}

#[test]
fn single_file_source_document_keys_content_by_contract_name() {
    let meta = single_file_metadata();
    let req = convert_metadata_to_verification_request(GOOD_ADDRESS, &meta, NameStyle::FileQualified)
        .unwrap();
    let expected = "{\"language\":\"Solidity\",\"sources\":\
{\"Counter.sol:Counter\":{\"content\":\"contract Counter {}\"}}\
,\"settings\":{\"evm_version\":\"london\",\"libraries\":{},\
\"optimizer\":{\"enabled\":true,\"runs\":200},\"remappings\":[]}}";
    assert_eq!(req.source, expected);
}

#[test]
fn single_file_bare_name_style() {
    let meta = single_file_metadata();
    let req =
        convert_metadata_to_verification_request(GOOD_ADDRESS, &meta, NameStyle::Bare).unwrap();
    assert_eq!(req.contract_name, "Counter");
    assert!(req.source.contains("\"Counter\":{\"content\":"));
}

#[test]
fn single_file_optimizer_disabled() {
    let mut meta = single_file_metadata();
    meta.optimization_used = 0;
    meta.runs = 0;
    let req =
        convert_metadata_to_verification_request(GOOD_ADDRESS, &meta, NameStyle::Bare).unwrap();
    assert_eq!(req.optimization_used, "0");
    assert_eq!(req.runs, "0");
    assert!(req.source.contains("\"optimizer\":{\"enabled\":false,\"runs\":0}"));
}

#[test]
fn source_content_is_escaped_and_recoverable() {
    let mut meta = single_file_metadata();
    meta.source_code = SourceEncoding::SingleFile {
        content: "say \"hi\\\"\nend".to_string(),
    };
    let req =
        convert_metadata_to_verification_request(GOOD_ADDRESS, &meta, NameStyle::Bare).unwrap();
    // Quote and backslash get a backslash prefix; the newline becomes \u000a.
    assert!(req.source.contains("{\"content\":\"say \\\"hi\\\\\\\"\\u000aend\"}"));
}

#[test]
fn standard_json_input_passes_through_unchanged() {
    let raw = "{\"language\":\"Solidity\",\"sources\":{\"a.sol\":{\"content\":\"x\"}}}";
    let mut meta = single_file_metadata();
    meta.source_code = SourceEncoding::StandardJsonInput { raw: raw.to_string() };
    let req =
        convert_metadata_to_verification_request(GOOD_ADDRESS, &meta, NameStyle::FileQualified)
            .unwrap();
    assert_eq!(req.source, raw);
}

#[test]
fn sources_map_serializes_each_entry_in_order() {
    let mut meta = single_file_metadata();
    meta.source_code = SourceEncoding::SourcesMap {
        entries: vec![
            ("A.sol".to_string(), "contract A {}".to_string()),
            ("B.sol".to_string(), "contract B {}".to_string()),
        ],
    };
    let req =
        convert_metadata_to_verification_request(GOOD_ADDRESS, &meta, NameStyle::FileQualified)
            .unwrap();
    let expected = "{\"A.sol\":{\"content\":\"contract A {}\"},\
\"B.sol\":{\"content\":\"contract B {}\"}}";
    assert_eq!(req.source, expected);
}

#[test]
fn sources_map_empty() {
    let mut meta = single_file_metadata();
    meta.source_code = SourceEncoding::SourcesMap { entries: vec![] };
    let req =
        convert_metadata_to_verification_request(GOOD_ADDRESS, &meta, NameStyle::Bare).unwrap();
    assert_eq!(req.source, "{}");
}

#[test]
fn empty_constructor_arguments_encode_empty() {
    let mut meta = single_file_metadata();
    meta.constructor_arguments = vec![];
    let req =
        convert_metadata_to_verification_request(GOOD_ADDRESS, &meta, NameStyle::Bare).unwrap();
    assert_eq!(req.constructor_arguments_hex, "");
}

#[test]
fn invalid_address_is_rejected() {
    let meta = single_file_metadata();
    for bad in [
        "",
        "0x123",
        "E592427A0AEce92De3Edee1F18E0157C05861564",
        "0xE592427A0AEce92De3Edee1F18E0157C0586156g",
        "0xE592427A0AEce92De3Edee1F18E0157C058615644",
    ] {
        let r = convert_metadata_to_verification_request(bad, &meta, NameStyle::Bare);
        assert_eq!(r, Err(ConversionError::InvalidAddress));
    }
}
