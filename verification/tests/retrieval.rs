use std::io::Write;

use cp_config_client::archive::check_archive;
use cp_config_client::errors::{
    body_read_error, request_failure_error, ErrorKind, RetrieverError,
};
use cp_config_client::headers::get_headers;
use cp_config_client::numerals::u16_decimal;
use cp_config_client::retriever::{
    build_request_url, classify_status, handle_response, ConfigRetrieverArgs,
};

fn sample_args(access_token: &str, output_path: &str) -> ConfigRetrieverArgs {
    ConfigRetrieverArgs {
        access_token: access_token.to_owned(),
        output_path: std::path::PathBuf::from(output_path),
        host: "https://cfg.example.com".to_owned(),
        stage: "prod".to_owned(),
        environment: "us-east".to_owned(),
        component: "billing".to_owned(),
    }
}

fn zip_with_file(name: &str, content: &[u8]) -> Vec<u8> {
    let mut writer = zip::ZipWriter::new(std::io::Cursor::new(Vec::new()));
    writer
        .start_file(name, zip::write::SimpleFileOptions::default())
        .expect("start entry");
    writer.write_all(content).expect("write entry");
    writer.finish().expect("finish archive").into_inner()
}

#[test]
fn build_request_url_interpolates_coordinates() {
    let args = sample_args("tok123", "./out");
    let url = build_request_url(&args);
    assert_eq!(
        url,
        "https://cfg.example.com/config?stage=prod&environment=us-east&component=billing"
    );
}

#[test]
fn get_headers_holds_single_bearer_entry() {
    let args = sample_args("tok123", "./out");
    let headers = get_headers(&args).expect("a plain token must be accepted");
    assert_eq!(headers.len(), 1);
    let value = headers.get("Authorization").expect("authorization entry");
    assert_eq!(value.to_str().expect("ascii value"), "Bearer tok123");
}

#[test]
fn get_headers_rejects_control_characters() {
    let args = sample_args("tok\n123", "./out");
    let error = get_headers(&args).expect_err("a control character must be rejected");
    assert_eq!(error.kind, ErrorKind::UnexpectedError);
    assert_eq!(
        error.message,
        "failed to create authorization header: invalid header value"
    );
}

#[test]
fn classify_status_accepts_only_ok() {
    assert!(classify_status(200).is_ok());
    for status in [100u16, 201, 204, 301, 302, 403, 404, 500, 503] {
        assert!(classify_status(status).is_err());
    }
}

#[test]
fn classify_status_unauthorized_means_invalid_token() {
    let error = classify_status(401).expect_err("401 must fail");
    assert_eq!(error.kind, ErrorKind::InvalidAccessToken);
    assert_eq!(error.message, "invalid access token");
}

#[test]
fn classify_status_bad_request_is_unexpected() {
    let error = classify_status(400).expect_err("400 must fail");
    assert_eq!(error.kind, ErrorKind::UnexpectedError);
    assert_eq!(error.message, "unexpected error: ");
}

#[test]
fn classify_status_unknown_code_names_it() {
    let error = classify_status(503).expect_err("503 must fail");
    assert_eq!(error.kind, ErrorKind::UnexpectedError);
    assert_eq!(error.message, "unexpected status code received: 503");
}

#[test]
fn u16_decimal_renders_exact_digits() {
    assert_eq!(u16_decimal(0), "0");
    assert_eq!(u16_decimal(7), "7");
    assert_eq!(u16_decimal(10), "10");
    assert_eq!(u16_decimal(503), "503");
    assert_eq!(u16_decimal(65535), "65535");
}

#[test]
fn describe_joins_label_and_message() {
    let error = RetrieverError::new(ErrorKind::InvalidAccessToken, "invalid access token".to_owned());
    assert_eq!(error.describe(), "invalid_access_token: invalid access token");
}

#[test]
fn transport_errors_carry_their_prefixes() {
    let error = request_failure_error("connection refused");
    assert_eq!(error.kind, ErrorKind::RequestFailure);
    assert_eq!(
        error.message,
        "failed to get configuration from server: connection refused"
    );
    let error = body_read_error("stream interrupted");
    assert_eq!(error.kind, ErrorKind::UnexpectedError);
    assert_eq!(error.message, "failed to read response's bytes: stream interrupted");
}

#[test]
fn check_archive_accepts_wellformed_zip() {
    let bytes = zip_with_file("application.yaml", b"key: value\n");
    assert!(check_archive(&bytes).is_ok());
}

#[test]
fn check_archive_rejects_plain_text() {
    let bytes = b"this is not an archive".to_vec();
    let error = check_archive(&bytes).expect_err("plain text must be rejected");
    assert_eq!(error.kind, ErrorKind::DecompressFailure);
}

#[test]
fn check_archive_rejects_truncated_zip() {
    let mut bytes = zip_with_file("application.yaml", b"key: value\n");
    bytes.truncate(bytes.len() / 2);
    let error = check_archive(&bytes).expect_err("truncated bytes must be rejected");
    assert_eq!(error.kind, ErrorKind::DecompressFailure);
}

#[test]
fn handle_response_unauthorized_fails_before_extraction() {
    let out = std::path::PathBuf::from("/tmp/cp_cfg_it_unauthorized_out");
    let bytes = zip_with_file("application.yaml", b"key: value\n");
    let error = handle_response(401, bytes, &out).expect_err("401 must fail");
    assert_eq!(error.kind, ErrorKind::InvalidAccessToken);
    assert_eq!(error.message, "invalid access token");
}

#[test]
fn handle_response_unknown_status_fails_before_extraction() {
    let out = std::path::PathBuf::from("/tmp/cp_cfg_it_unknown_out");
    let bytes = zip_with_file("application.yaml", b"key: value\n");
    let error = handle_response(418, bytes, &out).expect_err("unknown status must fail");
    assert_eq!(error.kind, ErrorKind::UnexpectedError);
    assert_eq!(error.message, "unexpected status code received: 418");
}

#[test]
fn handle_response_bad_archive_fails_decompress() {
    let out = std::path::PathBuf::from("/tmp/cp_cfg_it_bad_archive_out");
    let error = handle_response(200, b"plain text body".to_vec(), &out)
        .expect_err("a body that is no archive must fail");
    assert_eq!(error.kind, ErrorKind::DecompressFailure);
}

#[test]
fn handle_response_extracts_wellformed_archive() {
    let out = std::path::PathBuf::from("/tmp/cp_cfg_it_extract_out");
    let bytes = zip_with_file("application.yaml", b"retrieved: true\n");
    handle_response(200, bytes, &out).expect("retrieval must succeed");
}

#[test]
fn repeated_extraction_succeeds_in_place() {
    let out = std::path::PathBuf::from("/tmp/cp_cfg_it_repeat_out");
    let first = zip_with_file("application.yaml", b"revision: 1\n");
    handle_response(200, first, &out).expect("first retrieval must succeed");
    let second = zip_with_file("application.yaml", b"revision: 2\n");
    handle_response(200, second, &out).expect("second retrieval must succeed");
}
