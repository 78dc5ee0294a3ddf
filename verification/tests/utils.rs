use opsml_cli::api::error::OpsmlError;
use opsml_cli::api::utils::check_args;
use opsml_cli::api::utils::is_success;
use opsml_cli::api::utils::remove_suffix;
use opsml_cli::api::utils::resolve_tracking_uri;
use opsml_cli::api::utils::OpsmlPaths;

fn some(text: &str) -> Option<String> {
    Some(text.to_string())
}

#[test]
fn test_remove_suffix() {
    let test_uri_with_slash = "http://localhost:8080/";
    let test_uri_without_slash = "http://localhost:8080";
    let processed_with_slash_uri = remove_suffix(&test_uri_with_slash, "/");
    let processed_without_slash_uri = remove_suffix(&test_uri_without_slash, "/");
    assert_eq!(processed_with_slash_uri, "http://localhost:8080");
    assert_eq!(processed_without_slash_uri, test_uri_without_slash);
}

#[test]
fn remove_suffix_takes_one_suffix_only() {
    assert_eq!(remove_suffix("a//", "/"), "a/");
    assert_eq!(remove_suffix("model.onnx", ".onnx"), "model");
    assert_eq!(remove_suffix("model.onnx", "onnx."), "model.onnx");
    assert_eq!(remove_suffix("abc", ""), "abc");
    assert_eq!(remove_suffix("", "/"), "");
    assert_eq!(remove_suffix("/", "/"), "");
    assert_eq!(remove_suffix("é/", "/"), "é");
}

#[test]
fn check_args_accepts_name_and_version() {
    assert_eq!(check_args(&some("model"), &some("1.0.0"), &None), Ok(()));
}

#[test]
fn check_args_accepts_name_alone_and_version_alone() {
    assert_eq!(check_args(&some("model"), &None, &None), Ok(()));
    assert_eq!(check_args(&None, &some("1.0.0"), &None), Ok(()));
}

#[test]
fn check_args_accepts_uid_alone() {
    assert_eq!(check_args(&None, &None, &some("uid")), Ok(()));
}

#[test]
fn check_args_rejects_both_modes() {
    assert_eq!(
        check_args(&some("model"), &some("1.0.0"), &some("uid")),
        Err(OpsmlError::InvalidArguments)
    );
    assert_eq!(check_args(&some("model"), &None, &some("uid")), Err(OpsmlError::InvalidArguments));
    assert_eq!(check_args(&None, &some("1.0.0"), &some("uid")), Err(OpsmlError::InvalidArguments));
}

#[test]
fn check_args_rejects_no_mode() {
    assert_eq!(check_args(&None, &None, &None), Err(OpsmlError::InvalidArguments));
}

#[test]
fn check_args_is_valid_iff_exactly_one_mode() {
    let names = [None, some("n")];
    let versions = [None, some("v")];
    let uids = [None, some("u")];
    for name in &names {
        for version in &versions {
            for uid in &uids {
                let by_name = name.is_some() || version.is_some();
                let by_uid = uid.is_some();
                assert_eq!(check_args(name, version, uid).is_ok(), by_name != by_uid);
            }
        }
    }
}

#[test]
fn paths_stand_below_the_base_url() {
    let base = "http://localhost:8080";
    assert_eq!(OpsmlPaths::ListCard.as_str(base), "http://localhost:8080/opsml/cards/list");
    assert_eq!(
        OpsmlPaths::MetadataDownload.as_str(base),
        "http://localhost:8080/opsml/models/metadata"
    );
    assert_eq!(OpsmlPaths::Download.as_str(base), "http://localhost:8080/opsml/files/download");
    assert_eq!(OpsmlPaths::Metric.as_str(base), "http://localhost:8080/opsml/models/metrics");
    assert_eq!(
        OpsmlPaths::CompareMetric.as_str(base),
        "http://localhost:8080/opsml/models/compare_metrics"
    );
}

#[test]
fn tracking_uri_loses_its_trailing_slash() {
    assert_eq!(resolve_tracking_uri(some("http://localhost:8080/")), Ok("http://localhost:8080".to_string()));
    assert_eq!(resolve_tracking_uri(some("http://localhost:8080")), Ok("http://localhost:8080".to_string()));
    assert_eq!(
        OpsmlPaths::ListCard.as_str(&resolve_tracking_uri(some("http://host/")).unwrap()),
        "http://host/opsml/cards/list"
    );
}

#[test]
fn missing_tracking_uri_is_a_configuration_error() {
    assert_eq!(resolve_tracking_uri(None), Err(OpsmlError::ConfigurationError));
}

#[test]
fn success_is_the_two_hundreds() {
    assert!(!is_success(199));
    assert!(is_success(200));
    assert!(is_success(201));
    assert!(is_success(299));
    assert!(!is_success(300));
    assert!(!is_success(404));
    assert!(!is_success(500));
    assert!(!is_success(0));
}

#[test]
fn every_error_has_its_message() {
    assert_eq!(
        OpsmlError::InvalidArguments.message(),
        "Either name/version or uid must be specified"
    );
    assert_eq!(OpsmlError::ConfigurationError.message(), "No tracking uri set");
    assert_eq!(OpsmlError::NetworkError.message(), "Request to the registry failed");
    assert_eq!(
        OpsmlError::UnexpectedStatus { status: 500 }.message(),
        "Registry answered with an unexpected status"
    );
    assert_eq!(OpsmlError::DecodeError.message(), "Failed to load response JSON");
    assert_eq!(OpsmlError::NoOnnxArtifact.message(), "No onnx model uri found");
    assert_eq!(OpsmlError::IOError.message(), "Unable to write file");
}
