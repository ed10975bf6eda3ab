use hapi_core::error::NetworkParseError;
use hapi_core::tools::parse_network_path;

#[test]
fn network_path_splits_at_first_slash() {
    assert_eq!(parse_network_path("acme/eth"), Ok(("acme".to_string(), "eth".to_string())));
    assert_eq!(parse_network_path("a/b/c"), Ok(("a".to_string(), "b/c".to_string())));
    assert_eq!(parse_network_path("/x"), Ok(("".to_string(), "x".to_string())));
}

#[test]
fn network_path_without_slash() {
    assert_eq!(parse_network_path("acme"), Err(NetworkParseError::InvalidNetworkName));
    assert_eq!(parse_network_path(""), Err(NetworkParseError::InvalidNetworkName));
}

use hapi_core::enums::{CaseStatus, Category, ReporterType};
use hapi_core::error::NameParseError;
use hapi_core::tools::{
    case_status_from_string, category_from_string, parse_arg_categories, reporter_type_from_string, same_text,
};

#[test]
fn reporter_types_by_name() {
    assert_eq!(reporter_type_from_string("Inactive"), Ok(ReporterType::Inactive));
    assert_eq!(reporter_type_from_string("Tracer"), Ok(ReporterType::Tracer));
    assert_eq!(reporter_type_from_string("Full"), Ok(ReporterType::Full));
    assert_eq!(reporter_type_from_string("Authority"), Ok(ReporterType::Authority));
    assert_eq!(reporter_type_from_string("full"), Err(NameParseError::UnknownReporterType));
}

#[test]
fn case_statuses_by_name() {
    assert_eq!(case_status_from_string("Open"), Ok(CaseStatus::Open));
    assert_eq!(case_status_from_string("Closed"), Ok(CaseStatus::Closed));
    assert_eq!(case_status_from_string("Shut"), Err(NameParseError::UnknownCaseStatus));
}

#[test]
fn categories_by_name() {
    assert_eq!(category_from_string("Safe"), Ok(Category::Safe));
    assert_eq!(category_from_string("Mixer"), Ok(Category::Mixer));
    assert_eq!(category_from_string("ChildAbuse"), Ok(Category::ChildAbuse));
    assert_eq!(category_from_string("OTCBroker"), Ok(Category::OTCBroker));
    assert_eq!(category_from_string("Mixers"), Err(NameParseError::UnknownCategory));
}

#[test]
fn category_sets_by_names() {
    let names = vec!["Scam".to_string(), "Mixer".to_string(), "Scam".to_string()];
    assert_eq!(parse_arg_categories(&names), Ok(4096 | 1024));
    assert_eq!(parse_arg_categories(&Vec::new()), Ok(0));
    let bad = vec!["Scam".to_string(), "Nope".to_string()];
    assert_eq!(parse_arg_categories(&bad), Err(NameParseError::UnknownCategory));
}

#[test]
fn text_comparison() {
    assert!(same_text("acme", "acme"));
    assert!(!same_text("acme", "acm"));
    assert!(!same_text("ä", "a"));
}
