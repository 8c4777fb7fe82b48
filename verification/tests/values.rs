use deepwell::error::ServiceError;
use deepwell::provided_value::{FetchDirection, ProvidedValue};
use deepwell::reference::{FileDetails, Reference};
use deepwell::revision_model::{
    bytes_equal, copy_bytes, copy_fields, copy_names, str_equal, FileField, FileRevisionType,
};
use deepwell::revision_service::{count_from_rows, range_bounds, summarize_count, RevisionCountOutput};

#[test]
fn provided_value_defaults_to_unset() {
    let value: ProvidedValue<i64> = ProvidedValue::default();
    assert!(matches!(value, ProvidedValue::Unset));
    assert_eq!(value, ProvidedValue::Unset);
}

#[test]
fn provided_value_distinguishes_empty_from_absent() {
    let cleared: ProvidedValue<String> = ProvidedValue::Provided(String::new());
    let absent: ProvidedValue<String> = ProvidedValue::Unset;
    assert_ne!(cleared, absent);
    assert_eq!(cleared.clone(), ProvidedValue::Provided(String::new()));
}

#[test]
fn reference_by_id_or_slug() {
    assert!(matches!(Reference::Id(5), Reference::Id(5)));
    assert!(matches!(Reference::Slug("main".to_string()), Reference::Slug(slug) if slug == "main"));
    assert!(!FileDetails::default().data);
}

#[test]
fn byte_and_string_helpers() {
    assert!(bytes_equal(&vec![], &vec![]));
    assert!(bytes_equal(&vec![1, 2], &vec![1, 2]));
    assert!(!bytes_equal(&vec![1, 2], &vec![1, 3]));
    assert!(!bytes_equal(&vec![1, 2], &vec![1]));
    assert_eq!(copy_bytes(&vec![4, 5, 6]), vec![4, 5, 6]);
    assert_eq!(copy_fields(&vec![FileField::Blob, FileField::Page]), vec![FileField::Blob, FileField::Page]);
    assert_eq!(copy_names(&vec!["name".to_string(), String::new()]), vec!["name".to_string(), String::new()]);
    assert!(copy_names(&Vec::new()).is_empty());
    assert!(str_equal("a", "a"));
    assert!(!str_equal("a", "b"));
    assert!(!str_equal("a", ""));
}

#[test]
fn field_names_round_trip() {
    for field in [FileField::Page, FileField::Name, FileField::Blob, FileField::Mime, FileField::Licensing] {
        assert_eq!(FileField::from_name(field.as_str()), Some(field));
    }
    assert_eq!(FileField::from_name("page"), Some(FileField::Page));
    assert_eq!(FileField::from_name("licensing"), Some(FileField::Licensing));
    assert_eq!(FileField::from_name("Page"), None);
    assert_eq!(FileField::from_name(""), None);
    assert_eq!(FileField::from_name("pages"), None);
}

#[test]
fn revision_type_names_round_trip() {
    for kind in [
        FileRevisionType::Create,
        FileRevisionType::Update,
        FileRevisionType::Delete,
        FileRevisionType::Undelete,
    ] {
        assert_eq!(FileRevisionType::from_name(kind.as_str()), Some(kind));
    }
    assert_eq!(FileRevisionType::Create.as_str(), "create");
    assert_eq!(FileRevisionType::Update.as_str(), "update");
    assert_eq!(FileRevisionType::Delete.as_str(), "delete");
    assert_eq!(FileRevisionType::Undelete.as_str(), "undelete");
    assert_eq!(FileRevisionType::from_name("remove"), None);
}

#[test]
fn count_of_rows() {
    assert_eq!(count_from_rows(0), Err(ServiceError::NotFound));
    assert_eq!(count_from_rows(1), Ok(1));
    assert_eq!(count_from_rows(i32::MAX as u64), Ok(i32::MAX));
}

#[test]
fn count_summary() {
    assert_eq!(
        summarize_count(1),
        RevisionCountOutput { revision_count: 1, first_revision: 0, last_revision: 0 }
    );
    assert_eq!(
        summarize_count(6),
        RevisionCountOutput { revision_count: 6, first_revision: 0, last_revision: 5 }
    );
}

#[test]
fn bounds_of_a_range() {
    assert_eq!(range_bounds(-1, FetchDirection::Before), (i32::MIN, i32::MAX));
    assert_eq!(range_bounds(-1, FetchDirection::After), (i32::MAX, i32::MAX));
    assert_eq!(range_bounds(i32::MIN, FetchDirection::Before), (i32::MIN, i32::MAX));
    assert_eq!(range_bounds(0, FetchDirection::Before), (i32::MIN, 0));
    assert_eq!(range_bounds(0, FetchDirection::After), (0, i32::MAX));
    assert_eq!(range_bounds(2, FetchDirection::After), (2, i32::MAX));
    assert_eq!(range_bounds(2, FetchDirection::Before), (i32::MIN, 2));
}

#[test]
fn direction_names() {
    assert_eq!(FetchDirection::from_name("before"), Some(FetchDirection::Before));
    assert_eq!(FetchDirection::from_name("after"), Some(FetchDirection::After));
    assert_eq!(FetchDirection::from_name("Before"), None);
    assert_eq!(FetchDirection::from_name(""), None);
}
