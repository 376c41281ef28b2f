use masto_vision::json::Json;
use masto_vision::shared_data::{LoadError, SharedData};

#[test]
fn empty_record_holds_nothing() {
    let s = SharedData::empty();
    assert!(!s.contains("42"));
    assert_eq!(s.len(), 0);
    assert!(s.snapshot().is_empty());
}

#[test]
fn mark_done_records_once() {
    let mut s = SharedData::empty();
    assert!(s.mark_done("42".to_string()));
    assert!(s.contains("42"));
    assert!(!s.contains("4"));
    assert!(!s.mark_done("42".to_string()));
    assert!(s.mark_done("43".to_string()));
    assert_eq!(s.len(), 2);
    assert_eq!(s.snapshot(), vec!["42".to_string(), "43".to_string()]);
}

#[test]
fn missing_store_is_an_empty_record() {
    let s = SharedData::load(None).unwrap();
    assert_eq!(s.len(), 0);
}

#[test]
fn stored_array_is_taken_up() {
    let s = SharedData::load(Some("[\"1\", \"22\", \"1\", \"333\"]")).unwrap();
    assert!(s.contains("1"));
    assert!(s.contains("22"));
    assert!(s.contains("333"));
    assert!(!s.contains("2"));
    assert_eq!(s.len(), 3);
    assert_eq!(SharedData::load(Some("[]")).unwrap().len(), 0);
    assert_eq!(SharedData::load(Some(" [ ] ")).unwrap().len(), 0);
}

#[test]
fn corrupt_store_is_an_error() {
    for text in ["", "{", "{}", "null", "[1]", "[\"a\", null]", "[\"a\"] x", "\"a\"", "[[\"a\"]]"] {
        assert_eq!(SharedData::load(Some(text)), Err(LoadError::Corrupt));
    }
}

#[test]
fn from_ids_drops_repetitions() {
    let s = SharedData::from_ids(vec!["a".to_string(), "b".to_string(), "a".to_string()]);
    assert_eq!(s.len(), 2);
    assert!(s.contains("a"));
    assert!(s.contains("b"));
}

#[test]
fn snapshot_round_trips_through_its_stored_form() {
    let mut s = SharedData::empty();
    s.mark_done("7".to_string());
    s.mark_done("quote\"d".to_string());
    let stored = serde_json::to_string(&s.snapshot()).unwrap();
    let back = SharedData::load(Some(&stored)).unwrap();
    assert_eq!(back.len(), 2);
    assert!(back.contains("7"));
    assert!(back.contains("quote\"d"));
}

#[test]
fn from_document_wants_an_array_of_texts() {
    let good = Json::Array(vec![Json::Text("1".to_string()), Json::Text("2".to_string())]);
    let s = SharedData::from_document(&good).unwrap();
    assert!(s.contains("1"));
    assert!(s.contains("2"));
    assert_eq!(s.len(), 2);
    assert_eq!(SharedData::from_document(&Json::Array(vec![])).unwrap().len(), 0);
    assert_eq!(SharedData::from_document(&Json::Null), Err(LoadError::Corrupt));
    assert_eq!(SharedData::from_document(&Json::Object(vec![])), Err(LoadError::Corrupt));
    assert_eq!(
        SharedData::from_document(&Json::Array(vec![Json::Text("1".to_string()), Json::Number("2".to_string())])),
        Err(LoadError::Corrupt)
    );
}
