use weather_cli::store::{bootstrap_document, ConfigDocument, ConfigFile, StoreError, StoredEntry};

fn entry(city: &str, country: &str) -> StoredEntry {
    StoredEntry { city: city.to_string(), country: country.to_string(), other: serde_json::Map::new() }
}

fn file_with(entries: Vec<StoredEntry>) -> ConfigFile {
    ConfigFile::Present(ConfigDocument { default_parameters: entries, other: serde_json::Map::new() })
}

fn first(f: &ConfigFile) -> (String, String) {
    match f {
        ConfigFile::Present(d) => (d.default_parameters[0].city.clone(), d.default_parameters[0].country.clone()),
        _ => panic!("no document"),
    }
}

#[test]
fn bootstrap_document_has_one_unset_entry() {
    let d = bootstrap_document();
    assert_eq!(d.default_parameters.len(), 1);
    assert_eq!(d.default_parameters[0].city, "");
    assert_eq!(d.default_parameters[0].country, "");
}

#[test]
fn ensure_exists_creates_then_keeps() {
    let mut f = ConfigFile::Absent;
    assert!(f.ensure_exists());
    assert!(!f.ensure_exists());
    assert_eq!(first(&f), (String::new(), String::new()));
}

#[test]
fn ensure_exists_twice_keeps_a_valid_config() {
    let mut f = file_with(vec![entry("Paris", "FR")]);
    assert!(!f.ensure_exists());
    assert!(!f.ensure_exists());
    assert_eq!(first(&f), ("Paris".to_string(), "FR".to_string()));
}

#[test]
fn ensure_exists_leaves_a_corrupt_file() {
    let mut f = ConfigFile::Corrupt;
    assert!(!f.ensure_exists());
    assert!(matches!(f, ConfigFile::Corrupt));
}

#[test]
fn save_then_load_round_trip() {
    let mut f = ConfigFile::Absent;
    f.ensure_exists();
    assert!(f.save(&"London".to_string(), &"GB".to_string()).is_ok());
    let r = f.load().unwrap();
    assert_eq!(r.city, "London");
    assert_eq!(r.country, "GB");
    assert!(!r.is_unset());
}

#[test]
fn save_keeps_other_fields_and_entries() {
    let mut e = entry("", "");
    e.other.insert("units".to_string(), serde_json::Value::String("metric".to_string()));
    let mut top = serde_json::Map::new();
    top.insert("version".to_string(), serde_json::Value::Bool(true));
    let mut f = ConfigFile::Present(ConfigDocument {
        default_parameters: vec![e, entry("Oslo", "NO")],
        other: top,
    });
    assert!(f.save(&"Lima".to_string(), &"PE".to_string()).is_ok());
    match &f {
        ConfigFile::Present(d) => {
            assert_eq!(d.default_parameters.len(), 2);
            assert_eq!(d.default_parameters[0].city, "Lima");
            assert_eq!(d.default_parameters[0].country, "PE");
            assert_eq!(
                d.default_parameters[0].other.get("units"),
                Some(&serde_json::Value::String("metric".to_string()))
            );
            assert_eq!(d.default_parameters[1].city, "Oslo");
            assert_eq!(d.other.get("version"), Some(&serde_json::Value::Bool(true)));
        },
        _ => panic!("no document"),
    }
}

#[test]
fn save_into_an_empty_array_fails_and_changes_nothing() {
    let mut f = file_with(vec![]);
    assert_eq!(f.save(&"Rome".to_string(), &"IT".to_string()), Err(StoreError::Empty));
    match &f {
        ConfigFile::Present(d) => assert!(d.default_parameters.is_empty()),
        _ => panic!("no document"),
    }
}

#[test]
fn bootstrap_document_has_no_other_fields() {
    let d = bootstrap_document();
    assert!(d.other.is_empty());
    assert!(d.default_parameters[0].other.is_empty());
}

#[test]
fn save_without_a_document_fails() {
    let mut f = ConfigFile::Absent;
    assert_eq!(f.save(&"Rome".to_string(), &"IT".to_string()), Err(StoreError::Missing));
    assert!(matches!(f, ConfigFile::Absent));
    let mut g = ConfigFile::Corrupt;
    assert_eq!(g.save(&"Rome".to_string(), &"IT".to_string()), Err(StoreError::Corrupt));
}

#[test]
fn load_errors() {
    assert!(matches!(ConfigFile::Absent.load(), Err(StoreError::Missing)));
    assert!(matches!(ConfigFile::Corrupt.load(), Err(StoreError::Corrupt)));
    assert!(matches!(file_with(vec![]).load(), Err(StoreError::Empty)));
}

#[test]
fn load_gives_the_sentinel_only_for_an_unset_entry() {
    assert!(file_with(vec![entry("", "")]).load().unwrap().is_unset());
    assert!(!file_with(vec![entry("Oslo", "")]).load().unwrap().is_unset());
    assert!(!file_with(vec![entry("", "NO")]).load().unwrap().is_unset());
    assert!(!file_with(vec![entry("Oslo", "NO")]).load().unwrap().is_unset());
}
