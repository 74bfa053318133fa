use rotonda_ingest::external_data::{
    boolean_word, ExternalDataAccess, value_as_boolean, value_as_number, value_as_string, CachedData,
    ExternalDataManager, ExternalDataSource, ExternalDataSourceType, ExternalDataValue,
    FileDataSource, FileFormat, RefreshCache, RetryConfig,
};
use std::path::PathBuf;

fn file_source(id: &str, ttl_secs: u64, auto_refresh: bool) -> ExternalDataSource {
    let mut s = ExternalDataSource::with_defaults(
        id.to_string(),
        ExternalDataSourceType::File(FileDataSource {
            path: PathBuf::from("/var/lib/data.json"),
            format: FileDataSource::default_format(),
            watch: FileDataSource::default_watch(),
        }),
    );
    s.cache_ttl_secs = ttl_secs;
    s.auto_refresh = auto_refresh;
    s
}

fn text(v: &Option<ExternalDataValue>) -> Option<String> {
    match v {
        Some(ExternalDataValue::String(s)) => Some(s.clone()),
        _ => None,
    }
}

#[test]
fn test_cached_data_expiration() {
    let data = ExternalDataValue::String("test".to_string());
    let cached = CachedData::new(data, 100, 0);
    assert!(!cached.is_expired(0));
    assert!(cached.is_expired(150));
}

#[test]
fn expiry_is_strictly_after_ttl() {
    let cached = CachedData::new(ExternalDataValue::Null, 100, 1000);
    assert!(!cached.is_expired(1100));
    assert!(cached.is_expired(1101));
    assert!(!cached.is_expired(500));
}

#[test]
fn cache_write_read_remove() {
    let mut cache = RefreshCache::new();
    assert!(cache.read("s1").is_none());
    cache.write("s1", ExternalDataValue::Number(1), 100, 0);
    cache.write("s1", ExternalDataValue::Number(2), 100, 10);
    assert_eq!(cache.len(), 1);
    let e = cache.read("s1").unwrap();
    assert!(matches!(e.value, ExternalDataValue::Number(2)));
    assert_eq!(e.fetched_at_ms, 10);
    cache.remove("s1");
    assert!(cache.read("s1").is_none());
    assert_eq!(cache.len(), 0);
}

#[test]
fn fresh_entry_is_served_without_request() {
    let mut m = ExternalDataManager::new();
    m.add_source(file_source("s1", 1, false));
    assert_eq!(m.next_request(), Some("s1".to_string()));
    m.complete_refresh("s1", Some(ExternalDataValue::String("V1".to_string())), 0);
    let v = m.get_data("s1", 500);
    assert_eq!(text(&v), Some("V1".to_string()));
    assert_eq!(m.pending_count(), 0);
}

#[test]
fn register_fetch_and_stale_scenario() {
    let mut m = ExternalDataManager::new();
    m.add_source(file_source("s1", 1, true));
    assert_eq!(m.pending_count(), 1);
    // Before any fetch completes.
    assert!(m.get_data("s1", 0).is_none());
    assert_eq!(m.pending_count(), 2);
    assert_eq!(m.next_request(), Some("s1".to_string()));
    assert_eq!(m.next_request(), Some("s1".to_string()));
    assert_eq!(m.next_request(), None);
    m.complete_refresh("s1", Some(ExternalDataValue::String("V1".to_string())), 0);
    assert_eq!(m.cache().read("s1").unwrap().ttl_ms, 1000);
    assert_eq!(text(&m.get_data("s1", 10)), Some("V1".to_string()));
    assert_eq!(m.pending_count(), 0);
    // Past the TTL: the stale value, and one refresh request.
    assert_eq!(text(&m.get_data("s1", 1500)), Some("V1".to_string()));
    assert_eq!(m.pending_count(), 1);
    assert_eq!(m.next_request(), Some("s1".to_string()));
}

#[test]
fn failed_fetch_keeps_stale_value() {
    let mut m = ExternalDataManager::new();
    m.add_source(file_source("s1", 1, true));
    m.complete_refresh("s1", Some(ExternalDataValue::Boolean(true)), 0);
    m.complete_refresh("s1", None, 5000);
    let v = m.get_data("s1", 5000);
    assert!(matches!(v, Some(ExternalDataValue::Boolean(true))));
}

#[test]
fn remove_source_scenario() {
    let mut m = ExternalDataManager::new();
    m.add_source(file_source("s1", 1, true));
    m.complete_refresh("s1", Some(ExternalDataValue::String("V1".to_string())), 0);
    m.remove_source("s1");
    assert!(m.source("s1").is_none());
    assert!(m.cache().read("s1").is_none());
    while m.next_request().is_some() {}
    assert!(m.get_data("s1", 10).is_none());
    assert_eq!(m.pending_count(), 1);
    // A late fetch for a removed source is dropped.
    m.complete_refresh("s1", Some(ExternalDataValue::Null), 20);
    assert!(m.cache().read("s1").is_none());
}

#[test]
fn missing_source_reads_absent_and_requests() {
    let mut m = ExternalDataManager::new();
    assert!(m.get_data("nowhere", 0).is_none());
    assert_eq!(m.next_request(), Some("nowhere".to_string()));
}

#[test]
fn auto_refresh_lists_only_auto_sources() {
    let mut m = ExternalDataManager::new();
    let mut a = file_source("a", 1, true);
    a.refresh_interval_secs = 60;
    m.add_source(a);
    m.add_source(file_source("b", 1, false));
    let list = m.auto_refresh_sources();
    assert_eq!(list, vec![("a".to_string(), 60)]);
    m.request_refresh("a".to_string());
    assert_eq!(m.pending_count(), 3);
}

#[test]
fn source_defaults() {
    let s = file_source("x", 600, true);
    assert_eq!(s.refresh_interval_secs, 300);
    assert_eq!(ExternalDataSource::default_cache_ttl(), 600);
    assert!(ExternalDataSource::default_auto_refresh());
    assert_eq!(s.retry_config, RetryConfig::default());
    assert_eq!(s.cache_ttl_ms(), 600_000);
    let mut big = file_source("y", 0, true);
    big.cache_ttl_secs = u64::MAX;
    assert_eq!(big.cache_ttl_ms(), u64::MAX);
    assert_eq!(FileDataSource::default_format(), FileFormat::Json);
    assert_eq!(
        rotonda_ingest::external_data::DatabaseDataSource::default_pool_size(),
        5
    );
    assert_eq!(
        rotonda_ingest::external_data::RedisDataSource::default_command(),
        "GET"
    );
    assert_eq!(
        rotonda_ingest::external_data::HttpDataSource::default_method(),
        "GET"
    );
    let r = RetryConfig::default();
    assert_eq!(r.max_retries, 3);
    assert_eq!(r.max_delay_ms, 10000);
}

#[test]
fn duplicate_copies_nested_values() {
    let v = ExternalDataValue::Object(vec![
        ("string".to_string(), ExternalDataValue::String("test".to_string())),
        ("number".to_string(), ExternalDataValue::Number(42)),
        (
            "list".to_string(),
            ExternalDataValue::Array(vec![ExternalDataValue::Boolean(true), ExternalDataValue::Null]),
        ),
    ]);
    let c = v.duplicate();
    assert_eq!(format!("{:?}", c), format!("{:?}", v));
}

#[test]
fn coerce_to_string() {
    assert_eq!(
        value_as_string(ExternalDataValue::String("abc".to_string())),
        Some("abc".to_string())
    );
    assert_eq!(value_as_string(ExternalDataValue::Number(42)), Some("42".to_string()));
    assert_eq!(value_as_string(ExternalDataValue::Boolean(false)), Some("false".to_string()));
    assert_eq!(value_as_string(ExternalDataValue::Null), None);
    assert_eq!(value_as_string(ExternalDataValue::Array(vec![])), None);
}

#[test]
fn coerce_to_number() {
    assert_eq!(value_as_number(ExternalDataValue::Number(-7)), Some(-7));
    assert_eq!(value_as_number(ExternalDataValue::String("123".to_string())), Some(123));
    assert_eq!(value_as_number(ExternalDataValue::String("abc".to_string())), None);
    assert_eq!(value_as_number(ExternalDataValue::Boolean(true)), None);
}

#[test]
fn coerce_to_boolean() {
    assert_eq!(value_as_boolean(ExternalDataValue::String("YES".to_string())), Some(true));
    assert_eq!(value_as_boolean(ExternalDataValue::String("Off".to_string())), Some(false));
    assert_eq!(value_as_boolean(ExternalDataValue::String("maybe".to_string())), None);
    assert_eq!(value_as_boolean(ExternalDataValue::Number(0)), Some(false));
    assert_eq!(value_as_boolean(ExternalDataValue::Number(3)), Some(true));
    assert_eq!(value_as_boolean(ExternalDataValue::Object(vec![])), None);
    assert_eq!(boolean_word("on"), Some(true));
    assert_eq!(boolean_word("ON"), None);
    assert_eq!(boolean_word("0"), Some(false));
}

#[test]
fn fetch_retry_follows_source_policy() {
    let mut m = ExternalDataManager::new();
    m.add_source(file_source("s1", 1, true));
    assert_eq!(m.fetch_retry_delay("s1", 0), Some(1000));
    assert_eq!(m.fetch_retry_delay("s1", 1), Some(2000));
    assert_eq!(m.fetch_retry_delay("s1", 2), Some(4000));
    assert_eq!(m.fetch_retry_delay("s1", 3), None);
    assert_eq!(m.fetch_retry_delay("other", 0), None);
}

#[test]
fn integer_text_parsing() {
    let n = |t: &str| value_as_number(ExternalDataValue::String(t.to_string()));
    assert_eq!(n("+5"), Some(5));
    assert_eq!(n("-12"), Some(-12));
    assert_eq!(n("007"), Some(7));
    assert_eq!(n("9223372036854775807"), Some(i64::MAX));
    assert_eq!(n("-9223372036854775808"), Some(i64::MIN));
    assert_eq!(n("9223372036854775808"), None);
    assert_eq!(n(""), None);
    assert_eq!(n("-"), None);
    assert_eq!(n("1x"), None);
    assert_eq!(n(" 1"), None);
    assert_eq!(n("1.5"), None);
}

#[test]
fn integer_and_boolean_text() {
    assert_eq!(value_as_string(ExternalDataValue::Number(-305)), Some("-305".to_string()));
    assert_eq!(value_as_string(ExternalDataValue::Number(0)), Some("0".to_string()));
    assert_eq!(value_as_string(ExternalDataValue::Boolean(true)), Some("true".to_string()));
}

#[test]
fn typed_reads_through_access_trait() {
    let mut cache = RefreshCache::new();
    cache.write("flag", ExternalDataValue::String("On".to_string()), 100, 0);
    cache.write("count", ExternalDataValue::Number(12), 100, 0);
    cache.write("list", ExternalDataValue::Array(vec![]), 100, 0);
    assert_eq!(cache.get_external_boolean("flag"), Some(true));
    assert_eq!(cache.get_external_string("flag"), Some("On".to_string()));
    assert_eq!(cache.get_external_number("flag"), None);
    assert_eq!(cache.get_external_number("count"), Some(12));
    assert_eq!(cache.get_external_string("count"), Some("12".to_string()));
    assert_eq!(cache.get_external_boolean("count"), Some(true));
    assert_eq!(cache.get_external_string("list"), None);
    assert!(cache.has_external_data("list"));
    assert!(!cache.has_external_data("missing"));
    assert_eq!(cache.get_external_string("missing"), None);
    assert!(cache.get_external_data("missing").is_none());
}

#[test]
fn manager_default_is_empty() {
    let mut m = ExternalDataManager::default();
    assert_eq!(m.pending_count(), 0);
    assert!(m.source("s1").is_none());
    assert!(m.next_request().is_none());
}

#[test]
fn well_formed_values() {
    let ok = ExternalDataValue::Object(vec![
        ("a".to_string(), ExternalDataValue::Number(1)),
        ("b".to_string(), ExternalDataValue::Array(vec![ExternalDataValue::Null])),
    ]);
    assert!(ok.is_well_formed());
    let twice = ExternalDataValue::Object(vec![
        ("a".to_string(), ExternalDataValue::Number(1)),
        ("a".to_string(), ExternalDataValue::Number(2)),
    ]);
    assert!(!twice.is_well_formed());
    let nested = ExternalDataValue::Array(vec![
        ExternalDataValue::Boolean(true),
        ExternalDataValue::Object(vec![
            ("x".to_string(), ExternalDataValue::Null),
            ("x".to_string(), ExternalDataValue::Null),
        ]),
    ]);
    assert!(!nested.is_well_formed());
    assert!(ExternalDataValue::Object(vec![]).is_well_formed());
}

#[test]
fn malformed_fetch_keeps_stale_value() {
    let mut m = ExternalDataManager::new();
    m.add_source(file_source("s1", 1, true));
    m.complete_refresh("s1", Some(ExternalDataValue::Number(7)), 0);
    let dup = ExternalDataValue::Object(vec![
        ("k".to_string(), ExternalDataValue::Null),
        ("k".to_string(), ExternalDataValue::Null),
    ]);
    m.complete_refresh("s1", Some(dup), 10);
    assert!(matches!(m.get_data("s1", 20), Some(ExternalDataValue::Number(7))));
    assert_eq!(m.cache().read("s1").unwrap().fetched_at_ms, 0);
}
