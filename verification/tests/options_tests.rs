use rocksdb_bridge::perf::{perf_level_from_number, perf_level_number, PerfLevel};
use rocksdb_bridge::rate_limiter::RateLimiter;
use rocksdb_bridge::table_properties::{
    TableProperties, TablePropertiesCollection, UserCollectedProperties,
};
use rocksdb_bridge::types::{DBCompressionType, DBTitanBlobIndex};

#[test]
fn test_rate_limiter() {
    let mut rate_limiter = RateLimiter::new(10 * 1024 * 1024, 100 * 1000, 10);
    assert_eq!(rate_limiter.get_singleburst_bytes(), 1 * 1024 * 1024);

    rate_limiter.set_bytes_per_second(20 * 1024 * 1024);
    assert_eq!(rate_limiter.get_singleburst_bytes(), 2 * 1024 * 1024);
}

#[test]
fn rate_limiter_scales_with_period() {
    let rate_limiter = RateLimiter::new(2_000_000, 500 * 1000, 1);
    assert_eq!(rate_limiter.get_singleburst_bytes(), 1_000_000);
}

#[test]
fn perf_level_numbers_round_trip() {
    let levels = [
        PerfLevel::Uninitialized,
        PerfLevel::Disable,
        PerfLevel::EnableCount,
        PerfLevel::EnableTimeExceptForMutex,
        PerfLevel::EnableTimeAndCPUTimeExceptForMutex,
        PerfLevel::EnableTime,
        PerfLevel::OutOfBounds,
    ];
    for level in levels {
        let n = perf_level_number(level);
        assert_eq!(perf_level_from_number(n), level);
    }
    assert_eq!(perf_level_number(PerfLevel::EnableCount), 2);
    assert_eq!(perf_level_from_number(5), PerfLevel::EnableTime);
}

#[test]
fn user_collected_properties_bind_and_look_up() {
    let mut props = UserCollectedProperties::new();
    assert!(props.is_empty());
    props.insert(b"rows".to_vec(), b"42".to_vec());
    props.insert(b"origin".to_vec(), b"compaction".to_vec());
    assert!(!props.is_empty());
    assert_eq!(props.len(), 2);
    assert_eq!(props.get(b"rows"), Some(&b"42".to_vec()));
    assert_eq!(props.get(b"origin"), Some(&b"compaction".to_vec()));
    assert_eq!(props.get(b"absent"), None);
}

#[test]
fn user_collected_properties_iterate_in_order() {
    let mut props = UserCollectedProperties::new();
    props.insert(b"a".to_vec(), b"1".to_vec());
    props.insert(b"b".to_vec(), b"2".to_vec());
    let mut iter = props.iter();
    let first = iter.next().unwrap();
    assert_eq!(first.0, &b"a".to_vec());
    assert_eq!(first.1, &b"1".to_vec());
    let second = iter.next().unwrap();
    assert_eq!(second.0, &b"b".to_vec());
    assert_eq!(second.1, &b"2".to_vec());
    assert!(iter.next().is_none());
}

#[test]
fn table_properties_collection_iterates_entries() {
    let mut user = UserCollectedProperties::new();
    user.insert(b"marker".to_vec(), b"yes".to_vec());
    let props = TableProperties::new(7, user);
    assert_eq!(props.num_entries(), 7);
    assert_eq!(
        props.user_collected_properties().get(b"marker"),
        Some(&b"yes".to_vec())
    );

    let mut collection = TablePropertiesCollection::new();
    assert!(collection.is_empty());
    collection.add(String::from("table-one.sst"), props);
    collection.add(
        String::from("table-two.sst"),
        TableProperties::new(3, UserCollectedProperties::new()),
    );
    assert!(!collection.is_empty());
    assert_eq!(collection.len(), 2);

    let mut iter = collection.iter();
    let (name, first) = iter.next().unwrap();
    assert_eq!(name, "table-one.sst");
    assert_eq!(first.num_entries(), 7);
    let (name, second) = iter.next().unwrap();
    assert_eq!(name, "table-two.sst");
    assert_eq!(second.num_entries(), 3);
    assert!(iter.next().is_none());
}

#[test]
fn plain_value_types_behave_as_values() {
    let idx = DBTitanBlobIndex::default();
    assert_eq!(idx.file_number, 0);
    assert_eq!(idx.blob_offset, 0);
    assert_eq!(idx.blob_size, 0);
    assert_eq!(DBCompressionType::Lz4, DBCompressionType::Lz4);
    assert_ne!(DBCompressionType::Lz4, DBCompressionType::Zstd);
}
