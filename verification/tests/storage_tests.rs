use turborepo_cache::memory::MemStorageAdapter;
use turborepo_cache::storage::StorageAdapter;

#[test]
fn round_trip_put_then_get() {
    let mut mem = MemStorageAdapter::new();
    let key = "team1/abc".to_string();
    let payload = vec![1u8, 2, 3, 4, 5];
    mem.upload(key.clone(), payload.clone()).unwrap();
    let got = mem.get(&key).unwrap();
    assert_eq!(got, payload);
}

#[test]
fn exists_reflects_writes() {
    let mut mem = MemStorageAdapter::new();
    let key = "team1/abc".to_string();
    assert_eq!(mem.exists_at(&key).unwrap(), false);
    mem.upload(key.clone(), vec![9u8]).unwrap();
    assert_eq!(mem.exists_at(&key).unwrap(), true);

    let streamed_key = "team1/def".to_string();
    assert_eq!(mem.exists_at(&streamed_key).unwrap(), false);
    mem.upload_(streamed_key.clone(), vec![vec![1u8], vec![2u8]]).unwrap();
    assert_eq!(mem.exists_at(&streamed_key).unwrap(), true);
}

#[test]
fn overwrite_replaces_entirely() {
    let mut mem = MemStorageAdapter::new();
    let key = "team1/abc".to_string();
    mem.upload(key.clone(), vec![1u8, 2, 3, 4, 5, 6, 7, 8]).unwrap();
    mem.upload(key.clone(), vec![9u8]).unwrap();
    assert_eq!(mem.get(&key).unwrap(), vec![9u8]);
}

#[test]
fn streamed_write_equals_buffered_write_of_concatenation() {
    let payload = b"hello streamed world".to_vec();
    let splits: Vec<Vec<Vec<u8>>> = vec![
        vec![payload.clone()],
        vec![payload[..5].to_vec(), payload[5..].to_vec()],
        vec![payload[..1].to_vec(), payload[1..2].to_vec(), payload[2..].to_vec()],
    ];
    for chunks in splits {
        let mut buffered = MemStorageAdapter::new();
        buffered.upload("k".to_string(), payload.clone()).unwrap();

        let mut streamed = MemStorageAdapter::new();
        streamed.upload_("k".to_string(), chunks).unwrap();

        assert_eq!(streamed.get(&"k".to_string()).unwrap(), buffered.get(&"k".to_string()).unwrap());
    }
}

#[test]
fn streamed_write_of_no_chunks_stores_empty_artifact() {
    let mut mem = MemStorageAdapter::new();
    let key = "team1/empty".to_string();
    mem.upload_(key.clone(), vec![]).unwrap();
    assert_eq!(mem.exists_at(&key).unwrap(), true);
    assert_eq!(mem.get(&key).unwrap(), Vec::<u8>::new());
}

#[test]
fn get_of_never_written_key_is_an_error() {
    let mem = MemStorageAdapter::new();
    assert!(mem.get(&"team1/ghost".to_string()).is_err());
}

#[test]
fn keys_of_different_teams_are_independent() {
    let mut mem = MemStorageAdapter::new();
    mem.upload("team1/abc".to_string(), vec![1u8]).unwrap();
    assert_eq!(mem.exists_at(&"team2/abc".to_string()).unwrap(), false);
}
