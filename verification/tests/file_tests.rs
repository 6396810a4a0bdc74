use safe_client::errors::Error;
use safe_client::file::{DataMap, File, Metadata};

#[test]
fn file_pairs_metadata_with_a_content_map() {
    let metadata = Metadata::new(
        "Home".to_string(),
        "{mime:\"application/json\"}".to_string().into_bytes(),
    );
    let file = File::new(metadata, DataMap::Empty);

    let read_back = file.get_metadata();
    assert_eq!(read_back.name, "Home");
    assert_eq!(read_back.user_metadata, b"{mime:\"application/json\"}".to_vec());
    assert!(matches!(file.get_datamap(), DataMap::Empty));
}

#[test]
fn setters_replace_one_half_and_keep_the_other() {
    let mut file = File::new(Metadata::new("a".to_string(), vec![1, 2]), DataMap::Empty);

    file.set_datamap(DataMap::Content(vec![9, 9, 9]));
    assert_eq!(file.get_metadata().name, "a");
    match file.get_datamap() {
        DataMap::Content(bytes) => assert_eq!(bytes, vec![9, 9, 9]),
        DataMap::Empty => panic!("the content map was set"),
    }

    file.set_metadata(Metadata::new("b".to_string(), vec![3]));
    assert_eq!(file.get_metadata().name, "b");
    assert_eq!(file.get_metadata().user_metadata, vec![3]);
    assert!(matches!(file.get_datamap(), DataMap::Content(_)));
}

#[test]
fn transient_errors_are_distinguished_from_deterministic_ones() {
    assert!(Error::BootstrapFailed.is_transient());
    assert!(Error::Timeout.is_transient());
    assert!(Error::AggregationFailed.is_transient());
    assert!(!Error::InvalidKeyMaterial.is_transient());
    assert!(!Error::NoSuchData.is_transient());
    assert!(!Error::AccessDenied.is_transient());
    assert!(!Error::InvalidOwners.is_transient());
    assert!(!Error::InvalidOperation.is_transient());
}
