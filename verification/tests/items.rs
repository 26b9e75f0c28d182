use msf_ffi::items::{data_location, search_result, FoundItem, ItemSearchResult, Location};

type Found = FoundItem<&'static str, u8, u16, u32, u64>;

fn payload_count(result: &ItemSearchResult<&'static str, u8, u16, u32, u64>) -> usize {
    [
        result.data.is_some(),
        result.attributes.is_some(),
        result.certificate.is_some(),
        result.key.is_some(),
        result.identity.is_some(),
        result.keychain_item.is_some(),
    ]
    .iter()
    .filter(|filled| **filled)
    .count()
}

#[test]
fn search_result_data() {
    let result = search_result(Found::Data(vec![1, 2, 3]));
    assert_eq!(result.kind, "data");
    assert_eq!(result.data, Some(vec![1, 2, 3]));
    assert_eq!(payload_count(&result), 1);
}

#[test]
fn search_result_attributes() {
    let result = search_result(Found::Attributes(Some("labels")));
    assert_eq!(result.kind, "attributes");
    assert_eq!(result.attributes, Some("labels"));
    assert_eq!(payload_count(&result), 1);
    let unreadable = search_result(Found::Attributes(None));
    assert_eq!(unreadable.kind, "attributes");
    assert_eq!(payload_count(&unreadable), 0);
}

#[test]
fn search_result_references() {
    let certificate = search_result(Found::Certificate(1));
    assert_eq!((certificate.kind.as_str(), certificate.certificate), ("certificate", Some(1)));
    let key = search_result(Found::Key(2));
    assert_eq!((key.kind.as_str(), key.key), ("key", Some(2)));
    let identity = search_result(Found::Identity(3));
    assert_eq!((identity.kind.as_str(), identity.identity), ("identity", Some(3)));
    let item = search_result(Found::KeychainItem(4));
    assert_eq!((item.kind.as_str(), item.keychain_item), ("keychainItem", Some(4)));
    for result in [certificate, key, identity, item] {
        assert_eq!(payload_count(&result), 1);
    }
}

#[test]
fn search_result_unknown() {
    let result = search_result(Found::Unknown);
    assert_eq!(result.kind, "unknown");
    assert_eq!(payload_count(&result), 0);
    let empty = ItemSearchResult::<&'static str, u8, u16, u32, u64>::empty("x");
    assert_eq!(empty.kind, "x");
    assert_eq!(payload_count(&empty), 0);
}

#[test]
fn explicit_keychain_wins() {
    assert!(matches!(data_location(Some(7), true), Location::FileKeychain(7)));
    assert!(matches!(data_location(Some(7), false), Location::FileKeychain(7)));
    assert!(matches!(data_location::<u8>(None, true), Location::DataProtectionKeychain));
    assert!(matches!(data_location::<u8>(None, false), Location::DefaultFileKeychain));
}
