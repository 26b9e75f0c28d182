use msf_ffi::error::SecurityError;
use msf_ffi::macos::{
    authorization_items, external_form_from_bytes, external_form_to_bytes, AuthorizationEntry,
    AuthorizationItem, EXTERNAL_FORM_LENGTH,
};

fn item(name: &str, data: Option<Vec<u8>>, text: Option<&str>) -> AuthorizationItem {
    AuthorizationItem { name: name.to_owned(), data, text: text.map(str::to_owned) }
}

#[test]
fn no_items_give_no_set() {
    assert!(authorization_items(None).is_none());
    assert_eq!(authorization_items(Some(vec![])).map(|entries| entries.len()), Some(0));
}

#[test]
fn items_become_entries_in_order() {
    let entries = authorization_items(Some(vec![
        item("system.privilege.admin", None, None),
        item("username", None, Some("alice")),
        item("password", Some(vec![1, 2]), Some("ignored")),
        item("blob", Some(vec![]), None),
    ]))
    .unwrap();
    assert_eq!(entries.len(), 4);
    assert!(matches!(&entries[0], AuthorizationEntry::Right { name } if name == "system.privilege.admin"));
    assert!(matches!(&entries[1], AuthorizationEntry::Text { name, text } if name == "username" && text == "alice"));
    assert!(matches!(&entries[2], AuthorizationEntry::Data { name, data } if name == "password" && data == &vec![1, 2]));
    assert!(matches!(&entries[3], AuthorizationEntry::Data { name, data } if name == "blob" && data.is_empty()));
}

#[test]
fn external_form_needs_32_bytes() {
    assert_eq!(EXTERNAL_FORM_LENGTH, 32);
    assert_eq!(external_form_from_bytes(&[0u8; 31]), Err(SecurityError::ExternalFormLength(31)));
    assert_eq!(external_form_from_bytes(&[0u8; 33]), Err(SecurityError::ExternalFormLength(33)));
    assert_eq!(external_form_from_bytes(&[]), Err(SecurityError::ExternalFormLength(0)));
}

#[test]
fn external_form_round_trip() {
    let bytes: Vec<u8> = (0..32u8).map(|i| i.wrapping_mul(37).wrapping_add(200)).collect();
    let form = external_form_from_bytes(&bytes).unwrap();
    assert_eq!(form[0], 200u8 as i8);
    assert_eq!(form[1], -19);
    assert_eq!(external_form_to_bytes(&form), bytes);
    let chars: [i8; 32] = core::array::from_fn(|i| (i as i8) - 16);
    assert_eq!(external_form_from_bytes(&external_form_to_bytes(&chars)), Ok(chars));
}
