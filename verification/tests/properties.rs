use msf_ffi::security::{certificate_property, PropertyEntry, PropertyValue, TrustEvaluation, TrustResult};

#[test]
fn text_property() {
    let property = certificate_property("Algorithm".to_owned(), PropertyValue::Text("sha256WithRSA".to_owned()));
    assert_eq!(property.label, "Algorithm");
    assert_eq!(property.kind, "string");
    assert_eq!(property.value.as_deref(), Some("sha256WithRSA"));
    assert!(property.children.is_none());
}

#[test]
fn unknown_property() {
    let property = certificate_property("Blob".to_owned(), PropertyValue::Other);
    assert_eq!(property.kind, "unknown");
    assert!(property.value.is_none());
    assert!(property.children.is_none());
}

#[test]
fn nested_sections() {
    let value = PropertyValue::Section(vec![
        PropertyEntry { label: "Algorithm".to_owned(), value: PropertyValue::Text("1.2.840.113549.1.1.11".to_owned()) },
        PropertyEntry {
            label: "Parameters".to_owned(),
            value: PropertyValue::Section(vec![PropertyEntry { label: "Null".to_owned(), value: PropertyValue::Other }]),
        },
        PropertyEntry { label: "Empty".to_owned(), value: PropertyValue::Section(vec![]) },
    ]);
    let property = certificate_property("Signature Algorithm".to_owned(), value);
    assert_eq!(property.label, "Signature Algorithm");
    assert_eq!(property.kind, "section");
    assert!(property.value.is_none());
    let children = property.children.unwrap();
    assert_eq!(children.len(), 3);
    assert_eq!((children[0].label.as_str(), children[0].kind.as_str()), ("Algorithm", "string"));
    assert_eq!(children[0].value.as_deref(), Some("1.2.840.113549.1.1.11"));
    assert_eq!((children[1].label.as_str(), children[1].kind.as_str()), ("Parameters", "section"));
    let grandchildren = children[1].children.as_ref().unwrap();
    assert_eq!(grandchildren.len(), 1);
    assert_eq!((grandchildren[0].label.as_str(), grandchildren[0].kind.as_str()), ("Null", "unknown"));
    assert_eq!(children[2].kind, "section");
    assert_eq!(children[2].children.as_ref().map(Vec::len), Some(0));
}

#[test]
fn trust_evaluation_success() {
    let all = [
        TrustResult::Deny,
        TrustResult::FatalTrustFailure,
        TrustResult::Invalid,
        TrustResult::OtherError,
        TrustResult::Proceed,
        TrustResult::RecoverableTrustFailure,
        TrustResult::Unspecified,
    ];
    for result in all {
        let evaluation = TrustEvaluation::new(result);
        assert_eq!(evaluation.result, result);
        let expected = matches!(result, TrustResult::Proceed | TrustResult::Unspecified);
        assert_eq!(evaluation.success, expected);
        assert_eq!(result.is_success(), expected);
    }
}
