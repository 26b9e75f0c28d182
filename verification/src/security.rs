use vstd::prelude::*;

verus! {

/// When a keychain item protected by an access control may be read.
#[derive(Clone, Copy, Debug, PartialEq, Eq, Structural)]
pub enum ProtectionMode {
    AccessibleWhenPasscodeSetThisDeviceOnly,
    AccessibleWhenUnlockedThisDeviceOnly,
    AccessibleWhenUnlocked,
    AccessibleAfterFirstUnlockThisDeviceOnly,
    AccessibleAfterFirstUnlock,
}

/// The algorithm family of a key.
#[derive(Clone, Copy, Debug, PartialEq, Eq, Structural)]
pub enum KeyType {
    Rsa,
    Dsa,
    Aes,
    Des,
    TripleDes,
    Rc4,
    Cast,
    Ec,
    EcSecPrimeRandom,
}

/// Where a generated key lives.
#[derive(Clone, Copy, Debug, PartialEq, Eq, Structural)]
pub enum KeyToken {
    Software,
    SecureEnclave,
}

/// An operation of a key: encryption, signature or key exchange, with its
/// padding and digest.
#[derive(Clone, Copy, Debug, PartialEq, Eq, Structural)]
pub enum KeyAlgorithm {
    ECIESEncryptionStandardX963SHA1AESGCM,
    ECIESEncryptionStandardX963SHA224AESGCM,
    ECIESEncryptionStandardX963SHA256AESGCM,
    ECIESEncryptionStandardX963SHA384AESGCM,
    ECIESEncryptionStandardX963SHA512AESGCM,
    ECIESEncryptionStandardVariableIVX963SHA224AESGCM,
    ECIESEncryptionStandardVariableIVX963SHA256AESGCM,
    ECIESEncryptionStandardVariableIVX963SHA384AESGCM,
    ECIESEncryptionStandardVariableIVX963SHA512AESGCM,
    ECIESEncryptionCofactorVariableIVX963SHA224AESGCM,
    ECIESEncryptionCofactorVariableIVX963SHA256AESGCM,
    ECIESEncryptionCofactorVariableIVX963SHA384AESGCM,
    ECIESEncryptionCofactorVariableIVX963SHA512AESGCM,
    ECIESEncryptionCofactorX963SHA1AESGCM,
    ECIESEncryptionCofactorX963SHA224AESGCM,
    ECIESEncryptionCofactorX963SHA256AESGCM,
    ECIESEncryptionCofactorX963SHA384AESGCM,
    ECIESEncryptionCofactorX963SHA512AESGCM,
    ECDSASignatureRFC4754,
    ECDSASignatureDigestX962,
    ECDSASignatureDigestX962SHA1,
    ECDSASignatureDigestX962SHA224,
    ECDSASignatureDigestX962SHA256,
    ECDSASignatureDigestX962SHA384,
    ECDSASignatureDigestX962SHA512,
    ECDSASignatureMessageX962SHA1,
    ECDSASignatureMessageX962SHA224,
    ECDSASignatureMessageX962SHA256,
    ECDSASignatureMessageX962SHA384,
    ECDSASignatureMessageX962SHA512,
    ECDHKeyExchangeCofactor,
    ECDHKeyExchangeStandard,
    ECDHKeyExchangeCofactorX963SHA1,
    ECDHKeyExchangeStandardX963SHA1,
    ECDHKeyExchangeCofactorX963SHA224,
    ECDHKeyExchangeCofactorX963SHA256,
    ECDHKeyExchangeCofactorX963SHA384,
    ECDHKeyExchangeCofactorX963SHA512,
    ECDHKeyExchangeStandardX963SHA224,
    ECDHKeyExchangeStandardX963SHA256,
    ECDHKeyExchangeStandardX963SHA384,
    ECDHKeyExchangeStandardX963SHA512,
    RSAEncryptionRaw,
    RSAEncryptionPKCS1,
    RSAEncryptionOAEPSHA1,
    RSAEncryptionOAEPSHA224,
    RSAEncryptionOAEPSHA256,
    RSAEncryptionOAEPSHA384,
    RSAEncryptionOAEPSHA512,
    RSAEncryptionOAEPSHA1AESGCM,
    RSAEncryptionOAEPSHA224AESGCM,
    RSAEncryptionOAEPSHA256AESGCM,
    RSAEncryptionOAEPSHA384AESGCM,
    RSAEncryptionOAEPSHA512AESGCM,
    RSASignatureRaw,
    RSASignatureDigestPKCS1v15Raw,
    RSASignatureDigestPKCS1v15SHA1,
    RSASignatureDigestPKCS1v15SHA224,
    RSASignatureDigestPKCS1v15SHA256,
    RSASignatureDigestPKCS1v15SHA384,
    RSASignatureDigestPKCS1v15SHA512,
    RSASignatureMessagePKCS1v15SHA1,
    RSASignatureMessagePKCS1v15SHA224,
    RSASignatureMessagePKCS1v15SHA256,
    RSASignatureMessagePKCS1v15SHA384,
    RSASignatureMessagePKCS1v15SHA512,
    RSASignatureDigestPSSSHA1,
    RSASignatureDigestPSSSHA224,
    RSASignatureDigestPSSSHA256,
    RSASignatureDigestPSSSHA384,
    RSASignatureDigestPSSSHA512,
    RSASignatureMessagePSSSHA1,
    RSASignatureMessagePSSSHA224,
    RSASignatureMessagePSSSHA256,
    RSASignatureMessagePSSSHA384,
    RSASignatureMessagePSSSHA512,
}

/// The side of a TLS connection that an SSL policy evaluates.
#[derive(Clone, Copy, Debug, PartialEq, Eq, Structural)]
pub enum SslProtocolSide {
    Client,
    Server,
}

/// The outcome of a trust evaluation.
#[derive(Clone, Copy, Debug, PartialEq, Eq, Structural)]
pub enum TrustResult {
    Deny,
    FatalTrustFailure,
    Invalid,
    OtherError,
    Proceed,
    RecoverableTrustFailure,
    Unspecified,
}

impl TrustResult {
    /// A trust evaluation succeeds when it may proceed, or when the
    /// certificate is implicitly trusted.
    pub open spec fn spec_is_success(self) -> bool {
        self == TrustResult::Proceed || self == TrustResult::Unspecified
    }

    /// Whether the outcome counts as a success.
    #[verifier::when_used_as_spec(spec_is_success)]
    pub fn is_success(self) -> (success: bool)
        ensures
            success == self.spec_is_success(),
            success == (self == TrustResult::Proceed || self == TrustResult::Unspecified),
    {
        match self {
            TrustResult::Proceed | TrustResult::Unspecified => true,
            _ => false,
        }
    }
}

/// A trust evaluation: its outcome and whether that outcome is a success.
#[derive(Clone, Copy, Debug, PartialEq, Eq, Structural)]
pub struct TrustEvaluation {
    pub success: bool,
    pub result: TrustResult,
}

impl TrustEvaluation {
    /// The evaluation that reports `result`.
    pub fn new(result: TrustResult) -> (evaluation: Self)
        ensures
            evaluation.result == result,
            evaluation.success == result.spec_is_success(),
            evaluation.success == (result == TrustResult::Proceed || result == TrustResult::Unspecified),
    {
        TrustEvaluation { success: result.is_success(), result }
    }
}

/// A value among a certificate's properties, as the native side reports it.
pub enum PropertyValue {
    /// A property with a text value.
    Text(String),
    /// A group of nested properties, in order.
    Section(Vec<PropertyEntry>),
    /// A property of a kind the bindings do not describe.
    Other,
}

/// A labelled value among a certificate's properties.
pub struct PropertyEntry {
    pub label: String,
    pub value: PropertyValue,
}

/// A certificate property as handed to JavaScript: a label, a kind
/// (`"string"`, `"section"` or `"unknown"`), the text of a string property
/// and the children of a section.
pub struct CertificateProperty {
    pub label: String,
    pub kind: String,
    pub value: Option<String>,
    pub children: Option<Vec<CertificateProperty>>,
}

/// `property` describes the value `value` labelled `label`: a text gives a
/// `"string"` property holding it, a section a `"section"` property whose
/// children describe its entries in order, and anything else an `"unknown"`
/// property with neither value nor children.
pub open spec fn describes(property: CertificateProperty, label: Seq<char>, value: PropertyValue) -> bool
    decreases value,
{
    &&& property.label@ == label
    &&& match value {
        PropertyValue::Text(text) => {
            &&& property.kind@ == "string"@
            &&& property.value matches Some(v) && v@ == text@
            &&& property.children is None
        },
        PropertyValue::Section(entries) => {
            &&& property.kind@ == "section"@
            &&& property.value is None
            &&& property.children matches Some(children)
            &&& children@.len() == entries@.len()
            &&& forall|i: int|
                #![trigger children@[i]]
                0 <= i < entries@.len() ==> describes(children@[i], entries@[i].label@, entries@[i].value)
        },
        PropertyValue::Other => {
            &&& property.kind@ == "unknown"@
            &&& property.value is None
            &&& property.children is None
        },
    }
}

/// Describes the certificate property `value` labelled `label`.
pub fn certificate_property(label: String, value: PropertyValue) -> (property: CertificateProperty)
    ensures
        describes(property, label@, value),
        property.label@ == label@,
        value matches PropertyValue::Section(entries) ==> property.children matches Some(children)
            && children@.len() == entries@.len()
            && forall|i: int| 0 <= i < entries@.len() ==> (#[trigger] children@[i]).label@ == entries@[i].label@,
{
    let property = describe(&label, &value);
    proof {
        law_property_shape(property, label@, value);
    }
    property
}

/// A described property keeps the shape of the value: its label; a text is
/// a `"string"` property holding that text with no children; a section is a
/// `"section"` property with no text and one child per entry, in order, each
/// child labelled like its entry and holding the text of a text entry;
/// anything else is an `"unknown"` property with neither.
pub proof fn law_property_shape(property: CertificateProperty, label: Seq<char>, value: PropertyValue)
    requires
        describes(property, label, value),
    ensures
        property.label@ == label,
        value matches PropertyValue::Text(text) ==> {
            &&& property.kind@ == "string"@
            &&& property.value matches Some(v) && v@ == text@
            &&& property.children is None
        },
        value matches PropertyValue::Section(entries) ==> {
            &&& property.kind@ == "section"@
            &&& property.value is None
            &&& property.children matches Some(children)
            &&& children@.len() == entries@.len()
            &&& forall|i: int| 0 <= i < entries@.len() ==> {
                &&& (#[trigger] children@[i]).label@ == entries@[i].label@
                &&& (entries@[i].value matches PropertyValue::Text(text) ==>
                    (children@[i].value matches Some(v) && v@ == text@))
            }
        },
        value is Other ==> property.kind@ == "unknown"@ && property.value is None && property.children is None,
{
    if let PropertyValue::Section(entries) = value {
        let children = property.children.unwrap();
        assert forall|i: int| 0 <= i < entries@.len() implies {
            &&& (#[trigger] children@[i]).label@ == entries@[i].label@
            &&& (entries@[i].value matches PropertyValue::Text(text) ==>
                (children@[i].value matches Some(v) && v@ == text@))
        } by {
            assert(describes(children@[i], entries@[i].label@, entries@[i].value));
        }
    }
}

fn describe(label: &String, value: &PropertyValue) -> (property: CertificateProperty)
    ensures
        describes(property, label@, *value),
    decreases value,
{
    proof {
        reveal_strlit("string");
        reveal_strlit("section");
        reveal_strlit("unknown");
    }
    match value {
        PropertyValue::Text(text) => CertificateProperty {
            label: label.clone(),
            kind: "string".to_owned(),
            value: Some(text.clone()),
            children: None,
        },
        PropertyValue::Section(entries) => {
            let mut children: Vec<CertificateProperty> = Vec::new();
            let n = entries.len();
            for i in 0..n
                invariant
                    n == entries@.len(),
                    *value == PropertyValue::Section(*entries),
                    children@.len() == i,
                    forall|j: int|
                        #![trigger children@[j]]
                        0 <= j < i ==> describes(children@[j], entries@[j].label@, entries@[j].value),
            {
                let entry = &entries[i];
                proof {
                    assert(decreases_to!(*value => value->Section_0));
                    assert(value->Section_0 == *entries);
                    assert(decreases_to!(*entries => entries@));
                    assert(decreases_to!(entries@ => entries@[i as int]));
                    assert(decreases_to!(entries@[i as int] => entries@[i as int].value));
                    assert(decreases_to!(*value => entries@[i as int].value));
                }
                let child = describe(&entry.label, &entry.value);
                children.push(child);
            }
            let property = CertificateProperty {
                label: label.clone(),
                kind: "section".to_owned(),
                value: None,
                children: Some(children),
            };
            property
        },
        PropertyValue::Other => CertificateProperty {
            label: label.clone(),
            kind: "unknown".to_owned(),
            value: None,
            children: None,
        },
    }
}

} // verus!
