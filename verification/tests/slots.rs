use msf_ffi::error::{ErrorStatus, Resource, SecurityError};
use msf_ffi::slot::Slot;

#[test]
fn slot_gives_value_once() {
    let mut slot = Slot::new(Resource::PasswordOptions, 7u32);
    assert!(!slot.is_spent());
    assert_eq!(slot.get().map(|v| *v), Ok(7));
    assert_eq!(slot.take(), Ok(7));
    assert!(slot.is_spent());
    assert_eq!(slot.take(), Err(SecurityError::Spent(Resource::PasswordOptions)));
    assert_eq!(slot.get().map(|v| *v), Err(SecurityError::Spent(Resource::PasswordOptions)));
}

#[test]
fn slot_changes_in_place() {
    let mut slot = Slot::new(Resource::SslContext, String::from("a"));
    slot.get_mut().unwrap().push('b');
    assert_eq!(slot.get().unwrap().as_str(), "ab");
    assert_eq!(slot.release(), Some(String::from("ab")));
    assert_eq!(slot.release(), None);
    assert!(slot.get_mut().is_err());
}

#[test]
fn spent_messages() {
    assert_eq!(Resource::PasswordOptions.spent_message(), "PasswordOptions has already been consumed");
    assert_eq!(Resource::SslContext.spent_message(), "SslContext has already been consumed");
    assert_eq!(
        Resource::MidHandshakeSslStream.spent_message(),
        "MidHandshakeSslStream has already been consumed"
    );
    assert_eq!(
        Resource::MidHandshakeClientBuilder.spent_message(),
        "MidHandshakeClientBuilder has already been consumed"
    );
    assert_eq!(Resource::KeychainItem.spent_message(), "keychain item has been deleted");
    assert_eq!(Resource::Authorization.spent_message(), "authorization rights have been destroyed");
}

#[test]
fn error_statuses() {
    assert_eq!(SecurityError::Spent(Resource::KeychainItem).status(), ErrorStatus::GenericFailure);
    assert_eq!(SecurityError::Spent(Resource::Authorization).status(), ErrorStatus::InvalidArg);
    assert_eq!(SecurityError::CipherSuiteOutOfRange(70000).status(), ErrorStatus::InvalidArg);
    assert_eq!(SecurityError::ExternalFormLength(3).status(), ErrorStatus::InvalidArg);
}

#[test]
fn error_messages() {
    assert_eq!(
        SecurityError::CipherSuiteOutOfRange(70000).message(),
        "TLS cipher suite must fit in 16 bits: 70000"
    );
    assert_eq!(
        SecurityError::CipherSuiteOutOfRange(65536).message(),
        "TLS cipher suite must fit in 16 bits: 65536"
    );
    assert_eq!(
        SecurityError::CipherSuiteOutOfRange(u32::MAX).message(),
        "TLS cipher suite must fit in 16 bits: 4294967295"
    );
    assert_eq!(
        SecurityError::CipherSuiteOutOfRange(0).message(),
        "TLS cipher suite must fit in 16 bits: 0"
    );
    assert_eq!(
        SecurityError::ExternalFormLength(31).message(),
        "authorization external form must be exactly 32 bytes"
    );
    assert_eq!(
        SecurityError::Spent(Resource::SslContext).message(),
        "SslContext has already been consumed"
    );
}
