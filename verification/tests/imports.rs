use msf_ffi::cms::{CmsSignerStatus, CmsSignerStatusCode};
use msf_ffi::imports::{ImportOptions, ImportStep};

fn describe(step: &ImportStep<'_, u8>) -> String {
    match step {
        ImportStep::Filename(name) => format!("filename:{name}"),
        ImportStep::Pkcs12 => "pkcs12".to_owned(),
        ImportStep::Passphrase(text) => format!("passphrase:{text}"),
        ImportStep::PassphraseBytes(bytes) => format!("passphrase-bytes:{bytes:?}"),
        ImportStep::SecurePassphrase(on) => format!("secure:{on}"),
        ImportStep::NoAccessControl(on) => format!("no-acl:{on}"),
        ImportStep::AlertTitle(title) => format!("title:{title}"),
        ImportStep::AlertPrompt(prompt) => format!("prompt:{prompt}"),
        ImportStep::Keychain(keychain) => format!("keychain:{keychain}"),
    }
}

#[test]
fn default_import_only_sets_flags() {
    let options = ImportOptions::<u8>::new();
    let steps: Vec<String> = options.steps().iter().map(describe).collect();
    assert_eq!(steps, vec!["secure:false", "no-acl:false"]);
}

#[test]
fn every_option_in_order() {
    let mut options = ImportOptions::<u8>::new();
    options.keychain(9);
    options.alert_prompt("Unlock".to_owned());
    options.alert_title("Import".to_owned());
    options.no_access_control(true);
    options.secure_passphrase(true);
    options.passphrase("secret".to_owned());
    options.pkcs12();
    options.filename("id.p12".to_owned());
    let steps: Vec<String> = options.steps().iter().map(describe).collect();
    assert_eq!(
        steps,
        vec![
            "filename:id.p12",
            "pkcs12",
            "passphrase:secret",
            "secure:true",
            "no-acl:true",
            "title:Import",
            "prompt:Unlock",
            "keychain:9",
        ]
    );
}

#[test]
fn last_passphrase_wins() {
    let mut options = ImportOptions::<u8>::new();
    options.passphrase("text".to_owned());
    options.passphrase_bytes(vec![1, 2]);
    let steps: Vec<String> = options.steps().iter().map(describe).collect();
    assert_eq!(steps, vec!["passphrase-bytes:[1, 2]", "secure:false", "no-acl:false"]);
    options.passphrase("again".to_owned());
    let steps: Vec<String> = options.steps().iter().map(describe).collect();
    assert_eq!(steps, vec!["passphrase:again", "secure:false", "no-acl:false"]);
}

#[test]
fn signer_certificate_validity() {
    let valid = CmsSignerStatus::new(CmsSignerStatusCode::Valid, 1u8, None);
    assert!(valid.certificate_valid);
    assert_eq!((valid.status, valid.trust), (CmsSignerStatusCode::Valid, 1));
    let invalid = CmsSignerStatus::new(CmsSignerStatusCode::InvalidCertificate, 2u8, Some("expired".to_owned()));
    assert!(!invalid.certificate_valid);
    assert_eq!(invalid.certificate_error.as_deref(), Some("expired"));
}
