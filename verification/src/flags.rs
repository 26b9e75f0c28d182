use vstd::prelude::*;

verus! {

/// The bits of the access-control options.
#[derive(Clone, Copy, Debug, PartialEq, Eq, Structural)]
pub struct AccessControlFlagValues {
    pub user_presence: u32,
    pub biometry_any: u32,
    pub biometry_current_set: u32,
    pub device_passcode: u32,
    pub watch: u32,
    pub or: u32,
    pub and: u32,
    pub private_key_usage: u32,
    pub application_password: u32,
}

/// The bits of the authorization flags.
#[derive(Clone, Copy, Debug, PartialEq, Eq, Structural)]
pub struct AuthorizationFlagValues {
    pub defaults: u32,
    pub interaction_allowed: u32,
    pub extend_rights: u32,
    pub partial_rights: u32,
    pub destroy_rights: u32,
    pub preauthorize: u32,
}

/// The bits of the CMS signed attributes.
#[derive(Clone, Copy, Debug, PartialEq, Eq, Structural)]
pub struct CmsSignedAttributeValues {
    pub smime_capabilities: u32,
    pub smime_encryption_key_preferences: u32,
    pub smime_microsoft_encryption_key_preferences: u32,
    pub signing_time: u32,
    pub apple_code_signing_hash_agility: u32,
    pub apple_code_signing_hash_agility_v2: u32,
    pub apple_expiration_time: u32,
}

/// The bits of the revocation policy flags.
#[derive(Clone, Copy, Debug, PartialEq, Eq, Structural)]
pub struct RevocationPolicyFlagValues {
    pub ocsp_method: u32,
    pub crl_method: u32,
    pub prefer_crl: u32,
    pub require_positive_response: u32,
    pub network_access_disabled: u32,
    pub use_any_method_available: u32,
}

/// The bits of the trust evaluation options.
#[derive(Clone, Copy, Debug, PartialEq, Eq, Structural)]
pub struct TrustFlagValues {
    pub allow_expired: u32,
    pub leaf_is_ca: u32,
    pub fetch_issuer_from_network: u32,
    pub allow_expired_root: u32,
    pub require_revocation_per_certificate: u32,
    pub use_trust_settings: u32,
    pub implicit_anchors: u32,
}

/// The bits of the code-signing validation flags.
#[derive(Clone, Copy, Debug, PartialEq, Eq, Structural)]
pub struct CodeSigningFlagValues {
    pub none: u32,
    pub check_all_architectures: u32,
    pub do_not_validate_executable: u32,
    pub do_not_validate_resources: u32,
    pub basic_validate_only: u32,
    pub check_nested_code: u32,
    pub strict_validate: u32,
    pub full_report: u32,
    pub check_gatekeeper_architectures: u32,
    pub restrict_symlinks: u32,
    pub restrict_to_app_like: u32,
    pub restrict_sideband_data: u32,
    pub use_software_signing_certificate: u32,
    pub validate_peh: u32,
    pub single_threaded: u32,
    pub quick_check: u32,
    pub check_trusted_anchors: u32,
    pub report_progress: u32,
    pub no_network_access: u32,
    pub enforce_revocation_checks: u32,
    pub consider_expiration: u32,
}

} // verus!
