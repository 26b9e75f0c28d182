use vstd::prelude::*;

verus! {

/// Which certificates a CMS message carries beside the signer's.
#[derive(Clone, Copy, Debug, PartialEq, Eq, Structural)]
pub enum CertificateChainMode {
    NoCertificates,
    SignerOnly,
    Chain,
    ChainWithRoot,
    ChainWithRootOrFail,
}

/// The verdict on one signer of a CMS message.
#[derive(Clone, Copy, Debug, PartialEq, Eq, Structural)]
pub enum CmsSignerStatusCode {
    Unsigned,
    Valid,
    NeedsDetachedContent,
    InvalidSignature,
    InvalidCertificate,
    InvalidIndex,
}

/// The status of one signer of a decoded CMS message: its verdict, the trust
/// object of its certificate, and whether that certificate verified.
pub struct CmsSignerStatus<T> {
    pub status: CmsSignerStatusCode,
    pub trust: T,
    pub certificate_valid: bool,
    pub certificate_error: Option<String>,
}

impl<T> CmsSignerStatus<T> {
    /// The status reported for a signer: its certificate is valid exactly when
    /// verifying it gave no error.
    pub fn new(status: CmsSignerStatusCode, trust: T, certificate_error: Option<String>) -> (report: Self)
        ensures
            report.status == status,
            report.trust == trust,
            report.certificate_error == certificate_error,
            report.certificate_valid == (certificate_error is None),
    {
        let certificate_valid = certificate_error.is_none();
        CmsSignerStatus { status, trust, certificate_valid, certificate_error }
    }
}

} // verus!
