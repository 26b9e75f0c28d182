use vstd::prelude::*;

verus! {

/// The network protocol of an internet password.
#[derive(Clone, Copy, Debug, PartialEq, Eq, Structural)]
pub enum Protocol {
    FTP,
    FTPAccount,
    HTTP,
    IRC,
    NNTP,
    POP3,
    SMTP,
    SOCKS,
    IMAP,
    LDAP,
    AppleTalk,
    AFP,
    Telnet,
    SSH,
    FTPS,
    HTTPS,
    HTTPProxy,
    HTTPSProxy,
    FTPProxy,
    CIFS,
    SMB,
    RTSP,
    RTSPProxy,
    DAAP,
    EPPC,
    IPP,
    NNTPS,
    LDAPS,
    TelnetS,
    IMAPS,
    IRCS,
    POP3S,
    CVSpserver,
    SVN,
    Any,
}

/// How the server of an internet password authenticates.
#[derive(Clone, Copy, Debug, PartialEq, Eq, Structural)]
pub enum AuthenticationType {
    NTLM,
    MSN,
    DPA,
    RPA,
    HTTPBasic,
    HTTPDigest,
    HTMLForm,
    Default,
    Any,
}

} // verus!
