use vstd::prelude::*;

verus! {

/// The digest computed by a digest transform.
#[derive(Clone, Copy, Debug, PartialEq, Eq, Structural)]
pub enum DigestType {
    HmacMd5,
    HmacSha1,
    HmacSha2,
    Md2,
    Md4,
    Md5,
    Sha1,
    Sha2,
}

/// The padding of an encryption transform.
#[derive(Clone, Copy, Debug, PartialEq, Eq, Structural)]
pub enum Padding {
    NoPadding,
    Pkcs1,
    Pkcs5,
    Pkcs7,
    Oaep,
}

/// The block-cipher mode of an encryption transform.
#[derive(Clone, Copy, Debug, PartialEq, Eq, Structural)]
pub enum EncryptionMode {
    NoMode,
    Ecb,
    Cbc,
    Cfb,
    Ofb,
}

} // verus!
