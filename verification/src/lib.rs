//! Verified core of the Node bindings for Apple's Security framework:
//! the values that cross the JavaScript boundary, and the decisions the
//! bindings take around each native call.

pub mod error;
pub mod slot;
pub mod security;
pub mod transforms;
pub mod passwords;
pub mod keychain;
pub mod cms;
pub mod macos;
pub mod flags;
pub mod random;
pub mod secure_transport;
pub mod items;
pub mod imports;
