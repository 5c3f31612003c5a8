//! What the library keeps in the operating system's keychain: the
//! connection settings (as JSON) and, separately, the password.

use vstd::prelude::*;

verus! {

/// The keychain service under which the entries are stored.
pub const SERVICE_NAME: &'static str = "com.ipmi.desktop-manager";
/// The entry holding the connection settings.
pub const CREDENTIALS_KEY: &'static str = "bmc_credentials";
/// The entry holding the password.
pub const PASSWORD_KEY: &'static str = "bmc_password";

/// Connection settings kept between runs (the password is kept apart).
#[derive(Debug)]
pub struct StoredCredentials {
    pub host: String,
    pub port: u16,
    pub username: String,
    pub protocol_mode: String,
    pub skip_tls_verify: bool,
}

} // verus!
