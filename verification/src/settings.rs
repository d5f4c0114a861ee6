//! Persisted user configuration, at its boundary: the values read before a
//! connect and written back after a successful one, with the secret
//! redacted. Loading and storing the file belongs to the surrounding
//! application; the shape, the defaults and the redaction rule live here.

use vstd::prelude::*;
use vstd::string::StringExecFns;

verus! {

/// The connection settings the application persists.
#[derive(Debug)]
pub struct Settings {
    pub server: String,
    pub user: String,
    pub port: u16,
    pub home_dir: String,
    pub private_key: Option<String>,
    pub password: Option<String>,
}

impl Settings {
    /// The defaults for a user whose home directory is `home`: the local
    /// host on the standard port, with the conventional private-key
    /// location under the home directory and an empty secret.
    pub fn defaults(home: &str) -> (r: Settings)
        ensures
            r.server@ == "localhost"@,
            r.user@ == "support"@,
            r.port == 22,
            r.home_dir@ == home@,
            (r.private_key matches Some(p) && p@ == home@ + "/.ssh/id_rsa_pem"@),
            (r.password matches Some(p) && p@ == Seq::<char>::empty()),
    {
        let pkey = String::from_str(home).concat("/.ssh/id_rsa_pem");
        Settings {
            server: String::from_str("localhost"),
            user: String::from_str("support"),
            port: 22,
            home_dir: String::from_str(home),
            private_key: Some(pkey),
            password: Some(String::new()),
        }
    }

    /// These settings as they are written back after a successful connect:
    /// everything kept, the secret redacted to nothing.
    pub fn redacted(self) -> (r: Settings)
        ensures
            r.server@ == self.server@,
            r.user@ == self.user@,
            r.port == self.port,
            r.home_dir@ == self.home_dir@,
            r.private_key == self.private_key,
            (r.password matches Some(p) && p@ == Seq::<char>::empty()),
    {
        Settings { password: Some(String::new()), ..self }
    }
}

} // verus!
