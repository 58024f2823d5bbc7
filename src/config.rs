use vstd::prelude::*;

verus! {

/// Settings injected into the provisioning workflow.
pub struct Config {
    /// Number of symbols of each generated passphrase.
    pub password_length: u64,
    /// Directory under which repositories are stored.
    pub base_directory: String,
    /// Namespace of every derived secret-store path.
    pub secret_path_prefix: String,
    /// Directory that receives sealed credentials.
    pub credential_directory: String,
}

/// Fewest symbols that a generated passphrase may have.
pub const MIN_PASSWORD_LENGTH: u64 = 32;

pub open spec fn standard_base_directory() -> Seq<char> {
    "/archive"@
}

pub open spec fn standard_secret_path_prefix() -> Seq<char> {
    "backups"@
}

pub open spec fn standard_credential_directory() -> Seq<char> {
    "/etc/credstore.encrypted"@
}

impl Config {
    /// Passphrases are generated with at least `MIN_PASSWORD_LENGTH` symbols.
    pub open spec fn valid(&self) -> bool {
        self.password_length >= MIN_PASSWORD_LENGTH
    }

    pub fn is_valid(&self) -> (r: bool)
        ensures
            r == self.valid(),
    {
        self.password_length >= MIN_PASSWORD_LENGTH
    }

    /// The settings of a standard installation: passphrases of 32 symbols,
    /// repositories under `/archive`, secrets under `backups/`.
    pub fn standard() -> (c: Config)
        ensures
            c.password_length == 32,
            c.valid(),
            c.base_directory@ == standard_base_directory(),
            c.secret_path_prefix@ == standard_secret_path_prefix(),
            c.credential_directory@ == standard_credential_directory(),
    {
        Config {
            password_length: 32,
            base_directory: String::from_str("/archive"),
            secret_path_prefix: String::from_str("backups"),
            credential_directory: String::from_str("/etc/credstore.encrypted"),
        }
    }
}

} // verus!
