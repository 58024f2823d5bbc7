use vstd::prelude::*;

use crate::config::Config;

verus! {

/// Secret-store path of the passphrase that unlocks the repository `name`.
pub open spec fn password_entry_of(prefix: Seq<char>, name: Seq<char>) -> Seq<char> {
    prefix + "/"@ + name + "/password"@
}

/// Secret-store path under which the repository key of `name` is escrowed.
pub open spec fn key_entry_of(prefix: Seq<char>, name: Seq<char>) -> Seq<char> {
    prefix + "/"@ + name + "/borg-key"@
}

/// Where the repository `name` is stored.
pub open spec fn repo_path_of(base: Seq<char>, name: Seq<char>) -> Seq<char> {
    base + "/"@ + name
}

/// Remote bucket that mirrors the repository `name`.
pub open spec fn bucket_of(prefix: Seq<char>, name: Seq<char>) -> Seq<char> {
    prefix + "-"@ + name
}

/// File of the sealed credential for the repository `name`.
pub open spec fn credential_of(dir: Seq<char>, name: Seq<char>) -> Seq<char> {
    dir + "/"@ + name + ".cred"@
}

/// Archive designator `<repository>::<label>`.
pub open spec fn archive_name_of(repo_path: Seq<char>, label: Seq<char>) -> Seq<char> {
    repo_path + "::"@ + label
}

/// An encrypted backup repository and every name derived from it.
pub struct Repository {
    /// What is the name of the repository?
    pub repo_name: String,
    /// Where is it stored?
    pub repo_path: String,
    /// What files does this repository backup?
    pub backup_target: String,
    /// What is the password manager entry to unlock this repository?
    pub password_entry: String,
    /// Where in the password manager is the repository key escrowed?
    pub key_entry: String,
    /// Which remote bucket mirrors the repository?
    pub bucket: String,
    /// Where does the sealed unlock credential live?
    pub credential: String,
}

impl Repository {
    /// Every derived field is the one that `config`, `name` and `target` give.
    pub open spec fn derived_from(&self, config: &Config, name: Seq<char>, target: Seq<char>) -> bool {
        &&& self.repo_name@ == name
        &&& self.backup_target@ == target
        &&& self.repo_path@ == repo_path_of(config.base_directory@, name)
        &&& self.password_entry@ == password_entry_of(config.secret_path_prefix@, name)
        &&& self.key_entry@ == key_entry_of(config.secret_path_prefix@, name)
        &&& self.bucket@ == bucket_of(config.secret_path_prefix@, name)
        &&& self.credential@ == credential_of(config.credential_directory@, name)
    }

    /// Describes the repository `repo_name`, backing up `backup_target`.
    /// Nothing outside is touched: the workflow creates the repository.
    pub fn new(config: &Config, repo_name: String, backup_target: String) -> (r: Repository)
        ensures
            r.derived_from(config, repo_name@, backup_target@),
    {
        let base = config.base_directory.as_str();
        let prefix = config.secret_path_prefix.as_str();
        let name = repo_name.as_str();

        let mut repo_path = String::from_str(base);
        repo_path.append("/");
        repo_path.append(name);

        let mut password_entry = String::from_str(prefix);
        password_entry.append("/");
        password_entry.append(name);
        password_entry.append("/password");

        let mut key_entry = String::from_str(prefix);
        key_entry.append("/");
        key_entry.append(name);
        key_entry.append("/borg-key");

        let mut bucket = String::from_str(prefix);
        bucket.append("-");
        bucket.append(name);

        let mut credential = String::from_str(config.credential_directory.as_str());
        credential.append("/");
        credential.append(name);
        credential.append(".cred");

        Repository {
            repo_name,
            repo_path,
            backup_target,
            password_entry,
            key_entry,
            bucket,
            credential,
        }
    }

    /// Construct name for archive using repository path.
    pub fn archive_name(&self, name: &str) -> (r: String)
        ensures
            r@ == archive_name_of(self.repo_path@, name@),
    {
        let mut r = String::from_str(self.repo_path.as_str());
        r.append("::");
        r.append(name);
        r
    }
}

} // verus!
