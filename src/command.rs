use vstd::prelude::*;

use crate::config::MIN_PASSWORD_LENGTH;
use crate::repository::{archive_name_of, Repository};
use crate::text::{decimal, decimal_of};

verus! {

/// One process to run: program, argument list and at most one extra
/// environment variable.
pub struct Command {
    pub program: String,
    pub args: Vec<String>,
    pub env: Option<(String, String)>,
}

/// What a `Command` stands for, as character sequences.
pub struct CommandModel {
    pub program: Seq<char>,
    pub args: Seq<Seq<char>>,
    pub env: Option<(Seq<char>, Seq<char>)>,
}

pub open spec fn strings_view(v: Seq<String>) -> Seq<Seq<char>> {
    v.map_values(|s: String| s@)
}

impl View for Command {
    type V = CommandModel;

    open spec fn view(&self) -> CommandModel {
        CommandModel {
            program: self.program@,
            args: strings_view(self.args@),
            env: match self.env {
                Some(p) => Some((p.0@, p.1@)),
                None => None,
            },
        }
    }
}

/// A pipeline: the standard output of each command feeds the standard input
/// of the next one.
pub struct Invocation {
    pub stages: Vec<Command>,
}

impl View for Invocation {
    type V = Seq<CommandModel>;

    open spec fn view(&self) -> Seq<CommandModel> {
        self.stages@.map_values(|c: Command| c@)
    }
}

pub open spec fn model(
    program: Seq<char>,
    args: Seq<Seq<char>>,
    env: Option<(Seq<char>, Seq<char>)>,
) -> CommandModel {
    CommandModel { program, args, env }
}

/// Label of the first archive of every repository.
pub open spec fn initial_archive_label() -> Seq<char> {
    "initial backup"@
}

/// The environment through which the archive engine fetches the passphrase:
/// a command that reads it from the secret store, never the passphrase itself.
pub open spec fn passcommand_of(password_entry: Seq<char>) -> Option<(Seq<char>, Seq<char>)> {
    Some(("BORG_PASSCOMMAND"@, "pass show "@ + password_entry))
}

/// Reads the passphrase entry; it succeeds exactly when the entry exists.
pub open spec fn lookup_secret_model(r: &Repository) -> Seq<CommandModel> {
    seq![model("pass"@, seq!["show"@, r.password_entry@], None)]
}

/// Generates a passphrase of `length` symbols and stores it through standard input.
pub open spec fn generate_secret_model(r: &Repository, length: u64) -> Seq<CommandModel> {
    seq![
        model("pwgen"@, seq!["-1"@, "--symbols"@, "--secure"@, decimal_of(length as nat)], None),
        model("pass"@, seq!["insert"@, "--multiline"@, r.password_entry@], None),
    ]
}

pub open spec fn init_repository_model(r: &Repository) -> Seq<CommandModel> {
    seq![
        model(
            "borg"@,
            seq!["init"@, "--encryption"@, "repokey"@, r.repo_path@],
            passcommand_of(r.password_entry@),
        ),
    ]
}

pub open spec fn escrow_key_model(r: &Repository) -> Seq<CommandModel> {
    seq![
        model("borg"@, seq!["key"@, "export"@, r.repo_path@], passcommand_of(r.password_entry@)),
        model("pass"@, seq!["insert"@, "--multiline"@, r.key_entry@], None),
    ]
}

pub open spec fn backup_model(r: &Repository, label: Seq<char>) -> Seq<CommandModel> {
    seq![
        model(
            "borg"@,
            seq![
                "create"@,
                "--verbose"@,
                "--stats"@,
                archive_name_of(r.repo_path@, label),
                r.backup_target@,
            ],
            passcommand_of(r.password_entry@),
        ),
    ]
}

/// The passphrase flows from the secret store into the sealing tool by a pipe.
pub open spec fn seal_model(r: &Repository) -> Seq<CommandModel> {
    seq![
        model("pass"@, seq!["show"@, r.password_entry@], None),
        model(
            "systemd-creds"@,
            seq!["encrypt"@, "--name="@ + r.repo_name@, "-"@, r.credential@],
            None,
        ),
    ]
}

/// Asks for the bucket; it succeeds exactly when the bucket exists.
pub open spec fn lookup_bucket_model(r: &Repository) -> Seq<CommandModel> {
    seq![model("b2"@, seq!["bucket"@, "get"@, r.bucket@], None)]
}

pub open spec fn create_bucket_model(r: &Repository) -> Seq<CommandModel> {
    seq![model("b2"@, seq!["bucket"@, "create"@, r.bucket@, "allPrivate"@], None)]
}

pub open spec fn sync_model(r: &Repository) -> Seq<CommandModel> {
    seq![model("b2"@, seq!["sync"@, r.repo_path@, "b2://"@ + r.bucket@], None)]
}

pub fn initial_archive_label_text() -> (r: &'static str)
    ensures
        r@ == initial_archive_label(),
{
    "initial backup"
}

fn text(s: &str) -> (r: String)
    ensures
        r@ == s@,
{
    String::from_str(s)
}

fn copy(s: &String) -> (r: String)
    ensures
        r@ == s@,
{
    String::from_str(s.as_str())
}

fn passcommand(password_entry: &String) -> (r: Option<(String, String)>)
    ensures
        match r {
            Some(p) => passcommand_of(password_entry@) == Some((p.0@, p.1@)),
            None => false,
        },
{
    let mut value = text("pass show ");
    value.append(password_entry.as_str());
    Some((text("BORG_PASSCOMMAND"), value))
}

impl Repository {
    pub fn lookup_secret(&self) -> (r: Invocation)
        ensures
            r@ == lookup_secret_model(self),
    {
        let args = vec![text("show"), copy(&self.password_entry)];
        assert(strings_view(args@) =~= seq!["show"@, self.password_entry@]);
        let stages = vec![Command { program: text("pass"), args, env: None }];
        let r = Invocation { stages };
        assert(r@ =~= lookup_secret_model(self));
        r
    }

    pub fn generate_secret(&self, length: u64) -> (r: Invocation)
        requires
            length >= MIN_PASSWORD_LENGTH,
        ensures
            r@ == generate_secret_model(self, length),
    {
        let a1 = vec![text("-1"), text("--symbols"), text("--secure"), decimal(length)];
        assert(strings_view(a1@) =~= seq!["-1"@, "--symbols"@, "--secure"@, decimal_of(length as nat)]);
        let a2 = vec![text("insert"), text("--multiline"), copy(&self.password_entry)];
        assert(strings_view(a2@) =~= seq!["insert"@, "--multiline"@, self.password_entry@]);
        let stages = vec![
            Command { program: text("pwgen"), args: a1, env: None },
            Command { program: text("pass"), args: a2, env: None },
        ];
        let r = Invocation { stages };
        assert(r@ =~= generate_secret_model(self, length));
        r
    }

    pub fn init_repository(&self) -> (r: Invocation)
        ensures
            r@ == init_repository_model(self),
    {
        let args = vec![text("init"), text("--encryption"), text("repokey"), copy(&self.repo_path)];
        assert(strings_view(args@) =~= seq!["init"@, "--encryption"@, "repokey"@, self.repo_path@]);
        let env = passcommand(&self.password_entry);
        let stages = vec![Command { program: text("borg"), args, env }];
        let r = Invocation { stages };
        assert(r@ =~= init_repository_model(self));
        r
    }

    pub fn escrow_key(&self) -> (r: Invocation)
        ensures
            r@ == escrow_key_model(self),
    {
        let a1 = vec![text("key"), text("export"), copy(&self.repo_path)];
        assert(strings_view(a1@) =~= seq!["key"@, "export"@, self.repo_path@]);
        let a2 = vec![text("insert"), text("--multiline"), copy(&self.key_entry)];
        assert(strings_view(a2@) =~= seq!["insert"@, "--multiline"@, self.key_entry@]);
        let env = passcommand(&self.password_entry);
        let stages = vec![
            Command { program: text("borg"), args: a1, env },
            Command { program: text("pass"), args: a2, env: None },
        ];
        let r = Invocation { stages };
        assert(r@ =~= escrow_key_model(self));
        r
    }

    /// Run a backup: the archive `backup_name` over the backup target.
    pub fn backup(&self, backup_name: &str) -> (r: Invocation)
        ensures
            r@ == backup_model(self, backup_name@),
    {
        let args = vec![
            text("create"),
            text("--verbose"),
            text("--stats"),
            self.archive_name(backup_name),
            copy(&self.backup_target),
        ];
        assert(strings_view(args@) =~= seq![
            "create"@,
            "--verbose"@,
            "--stats"@,
            archive_name_of(self.repo_path@, backup_name@),
            self.backup_target@,
        ]);
        let env = passcommand(&self.password_entry);
        let stages = vec![Command { program: text("borg"), args, env }];
        let r = Invocation { stages };
        assert(r@ =~= backup_model(self, backup_name@));
        r
    }

    pub fn seal(&self) -> (r: Invocation)
        ensures
            r@ == seal_model(self),
    {
        let a1 = vec![text("show"), copy(&self.password_entry)];
        assert(strings_view(a1@) =~= seq!["show"@, self.password_entry@]);
        let mut scope = text("--name=");
        scope.append(self.repo_name.as_str());
        let a2 = vec![text("encrypt"), scope, text("-"), copy(&self.credential)];
        assert(strings_view(a2@) =~= seq!["encrypt"@, "--name="@ + self.repo_name@, "-"@, self.credential@]);
        let stages = vec![
            Command { program: text("pass"), args: a1, env: None },
            Command { program: text("systemd-creds"), args: a2, env: None },
        ];
        let r = Invocation { stages };
        assert(r@ =~= seal_model(self));
        r
    }

    pub fn lookup_bucket(&self) -> (r: Invocation)
        ensures
            r@ == lookup_bucket_model(self),
    {
        let args = vec![text("bucket"), text("get"), copy(&self.bucket)];
        assert(strings_view(args@) =~= seq!["bucket"@, "get"@, self.bucket@]);
        let stages = vec![Command { program: text("b2"), args, env: None }];
        let r = Invocation { stages };
        assert(r@ =~= lookup_bucket_model(self));
        r
    }

    pub fn create_bucket(&self) -> (r: Invocation)
        ensures
            r@ == create_bucket_model(self),
    {
        let args = vec![text("bucket"), text("create"), copy(&self.bucket), text("allPrivate")];
        assert(strings_view(args@) =~= seq!["bucket"@, "create"@, self.bucket@, "allPrivate"@]);
        let stages = vec![Command { program: text("b2"), args, env: None }];
        let r = Invocation { stages };
        assert(r@ =~= create_bucket_model(self));
        r
    }

    pub fn sync(&self) -> (r: Invocation)
        ensures
            r@ == sync_model(self),
    {
        let mut remote = text("b2://");
        remote.append(self.bucket.as_str());
        let args = vec![text("sync"), copy(&self.repo_path), remote];
        assert(strings_view(args@) =~= seq!["sync"@, self.repo_path@, "b2://"@ + self.bucket@]);
        let stages = vec![Command { program: text("b2"), args, env: None }];
        let r = Invocation { stages };
        assert(r@ =~= sync_model(self));
        r
    }
}

} // verus!
