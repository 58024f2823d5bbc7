use vstd::prelude::*;

use crate::command::{
    backup_model, create_bucket_model, escrow_key_model, generate_secret_model,
    init_repository_model, initial_archive_label, lookup_bucket_model, lookup_secret_model,
    seal_model, sync_model, CommandModel, Invocation, initial_archive_label_text,
};
use crate::args::Init;
use crate::config::Config;
use crate::record::{has_no_newline, lemma_no_newline_concat, no_newline, single_line_fields};
use crate::repository::Repository;

verus! {

/// Status of one step of the workflow.
#[derive(Clone, Copy, Debug, PartialEq, Eq, Structural)]
pub enum Status {
    /// Not attempted yet.
    Pending,
    /// Looked up and found missing: it has to be created.
    Absent,
    Complete,
    Failed,
}

/// The states that a run passes through, in order.
#[derive(Clone, Copy, Debug, PartialEq, Eq, Structural)]
pub enum Stage {
    SecretGenerated,
    RepoInitialized,
    KeyEscrowed,
    BackupComplete,
    Sealed,
    Synced,
}

/// Overall outcome of a run.
#[derive(Clone, Copy, Debug, PartialEq, Eq, Structural)]
pub enum Outcome {
    /// A run is under way: the record is an advisory lock on the name.
    InProgress,
    Success,
    /// Everything required succeeded, but escrow or sealing did not.
    Partial,
    /// A required step failed before the given state was reached.
    FailedAt(Stage),
}

/// The external request that the workflow makes next.
#[derive(Clone, Copy, Debug, PartialEq, Eq, Structural)]
pub enum Step {
    LookupSecret,
    GenerateSecret,
    InitRepository,
    EscrowKey,
    CreateArchive,
    SealCredential,
    LookupBucket,
    CreateBucket,
    Sync,
    Done,
}

/// Why a run cannot start, or which step left it unfinished.
#[derive(Clone, Copy, Debug, PartialEq, Eq, Structural)]
pub enum ProvisionError {
    EmptyName,
    /// The record loaded for the name belongs to another repository, or
    /// its statuses contradict each other.
    ManifestMismatch,
    /// A name, path or setting holds a line break, which the saved record
    /// cannot hold.
    LineBreakInField,
    /// Another run for the same name has not finished.
    RunInProgress,
    /// The repository was already provisioned and no force was asked.
    AlreadyComplete,
    SecretGenerationFailed,
    RepositoryInitFailed,
    KeyEscrowFailed,
    BackupFailed,
    SealingFailed,
    SyncFailed,
    ManifestPersistFailed,
}

/// The durable record of the provisioning of one repository.
pub struct Manifest {
    pub repo: Repository,
    /// The unlock passphrase in the secret store.
    pub secret: Status,
    /// The encrypted repository.
    pub init: Status,
    /// The repository key, escrowed in the secret store.
    pub escrow: Status,
    /// The first archive.
    pub backup: Status,
    /// When the first archive was last attempted.
    pub backup_at: Option<u64>,
    /// The sealed unlock credential.
    pub creds: Status,
    /// The remote bucket.
    pub bucket: Status,
    /// The upload of the repository to the bucket.
    pub sync: Status,
    pub outcome: Outcome,
}

/// The next request, ignoring whether a run is under way.
pub open spec fn pending_step(m: Manifest) -> Step {
    if m.secret == Status::Pending || m.secret == Status::Failed {
        Step::LookupSecret
    } else if m.secret == Status::Absent {
        Step::GenerateSecret
    } else if m.init != Status::Complete {
        Step::InitRepository
    } else if m.escrow == Status::Pending {
        Step::EscrowKey
    } else if m.backup != Status::Complete {
        Step::CreateArchive
    } else if m.creds == Status::Pending {
        Step::SealCredential
    } else if m.bucket == Status::Pending || m.bucket == Status::Failed {
        Step::LookupBucket
    } else if m.bucket == Status::Absent {
        Step::CreateBucket
    } else if m.sync != Status::Complete {
        Step::Sync
    } else {
        Step::Done
    }
}

/// The next request of the run; `Done` once the run has an outcome.
pub open spec fn next_step(m: Manifest) -> Step {
    if m.outcome == Outcome::InProgress {
        pending_step(m)
    } else {
        Step::Done
    }
}

/// The state that a request works towards.
pub open spec fn stage_of(step: Step) -> Option<Stage> {
    match step {
        Step::LookupSecret => Some(Stage::SecretGenerated),
        Step::GenerateSecret => Some(Stage::SecretGenerated),
        Step::InitRepository => Some(Stage::RepoInitialized),
        Step::EscrowKey => Some(Stage::KeyEscrowed),
        Step::CreateArchive => Some(Stage::BackupComplete),
        Step::SealCredential => Some(Stage::Sealed),
        Step::LookupBucket => Some(Stage::Synced),
        Step::CreateBucket => Some(Stage::Synced),
        Step::Sync => Some(Stage::Synced),
        Step::Done => None,
    }
}

/// The record of a run cancelled before its next request finished: the run
/// ends as failed at that request's state, and every status stays as it
/// was, so another run takes the request up again.
pub open spec fn aborted(m: Manifest) -> Manifest {
    match stage_of(next_step(m)) {
        Some(stage) => Manifest { outcome: Outcome::FailedAt(stage), ..m },
        None => m,
    }
}

/// The outcome of a run that has nothing left to do.
pub open spec fn finished_outcome(m: Manifest) -> Outcome {
    if m.escrow == Status::Complete && m.creds == Status::Complete {
        Outcome::Success
    } else {
        Outcome::Partial
    }
}

/// Gives a run with nothing left to do its outcome.
pub open spec fn settle(m: Manifest) -> Manifest {
    if m.outcome == Outcome::InProgress && pending_step(m) == Step::Done {
        Manifest { outcome: finished_outcome(m), ..m }
    } else {
        m
    }
}

/// Records the result of `step`: fatal failures end the run, degraded ones
/// are only noted.
pub open spec fn record(m: Manifest, step: Step, ok: bool, now: u64) -> Manifest {
    let done = if ok { Status::Complete } else { Status::Failed };
    match step {
        Step::LookupSecret => Manifest {
            secret: if ok { Status::Complete } else { Status::Absent },
            ..m
        },
        Step::GenerateSecret => Manifest {
            secret: done,
            outcome: if ok { m.outcome } else { Outcome::FailedAt(Stage::SecretGenerated) },
            ..m
        },
        Step::InitRepository => Manifest {
            init: done,
            outcome: if ok { m.outcome } else { Outcome::FailedAt(Stage::RepoInitialized) },
            ..m
        },
        Step::EscrowKey => Manifest { escrow: done, ..m },
        Step::CreateArchive => Manifest {
            backup: done,
            backup_at: Some(now),
            outcome: if ok { m.outcome } else { Outcome::FailedAt(Stage::BackupComplete) },
            ..m
        },
        Step::SealCredential => Manifest { creds: done, ..m },
        Step::LookupBucket => Manifest {
            bucket: if ok { Status::Complete } else { Status::Absent },
            ..m
        },
        Step::CreateBucket => Manifest {
            bucket: done,
            outcome: if ok { m.outcome } else { Outcome::FailedAt(Stage::Synced) },
            ..m
        },
        Step::Sync => Manifest {
            sync: done,
            outcome: if ok { m.outcome } else { Outcome::FailedAt(Stage::Synced) },
            ..m
        },
        Step::Done => m,
    }
}

/// The record after the next request has succeeded (`ok`) or failed at `now`.
pub open spec fn advanced(m: Manifest, ok: bool, now: u64) -> Manifest {
    settle(record(m, next_step(m), ok, now))
}

/// The record of a first run, before any request.
pub open spec fn fresh(repo: Repository) -> Manifest {
    Manifest {
        repo,
        secret: Status::Pending,
        init: Status::Pending,
        escrow: Status::Pending,
        backup: Status::Pending,
        backup_at: None,
        creds: Status::Pending,
        bucket: Status::Pending,
        sync: Status::Pending,
        outcome: Outcome::InProgress,
    }
}

pub open spec fn retry_status(s: Status) -> Status {
    if s == Status::Failed { Status::Pending } else { s }
}

/// A loaded record made ready for another run over `target`, the path given
/// to that run. Forcing a finished record retries the escrow and sealing
/// steps that failed.
pub open spec fn resumed(m: Manifest, target: String, force: bool) -> Manifest {
    let finished = m.outcome == Outcome::Success || m.outcome == Outcome::Partial;
    settle(Manifest {
        repo: Repository { backup_target: target, ..m.repo },
        escrow: if force && finished { retry_status(m.escrow) } else { m.escrow },
        creds: if force && finished { retry_status(m.creds) } else { m.creds },
        outcome: Outcome::InProgress,
        ..m
    })
}

/// What another run for `name` over `target` gives with the record `m`
/// loaded for that name.
pub open spec fn resume_of(m: Manifest, name: Seq<char>, target: String, force: bool) -> Result<
    Manifest,
    ProvisionError,
> {
    if m.repo.repo_name@ != name || !m.consistent() {
        Err(ProvisionError::ManifestMismatch)
    } else if m.outcome == Outcome::InProgress {
        Err(ProvisionError::RunInProgress)
    } else if (m.outcome == Outcome::Success || m.outcome == Outcome::Partial) && !force {
        Err(ProvisionError::AlreadyComplete)
    } else {
        Ok(resumed(m, target, force))
    }
}

/// The names and settings that a first run derives its record from hold no
/// line break.
pub open spec fn inputs_single_line(config: &Config, name: Seq<char>, target: Seq<char>) -> bool {
    &&& no_newline(name)
    &&& no_newline(target)
    &&& no_newline(config.base_directory@)
    &&& no_newline(config.secret_path_prefix@)
    &&& no_newline(config.credential_directory@)
}

/// `r`, unless it is a record that could not be saved and read back.
pub open spec fn savable(r: Result<Manifest, ProvisionError>) -> Result<Manifest, ProvisionError> {
    match r {
        Ok(m) => if single_line_fields(m) {
            r
        } else {
            Err(ProvisionError::LineBreakInField)
        },
        Err(_) => r,
    }
}

/// A record derived from single-line inputs has single-line fields.
pub proof fn lemma_derived_single_line(
    config: &Config,
    name: Seq<char>,
    target: Seq<char>,
    repo: Repository,
)
    requires
        inputs_single_line(config, name, target),
        repo.derived_from(config, name, target),
    ensures
        single_line_fields(fresh(repo)),
{
    reveal_strlit("/");
    reveal_strlit("/password");
    reveal_strlit("/borg-key");
    reveal_strlit("-");
    reveal_strlit(".cred");
    let base = config.base_directory@;
    let prefix = config.secret_path_prefix@;
    let dir = config.credential_directory@;
    lemma_no_newline_concat(base, "/"@);
    lemma_no_newline_concat(base + "/"@, name);
    lemma_no_newline_concat(prefix, "/"@);
    lemma_no_newline_concat(prefix + "/"@, name);
    lemma_no_newline_concat(prefix + "/"@ + name, "/password"@);
    lemma_no_newline_concat(prefix + "/"@ + name, "/borg-key"@);
    lemma_no_newline_concat(prefix, "-"@);
    lemma_no_newline_concat(prefix + "-"@, name);
    lemma_no_newline_concat(dir, "/"@);
    lemma_no_newline_concat(dir + "/"@, name);
    lemma_no_newline_concat(dir + "/"@ + name, ".cred"@);
}

/// The error that a finished record reports, if any.
pub open spec fn error_of(m: Manifest) -> Option<ProvisionError> {
    match m.outcome {
        Outcome::InProgress => None,
        Outcome::Success => None,
        Outcome::Partial => if m.escrow != Status::Complete {
            Some(ProvisionError::KeyEscrowFailed)
        } else {
            Some(ProvisionError::SealingFailed)
        },
        Outcome::FailedAt(Stage::SecretGenerated) => Some(ProvisionError::SecretGenerationFailed),
        Outcome::FailedAt(Stage::RepoInitialized) => Some(ProvisionError::RepositoryInitFailed),
        Outcome::FailedAt(Stage::KeyEscrowed) => Some(ProvisionError::KeyEscrowFailed),
        Outcome::FailedAt(Stage::BackupComplete) => Some(ProvisionError::BackupFailed),
        Outcome::FailedAt(Stage::Sealed) => Some(ProvisionError::SealingFailed),
        Outcome::FailedAt(Stage::Synced) => Some(ProvisionError::SyncFailed),
    }
}

/// The commands of each request.
pub open spec fn step_model(m: Manifest, step: Step, length: u64) -> Seq<CommandModel> {
    match step {
        Step::LookupSecret => lookup_secret_model(&m.repo),
        Step::GenerateSecret => generate_secret_model(&m.repo, length),
        Step::InitRepository => init_repository_model(&m.repo),
        Step::EscrowKey => escrow_key_model(&m.repo),
        Step::CreateArchive => backup_model(&m.repo, initial_archive_label()),
        Step::SealCredential => seal_model(&m.repo),
        Step::LookupBucket => lookup_bucket_model(&m.repo),
        Step::CreateBucket => create_bucket_model(&m.repo),
        Step::Sync => sync_model(&m.repo),
        Step::Done => Seq::empty(),
    }
}

impl Manifest {
    /// Statuses appear only in the order in which the steps run, and the
    /// outcome agrees with them.
    pub open spec fn consistent(&self) -> bool {
        let m = *self;
        &&& m.init != Status::Pending ==> m.secret == Status::Complete
        &&& m.escrow != Status::Pending ==> m.init == Status::Complete
        &&& m.backup != Status::Pending ==> m.init == Status::Complete
        &&& m.backup == Status::Failed ==> m.escrow != Status::Pending
        &&& m.backup != Status::Pending ==> m.backup_at is Some
        &&& m.creds != Status::Pending ==> m.backup == Status::Complete
        &&& m.bucket != Status::Pending ==> m.backup == Status::Complete
        &&& m.sync != Status::Pending ==> m.bucket == Status::Complete
        &&& (m.outcome == Outcome::Success ==> {
            &&& pending_step(m) == Step::Done
            &&& m.escrow == Status::Complete
            &&& m.creds == Status::Complete
        })
        &&& (m.outcome == Outcome::Partial ==> {
            &&& pending_step(m) == Step::Done
            &&& (m.escrow != Status::Complete || m.creds != Status::Complete)
        })
        &&& (m.outcome matches Outcome::FailedAt(stage) ==> stage_of(pending_step(m)) == Some(
            stage,
        ))
    }
}

/// The state that a request works towards.
pub fn stage_of_step(step: Step) -> (r: Option<Stage>)
    ensures
        r == stage_of(step),
{
    match step {
        Step::LookupSecret => Some(Stage::SecretGenerated),
        Step::GenerateSecret => Some(Stage::SecretGenerated),
        Step::InitRepository => Some(Stage::RepoInitialized),
        Step::EscrowKey => Some(Stage::KeyEscrowed),
        Step::CreateArchive => Some(Stage::BackupComplete),
        Step::SealCredential => Some(Stage::Sealed),
        Step::LookupBucket => Some(Stage::Synced),
        Step::CreateBucket => Some(Stage::Synced),
        Step::Sync => Some(Stage::Synced),
        Step::Done => None,
    }
}

fn step_status(ok: bool) -> (r: Status)
    ensures
        r == (if ok { Status::Complete } else { Status::Failed }),
{
    if ok { Status::Complete } else { Status::Failed }
}

fn found_status(ok: bool) -> (r: Status)
    ensures
        r == (if ok { Status::Complete } else { Status::Absent }),
{
    if ok { Status::Complete } else { Status::Absent }
}

impl Manifest {
    /// The record of a first run of `repo`, before any request.
    pub fn new(repo: Repository) -> (m: Manifest)
        ensures
            m == fresh(repo),
    {
        Manifest {
            repo,
            secret: Status::Pending,
            init: Status::Pending,
            escrow: Status::Pending,
            backup: Status::Pending,
            backup_at: None,
            creds: Status::Pending,
            bucket: Status::Pending,
            sync: Status::Pending,
            outcome: Outcome::InProgress,
        }
    }

    pub fn is_consistent(&self) -> (r: bool)
        ensures
            r == self.consistent(),
    {
        let done = self.pending_step() == Step::Done;
        (self.init == Status::Pending || self.secret == Status::Complete)
            && (self.escrow == Status::Pending || self.init == Status::Complete)
            && (self.backup == Status::Pending || self.init == Status::Complete)
            && (self.backup != Status::Failed || self.escrow != Status::Pending)
            && (self.backup == Status::Pending || self.backup_at.is_some())
            && (self.creds == Status::Pending || self.backup == Status::Complete)
            && (self.bucket == Status::Pending || self.backup == Status::Complete)
            && (self.sync == Status::Pending || self.bucket == Status::Complete)
            && (self.outcome != Outcome::Success || (done && self.escrow == Status::Complete
                && self.creds == Status::Complete))
            && (self.outcome != Outcome::Partial || (done && (self.escrow != Status::Complete
                || self.creds != Status::Complete)))
            && match self.outcome {
                Outcome::FailedAt(stage) => match stage_of_step(self.pending_step()) {
                    Some(s) => s == stage,
                    None => false,
                },
                _ => true,
            }
    }

    fn pending_step(&self) -> (r: Step)
        ensures
            r == pending_step(*self),
    {
        if self.secret == Status::Pending || self.secret == Status::Failed {
            Step::LookupSecret
        } else if self.secret == Status::Absent {
            Step::GenerateSecret
        } else if self.init != Status::Complete {
            Step::InitRepository
        } else if self.escrow == Status::Pending {
            Step::EscrowKey
        } else if self.backup != Status::Complete {
            Step::CreateArchive
        } else if self.creds == Status::Pending {
            Step::SealCredential
        } else if self.bucket == Status::Pending || self.bucket == Status::Failed {
            Step::LookupBucket
        } else if self.bucket == Status::Absent {
            Step::CreateBucket
        } else if self.sync != Status::Complete {
            Step::Sync
        } else {
            Step::Done
        }
    }

    /// Ends the run at its next request, as a failure of that request would,
    /// but keeps every status: for a cancelled run.
    pub fn abort(&mut self)
        ensures
            *final(self) == aborted(*old(self)),
    {
        match stage_of_step(self.next_step()) {
            Some(stage) => {
                self.outcome = Outcome::FailedAt(stage);
            },
            None => {},
        }
    }

    /// The next request of the run; `Done` once the run has an outcome.
    pub fn next_step(&self) -> (r: Step)
        ensures
            r == next_step(*self),
    {
        if self.outcome == Outcome::InProgress {
            self.pending_step()
        } else {
            Step::Done
        }
    }

    fn settle(&mut self)
        ensures
            *final(self) == settle(*old(self)),
    {
        if self.outcome == Outcome::InProgress && self.pending_step() == Step::Done {
            self.outcome =
                if self.escrow == Status::Complete && self.creds == Status::Complete {
                    Outcome::Success
                } else {
                    Outcome::Partial
                };
        }
    }

    /// Records whether the next request succeeded, at time `now`, and gives
    /// the run its outcome when it ends.
    pub fn advance(&mut self, succeeded: bool, now: u64)
        ensures
            *final(self) == advanced(*old(self), succeeded, now),
    {
        let step = self.next_step();
        match step {
            Step::LookupSecret => {
                self.secret = found_status(succeeded);
            },
            Step::GenerateSecret => {
                self.secret = step_status(succeeded);
                if !succeeded {
                    self.outcome = Outcome::FailedAt(Stage::SecretGenerated);
                }
            },
            Step::InitRepository => {
                self.init = step_status(succeeded);
                if !succeeded {
                    self.outcome = Outcome::FailedAt(Stage::RepoInitialized);
                }
            },
            Step::EscrowKey => {
                self.escrow = step_status(succeeded);
            },
            Step::CreateArchive => {
                self.backup = step_status(succeeded);
                self.backup_at = Some(now);
                if !succeeded {
                    self.outcome = Outcome::FailedAt(Stage::BackupComplete);
                }
            },
            Step::SealCredential => {
                self.creds = step_status(succeeded);
            },
            Step::LookupBucket => {
                self.bucket = found_status(succeeded);
            },
            Step::CreateBucket => {
                self.bucket = step_status(succeeded);
                if !succeeded {
                    self.outcome = Outcome::FailedAt(Stage::Synced);
                }
            },
            Step::Sync => {
                self.sync = step_status(succeeded);
                if !succeeded {
                    self.outcome = Outcome::FailedAt(Stage::Synced);
                }
            },
            Step::Done => {},
        }
        self.settle();
    }

    /// Makes a loaded record ready for another run for `name`; refuses a
    /// record of another repository, one whose run has not finished, and a
    /// finished one unless `force` is set.
    pub fn resume(self, name: &String, target: String, force: bool) -> (r: Result<
        Manifest,
        ProvisionError,
    >)
        ensures
            r == resume_of(self, name@, target, force),
    {
        if !self.repo.repo_name.eq(name) || !self.is_consistent() {
            return Err(ProvisionError::ManifestMismatch);
        }
        if self.outcome == Outcome::InProgress {
            return Err(ProvisionError::RunInProgress);
        }
        let finished = self.outcome == Outcome::Success || self.outcome == Outcome::Partial;
        if finished && !force {
            return Err(ProvisionError::AlreadyComplete);
        }
        let mut m = self;
        if force && finished {
            if m.escrow == Status::Failed {
                m.escrow = Status::Pending;
            }
            if m.creds == Status::Failed {
                m.creds = Status::Pending;
            }
        }
        m.repo.backup_target = target;
        m.outcome = Outcome::InProgress;
        m.settle();
        Ok(m)
    }

    /// The error that the record reports: `None` while running and after
    /// full success.
    pub fn error(&self) -> (r: Option<ProvisionError>)
        ensures
            r == error_of(*self),
    {
        match self.outcome {
            Outcome::InProgress => None,
            Outcome::Success => None,
            Outcome::Partial => if self.escrow != Status::Complete {
                Some(ProvisionError::KeyEscrowFailed)
            } else {
                Some(ProvisionError::SealingFailed)
            },
            Outcome::FailedAt(Stage::SecretGenerated) => Some(ProvisionError::SecretGenerationFailed),
            Outcome::FailedAt(Stage::RepoInitialized) => Some(ProvisionError::RepositoryInitFailed),
            Outcome::FailedAt(Stage::KeyEscrowed) => Some(ProvisionError::KeyEscrowFailed),
            Outcome::FailedAt(Stage::BackupComplete) => Some(ProvisionError::BackupFailed),
            Outcome::FailedAt(Stage::Sealed) => Some(ProvisionError::SealingFailed),
            Outcome::FailedAt(Stage::Synced) => Some(ProvisionError::SyncFailed),
        }
    }

    /// The commands of the next request; `None` once the run has ended.
    pub fn invocation(&self, config: &Config) -> (r: Option<Invocation>)
        requires
            config.valid(),
        ensures
            match r {
                Some(i) => next_step(*self) != Step::Done && i@ == step_model(
                    *self,
                    next_step(*self),
                    config.password_length,
                ),
                None => next_step(*self) == Step::Done,
            },
    {
        match self.next_step() {
            Step::LookupSecret => Some(self.repo.lookup_secret()),
            Step::GenerateSecret => Some(self.repo.generate_secret(config.password_length)),
            Step::InitRepository => Some(self.repo.init_repository()),
            Step::EscrowKey => Some(self.repo.escrow_key()),
            Step::CreateArchive => Some(self.repo.backup(initial_archive_label_text())),
            Step::SealCredential => Some(self.repo.seal()),
            Step::LookupBucket => Some(self.repo.lookup_bucket()),
            Step::CreateBucket => Some(self.repo.create_bucket()),
            Step::Sync => Some(self.repo.sync()),
            Step::Done => None,
        }
    }
}

/// Starts a run for `name` over `target`, given the record `loaded` found
/// for that name, if any. A refusal starts nothing.
pub fn begin(
    config: &Config,
    name: String,
    target: String,
    loaded: Option<Manifest>,
    force: bool,
) -> (r: Result<Manifest, ProvisionError>)
    ensures
        name@.len() == 0 ==> r == Err::<Manifest, ProvisionError>(ProvisionError::EmptyName),
        name@.len() > 0 && loaded is None ==> match r {
            Ok(m) => m == fresh(m.repo) && m.repo.derived_from(config, name@, target@)
                && single_line_fields(m),
            Err(e) => e == ProvisionError::LineBreakInField && !inputs_single_line(
                config,
                name@,
                target@,
            ),
        },
        name@.len() > 0 && loaded is Some ==> r == savable(
            resume_of(loaded->0, name@, target, force),
        ),
{
    if name.as_str().unicode_len() == 0 {
        return Err(ProvisionError::EmptyName);
    }
    match loaded {
        None => {
            if !(has_no_newline(&name) && has_no_newline(&target) && has_no_newline(
                &config.base_directory,
            ) && has_no_newline(&config.secret_path_prefix) && has_no_newline(
                &config.credential_directory,
            )) {
                return Err(ProvisionError::LineBreakInField);
            }
            let ghost (n, t) = (name@, target@);
            let repo = Repository::new(config, name, target);
            proof {
                lemma_derived_single_line(config, n, t, repo);
            }
            Ok(Manifest::new(repo))
        },
        Some(m) => match m.resume(&name, target, force) {
            Ok(m) => if m.is_single_line() {
                Ok(m)
            } else {
                Err(ProvisionError::LineBreakInField)
            },
            Err(e) => Err(e),
        },
    }
}

/// Starts provisioning the repository that an `init` command names, given
/// the record `loaded` found for that name, if any.
pub fn init(
    config: &Config,
    args: Init,
    loaded: Option<Manifest>,
    force: bool,
) -> (r: Result<Manifest, ProvisionError>)
    ensures
        args.name@.len() == 0 ==> r == Err::<Manifest, ProvisionError>(ProvisionError::EmptyName),
        args.name@.len() > 0 && loaded is None ==> match r {
            Ok(m) => m == fresh(m.repo) && m.repo.derived_from(config, args.name@, args.path@)
                && single_line_fields(m),
            Err(e) => e == ProvisionError::LineBreakInField && !inputs_single_line(
                config,
                args.name@,
                args.path@,
            ),
        },
        args.name@.len() > 0 && loaded is Some ==> r == savable(
            resume_of(loaded->0, args.name@, args.path, force),
        ),
{
    begin(config, args.name, args.path, loaded, force)
}

} // verus!
