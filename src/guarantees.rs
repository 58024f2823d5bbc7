use vstd::prelude::*;

use crate::config::Config;
use crate::manifest::{
    aborted, advanced, error_of, fresh, step_model, next_step, resume_of, Manifest, Outcome, ProvisionError, Stage,
    Status, Step,
};
use crate::command::{initial_archive_label, CommandModel};
use crate::repository::{archive_name_of, Repository};
use crate::record::{outcome_word, record_lines, status_word, time_word};
use crate::text::decimal_of;

verus! {

/// A first record is consistent.
pub proof fn lemma_fresh_consistent(repo: Repository)
    ensures
        fresh(repo).consistent(),
{
}

/// Recording the result of a request keeps a record consistent.
pub proof fn lemma_advance_consistent(m: Manifest, ok: bool, now: u64)
    requires
        m.consistent(),
    ensures
        advanced(m, ok, now).consistent(),
{
}

/// A record made ready for another run is consistent.
pub proof fn lemma_resume_consistent(m: Manifest, name: Seq<char>, target: String, force: bool)
    ensures
        resume_of(m, name, target, force) is Ok ==> resume_of(m, name, target, force)->Ok_0.consistent(),
{
}

/// The answer of the outside collaborators to the next request when every
/// one of them works: each lookup reports whether the thing already exists,
/// every other request succeeds.
pub open spec fn working_answer(m: Manifest, secret_exists: bool, bucket_exists: bool) -> bool {
    match next_step(m) {
        Step::LookupSecret => secret_exists,
        Step::LookupBucket => bucket_exists,
        _ => true,
    }
}

/// The record after at most `fuel` requests answered by working collaborators.
pub open spec fn run_working(
    m: Manifest,
    secret_exists: bool,
    bucket_exists: bool,
    now: u64,
    fuel: nat,
) -> Manifest
    decreases fuel,
{
    if fuel == 0 || next_step(m) == Step::Done {
        m
    } else {
        run_working(
            advanced(m, working_answer(m, secret_exists, bucket_exists), now),
            secret_exists,
            bucket_exists,
            now,
            (fuel - 1) as nat,
        )
    }
}

/// A first run for any name and target, with every outside collaborator
/// working, ends within nine requests in success, with the key escrowed, the
/// first archive made and the repository synced.
pub proof fn lemma_working_run_succeeds(
    config: &Config,
    name: Seq<char>,
    target: Seq<char>,
    repo: Repository,
    secret_exists: bool,
    bucket_exists: bool,
    now: u64,
)
    requires
        name.len() > 0,
        repo.derived_from(config, name, target),
    ensures
        ({
            let m = run_working(fresh(repo), secret_exists, bucket_exists, now, 9);
            &&& m.outcome == Outcome::Success
            &&& m.escrow == Status::Complete
            &&& m.backup == Status::Complete
            &&& m.bucket == Status::Complete
            &&& m.sync == Status::Complete
            &&& m.repo == repo
        }),
{
    reveal_with_fuel(run_working, 10);
}

/// Once the passphrase is stored, no later request of the run looks it up
/// or generates it again, and the record keeps the same repository and so
/// the same passphrase reference; a lookup that finds the passphrase is not
/// followed by a generation.
pub proof fn lemma_secret_generated_once(m: Manifest, ok: bool, now: u64)
    requires
        m.consistent(),
    ensures
        m.secret == Status::Complete ==> {
            &&& next_step(m) != Step::LookupSecret
            &&& next_step(m) != Step::GenerateSecret
            &&& advanced(m, ok, now).secret == Status::Complete
        },
        next_step(m) == Step::LookupSecret && ok ==> advanced(m, ok, now).secret
            == Status::Complete,
        advanced(m, ok, now).repo == m.repo,
{
}

/// Two descriptions of the same name under the same settings agree on the
/// passphrase reference.
pub proof fn lemma_secret_reference_is_stable(
    config: &Config,
    name: Seq<char>,
    first: Repository,
    first_target: Seq<char>,
    second: Repository,
    second_target: Seq<char>,
)
    requires
        first.derived_from(config, name, first_target),
        second.derived_from(config, name, second_target),
    ensures
        first.password_entry@ == second.password_entry@,
{
}

/// Another run after a failed first archive starts with the archive again,
/// over the path given to that run, and no request of it looks up or
/// generates the passphrase, initializes the repository or escrows its key.
pub proof fn lemma_resume_after_backup_failure(
    m: Manifest,
    target: String,
    force: bool,
    ok: bool,
    now: u64,
)
    requires
        m.consistent(),
        m.outcome == Outcome::FailedAt(Stage::BackupComplete),
    ensures
        resume_of(m, m.repo.repo_name@, target, force) is Ok,
        next_step(resume_of(m, m.repo.repo_name@, target, force)->Ok_0) == Step::CreateArchive,
        resume_of(m, m.repo.repo_name@, target, force)->Ok_0.repo == (Repository {
            backup_target: target,
            ..m.repo
        }),
        m.secret == Status::Complete,
        m.init == Status::Complete,
        m.escrow != Status::Pending,
{
}

/// In a record whose passphrase and repository exist and whose escrow was
/// attempted, the next request is none of the first three steps, and that
/// stays so after any answer.
pub proof fn lemma_early_steps_not_repeated(m: Manifest, ok: bool, now: u64)
    requires
        m.consistent(),
        m.secret == Status::Complete,
        m.init == Status::Complete,
        m.escrow != Status::Pending,
    ensures
        next_step(m) != Step::LookupSecret,
        next_step(m) != Step::GenerateSecret,
        next_step(m) != Step::InitRepository,
        next_step(m) != Step::EscrowKey,
        advanced(m, ok, now).secret == Status::Complete,
        advanced(m, ok, now).init == Status::Complete,
        advanced(m, ok, now).escrow != Status::Pending,
{
}

/// A failed repository initialization ends the run as failed at that
/// state, with no key escrow and no remote binding recorded.
pub proof fn lemma_init_failure_recorded(m: Manifest, now: u64)
    requires
        m.consistent(),
        next_step(m) == Step::InitRepository,
    ensures
        advanced(m, false, now).outcome == Outcome::FailedAt(Stage::RepoInitialized),
        advanced(m, false, now).escrow == Status::Pending,
        advanced(m, false, now).bucket == Status::Pending,
        advanced(m, false, now).sync == Status::Pending,
        next_step(advanced(m, false, now)) == Step::Done,
        error_of(advanced(m, false, now)) == Some(ProvisionError::RepositoryInitFailed),
{
}

/// A record whose run has not finished refuses a second run for the same
/// name, whatever `force` says.
pub proof fn lemma_unfinished_run_refused(m: Manifest, target: String, force: bool)
    requires
        m.consistent(),
        m.outcome == Outcome::InProgress,
    ensures
        resume_of(m, m.repo.repo_name@, target, force) == Err::<Manifest, ProvisionError>(
            ProvisionError::RunInProgress,
        ),
{
}

/// Every word that a command of the workflow may carry: fixed option words,
/// the configured passphrase length, and strings derived from the
/// repository's name, paths and secret-store references.
pub open spec fn public_words(m: Manifest, length: u64) -> Set<Seq<char>> {
    set![
        "show"@, "-1"@, "--symbols"@, "--secure"@, "insert"@, "--multiline"@, "init"@,
        "--encryption"@, "repokey"@, "key"@, "export"@, "create"@, "--verbose"@, "--stats"@,
        "encrypt"@, "-"@, "bucket"@, "get"@, "allPrivate"@, "sync"@,
        decimal_of(length as nat),
        m.repo.repo_name@,
        m.repo.password_entry@,
        m.repo.key_entry@,
        m.repo.repo_path@,
        m.repo.backup_target@,
        archive_name_of(m.repo.repo_path@, initial_archive_label()),
        "--name="@ + m.repo.repo_name@,
        m.repo.credential@,
        m.repo.bucket@,
        "b2://"@ + m.repo.bucket@,
        "pass show "@ + m.repo.password_entry@,
    ]
}

/// `needle` occurs somewhere inside `hay`.
pub open spec fn occurs_in(needle: Seq<char>, hay: Seq<char>) -> bool {
    exists|i: int|
        0 <= i && i + needle.len() <= hay.len() && #[trigger] hay.subrange(i, i + needle.len())
            == needle
}

/// The passphrase occurs in none of the public words of `m`.
pub open spec fn absent_from_public_words(m: Manifest, length: u64, passphrase: Seq<char>) -> bool {
    forall|w: Seq<char>| #[trigger] public_words(m, length).contains(w) ==> !occurs_in(passphrase, w)
}

/// The command sets no environment variable to a value holding `text`.
pub open spec fn env_value_clean(c: CommandModel, text: Seq<char>) -> bool {
    match c.env {
        Some((_, value)) => !occurs_in(text, value),
        None => true,
    }
}

/// No request hands the unlock passphrase to a process in its argument list
/// or its environment: every argument and every environment value is a
/// public word, so the passphrase, which the library never receives, occurs
/// in none of them unless it occurs in a public word. It reaches the tools
/// that need it through a pipe or through the secret store itself.
pub proof fn lemma_passphrase_not_in_commands(m: Manifest, step: Step, length: u64, passphrase: Seq<char>)
    requires
        absent_from_public_words(m, length, passphrase),
    ensures
        forall|i: int, j: int|
            0 <= i < step_model(m, step, length).len()
                && 0 <= j < step_model(m, step, length)[i].args.len()
                ==> public_words(m, length).contains(#[trigger] step_model(m, step, length)[i].args[j])
                && !occurs_in(passphrase, step_model(m, step, length)[i].args[j]),
        forall|i: int|
            0 <= i < step_model(m, step, length).len()
                ==> env_value_clean(#[trigger] step_model(m, step, length)[i], passphrase),
{
    let w = public_words(m, length);
    let cmds = step_model(m, step, length);
    assert forall|i: int, j: int|
        0 <= i < cmds.len() && 0 <= j < cmds[i].args.len() implies w.contains(#[trigger] cmds[i].args[j]) by {
        match step {
            Step::Done => {},
            _ => {
                assert(cmds[i].args.contains(cmds[i].args[j]));
            },
        }
    }
    assert forall|i: int| 0 <= i < cmds.len() implies env_value_clean(#[trigger] cmds[i], passphrase) by {
        match cmds[i].env {
            Some((_, value)) => {
                assert(w.contains(value));
            },
            None => {},
        }
    }
}

/// The values of the saved record of `m`, one per line, in order.
pub open spec fn record_values(m: Manifest) -> Seq<Seq<char>> {
    seq![
        m.repo.repo_name@,
        m.repo.repo_path@,
        m.repo.backup_target@,
        m.repo.password_entry@,
        m.repo.key_entry@,
        m.repo.bucket@,
        m.repo.credential@,
        status_word(m.secret),
        status_word(m.init),
        status_word(m.escrow),
        status_word(m.backup),
        time_word(m.backup_at),
        status_word(m.creds),
        status_word(m.bucket),
        status_word(m.sync),
        outcome_word(m.outcome),
    ]
}

/// The saved record holds no passphrase: each of its lines is a fixed key,
/// `=`, and one value, which is either a public word or a status, time or
/// outcome word; so the passphrase occurs in no value unless it occurs in
/// one of those words.
pub proof fn lemma_passphrase_not_in_record(m: Manifest, length: u64, passphrase: Seq<char>)
    requires
        absent_from_public_words(m, length, passphrase),
        forall|k: int| 7 <= k < 16 ==> !occurs_in(passphrase, #[trigger] record_values(m)[k]),
    ensures
        record_lines(m).len() == 16,
        forall|k: int|
            0 <= k < 16 ==> exists|key: Seq<char>| #[trigger] record_lines(m)[k] == key + "="@
                + record_values(m)[k],
        forall|k: int| 0 <= k < 16 ==> !occurs_in(passphrase, #[trigger] record_values(m)[k]),
{
    let w = public_words(m, length);
    let v = record_values(m);
    assert(w.contains(v[0]) && w.contains(v[1]) && w.contains(v[2]) && w.contains(v[3]));
    assert(w.contains(v[4]) && w.contains(v[5]) && w.contains(v[6]));
    let ls = record_lines(m);
    assert(ls[0] == "name"@ + "="@ + v[0]);
    assert(ls[1] == "location"@ + "="@ + v[1]);
    assert(ls[2] == "target"@ + "="@ + v[2]);
    assert(ls[3] == "password-entry"@ + "="@ + v[3]);
    assert(ls[4] == "key-entry"@ + "="@ + v[4]);
    assert(ls[5] == "bucket"@ + "="@ + v[5]);
    assert(ls[6] == "credential"@ + "="@ + v[6]);
    assert(ls[7] == "secret"@ + "="@ + v[7]);
    assert(ls[8] == "init"@ + "="@ + v[8]);
    assert(ls[9] == "escrow"@ + "="@ + v[9]);
    assert(ls[10] == "backup"@ + "="@ + v[10]);
    assert(ls[11] == "backup-at"@ + "="@ + v[11]);
    assert(ls[12] == "creds"@ + "="@ + v[12]);
    assert(ls[13] == "remote-bucket"@ + "="@ + v[13]);
    assert(ls[14] == "sync"@ + "="@ + v[14]);
    assert(ls[15] == "outcome"@ + "="@ + v[15]);
}

/// Cancelling a run keeps its record consistent and ends the run; another
/// run for the same name then takes up the interrupted request again.
pub proof fn lemma_abort_resumable(m: Manifest, target: String, force: bool)
    requires
        m.consistent(),
        next_step(m) != Step::Done,
    ensures
        aborted(m).consistent(),
        next_step(aborted(m)) == Step::Done,
        resume_of(aborted(m), m.repo.repo_name@, target, force) is Ok,
        next_step(resume_of(aborted(m), m.repo.repo_name@, target, force)->Ok_0) == next_step(m),
{
}

} // verus!
