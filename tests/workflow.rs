use borg_provision::args::Init;
use borg_provision::command::Invocation;
use borg_provision::config::Config;
use borg_provision::manifest::{begin, init, Manifest, Outcome, ProvisionError, Stage, Status, Step};
use borg_provision::repository::Repository;
use borg_provision::text::decimal;

fn photos() -> Manifest {
    begin(
        &Config::standard(),
        "photos".to_string(),
        "/data/photos".to_string(),
        None,
        false,
    )
    .unwrap()
}

/// Answers requests until the run ends; `answer` decides each request's result.
fn drive(m: &mut Manifest, answer: impl Fn(Step) -> bool) -> Vec<Step> {
    let mut steps = Vec::new();
    let mut now = 1000;
    while m.next_step() != Step::Done {
        let step = m.next_step();
        steps.push(step);
        m.advance(answer(step), now);
        now += 1;
        assert!(steps.len() < 20);
    }
    steps
}

fn working(step: Step) -> bool {
    !matches!(step, Step::LookupSecret | Step::LookupBucket)
}

fn args_of(i: &Invocation) -> Vec<Vec<String>> {
    i.stages.iter().map(|c| c.args.clone()).collect()
}

#[test]
fn standard_config() {
    let c = Config::standard();
    assert_eq!(c.password_length, 32);
    assert_eq!(c.base_directory, "/archive");
    assert_eq!(c.secret_path_prefix, "backups");
    assert_eq!(c.credential_directory, "/etc/credstore.encrypted");
}

#[test]
fn repository_paths_are_derived() {
    let r = Repository::new(&Config::standard(), "photos".to_string(), "/data/photos".to_string());
    assert_eq!(r.repo_name, "photos");
    assert_eq!(r.repo_path, "/archive/photos");
    assert_eq!(r.backup_target, "/data/photos");
    assert_eq!(r.password_entry, "backups/photos/password");
    assert_eq!(r.key_entry, "backups/photos/borg-key");
    assert_eq!(r.bucket, "backups-photos");
    assert_eq!(r.credential, "/etc/credstore.encrypted/photos.cred");
}

#[test]
fn archive_name_joins_path_and_label() {
    let r = Repository::new(&Config::standard(), "photos".to_string(), "/data/photos".to_string());
    assert_eq!(r.archive_name("initial backup"), "/archive/photos::initial backup");
    assert_eq!(r.archive_name(""), "/archive/photos::");
}

#[test]
fn decimal_writes_digits() {
    assert_eq!(decimal(0), "0");
    assert_eq!(decimal(7), "7");
    assert_eq!(decimal(32), "32");
    assert_eq!(decimal(1000), "1000");
    assert_eq!(decimal(u64::MAX), u64::MAX.to_string());
}

#[test]
fn generate_secret_pipes_pwgen_into_pass() {
    let r = Repository::new(&Config::standard(), "photos".to_string(), "/data/photos".to_string());
    let i = r.generate_secret(32);
    assert_eq!(i.stages.len(), 2);
    assert_eq!(i.stages[0].program, "pwgen");
    assert_eq!(i.stages[1].program, "pass");
    assert_eq!(
        args_of(&i),
        vec![
            vec!["-1", "--symbols", "--secure", "32"],
            vec!["insert", "--multiline", "backups/photos/password"],
        ]
    );
    assert!(i.stages[0].env.is_none());
}

#[test]
fn borg_commands_use_passcommand() {
    let r = Repository::new(&Config::standard(), "photos".to_string(), "/data/photos".to_string());
    let env = Some(("BORG_PASSCOMMAND".to_string(), "pass show backups/photos/password".to_string()));

    let init = r.init_repository();
    assert_eq!(init.stages[0].program, "borg");
    assert_eq!(args_of(&init), vec![vec!["init", "--encryption", "repokey", "/archive/photos"]]);
    assert_eq!(init.stages[0].env, env);

    let escrow = r.escrow_key();
    assert_eq!(
        args_of(&escrow),
        vec![
            vec!["key", "export", "/archive/photos"],
            vec!["insert", "--multiline", "backups/photos/borg-key"],
        ]
    );
    assert_eq!(escrow.stages[0].env, env);
    assert!(escrow.stages[1].env.is_none());

    let backup = r.backup("initial backup");
    assert_eq!(
        args_of(&backup),
        vec![vec!["create", "--verbose", "--stats", "/archive/photos::initial backup", "/data/photos"]]
    );
    assert_eq!(backup.stages[0].env, env);
}

#[test]
fn seal_and_remote_commands() {
    let r = Repository::new(&Config::standard(), "photos".to_string(), "/data/photos".to_string());
    let seal = r.seal();
    assert_eq!(seal.stages[0].program, "pass");
    assert_eq!(seal.stages[1].program, "systemd-creds");
    assert_eq!(
        args_of(&seal),
        vec![
            vec!["show", "backups/photos/password"],
            vec!["encrypt", "--name=photos", "-", "/etc/credstore.encrypted/photos.cred"],
        ]
    );
    assert_eq!(args_of(&r.lookup_secret()), vec![vec!["show", "backups/photos/password"]]);
    assert_eq!(args_of(&r.lookup_bucket()), vec![vec!["bucket", "get", "backups-photos"]]);
    assert_eq!(
        args_of(&r.create_bucket()),
        vec![vec!["bucket", "create", "backups-photos", "allPrivate"]]
    );
    assert_eq!(
        args_of(&r.sync()),
        vec![vec!["sync", "/archive/photos", "b2://backups-photos"]]
    );
}

#[test]
fn end_to_end_photos() {
    let mut m = photos();
    assert_eq!(m.outcome, Outcome::InProgress);
    let steps = drive(&mut m, working);
    assert_eq!(
        steps,
        vec![
            Step::LookupSecret,
            Step::GenerateSecret,
            Step::InitRepository,
            Step::EscrowKey,
            Step::CreateArchive,
            Step::SealCredential,
            Step::LookupBucket,
            Step::CreateBucket,
            Step::Sync,
        ]
    );
    assert_eq!(m.repo.repo_name, "photos");
    assert_eq!(m.repo.repo_path, "/archive/photos");
    assert_eq!(m.repo.bucket, "backups-photos");
    assert_eq!(m.escrow, Status::Complete);
    assert_eq!(m.backup, Status::Complete);
    assert_eq!(m.backup_at, Some(1004));
    assert_eq!(m.bucket, Status::Complete);
    assert_eq!(m.sync, Status::Complete);
    assert_eq!(m.outcome, Outcome::Success);
    assert_eq!(m.error(), None);
    assert!(m.invocation(&Config::standard()).is_none());
}

#[test]
fn successful_run_with_existing_secret_and_bucket() {
    let mut m = photos();
    let steps = drive(&mut m, |_| true);
    assert!(!steps.contains(&Step::GenerateSecret));
    assert!(!steps.contains(&Step::CreateBucket));
    assert_eq!(m.outcome, Outcome::Success);
    assert_eq!(m.escrow, Status::Complete);
    assert_eq!(m.sync, Status::Complete);
}

#[test]
fn secret_reference_is_reused() {
    let first = photos();
    let second = photos();
    assert_eq!(first.repo.password_entry, second.repo.password_entry);

    let mut m = photos();
    m.advance(true, 1);
    assert_eq!(m.secret, Status::Complete);
    assert_eq!(m.next_step(), Step::InitRepository);

    let mut m = photos();
    m.advance(false, 1);
    m.advance(true, 2);
    m.advance(false, 3);
    assert_eq!(m.outcome, Outcome::FailedAt(Stage::RepoInitialized));
    let text = m.save();
    let again = begin(
        &Config::standard(),
        "photos".to_string(),
        "/data/photos".to_string(),
        Manifest::load(&text),
        false,
    )
    .unwrap();
    assert_eq!(again.repo.password_entry, "backups/photos/password");
    assert_eq!(again.next_step(), Step::InitRepository);
}

#[test]
fn backup_failure_resumes_at_backup() {
    let mut m = photos();
    let steps = drive(&mut m, |s| s != Step::CreateArchive && working(s));
    assert_eq!(steps.last(), Some(&Step::CreateArchive));
    assert_eq!(m.outcome, Outcome::FailedAt(Stage::BackupComplete));
    assert_eq!(m.error(), Some(ProvisionError::BackupFailed));
    assert_eq!(m.escrow, Status::Complete);

    let m = Manifest::load(&m.save()).unwrap();
    let mut m = m.resume(&"photos".to_string(), "/data/photos".to_string(), false).unwrap();
    assert_eq!(m.next_step(), Step::CreateArchive);
    let steps = drive(&mut m, working);
    assert_eq!(steps[0], Step::CreateArchive);
    for s in [Step::LookupSecret, Step::GenerateSecret, Step::InitRepository, Step::EscrowKey] {
        assert!(!steps.contains(&s));
    }
    assert_eq!(m.outcome, Outcome::Success);
}

#[test]
fn init_failure_record() {
    let mut m = photos();
    drive(&mut m, |s| s != Step::InitRepository && working(s));
    assert_eq!(m.outcome, Outcome::FailedAt(Stage::RepoInitialized));
    assert_eq!(m.escrow, Status::Pending);
    assert_eq!(m.bucket, Status::Pending);
    assert_eq!(m.sync, Status::Pending);
    assert_eq!(m.error(), Some(ProvisionError::RepositoryInitFailed));
    let text = m.save();
    assert!(text.contains("outcome=failed-at-RepoInitialized\n"));
    assert!(text.contains("escrow=pending\n"));
}

#[test]
fn unfinished_run_is_refused() {
    let m = photos();
    let text = m.save();
    assert!(text.contains("outcome=in-progress\n"));
    let r = begin(
        &Config::standard(),
        "photos".to_string(),
        "/data/photos".to_string(),
        Manifest::load(&text),
        true,
    );
    assert_eq!(r.err(), Some(ProvisionError::RunInProgress));
}

#[test]
fn passphrase_never_in_commands_or_record() {
    let passphrase = "x7#Qv!pL0@zR2%mN9&tB4*eW1^kY6$hS";
    let config = Config::standard();
    let mut m = photos();
    while let Some(i) = m.invocation(&config) {
        for c in &i.stages {
            assert!(c.args.iter().all(|a| !a.contains(passphrase)));
            if let Some((_, value)) = &c.env {
                assert!(!value.contains(passphrase));
            }
        }
        let step = m.next_step();
        m.advance(working(step), 5);
    }
    assert_eq!(m.outcome, Outcome::Success);
    assert!(!m.save().contains(passphrase));
}

#[test]
fn empty_name_is_refused() {
    let r = begin(&Config::standard(), String::new(), "/data".to_string(), None, false);
    assert_eq!(r.err(), Some(ProvisionError::EmptyName));
}

#[test]
fn record_of_other_repository_is_refused() {
    let mut m = photos();
    m.advance(false, 1);
    m.advance(false, 2);
    let r = begin(
        &Config::standard(),
        "music".to_string(),
        "/data/music".to_string(),
        Some(m),
        false,
    );
    assert_eq!(r.err(), Some(ProvisionError::ManifestMismatch));
}

#[test]
fn completed_run_needs_force() {
    let mut m = photos();
    drive(&mut m, |s| s != Step::EscrowKey && working(s));
    assert_eq!(m.outcome, Outcome::Partial);
    assert_eq!(m.error(), Some(ProvisionError::KeyEscrowFailed));
    let text = m.save();

    let refused = Manifest::load(&text).unwrap().resume(&"photos".to_string(), "/data/photos".to_string(), false);
    assert_eq!(refused.err(), Some(ProvisionError::AlreadyComplete));

    let mut m = Manifest::load(&text).unwrap().resume(&"photos".to_string(), "/data/photos".to_string(), true).unwrap();
    assert_eq!(m.next_step(), Step::EscrowKey);
    let steps = drive(&mut m, working);
    assert_eq!(steps, vec![Step::EscrowKey]);
    assert_eq!(m.outcome, Outcome::Success);
}

#[test]
fn degraded_and_retryable_failures() {
    let mut m = photos();
    drive(&mut m, |s| s != Step::SealCredential && working(s));
    assert_eq!(m.outcome, Outcome::Partial);
    assert_eq!(m.error(), Some(ProvisionError::SealingFailed));
    assert_eq!(m.sync, Status::Complete);

    let mut m = photos();
    drive(&mut m, |s| s != Step::GenerateSecret && working(s));
    assert_eq!(m.outcome, Outcome::FailedAt(Stage::SecretGenerated));
    assert_eq!(m.error(), Some(ProvisionError::SecretGenerationFailed));
    assert_eq!(m.init, Status::Pending);

    let mut m = photos();
    drive(&mut m, |s| s != Step::Sync && working(s));
    assert_eq!(m.outcome, Outcome::FailedAt(Stage::Synced));
    assert_eq!(m.error(), Some(ProvisionError::SyncFailed));
    let mut m = m.resume(&"photos".to_string(), "/data/photos".to_string(), false).unwrap();
    let steps = drive(&mut m, working);
    assert_eq!(steps, vec![Step::Sync]);
    assert_eq!(m.outcome, Outcome::Success);

    let mut m = photos();
    drive(&mut m, |s| s != Step::CreateBucket && working(s));
    assert_eq!(m.outcome, Outcome::FailedAt(Stage::Synced));
    let mut m = m.resume(&"photos".to_string(), "/data/photos".to_string(), false).unwrap();
    let steps = drive(&mut m, working);
    assert_eq!(steps, vec![Step::LookupBucket, Step::CreateBucket, Step::Sync]);
}

#[test]
fn record_text_and_round_trip() {
    let mut m = photos();
    drive(&mut m, working);
    let text = m.save();
    assert_eq!(
        text,
        "name=photos\nlocation=/archive/photos\ntarget=/data/photos\n\
password-entry=backups/photos/password\nkey-entry=backups/photos/borg-key\n\
bucket=backups-photos\ncredential=/etc/credstore.encrypted/photos.cred\n\
secret=complete\ninit=complete\nescrow=complete\nbackup=complete\nbackup-at=1004\n\
creds=complete\nremote-bucket=complete\nsync=complete\noutcome=success\n"
    );
    let loaded = Manifest::load(&text).unwrap();
    assert_eq!(loaded.save(), text);
    assert_eq!(loaded.backup_at, Some(1004));
    assert_eq!(loaded.outcome, Outcome::Success);

    let fresh = photos();
    let loaded = Manifest::load(&fresh.save()).unwrap();
    assert_eq!(loaded.backup_at, None);
    assert_eq!(loaded.secret, Status::Pending);
}

#[test]
fn malformed_records_are_rejected() {
    assert!(Manifest::load("").is_none());
    assert!(Manifest::load("name=photos\n").is_none());
    let text = photos().save();
    assert!(Manifest::load(&text.replace("secret=pending", "secret=maybe")).is_none());
    assert!(Manifest::load(&text.replace("backup-at=none", "backup-at=12x")).is_none());
    assert!(Manifest::load(&text.replace("outcome=in-progress", "outcome=done")).is_none());
    assert!(Manifest::load(&text[..text.len() - 1]).is_none());
}

#[test]
fn init_command_starts_a_run() {
    let args = Init { name: "photos".to_string(), path: "/data/photos".to_string() };
    let m = init(&Config::standard(), args, None, false).unwrap();
    assert_eq!(m.repo.repo_path, "/archive/photos");
    assert_eq!(m.repo.backup_target, "/data/photos");
    assert_eq!(m.next_step(), Step::LookupSecret);
    let empty = Init { name: String::new(), path: "/data".to_string() };
    assert_eq!(init(&Config::standard(), empty, None, false).err(), Some(ProvisionError::EmptyName));
}

#[test]
fn resumed_backup_uses_new_target() {
    let mut m = photos();
    drive(&mut m, |s| s != Step::CreateArchive && working(s));
    let text = m.save();
    let mut m = begin(
        &Config::standard(),
        "photos".to_string(),
        "/data/pictures".to_string(),
        Manifest::load(&text),
        false,
    )
    .unwrap();
    assert_eq!(m.repo.backup_target, "/data/pictures");
    let inv = m.invocation(&Config::standard()).unwrap();
    assert_eq!(
        args_of(&inv),
        vec![vec!["create", "--verbose", "--stats", "/archive/photos::initial backup", "/data/pictures"]]
    );
    drive(&mut m, working);
    assert_eq!(m.outcome, Outcome::Success);
}

#[test]
fn cancelled_run_resumes_at_interrupted_step() {
    let mut m = photos();
    m.advance(true, 1);
    m.advance(true, 2);
    assert_eq!(m.next_step(), Step::EscrowKey);
    m.abort();
    assert_eq!(m.outcome, Outcome::FailedAt(Stage::KeyEscrowed));
    assert_eq!(m.escrow, Status::Pending);
    assert_eq!(m.next_step(), Step::Done);
    assert_eq!(m.error(), Some(ProvisionError::KeyEscrowFailed));
    let text = m.save();
    assert!(text.contains("outcome=failed-at-KeyEscrowed\n"));
    let m = Manifest::load(&text).unwrap();
    let m = m.resume(&"photos".to_string(), "/data/photos".to_string(), false).unwrap();
    assert_eq!(m.next_step(), Step::EscrowKey);
}

#[test]
fn line_breaks_are_refused() {
    let r = begin(&Config::standard(), "pho\ntos".to_string(), "/data".to_string(), None, false);
    assert_eq!(r.err(), Some(ProvisionError::LineBreakInField));
    let r = begin(&Config::standard(), "photos".to_string(), "/da\nta".to_string(), None, false);
    assert_eq!(r.err(), Some(ProvisionError::LineBreakInField));
    let mut m = photos();
    drive(&mut m, |s| s != Step::Sync && working(s));
    let r = begin(
        &Config::standard(),
        "photos".to_string(),
        "/da\nta".to_string(),
        Some(m),
        false,
    );
    assert_eq!(r.err(), Some(ProvisionError::LineBreakInField));
}

#[test]
fn config_validity() {
    let mut c = Config::standard();
    assert!(c.is_valid());
    c.password_length = 31;
    assert!(!c.is_valid());
}

#[test]
fn save_then_load_gives_same_record() {
    let mut m = photos();
    drive(&mut m, |s| s != Step::SealCredential && working(s));
    let l = Manifest::load(&m.save()).unwrap();
    assert_eq!(l.repo.repo_name, m.repo.repo_name);
    assert_eq!(l.repo.repo_path, m.repo.repo_path);
    assert_eq!(l.repo.backup_target, m.repo.backup_target);
    assert_eq!(l.repo.password_entry, m.repo.password_entry);
    assert_eq!(l.repo.key_entry, m.repo.key_entry);
    assert_eq!(l.repo.bucket, m.repo.bucket);
    assert_eq!(l.repo.credential, m.repo.credential);
    assert_eq!(l.creds, Status::Failed);
    assert_eq!(l.backup_at, m.backup_at);
    assert_eq!(l.outcome, Outcome::Partial);
}
