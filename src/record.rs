use vstd::prelude::*;

use crate::manifest::{Manifest, Outcome, Stage, Status};
use crate::repository::Repository;
use crate::text::{decimal, decimal_of, is_digit, lemma_decimal_digits, parse_decimal};

verus! {

/// One `key=value` line of a saved record.
pub open spec fn line(key: Seq<char>, value: Seq<char>) -> Seq<char> {
    key + "="@ + value + "\n"@
}

pub open spec fn status_word(s: Status) -> Seq<char> {
    match s {
        Status::Pending => "pending"@,
        Status::Absent => "absent"@,
        Status::Complete => "complete"@,
        Status::Failed => "failed"@,
    }
}

pub open spec fn outcome_word(o: Outcome) -> Seq<char> {
    match o {
        Outcome::InProgress => "in-progress"@,
        Outcome::Success => "success"@,
        Outcome::Partial => "partial"@,
        Outcome::FailedAt(Stage::SecretGenerated) => "failed-at-SecretGenerated"@,
        Outcome::FailedAt(Stage::RepoInitialized) => "failed-at-RepoInitialized"@,
        Outcome::FailedAt(Stage::KeyEscrowed) => "failed-at-KeyEscrowed"@,
        Outcome::FailedAt(Stage::BackupComplete) => "failed-at-BackupComplete"@,
        Outcome::FailedAt(Stage::Sealed) => "failed-at-Sealed"@,
        Outcome::FailedAt(Stage::Synced) => "failed-at-Synced"@,
    }
}

pub open spec fn time_word(t: Option<u64>) -> Seq<char> {
    match t {
        Some(n) => decimal_of(n as nat),
        None => "none"@,
    }
}

/// The saved text of a record: one line per field, in a fixed order.
pub open spec fn encoded(m: Manifest) -> Seq<char> {
    line("name"@, m.repo.repo_name@)
        + line("location"@, m.repo.repo_path@)
        + line("target"@, m.repo.backup_target@)
        + line("password-entry"@, m.repo.password_entry@)
        + line("key-entry"@, m.repo.key_entry@)
        + line("bucket"@, m.repo.bucket@)
        + line("credential"@, m.repo.credential@)
        + line("secret"@, status_word(m.secret))
        + line("init"@, status_word(m.init))
        + line("escrow"@, status_word(m.escrow))
        + line("backup"@, status_word(m.backup))
        + line("backup-at"@, time_word(m.backup_at))
        + line("creds"@, status_word(m.creds))
        + line("remote-bucket"@, status_word(m.bucket))
        + line("sync"@, status_word(m.sync))
        + line("outcome"@, outcome_word(m.outcome))
}

fn push_line(out: &mut String, key: &str, value: &str)
    ensures
        final(out)@ == old(out)@ + line(key@, value@),
{
    out.append(key);
    out.append("=");
    out.append(value);
    out.append("\n");
    assert(final(out)@ =~= old(out)@ + line(key@, value@));
}

fn status_text(s: Status) -> (r: &'static str)
    ensures
        r@ == status_word(s),
{
    match s {
        Status::Pending => "pending",
        Status::Absent => "absent",
        Status::Complete => "complete",
        Status::Failed => "failed",
    }
}

fn outcome_text(o: Outcome) -> (r: &'static str)
    ensures
        r@ == outcome_word(o),
{
    match o {
        Outcome::InProgress => "in-progress",
        Outcome::Success => "success",
        Outcome::Partial => "partial",
        Outcome::FailedAt(Stage::SecretGenerated) => "failed-at-SecretGenerated",
        Outcome::FailedAt(Stage::RepoInitialized) => "failed-at-RepoInitialized",
        Outcome::FailedAt(Stage::KeyEscrowed) => "failed-at-KeyEscrowed",
        Outcome::FailedAt(Stage::BackupComplete) => "failed-at-BackupComplete",
        Outcome::FailedAt(Stage::Sealed) => "failed-at-Sealed",
        Outcome::FailedAt(Stage::Synced) => "failed-at-Synced",
    }
}

fn time_text(t: Option<u64>) -> (r: String)
    ensures
        r@ == time_word(t),
{
    match t {
        Some(n) => decimal(n),
        None => String::from_str("none"),
    }
}

impl Manifest {
    /// The text under which the record is stored.
    pub fn save(&self) -> (r: String)
        ensures
            r@ == encoded(*self),
    {
        let mut out = String::new();
        push_line(&mut out, "name", self.repo.repo_name.as_str());
        assert(out@ =~= line("name"@, self.repo.repo_name@));
        push_line(&mut out, "location", self.repo.repo_path.as_str());
        push_line(&mut out, "target", self.repo.backup_target.as_str());
        push_line(&mut out, "password-entry", self.repo.password_entry.as_str());
        push_line(&mut out, "key-entry", self.repo.key_entry.as_str());
        push_line(&mut out, "bucket", self.repo.bucket.as_str());
        push_line(&mut out, "credential", self.repo.credential.as_str());
        push_line(&mut out, "secret", status_text(self.secret));
        push_line(&mut out, "init", status_text(self.init));
        push_line(&mut out, "escrow", status_text(self.escrow));
        push_line(&mut out, "backup", status_text(self.backup));
        let at = time_text(self.backup_at);
        push_line(&mut out, "backup-at", at.as_str());
        push_line(&mut out, "creds", status_text(self.creds));
        push_line(&mut out, "remote-bucket", status_text(self.bucket));
        push_line(&mut out, "sync", status_text(self.sync));
        push_line(&mut out, "outcome", outcome_text(self.outcome));
        out
    }
}

pub open spec fn no_newline(s: Seq<char>) -> bool {
    forall|i: int| 0 <= i < s.len() ==> s[i] != '\n'
}

/// The lines `ls`, each followed by a newline.
pub open spec fn join_lines(ls: Seq<Seq<char>>) -> Seq<char>
    decreases ls.len(),
{
    if ls.len() == 0 {
        Seq::empty()
    } else {
        join_lines(ls.drop_last()) + ls.last() + seq!['\n']
    }
}

pub open spec fn all_single_line(ls: Seq<Seq<char>>) -> bool {
    forall|k: int| 0 <= k < ls.len() ==> no_newline(#[trigger] ls[k])
}

/// Text made of newline-terminated lines splits back into those lines only.
proof fn lemma_join_unique(a: Seq<Seq<char>>, b: Seq<Seq<char>>)
    requires
        all_single_line(a),
        all_single_line(b),
        join_lines(a) == join_lines(b),
    ensures
        a == b,
    decreases a.len() + b.len(),
{
    if a.len() == 0 && b.len() == 0 {
        assert(a =~= b);
    } else if a.len() == 0 {
        assert(join_lines(b).len() > 0);
    } else if b.len() == 0 {
        assert(join_lines(a).len() > 0);
    } else {
        let pa = join_lines(a.drop_last());
        let pb = join_lines(b.drop_last());
        let x = a.last();
        let y = b.last();
        let ja = pa + x;
        let jb = pb + y;
        assert(ja =~= join_lines(a).drop_last());
        assert(jb =~= join_lines(b).drop_last());
        assert(no_newline(x)) by { assert(x == a[a.len() - 1]); }
        assert(no_newline(y)) by { assert(y == b[b.len() - 1]); }
        if x.len() < y.len() {
            assert(a.drop_last().len() > 0 || pa.len() == 0);
            if a.drop_last().len() == 0 {
                assert(ja.len() < jb.len());
            } else {
                let k = pa.len() - 1;
                assert(pa[k] == '\n');
                assert(ja[k] == '\n');
                assert(jb[k] == y[k - pb.len()]);
            }
        } else if y.len() < x.len() {
            if b.drop_last().len() == 0 {
                assert(jb.len() < ja.len());
            } else {
                let k = pb.len() - 1;
                assert(pb[k] == '\n');
                assert(jb[k] == '\n');
                assert(ja[k] == x[k - pa.len()]);
            }
        }
        assert(x.len() == y.len());
        assert(pa =~= ja.subrange(0, pa.len() as int));
        assert(pb =~= jb.subrange(0, pb.len() as int));
        assert(x =~= ja.subrange(pa.len() as int, ja.len() as int));
        assert(y =~= jb.subrange(pb.len() as int, jb.len() as int));
        assert(all_single_line(a.drop_last()));
        assert(all_single_line(b.drop_last()));
        lemma_join_unique(a.drop_last(), b.drop_last());
        assert(a =~= a.drop_last().push(x));
        assert(b =~= b.drop_last().push(y));
    }
}

/// The lines of the saved text of `m`, without their newlines.
pub open spec fn record_lines(m: Manifest) -> Seq<Seq<char>> {
    Seq::empty()
        .push("name"@ + "="@ + m.repo.repo_name@)
        .push("location"@ + "="@ + m.repo.repo_path@)
        .push("target"@ + "="@ + m.repo.backup_target@)
        .push("password-entry"@ + "="@ + m.repo.password_entry@)
        .push("key-entry"@ + "="@ + m.repo.key_entry@)
        .push("bucket"@ + "="@ + m.repo.bucket@)
        .push("credential"@ + "="@ + m.repo.credential@)
        .push("secret"@ + "="@ + status_word(m.secret))
        .push("init"@ + "="@ + status_word(m.init))
        .push("escrow"@ + "="@ + status_word(m.escrow))
        .push("backup"@ + "="@ + status_word(m.backup))
        .push("backup-at"@ + "="@ + time_word(m.backup_at))
        .push("creds"@ + "="@ + status_word(m.creds))
        .push("remote-bucket"@ + "="@ + status_word(m.bucket))
        .push("sync"@ + "="@ + status_word(m.sync))
        .push("outcome"@ + "="@ + outcome_word(m.outcome))
}

/// `a` and `b` hold the same names, paths, statuses, time and outcome.
pub open spec fn same_record(a: Manifest, b: Manifest) -> bool {
    &&& a.repo.repo_name@ == b.repo.repo_name@
    &&& a.repo.repo_path@ == b.repo.repo_path@
    &&& a.repo.backup_target@ == b.repo.backup_target@
    &&& a.repo.password_entry@ == b.repo.password_entry@
    &&& a.repo.key_entry@ == b.repo.key_entry@
    &&& a.repo.bucket@ == b.repo.bucket@
    &&& a.repo.credential@ == b.repo.credential@
    &&& a.secret == b.secret
    &&& a.init == b.init
    &&& a.escrow == b.escrow
    &&& a.backup == b.backup
    &&& a.backup_at == b.backup_at
    &&& a.creds == b.creds
    &&& a.bucket == b.bucket
    &&& a.sync == b.sync
    &&& a.outcome == b.outcome
}

/// The text fields of `m` hold no newline.
pub open spec fn single_line_fields(m: Manifest) -> bool {
    &&& no_newline(m.repo.repo_name@)
    &&& no_newline(m.repo.repo_path@)
    &&& no_newline(m.repo.backup_target@)
    &&& no_newline(m.repo.password_entry@)
    &&& no_newline(m.repo.key_entry@)
    &&& no_newline(m.repo.bucket@)
    &&& no_newline(m.repo.credential@)
}

proof fn lemma_join_push(ls: Seq<Seq<char>>, x: Seq<char>)
    ensures
        join_lines(ls.push(x)) == join_lines(ls) + x + seq!['\n'],
{
    assert(ls.push(x).drop_last() =~= ls);
}

pub proof fn lemma_no_newline_concat(a: Seq<char>, b: Seq<char>)
    requires
        no_newline(a),
        no_newline(b),
    ensures
        no_newline(a + b),
{
    assert forall|i: int| 0 <= i < (a + b).len() implies (a + b)[i] != '\n' by {
        if i >= a.len() {
            assert((a + b)[i] == b[i - a.len()]);
        }
    }
}

proof fn lemma_words_single_line(m: Manifest)
    ensures
        no_newline(status_word(m.secret)),
        no_newline(status_word(m.init)),
        no_newline(status_word(m.escrow)),
        no_newline(status_word(m.backup)),
        no_newline(status_word(m.creds)),
        no_newline(status_word(m.bucket)),
        no_newline(status_word(m.sync)),
        no_newline(time_word(m.backup_at)),
        no_newline(outcome_word(m.outcome)),
{
    reveal_strlit("pending");
    reveal_strlit("absent");
    reveal_strlit("complete");
    reveal_strlit("failed");
    reveal_strlit("none");
    reveal_strlit("in-progress");
    reveal_strlit("success");
    reveal_strlit("partial");
    reveal_strlit("failed-at-SecretGenerated");
    reveal_strlit("failed-at-RepoInitialized");
    reveal_strlit("failed-at-KeyEscrowed");
    reveal_strlit("failed-at-BackupComplete");
    reveal_strlit("failed-at-Sealed");
    reveal_strlit("failed-at-Synced");
    if let Some(n) = m.backup_at {
        lemma_decimal_digits(n as nat);
    }
}

/// The saved text of `m` is its record lines, each followed by a newline.
#[verifier::rlimit(60)]
proof fn lemma_encoded_lines(m: Manifest)
    ensures
        encoded(m) == join_lines(record_lines(m)),
{
    reveal_strlit("\n");
    assert("\n"@ =~= seq!['\n']);
    let first0 = Seq::<Seq<char>>::empty();
    assert(join_lines(first0) == Seq::<char>::empty());
    let b1 = "name"@ + "="@ + m.repo.repo_name@;
    let first1 = first0.push(b1);
    lemma_join_push(first0, b1);
    let e1 = line("name"@, m.repo.repo_name@);
    lemma_assoc(Seq::<char>::empty(), b1, "\n"@);
    assert(join_lines(first1) == e1);
    let b2 = "location"@ + "="@ + m.repo.repo_path@;
    let first2 = first1.push(b2);
    lemma_join_push(first1, b2);
    let e2 = e1 + line("location"@, m.repo.repo_path@);
    lemma_assoc(e1, b2, "\n"@);
    assert(join_lines(first2) == e2);
    let b3 = "target"@ + "="@ + m.repo.backup_target@;
    let first3 = first2.push(b3);
    lemma_join_push(first2, b3);
    let e3 = e2 + line("target"@, m.repo.backup_target@);
    lemma_assoc(e2, b3, "\n"@);
    assert(join_lines(first3) == e3);
    let b4 = "password-entry"@ + "="@ + m.repo.password_entry@;
    let first4 = first3.push(b4);
    lemma_join_push(first3, b4);
    let e4 = e3 + line("password-entry"@, m.repo.password_entry@);
    lemma_assoc(e3, b4, "\n"@);
    assert(join_lines(first4) == e4);
    let b5 = "key-entry"@ + "="@ + m.repo.key_entry@;
    let first5 = first4.push(b5);
    lemma_join_push(first4, b5);
    let e5 = e4 + line("key-entry"@, m.repo.key_entry@);
    lemma_assoc(e4, b5, "\n"@);
    assert(join_lines(first5) == e5);
    let b6 = "bucket"@ + "="@ + m.repo.bucket@;
    let first6 = first5.push(b6);
    lemma_join_push(first5, b6);
    let e6 = e5 + line("bucket"@, m.repo.bucket@);
    lemma_assoc(e5, b6, "\n"@);
    assert(join_lines(first6) == e6);
    let b7 = "credential"@ + "="@ + m.repo.credential@;
    let first7 = first6.push(b7);
    lemma_join_push(first6, b7);
    let e7 = e6 + line("credential"@, m.repo.credential@);
    lemma_assoc(e6, b7, "\n"@);
    assert(join_lines(first7) == e7);
    let b8 = "secret"@ + "="@ + status_word(m.secret);
    let first8 = first7.push(b8);
    lemma_join_push(first7, b8);
    let e8 = e7 + line("secret"@, status_word(m.secret));
    lemma_assoc(e7, b8, "\n"@);
    assert(join_lines(first8) == e8);
    let b9 = "init"@ + "="@ + status_word(m.init);
    let first9 = first8.push(b9);
    lemma_join_push(first8, b9);
    let e9 = e8 + line("init"@, status_word(m.init));
    lemma_assoc(e8, b9, "\n"@);
    assert(join_lines(first9) == e9);
    let b10 = "escrow"@ + "="@ + status_word(m.escrow);
    let first10 = first9.push(b10);
    lemma_join_push(first9, b10);
    let e10 = e9 + line("escrow"@, status_word(m.escrow));
    lemma_assoc(e9, b10, "\n"@);
    assert(join_lines(first10) == e10);
    let b11 = "backup"@ + "="@ + status_word(m.backup);
    let first11 = first10.push(b11);
    lemma_join_push(first10, b11);
    let e11 = e10 + line("backup"@, status_word(m.backup));
    lemma_assoc(e10, b11, "\n"@);
    assert(join_lines(first11) == e11);
    let b12 = "backup-at"@ + "="@ + time_word(m.backup_at);
    let first12 = first11.push(b12);
    lemma_join_push(first11, b12);
    let e12 = e11 + line("backup-at"@, time_word(m.backup_at));
    lemma_assoc(e11, b12, "\n"@);
    assert(join_lines(first12) == e12);
    let b13 = "creds"@ + "="@ + status_word(m.creds);
    let first13 = first12.push(b13);
    lemma_join_push(first12, b13);
    let e13 = e12 + line("creds"@, status_word(m.creds));
    lemma_assoc(e12, b13, "\n"@);
    assert(join_lines(first13) == e13);
    let b14 = "remote-bucket"@ + "="@ + status_word(m.bucket);
    let first14 = first13.push(b14);
    lemma_join_push(first13, b14);
    let e14 = e13 + line("remote-bucket"@, status_word(m.bucket));
    lemma_assoc(e13, b14, "\n"@);
    assert(join_lines(first14) == e14);
    let b15 = "sync"@ + "="@ + status_word(m.sync);
    let first15 = first14.push(b15);
    lemma_join_push(first14, b15);
    let e15 = e14 + line("sync"@, status_word(m.sync));
    lemma_assoc(e14, b15, "\n"@);
    assert(join_lines(first15) == e15);
    let b16 = "outcome"@ + "="@ + outcome_word(m.outcome);
    let first16 = first15.push(b16);
    lemma_join_push(first15, b16);
    let e16 = e15 + line("outcome"@, outcome_word(m.outcome));
    lemma_assoc(e15, b16, "\n"@);
    assert(join_lines(first16) == e16);
    assert(record_lines(m) == first16);
}

proof fn lemma_assoc(x: Seq<char>, b: Seq<char>, c: Seq<char>)
    ensures
        x + b + c == x + (b + c),
{
    assert(x + b + c =~= x + (b + c));
}

/// With single-line text fields, no record line holds a newline.
proof fn lemma_record_lines_single(m: Manifest)
    requires
        single_line_fields(m),
    ensures
        all_single_line(record_lines(m)),
{
    reveal_strlit("=");
    reveal_strlit("name");
    reveal_strlit("location");
    reveal_strlit("target");
    reveal_strlit("password-entry");
    reveal_strlit("key-entry");
    reveal_strlit("bucket");
    reveal_strlit("credential");
    reveal_strlit("secret");
    reveal_strlit("init");
    reveal_strlit("escrow");
    reveal_strlit("backup");
    reveal_strlit("backup-at");
    reveal_strlit("creds");
    reveal_strlit("remote-bucket");
    reveal_strlit("sync");
    reveal_strlit("outcome");
    lemma_words_single_line(m);
    lemma_no_newline_concat("name"@, "="@);
    lemma_no_newline_concat("name"@ + "="@, m.repo.repo_name@);
    lemma_no_newline_concat("location"@, "="@);
    lemma_no_newline_concat("location"@ + "="@, m.repo.repo_path@);
    lemma_no_newline_concat("target"@, "="@);
    lemma_no_newline_concat("target"@ + "="@, m.repo.backup_target@);
    lemma_no_newline_concat("password-entry"@, "="@);
    lemma_no_newline_concat("password-entry"@ + "="@, m.repo.password_entry@);
    lemma_no_newline_concat("key-entry"@, "="@);
    lemma_no_newline_concat("key-entry"@ + "="@, m.repo.key_entry@);
    lemma_no_newline_concat("bucket"@, "="@);
    lemma_no_newline_concat("bucket"@ + "="@, m.repo.bucket@);
    lemma_no_newline_concat("credential"@, "="@);
    lemma_no_newline_concat("credential"@ + "="@, m.repo.credential@);
    lemma_no_newline_concat("secret"@, "="@);
    lemma_no_newline_concat("secret"@ + "="@, status_word(m.secret));
    lemma_no_newline_concat("init"@, "="@);
    lemma_no_newline_concat("init"@ + "="@, status_word(m.init));
    lemma_no_newline_concat("escrow"@, "="@);
    lemma_no_newline_concat("escrow"@ + "="@, status_word(m.escrow));
    lemma_no_newline_concat("backup"@, "="@);
    lemma_no_newline_concat("backup"@ + "="@, status_word(m.backup));
    lemma_no_newline_concat("backup-at"@, "="@);
    lemma_no_newline_concat("backup-at"@ + "="@, time_word(m.backup_at));
    lemma_no_newline_concat("creds"@, "="@);
    lemma_no_newline_concat("creds"@ + "="@, status_word(m.creds));
    lemma_no_newline_concat("remote-bucket"@, "="@);
    lemma_no_newline_concat("remote-bucket"@ + "="@, status_word(m.bucket));
    lemma_no_newline_concat("sync"@, "="@);
    lemma_no_newline_concat("sync"@ + "="@, status_word(m.sync));
    lemma_no_newline_concat("outcome"@, "="@);
    lemma_no_newline_concat("outcome"@ + "="@, outcome_word(m.outcome));
    assert(all_single_line(record_lines(m)));
}

pub open spec fn views(v: Seq<String>) -> Seq<Seq<char>> {
    v.map_values(|s: String| s@)
}

/// Splits `text` at each newline; the piece after the last newline is dropped.
fn split_lines(text: &str) -> (r: Vec<String>)
    ensures
        all_single_line(views(r@)),
        text@.len() > 0 && text@.last() == '\n' ==> join_lines(views(r@)) == text@,
{
    let n = text.unicode_len();
    let mut lines: Vec<String> = Vec::new();
    let mut start: usize = 0;
    let mut i: usize = 0;
    assert(views(lines@) =~= Seq::<Seq<char>>::empty());
    assert(text@.subrange(0, 0) =~= Seq::<char>::empty());
    while i < n
        invariant
            n == text@.len(),
            start <= i <= n,
            all_single_line(views(lines@)),
            join_lines(views(lines@)) == text@.subrange(0, start as int),
            no_newline(text@.subrange(start as int, i as int)),
        decreases n - i,
    {
        if text.get_char(i) == '\n' {
            let piece = String::from_str(text.substring_char(start, i));
            let ghost before = views(lines@);
            lines.push(piece);
            assert(views(lines@) =~= before.push(piece@));
            assert(views(lines@).drop_last() =~= before);
            assert(text@.subrange(0, i + 1) =~= text@.subrange(0, start as int) + piece@
                + seq!['\n']);
            start = i + 1;
            assert(text@.subrange(start as int, i + 1) =~= Seq::<char>::empty());
        } else {
            assert(text@.subrange(start as int, i + 1) =~= text@.subrange(start as int, i as int).push(
                text@[i as int],
            ));
        }
        i = i + 1;
    }
    proof {
        if n > 0 && text@.last() == '\n' && start < n {
            assert(text@.subrange(start as int, n as int)[n - 1 - start] == '\n');
        }
        assert(start == n ==> text@.subrange(0, start as int) =~= text@);
    }
    lines
}

/// What follows `key=` on `line`, which is taken to start with it.
fn value_of(line: &String, key: &str) -> (r: Option<String>)
    ensures
        forall|v: Seq<char>| line@ == key@ + "="@ + v ==> (r matches Some(s) && s@ == v),
{
    proof {
        reveal_strlit("=");
    }
    let n = line.as_str().unicode_len();
    let skip = key.unicode_len();
    if skip >= n {
        return None;
    }
    let r = String::from_str(line.as_str().substring_char(skip + 1, n));
    assert forall|v: Seq<char>| line@ == key@ + "="@ + v implies r@ == v by {
        assert(r@ =~= v);
    }
    Some(r)
}

fn same(a: &String, b: &str) -> (r: bool)
    ensures
        r == (a@ == b@),
{
    a.eq(&String::from_str(b))
}

fn parse_status(s: &String) -> (r: Option<Status>)
    ensures
        forall|st: Status| s@ == status_word(st) ==> r == Some(st),
{
    proof {
        reveal_strlit("pending");
        reveal_strlit("absent");
        reveal_strlit("complete");
        reveal_strlit("failed");
        assert("pending"@.len() == 7 && "complete"@.len() == 8 && "absent"@.len() == 6);
        assert("failed"@.len() == 6 && "failed"@[0] == 'f' && "absent"@[0] == 'a');
    }
    if same(s, "pending") {
        Some(Status::Pending)
    } else if same(s, "absent") {
        Some(Status::Absent)
    } else if same(s, "complete") {
        Some(Status::Complete)
    } else if same(s, "failed") {
        Some(Status::Failed)
    } else {
        None
    }
}

fn parse_outcome(s: &String) -> (r: Option<Outcome>)
    ensures
        forall|o: Outcome| s@ == outcome_word(o) ==> r == Some(o),
{
    proof {
        reveal_strlit("in-progress");
        reveal_strlit("success");
        reveal_strlit("partial");
        reveal_strlit("failed-at-SecretGenerated");
        reveal_strlit("failed-at-RepoInitialized");
        reveal_strlit("failed-at-KeyEscrowed");
        reveal_strlit("failed-at-BackupComplete");
        reveal_strlit("failed-at-Sealed");
        reveal_strlit("failed-at-Synced");
        assert("in-progress"@.len() == 11 && "success"@.len() == 7 && "partial"@.len() == 7);
        assert("success"@[0] == 's' && "partial"@[0] == 'p');
        assert("failed-at-SecretGenerated"@.len() == 25 && "failed-at-RepoInitialized"@.len()
            == 25);
        assert("failed-at-SecretGenerated"@[10] == 'S' && "failed-at-RepoInitialized"@[10]
            == 'R');
        assert("failed-at-KeyEscrowed"@.len() == 21 && "failed-at-BackupComplete"@.len() == 24);
        assert("failed-at-Sealed"@.len() == 16 && "failed-at-Synced"@.len() == 16);
        assert("failed-at-Sealed"@[11] == 'e' && "failed-at-Synced"@[11] == 'y');
    }
    if same(s, "in-progress") {
        Some(Outcome::InProgress)
    } else if same(s, "success") {
        Some(Outcome::Success)
    } else if same(s, "partial") {
        Some(Outcome::Partial)
    } else if same(s, "failed-at-SecretGenerated") {
        Some(Outcome::FailedAt(Stage::SecretGenerated))
    } else if same(s, "failed-at-RepoInitialized") {
        Some(Outcome::FailedAt(Stage::RepoInitialized))
    } else if same(s, "failed-at-KeyEscrowed") {
        Some(Outcome::FailedAt(Stage::KeyEscrowed))
    } else if same(s, "failed-at-BackupComplete") {
        Some(Outcome::FailedAt(Stage::BackupComplete))
    } else if same(s, "failed-at-Sealed") {
        Some(Outcome::FailedAt(Stage::Sealed))
    } else if same(s, "failed-at-Synced") {
        Some(Outcome::FailedAt(Stage::Synced))
    } else {
        None
    }
}

fn parse_time(s: &String) -> (r: Option<Option<u64>>)
    ensures
        forall|t: Option<u64>| s@ == time_word(t) ==> r == Some(t),
{
    proof {
        reveal_strlit("none");
    }
    if same(s, "none") {
        proof {
            assert forall|t: Option<u64>| s@ == time_word(t) implies t is None by {
                if let Some(n) = t {
                    lemma_decimal_digits(n as nat);
                    assert(is_digit(s@[0]));
                }
            }
        }
        return Some(None);
    }
    let v = parse_decimal(s.as_str());
    proof {
        assert forall|t: Option<u64>| s@ == time_word(t) implies v == t by {
            if let Some(n) = t {
                lemma_decimal_digits(n as nat);
            }
        }
    }
    match v {
        Some(n) => Some(Some(n)),
        None => None,
    }
}

fn field(lines: &Vec<String>, index: usize, key: &str) -> (r: Option<String>)
    ensures
        forall|v: Seq<char>|
            index < lines@.len() && lines@[index as int]@ == key@ + "="@ + v ==> (r matches Some(
                s,
            ) && s@ == v),
{
    if index >= lines.len() {
        return None;
    }
    value_of(&lines[index], key)
}

fn status_field(lines: &Vec<String>, index: usize, key: &str) -> (r: Option<Status>)
    ensures
        forall|st: Status|
            index < lines@.len() && lines@[index as int]@ == key@ + "="@ + status_word(st) ==> r
                == Some(st),
{
    match field(lines, index, key) {
        Some(v) => parse_status(&v),
        None => None,
    }
}

/// Whether `s` holds no newline.
pub fn has_no_newline(s: &String) -> (r: bool)
    ensures
        r == no_newline(s@),
{
    let text = s.as_str();
    assert(text@ == s@);
    let n = text.unicode_len();
    let mut i: usize = 0;
    while i < n
        invariant
            n == text@.len(),
            text@ == s@,
            i <= n,
            forall|j: int| 0 <= j < i ==> text@[j] != '\n',
        decreases n - i,
    {
        if text.get_char(i) == '\n' {
            assert(text@[i as int] == '\n');
            return false;
        }
        i = i + 1;
    }
    true
}

impl Manifest {
    /// Whether the text fields hold no newline, so that the saved record
    /// reads back.
    pub fn is_single_line(&self) -> (r: bool)
        ensures
            r == single_line_fields(*self),
    {
        has_no_newline(&self.repo.repo_name) && has_no_newline(&self.repo.repo_path)
            && has_no_newline(&self.repo.backup_target) && has_no_newline(
            &self.repo.password_entry,
        ) && has_no_newline(&self.repo.key_entry) && has_no_newline(&self.repo.bucket)
            && has_no_newline(&self.repo.credential)
    }
}

impl Manifest {
    /// Reads a saved record. A record is returned only when saving it gives
    /// back `text` exactly; the saved text of a record whose text fields hold
    /// no newline reads back as that same record.
    #[verifier::rlimit(100)]
    pub fn load(text: &str) -> (r: Option<Manifest>)
        ensures
            r matches Some(m) ==> encoded(m) == text@,
            forall|m: Manifest|
                #![trigger encoded(m)]
                encoded(m) == text@ && single_line_fields(m) ==> (r matches Some(l) && same_record(
                    l,
                    m,
                )),
    {
        let ghost saved = exists|m: Manifest| encoded(m) == text@ && single_line_fields(m);
        let ghost orig = choose|m: Manifest| encoded(m) == text@ && single_line_fields(m);
        let lines = split_lines(text);
        proof {
            if saved {
                lemma_encoded_lines(orig);
                lemma_record_lines_single(orig);
                let ls = record_lines(orig);
                assert(ls.len() == 16);
                assert(join_lines(ls).last() == '\n');
                lemma_join_unique(views(lines@), ls);
                assert(lines@[0]@ == "name"@ + "="@ + orig.repo.repo_name@) by { assert(views(lines@)[0] == ls[0]); }
                assert(lines@[1]@ == "location"@ + "="@ + orig.repo.repo_path@) by { assert(views(lines@)[1] == ls[1]); }
                assert(lines@[2]@ == "target"@ + "="@ + orig.repo.backup_target@) by { assert(views(lines@)[2] == ls[2]); }
                assert(lines@[3]@ == "password-entry"@ + "="@ + orig.repo.password_entry@) by { assert(views(lines@)[3] == ls[3]); }
                assert(lines@[4]@ == "key-entry"@ + "="@ + orig.repo.key_entry@) by { assert(views(lines@)[4] == ls[4]); }
                assert(lines@[5]@ == "bucket"@ + "="@ + orig.repo.bucket@) by { assert(views(lines@)[5] == ls[5]); }
                assert(lines@[6]@ == "credential"@ + "="@ + orig.repo.credential@) by { assert(views(lines@)[6] == ls[6]); }
                assert(lines@[7]@ == "secret"@ + "="@ + status_word(orig.secret)) by { assert(views(lines@)[7] == ls[7]); }
                assert(lines@[8]@ == "init"@ + "="@ + status_word(orig.init)) by { assert(views(lines@)[8] == ls[8]); }
                assert(lines@[9]@ == "escrow"@ + "="@ + status_word(orig.escrow)) by { assert(views(lines@)[9] == ls[9]); }
                assert(lines@[10]@ == "backup"@ + "="@ + status_word(orig.backup)) by { assert(views(lines@)[10] == ls[10]); }
                assert(lines@[11]@ == "backup-at"@ + "="@ + time_word(orig.backup_at)) by { assert(views(lines@)[11] == ls[11]); }
                assert(lines@[12]@ == "creds"@ + "="@ + status_word(orig.creds)) by { assert(views(lines@)[12] == ls[12]); }
                assert(lines@[13]@ == "remote-bucket"@ + "="@ + status_word(orig.bucket)) by { assert(views(lines@)[13] == ls[13]); }
                assert(lines@[14]@ == "sync"@ + "="@ + status_word(orig.sync)) by { assert(views(lines@)[14] == ls[14]); }
                assert(lines@[15]@ == "outcome"@ + "="@ + outcome_word(orig.outcome)) by { assert(views(lines@)[15] == ls[15]); }
            }
        }
        if lines.len() != 16 {
            return None;
        }
        let repo_name = field(&lines, 0, "name")?;
        let repo_path = field(&lines, 1, "location")?;
        let backup_target = field(&lines, 2, "target")?;
        let password_entry = field(&lines, 3, "password-entry")?;
        let key_entry = field(&lines, 4, "key-entry")?;
        let bucket_name = field(&lines, 5, "bucket")?;
        let credential = field(&lines, 6, "credential")?;
        let secret = status_field(&lines, 7, "secret")?;
        let init = status_field(&lines, 8, "init")?;
        let escrow = status_field(&lines, 9, "escrow")?;
        let backup = status_field(&lines, 10, "backup")?;
        let at = field(&lines, 11, "backup-at")?;
        let backup_at = parse_time(&at)?;
        let creds = status_field(&lines, 12, "creds")?;
        let bucket = status_field(&lines, 13, "remote-bucket")?;
        let sync = status_field(&lines, 14, "sync")?;
        let word = field(&lines, 15, "outcome")?;
        let outcome = parse_outcome(&word)?;
        let m = Manifest {
            repo: Repository {
                repo_name,
                repo_path,
                backup_target,
                password_entry,
                key_entry,
                bucket: bucket_name,
                credential,
            },
            secret,
            init,
            escrow,
            backup,
            backup_at,
            creds,
            bucket,
            sync,
            outcome,
        };
        let ghost res = m;
        proof {
            assert forall|other: Manifest| encoded(other) == text@ && single_line_fields(other) implies same_record(res, other) by {
                lemma_encoded_lines(other);
                lemma_record_lines_single(other);
                let ls = record_lines(other);
                assert(ls.len() == 16);
                assert(join_lines(ls).last() == '\n');
                lemma_join_unique(views(lines@), ls);
                assert(lines@[0]@ == "name"@ + "="@ + other.repo.repo_name@) by { assert(views(lines@)[0] == ls[0]); }
                assert(lines@[1]@ == "location"@ + "="@ + other.repo.repo_path@) by { assert(views(lines@)[1] == ls[1]); }
                assert(lines@[2]@ == "target"@ + "="@ + other.repo.backup_target@) by { assert(views(lines@)[2] == ls[2]); }
                assert(lines@[3]@ == "password-entry"@ + "="@ + other.repo.password_entry@) by { assert(views(lines@)[3] == ls[3]); }
                assert(lines@[4]@ == "key-entry"@ + "="@ + other.repo.key_entry@) by { assert(views(lines@)[4] == ls[4]); }
                assert(lines@[5]@ == "bucket"@ + "="@ + other.repo.bucket@) by { assert(views(lines@)[5] == ls[5]); }
                assert(lines@[6]@ == "credential"@ + "="@ + other.repo.credential@) by { assert(views(lines@)[6] == ls[6]); }
                assert(lines@[7]@ == "secret"@ + "="@ + status_word(other.secret)) by { assert(views(lines@)[7] == ls[7]); }
                assert(lines@[8]@ == "init"@ + "="@ + status_word(other.init)) by { assert(views(lines@)[8] == ls[8]); }
                assert(lines@[9]@ == "escrow"@ + "="@ + status_word(other.escrow)) by { assert(views(lines@)[9] == ls[9]); }
                assert(lines@[10]@ == "backup"@ + "="@ + status_word(other.backup)) by { assert(views(lines@)[10] == ls[10]); }
                assert(lines@[11]@ == "backup-at"@ + "="@ + time_word(other.backup_at)) by { assert(views(lines@)[11] == ls[11]); }
                assert(lines@[12]@ == "creds"@ + "="@ + status_word(other.creds)) by { assert(views(lines@)[12] == ls[12]); }
                assert(lines@[13]@ == "remote-bucket"@ + "="@ + status_word(other.bucket)) by { assert(views(lines@)[13] == ls[13]); }
                assert(lines@[14]@ == "sync"@ + "="@ + status_word(other.sync)) by { assert(views(lines@)[14] == ls[14]); }
                assert(lines@[15]@ == "outcome"@ + "="@ + outcome_word(other.outcome)) by { assert(views(lines@)[15] == ls[15]); }
            }
        }
        let saved = m.save();
        if same(&saved, text) {
            Some(m)
        } else {
            None
        }
    }
}

} // verus!
