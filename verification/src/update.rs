//! Replacing the files of the site by those of a new archive: which attempts
//! are made, what is logged of them and how the request is answered.

use crate::clock::Timestamp;
use crate::gateway::{address, address_of};
use crate::reply::TextReply;
use crate::site::{FileView, Site, INDEX_PAGE};
use crate::text::{decimal, decimal_text, decimal_value, law_decimal_stands_for_number};
use vstd::prelude::*;
use vstd::string::StringExecFns;

verus! {

/// How often an update is tried.
pub const MAX_ATTEMPTS: u32 = 15;

/// How long to wait after a failed attempt, in seconds.
pub const RETRY_SECS: u64 = 60;

/// How long to wait after new files were put in place, in milliseconds.
pub const SETTLE_MILLIS: u64 = 100;

/// An entry of the update log.
#[derive(Debug)]
pub struct UpdateLogEntry {
    pub timestamp: Timestamp,
    pub cid: String,
    pub success: bool,
    pub message: String,
}

/// What an entry of the update log says.
#[verifier::ext_equal]
pub struct LogRecord {
    pub timestamp: Timestamp,
    pub cid: Seq<char>,
    pub success: bool,
    pub message: Seq<char>,
}

impl View for UpdateLogEntry {
    type V = LogRecord;

    open spec fn view(&self) -> LogRecord {
        LogRecord {
            timestamp: self.timestamp,
            cid: self.cid@,
            success: self.success,
            message: self.message@,
        }
    }
}

/// The log of updates, the oldest entry first.
pub struct UpdateLog {
    entries: Vec<UpdateLogEntry>,
}

impl View for UpdateLog {
    type V = Seq<LogRecord>;

    closed spec fn view(&self) -> Seq<LogRecord> {
        self.entries@.map_values(|entry: UpdateLogEntry| entry@)
    }
}

impl UpdateLog {
    /// A log without entries.
    pub fn new() -> (r: UpdateLog)
        ensures
            r@ == Seq::<LogRecord>::empty(),
    {
        let r: UpdateLog = UpdateLog { entries: Vec::new() };
        assert(r@ =~= Seq::<LogRecord>::empty());
        r
    }

    /// Adds an entry at the end.
    pub fn push(&mut self, entry: UpdateLogEntry)
        ensures
            final(self)@ == old(self)@.push(entry@),
    {
        self.entries.push(entry);
        assert(self@ =~= old(self)@.push(entry@));
    }

    /// The entries, the oldest first.
    pub fn entries(&self) -> (r: &Vec<UpdateLogEntry>)
        ensures
            r@.map_values(|entry: UpdateLogEntry| entry@) == self@,
    {
        &self.entries
    }
}

/// What an update is waiting for: an archive, the new files being put in place,
/// or nothing more.
#[derive(Clone, Copy, Debug, PartialEq, Eq, Structural)]
pub enum Phase {
    Fetching,
    Publishing,
    Finished,
}

/// An update that was asked for.
pub struct UpdateRun {
    cid: String,
    attempt: u32,
    phase: Phase,
}

/// Where an update stands.
#[verifier::ext_equal]
pub struct RunView {
    pub cid: Seq<char>,
    pub attempt: int,
    pub phase: Phase,
}

impl View for UpdateRun {
    type V = RunView;

    closed spec fn view(&self) -> RunView {
        RunView { cid: self.cid@, attempt: self.attempt as int, phase: self.phase }
    }
}

/// What to do next for an update.
pub enum Step {
    /// Wait this many seconds, then fetch the archive at this address again.
    Retry { wait_secs: u64, url: String },
    /// Put these files in place of the old ones, then wait this many
    /// milliseconds.
    Publish { files: Site, settle_millis: u64 },
    /// Answer the request with this failure.
    Fail { message: String },
}

/// What a step says.
#[verifier::ext_equal]
pub enum StepView {
    Retry { wait_secs: int, url: Seq<char> },
    Publish { files: Map<Seq<char>, FileView>, settle_millis: int },
    Fail { message: Seq<char> },
}

impl View for Step {
    type V = StepView;

    open spec fn view(&self) -> StepView {
        match *self {
            Step::Retry { wait_secs, url } => StepView::Retry {
                wait_secs: wait_secs as int,
                url: url@,
            },
            Step::Publish { files, settle_millis } => StepView::Publish {
                files: files@,
                settle_millis: settle_millis as int,
            },
            Step::Fail { message } => StepView::Fail { message: message@ },
        }
    }
}

/// Why an attempt failed: the archive could not be fetched, it could not be
/// unpacked, or it holds no index page.
#[verifier::ext_equal]
pub enum Failure {
    NotFetched(Seq<char>),
    NotExtracted(Seq<char>),
    NoIndexPage,
}

/// What is logged of a failed attempt.
pub open spec fn failure_message(failure: Failure) -> Seq<char> {
    match failure {
        Failure::NotFetched(reason) => "Failed to fetch ZIP: "@ + reason,
        Failure::NotExtracted(reason) => "Failed to extract ZIP: "@ + reason,
        Failure::NoIndexPage => "New files missing index.html"@,
    }
}

/// What the request is answered when the last attempt fails so.
pub open spec fn final_message(failure: Failure) -> Seq<char> {
    match failure {
        Failure::NoIndexPage => "New files missing index.html"@,
        _ => "Failed to update files after "@ + decimal(MAX_ATTEMPTS as nat) + " attempts"@,
    }
}

/// An update that was just asked for.
pub open spec fn started(cid: Seq<char>) -> RunView {
    RunView { cid, attempt: 1, phase: Phase::Fetching }
}

/// A log entry about an update.
pub open spec fn record(
    cid: Seq<char>,
    now: Timestamp,
    success: bool,
    message: Seq<char>,
) -> LogRecord {
    LogRecord { timestamp: now, cid, success, message }
}

/// What a failed attempt makes of the update, and what to do next: try again
/// after a pause, unless this was the last attempt.
pub open spec fn after_failure(run: RunView, failure: Failure) -> (RunView, StepView) {
    if run.attempt < MAX_ATTEMPTS {
        (
            RunView { attempt: run.attempt + 1, ..run },
            StepView::Retry { wait_secs: RETRY_SECS as int, url: address(run.cid) },
        )
    } else {
        (
            RunView { phase: Phase::Finished, ..run },
            StepView::Fail { message: final_message(failure) },
        )
    }
}

/// What unpacked files make of the update, and what to do next: put them in
/// place.
pub open spec fn after_files(run: RunView, files: Map<Seq<char>, FileView>) -> (RunView, StepView) {
    (
        RunView { phase: Phase::Publishing, ..run },
        StepView::Publish { files, settle_millis: SETTLE_MILLIS as int },
    )
}

/// Why an attempt whose archive unpacked to this failed, if it did.
pub open spec fn extraction_failure(
    result: Result<Map<Seq<char>, FileView>, Seq<char>>,
) -> Option<Failure> {
    match result {
        Err(reason) => Some(Failure::NotExtracted(reason)),
        Ok(files) => if files.contains_key(INDEX_PAGE@) {
            None
        } else {
            Some(Failure::NoIndexPage)
        },
    }
}

/// What unpacking an archive came to.
pub open spec fn extraction(result: Result<Site, String>) -> Result<
    Map<Seq<char>, FileView>,
    Seq<char>,
> {
    match result {
        Ok(files) => Ok(files@),
        Err(reason) => Err(reason@),
    }
}

/// What is logged of an update that was carried through: how many seconds it
/// took, and the memory in use before it, before the new files were put in
/// place and after.
pub open spec fn success_message(
    elapsed: Seq<char>,
    before: nat,
    pre_store: nat,
    after: nat,
) -> Seq<char> {
    "Files updated successfully in "@ + elapsed + "s, memory: "@ + decimal(before) + " KB -> "@
        + decimal(pre_store) + " KB -> "@ + decimal(after) + " KB"@
}

/// Writes what is logged of an update that was carried through.
pub fn success_text(elapsed: &str, before: u64, pre_store: u64, after: u64) -> (r: String)
    ensures
        r@ == success_message(elapsed@, before as nat, pre_store as nat, after as nat),
{
    let mut r: String = "Files updated successfully in ".to_string();
    r.append(elapsed);
    r.append("s, memory: ");
    r.append(decimal_text(before).as_str());
    r.append(" KB -> ");
    r.append(decimal_text(pre_store).as_str());
    r.append(" KB -> ");
    r.append(decimal_text(after).as_str());
    r.append(" KB");
    r
}

/// What is reported when no HTTP client can be had.
pub fn client_failure_text(reason: &str) -> (r: String)
    ensures
        r@ == "Failed to create HTTP client: "@ + reason@,
{
    let mut r: String = "Failed to create HTTP client: ".to_string();
    r.append(reason);
    r
}

impl UpdateRun {
    #[verifier::type_invariant]
    spec fn attempt_in_range(self) -> bool {
        1 <= self.attempt <= MAX_ATTEMPTS
    }

    /// Starts an update to the archive stored under `cid`.
    pub fn start(cid: String, now: Timestamp, log: &mut UpdateLog) -> (r: UpdateRun)
        ensures
            r@ == started(cid@),
            final(log)@ == old(log)@.push(record(cid@, now, false, "Update started"@)),
    {
        log.push(
            UpdateLogEntry {
                timestamp: now,
                cid: cid.clone(),
                success: false,
                message: "Update started".to_string(),
            },
        );
        UpdateRun { cid, attempt: 1, phase: Phase::Fetching }
    }

    /// The address of the archive.
    pub fn url(&self) -> (r: String)
        ensures
            r@ == address(self@.cid),
            r@ == "https://arweave.net/"@ + self@.cid,
    {
        address_of(self.cid.as_str())
    }

    /// Which attempt this is, the first being 1.
    pub fn attempt(&self) -> (r: u32)
        ensures
            r == self@.attempt,
            1 <= r <= MAX_ATTEMPTS,
    {
        proof {
            use_type_invariant(self);
        }
        self.attempt
    }

    /// What the update is waiting for.
    pub fn phase(&self) -> (r: Phase)
        ensures
            r == self@.phase,
    {
        self.phase
    }

    /// Logs a failed attempt.
    fn log_failure(&self, message: String, now: Timestamp, log: &mut UpdateLog)
        ensures
            final(log)@ == old(log)@.push(record(self@.cid, now, false, message@)),
    {
        log.push(
            UpdateLogEntry {
                timestamp: now,
                cid: self.cid.clone(),
                success: false,
                message,
            },
        );
    }

    /// Goes on to the next attempt, or gives up with a message after the last.
    fn next_attempt(&mut self, final_text: String, Ghost(failure): Ghost<Failure>) -> (r: Step)
        requires
            final_text@ == final_message(failure),
        ensures
            (final(self)@, r@) == after_failure(old(self)@, failure),
    {
        proof {
            use_type_invariant(&*self);
        }
        if self.attempt < MAX_ATTEMPTS {
            self.attempt = self.attempt + 1;
            Step::Retry { wait_secs: RETRY_SECS, url: self.url() }
        } else {
            self.phase = Phase::Finished;
            Step::Fail { message: final_text }
        }
    }

    /// What the request is answered when all attempts failed.
    fn exhausted_text() -> (r: String)
        ensures
            r@ == "Failed to update files after "@ + decimal(MAX_ATTEMPTS as nat) + " attempts"@,
    {
        let mut r: String = "Failed to update files after ".to_string();
        r.append(decimal_text(MAX_ATTEMPTS as u64).as_str());
        r.append(" attempts");
        r
    }

    /// Takes note that the archive could not be fetched.
    pub fn fetch_failed(&mut self, reason: &str, now: Timestamp, log: &mut UpdateLog) -> (r: Step)
        requires
            old(self)@.phase == Phase::Fetching,
        ensures
            (final(self)@, r@) == after_failure(old(self)@, Failure::NotFetched(reason@)),
            final(log)@ == old(log)@.push(
                record(
                    old(self)@.cid,
                    now,
                    false,
                    failure_message(Failure::NotFetched(reason@)),
                ),
            ),
    {
        let mut message: String = "Failed to fetch ZIP: ".to_string();
        message.append(reason);
        self.log_failure(message, now, log);
        self.next_attempt(Self::exhausted_text(), Ghost(Failure::NotFetched(reason@)))
    }

    /// Takes note of what unpacking the archive came to.
    ///
    /// Files with an index page are to be put in place, and nothing is logged
    /// yet; anything else is a failed attempt.
    pub fn archive_extracted(
        &mut self,
        result: Result<Site, String>,
        now: Timestamp,
        log: &mut UpdateLog,
    ) -> (r: Step)
        requires
            old(self)@.phase == Phase::Fetching,
        ensures
            match extraction_failure(extraction(result)) {
                Some(failure) => {
                    &&& (final(self)@, r@) == after_failure(old(self)@, failure)
                    &&& final(log)@ == old(log)@.push(
                        record(old(self)@.cid, now, false, failure_message(failure)),
                    )
                },
                None => {
                    &&& (final(self)@, r@) == after_files(old(self)@, extraction(result)->Ok_0)
                    &&& final(log)@ == old(log)@
                },
            },
    {
        match result {
            Ok(files) => {
                if !files.contains_key(INDEX_PAGE) {
                    self.log_failure("New files missing index.html".to_string(), now, log);
                    return self.next_attempt(
                        "New files missing index.html".to_string(),
                        Ghost(Failure::NoIndexPage),
                    );
                }
                proof {
                    use_type_invariant(&*self);
                }
                self.phase = Phase::Publishing;
                Step::Publish { files, settle_millis: SETTLE_MILLIS }
            },
            Err(reason) => {
                let mut message: String = "Failed to extract ZIP: ".to_string();
                message.append(reason.as_str());
                self.log_failure(message, now, log);
                self.next_attempt(Self::exhausted_text(), Ghost(Failure::NotExtracted(reason@)))
            },
        }
    }

    /// Takes note that the new files are in place, and answers the request.
    ///
    /// They count as updated at the time `updated`, and the log entry bears the
    /// time `now`.
    pub fn published(
        &mut self,
        elapsed: &str,
        before: u64,
        pre_store: u64,
        after: u64,
        updated: Timestamp,
        now: Timestamp,
        last_updated: &mut i64,
        log: &mut UpdateLog,
    ) -> (r: TextReply)
        requires
            old(self)@.phase == Phase::Publishing,
        ensures
            final(self)@ == (RunView { phase: Phase::Finished, ..old(self)@ }),
            *final(last_updated) == updated.secs,
            final(log)@ == old(log)@.push(
                record(
                    old(self)@.cid,
                    now,
                    true,
                    success_message(elapsed@, before as nat, pre_store as nat, after as nat),
                ),
            ),
            r.status == 200,
            r.text@ == "Files updated successfully"@,
    {
        proof {
            use_type_invariant(&*self);
        }
        *last_updated = updated.secs;
        log.push(
            UpdateLogEntry {
                timestamp: now,
                cid: self.cid.clone(),
                success: true,
                message: success_text(elapsed, before, pre_store, after),
            },
        );
        self.phase = Phase::Finished;
        TextReply { status: 200, text: "Files updated successfully".to_string() }
    }
}

/// A failed attempt: why, and when that was noted.
pub struct FailedAttempt {
    pub failure: Failure,
    pub time: Timestamp,
}

/// Where an update stands after a series of failed attempts.
pub open spec fn after_failures(run: RunView, attempts: Seq<FailedAttempt>) -> RunView
    decreases attempts.len(),
{
    if attempts.len() == 0 {
        run
    } else {
        after_failure(after_failures(run, attempts.drop_last()), attempts.last().failure).0
    }
}

/// What to do next after a series of failed attempts.
pub open spec fn step_after_failures(run: RunView, attempts: Seq<FailedAttempt>) -> StepView {
    after_failure(after_failures(run, attempts.drop_last()), attempts.last().failure).1
}

/// The log after a series of failed attempts.
pub open spec fn log_after_failures(
    log: Seq<LogRecord>,
    cid: Seq<char>,
    attempts: Seq<FailedAttempt>,
) -> Seq<LogRecord>
    decreases attempts.len(),
{
    if attempts.len() == 0 {
        log
    } else {
        log_after_failures(log, cid, attempts.drop_last()).push(
            record(
                cid,
                attempts.last().time,
                false,
                failure_message(attempts.last().failure),
            ),
        )
    }
}

/// As long as fewer attempts failed than are made, the same archive is fetched
/// again after the pause, and the next attempt is counted.
pub proof fn law_failed_attempts_are_retried(cid: Seq<char>, attempts: Seq<FailedAttempt>)
    requires
        0 < attempts.len() < 15,
    ensures
        after_failures(started(cid), attempts) == (RunView {
            cid,
            attempt: attempts.len() as int + 1,
            phase: Phase::Fetching,
        }),
        step_after_failures(started(cid), attempts) == (StepView::Retry {
            wait_secs: 60,
            url: "https://arweave.net/"@ + cid,
        }),
    decreases attempts.len(),
{
    if attempts.len() > 1 {
        law_failed_attempts_are_retried(cid, attempts.drop_last());
    } else {
        assert(after_failures(started(cid), attempts.drop_last()) == started(cid));
    }
}

/// An update whose every attempt fails ends after the last of them, with the
/// answer that goes by why that one failed.
pub proof fn law_last_failed_attempt_ends_update(cid: Seq<char>, attempts: Seq<FailedAttempt>)
    requires
        attempts.len() == 15,
    ensures
        after_failures(started(cid), attempts) == (RunView {
            cid,
            attempt: 15,
            phase: Phase::Finished,
        }),
        step_after_failures(started(cid), attempts) == (StepView::Fail {
            message: final_message(attempts.last().failure),
        }),
{
    law_failed_attempts_are_retried(cid, attempts.drop_last());
}

/// As long as fewer attempts failed than are made, an archive that unpacks to
/// files with an index page has those files put in place.
pub proof fn law_good_archive_is_published(
    cid: Seq<char>,
    attempts: Seq<FailedAttempt>,
    files: Map<Seq<char>, FileView>,
)
    requires
        attempts.len() < 15,
        files.contains_key("index.html"@),
    ensures
        extraction_failure(Ok(files)) is None,
        after_files(after_failures(started(cid), attempts), files) == (
            RunView { cid, attempt: attempts.len() as int + 1, phase: Phase::Publishing },
            StepView::Publish { files, settle_millis: 100 },
        ),
{
    if attempts.len() > 0 {
        law_failed_attempts_are_retried(cid, attempts);
    }
}

/// Every failed attempt leaves exactly one entry in the log, behind all that was
/// there, with the reason and without success.
pub proof fn law_failed_attempts_are_logged(
    log: Seq<LogRecord>,
    cid: Seq<char>,
    attempts: Seq<FailedAttempt>,
)
    ensures
        log_after_failures(log, cid, attempts).len() == log.len() + attempts.len(),
        log_after_failures(log, cid, attempts).take(log.len() as int) == log,
        forall|i: int|
            0 <= i < attempts.len() ==> log_after_failures(log, cid, attempts)[log.len() + i]
                == record(
                cid,
                (#[trigger] attempts[i]).time,
                false,
                failure_message(attempts[i].failure),
            ),
    decreases attempts.len(),
{
    let after = log_after_failures(log, cid, attempts);
    if attempts.len() > 0 {
        let fewer = attempts.drop_last();
        let before = log_after_failures(log, cid, fewer);
        law_failed_attempts_are_logged(log, cid, fewer);
        assert(after.take(log.len() as int) =~= before.take(log.len() as int));
        assert forall|i: int| 0 <= i < attempts.len() implies after[log.len() + i] == record(
            cid,
            (#[trigger] attempts[i]).time,
            false,
            failure_message(attempts[i].failure),
        ) by {
            if i < fewer.len() {
                assert(fewer[i] == attempts[i]);
            }
        }
    } else {
        assert(after.take(log.len() as int) =~= log);
    }
}

/// An update starts with its first attempt, for the identifier as it was given.
pub proof fn law_update_starts_with_first_attempt(cid: Seq<char>)
    ensures
        started(cid).cid == cid,
        started(cid).attempt == 1,
        started(cid).phase == Phase::Fetching,
{
}

/// Any failed attempt before the fifteenth is followed by the next one, for the
/// same identifier and at the same address, after sixty seconds.
pub proof fn law_failed_attempt_is_repeated(run: RunView, failure: Failure)
    requires
        run.attempt < 15,
    ensures
        ({
            let (after, step) = after_failure(run, failure);
            &&& after.cid == run.cid
            &&& after.attempt == run.attempt + 1
            &&& after.phase == run.phase
            &&& step == (StepView::Retry { wait_secs: 60, url: "https://arweave.net/"@ + run.cid })
        }),
{
}

/// The fifteenth attempt, where it fails, is the last: the request is told that
/// the index page was missing, if that is why it failed, else how many attempts
/// there were.
pub proof fn law_fifteenth_failure_is_final(run: RunView, failure: Failure)
    requires
        run.attempt == 15,
    ensures
        ({
            let (after, step) = after_failure(run, failure);
            &&& after.cid == run.cid
            &&& after.attempt == 15
            &&& after.phase == Phase::Finished
            &&& failure == Failure::NoIndexPage ==> step == (StepView::Fail {
                message: "New files missing index.html"@,
            })
            &&& failure != Failure::NoIndexPage ==> step == (StepView::Fail {
                message: "Failed to update files after 15 attempts"@,
            })
        }),
{
    reveal_with_fuel(decimal, 3);
    reveal_strlit("Failed to update files after ");
    reveal_strlit(" attempts");
    reveal_strlit("Failed to update files after 15 attempts");
    assert(decimal(15) =~= seq!['1', '5']);
    assert("Failed to update files after "@ + decimal(15) + " attempts"@
        =~= "Failed to update files after 15 attempts"@);
}

/// A failed attempt is logged with its whole reason, whatever that is.
pub proof fn law_failure_is_told(reason: Seq<char>)
    ensures
        failure_message(Failure::NotFetched(reason)) == "Failed to fetch ZIP: "@ + reason,
        failure_message(Failure::NotExtracted(reason)) == "Failed to extract ZIP: "@ + reason,
        failure_message(Failure::NoIndexPage) == "New files missing index.html"@,
{
}

/// A log entry says what it was made of.
pub proof fn law_entry_says_what_it_was_made_of(
    cid: Seq<char>,
    now: Timestamp,
    success: bool,
    message: Seq<char>,
    entry: UpdateLogEntry,
)
    ensures
        record(cid, now, success, message).cid == cid,
        record(cid, now, success, message).timestamp == now,
        record(cid, now, success, message).success == success,
        record(cid, now, success, message).message == message,
        entry@.cid == entry.cid@,
        entry@.timestamp == entry.timestamp,
        entry@.success == entry.success,
        entry@.message == entry.message@,
{
}

/// An attempt whose archive was fetched fails if and only if the archive did not
/// unpack, for that reason, or unpacked to files without an index page; whatever
/// else the files are, and however many.
pub proof fn law_files_need_index_page_alone(
    result: Result<Map<Seq<char>, FileView>, Seq<char>>,
    run: RunView,
)
    ensures
        match result {
            Err(reason) => extraction_failure(result) == Some(Failure::NotExtracted(reason)),
            Ok(files) => {
                &&& files.contains_key("index.html"@) <==> extraction_failure(result) is None
                &&& !files.contains_key("index.html"@) ==> extraction_failure(result) == Some(
                    Failure::NoIndexPage,
                )
                &&& after_files(run, files).0.cid == run.cid
                &&& after_files(run, files).0.attempt == run.attempt
                &&& after_files(run, files).0.phase == Phase::Publishing
                &&& after_files(run, files).1 == (StepView::Publish { files, settle_millis: 100 })
            },
        },
{
}

/// What unpacking came to is the files of the site, or the reason.
pub proof fn law_extraction_is_the_result(result: Result<Site, String>)
    ensures
        result matches Ok(files) ==> extraction(result) == Ok::<
            Map<Seq<char>, FileView>,
            Seq<char>,
        >(files@),
        result matches Err(reason) ==> extraction(result) == Err::<
            Map<Seq<char>, FileView>,
            Seq<char>,
        >(reason@),
{
}

/// An update that was carried through is logged with the time it took, as it was
/// given, and the three amounts of memory in the order in which they were taken.
pub proof fn law_success_is_told(elapsed: Seq<char>, before: nat, pre_store: nat, after: nat)
    ensures
        success_message(elapsed, before, pre_store, after) == "Files updated successfully in "@
            + elapsed + "s, memory: "@ + decimal(before) + " KB -> "@ + decimal(pre_store)
            + " KB -> "@ + decimal(after) + " KB"@,
        decimal_value(decimal(before)) == before,
        decimal_value(decimal(pre_store)) == pre_store,
        decimal_value(decimal(after)) == after,
{
    law_decimal_stands_for_number(before);
    law_decimal_stands_for_number(pre_store);
    law_decimal_stands_for_number(after);
}

/// What a step says is what it holds.
pub proof fn law_step_says_what_it_holds(step: Step)
    ensures
        match step {
            Step::Retry { wait_secs, url } => step@ == (StepView::Retry {
                wait_secs: wait_secs as int,
                url: url@,
            }),
            Step::Publish { files, settle_millis } => step@ == (StepView::Publish {
                files: files@,
                settle_millis: settle_millis as int,
            }),
            Step::Fail { message } => step@ == (StepView::Fail { message: message@ }),
        },
{
}

} // verus!
