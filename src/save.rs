//! Saving the images of a response as files under a directory, as a state
//! machine: the caller performs each action it is handed (create the
//! directory, run the jobs) and reports back what happened as an event.
//!
//! A save first learns whether the directory exists, creates it if it does
//! not, then hands out one job per image, all at once, and collects every
//! job's outcome. A failing job never stops the others; the save fails when
//! any job failed, listing the message of every failure in the order the
//! outcomes arrived.

use vstd::prelude::*;
use vstd::string::StringExecFns;
use crate::naming::{image_file_name, image_file_name_text, lemma_image_file_names_distinct};
use crate::resolve::{error_message, AssetError};
use crate::types::{ImageData, ImageResponse};

verus! {

/// The work of saving one image: where to write it, and what to write.
#[derive(Clone, Debug)]
pub struct SaveJob {
    pub file_name: String,
    pub source: ImageData,
}

/// `jobs` saves each image of `data` under the name that its position gives.
pub open spec fn is_plan(jobs: Seq<SaveJob>, data: Seq<ImageData>, tag: Seq<char>) -> bool {
    &&& jobs.len() == data.len()
    &&& forall|i: int|
        0 <= i < jobs.len() ==> #[trigger] jobs[i].source == data[i] && jobs[i].file_name@
            == image_file_name(tag, i as nat)
}

/// One job per image of `data`, in order, with file names that begin with `tag`.
pub fn plan_jobs(data: &Vec<ImageData>, tag: &str) -> (r: Vec<SaveJob>)
    ensures
        is_plan(r@, data@, tag@),
{
    let mut jobs: Vec<SaveJob> = Vec::new();
    let mut i: usize = 0;
    while i < data.len()
        invariant
            i <= data.len(),
            is_plan(jobs@, data@.subrange(0, i as int), tag@),
        decreases data.len() - i,
    {
        let job = SaveJob { file_name: image_file_name_text(tag, i), source: data[i].duplicate() };
        jobs.push(job);
        i = i + 1;
    }
    assert(data@.subrange(0, i as int) =~= data@);
    jobs
}

/// The jobs of one plan all write to different files.
pub proof fn lemma_plan_file_names_distinct(
    jobs: Seq<SaveJob>,
    data: Seq<ImageData>,
    tag: Seq<char>,
    i: int,
    j: int,
)
    requires
        is_plan(jobs, data, tag),
        0 <= i < jobs.len(),
        0 <= j < jobs.len(),
        i != j,
    ensures
        jobs[i].file_name@ != jobs[j].file_name@,
{
    assert(jobs[i].source == data[i]);
    assert(jobs[j].source == data[j]);
    lemma_image_file_names_distinct(tag, i as nat, j as nat);
}

/// Where a save stands.
#[derive(Clone, Copy, Debug, PartialEq, Eq, Structural)]
pub enum SavePhase {
    /// Waiting to learn whether the target directory exists.
    CheckingDirectory,
    /// Waiting for the target directory to be created.
    CreatingDirectory,
    /// The jobs were handed out; waiting for their outcomes.
    Running,
    /// The outcome was reported; nothing more happens.
    Finished,
}

/// What the caller reports back to a save.
#[derive(Debug)]
pub enum SaveEvent {
    /// Whether the target directory exists, or why that could not be found out.
    DirectoryChecked(Result<bool, String>),
    /// The target directory was created, or why it could not be.
    DirectoryCreated(Result<(), String>),
    /// One job ran to its end, or failed.
    JobFinished(Result<(), AssetError>),
}

/// A failed save: the message of each failure, in the order they were reported.
#[derive(Clone, Debug)]
pub struct SaveFailure {
    pub reasons: Vec<String>,
}

/// What a save asks its caller to do next.
#[derive(Debug)]
pub enum SaveAction {
    /// Create the target directory, with any missing parent directories.
    CreateDirectory,
    /// Run every one of these jobs, independently of each other.
    RunJobs(Vec<SaveJob>),
    /// Nothing to do but report the next event.
    Wait,
    /// The save is over, with this outcome.
    Finish(Result<(), SaveFailure>),
}

/// A save as the model sees it: its phase, the jobs it planned, and the
/// outcomes of jobs reported so far.
pub struct SessionView {
    pub phase: SavePhase,
    pub planned: Seq<SaveJob>,
    pub results: Seq<Result<(), AssetError>>,
}

/// A save's action as the model sees it; a failure is the sequence of its
/// reasons' texts.
pub enum ActionView {
    CreateDirectory,
    RunJobs(Seq<SaveJob>),
    Wait,
    Finish(Result<(), Seq<Seq<char>>>),
}

/// The messages of the failed outcomes among `results`, in order.
pub open spec fn failure_messages(results: Seq<Result<(), AssetError>>) -> Seq<Seq<char>>
    decreases results.len(),
{
    if results.len() == 0 {
        seq![]
    } else {
        let earlier = failure_messages(results.drop_last());
        match results.last() {
            Ok(_) => earlier,
            Err(e) => earlier.push(error_message(e)),
        }
    }
}

/// The number of successful outcomes among `results`.
pub open spec fn success_count(results: Seq<Result<(), AssetError>>) -> nat
    decreases results.len(),
{
    if results.len() == 0 {
        0
    } else {
        success_count(results.drop_last()) + if results.last() is Ok {
            1nat
        } else {
            0nat
        }
    }
}

/// A save whose jobs have these outcomes succeeds when none failed, and
/// otherwise fails with the message of every failure.
pub open spec fn outcome_of(results: Seq<Result<(), AssetError>>) -> Result<(), Seq<Seq<char>>> {
    if failure_messages(results).len() == 0 {
        Ok(())
    } else {
        Err(failure_messages(results))
    }
}

/// A save that has just started.
pub open spec fn fresh_session(planned: Seq<SaveJob>) -> SessionView {
    SessionView { phase: SavePhase::CheckingDirectory, planned, results: seq![] }
}

/// Once the directory is there: an empty plan finishes at once, with
/// success; otherwise every planned job is handed out.
pub open spec fn launch(s: SessionView) -> (SessionView, ActionView) {
    if s.planned.len() == 0 {
        (SessionView { phase: SavePhase::Finished, ..s }, ActionView::Finish(Ok(())))
    } else {
        (SessionView { phase: SavePhase::Running, ..s }, ActionView::RunJobs(s.planned))
    }
}

/// The directory could not be checked or created: the save fails at once,
/// with that one reason, and no job is run.
pub open spec fn abort(s: SessionView, detail: String) -> (SessionView, ActionView) {
    (
        SessionView { phase: SavePhase::Finished, ..s },
        ActionView::Finish(Err(seq![error_message(AssetError::Directory(detail))])),
    )
}

/// One job's outcome arrives: it is recorded, and the save finishes once
/// every planned job has reported.
pub open spec fn record(s: SessionView, r: Result<(), AssetError>) -> (SessionView, ActionView) {
    let results = s.results.push(r);
    if results.len() >= s.planned.len() {
        (
            SessionView { phase: SavePhase::Finished, results, ..s },
            ActionView::Finish(outcome_of(results)),
        )
    } else {
        (SessionView { results, ..s }, ActionView::Wait)
    }
}

/// How a save answers an event. An event that its phase does not expect
/// changes nothing.
pub open spec fn next(s: SessionView, ev: SaveEvent) -> (SessionView, ActionView) {
    match ev {
        SaveEvent::DirectoryChecked(r) => if s.phase == SavePhase::CheckingDirectory {
            match r {
                Err(detail) => abort(s, detail),
                Ok(true) => launch(s),
                Ok(false) => (
                    SessionView { phase: SavePhase::CreatingDirectory, ..s },
                    ActionView::CreateDirectory,
                ),
            }
        } else {
            (s, ActionView::Wait)
        },
        SaveEvent::DirectoryCreated(r) => if s.phase == SavePhase::CreatingDirectory {
            match r {
                Err(detail) => abort(s, detail),
                Ok(_) => launch(s),
            }
        } else {
            (s, ActionView::Wait)
        },
        SaveEvent::JobFinished(r) => if s.phase == SavePhase::Running {
            record(s, r)
        } else {
            (s, ActionView::Wait)
        },
    }
}

/// The texts of `parts`, one after another, with `"; "` between each two.
pub open spec fn joined(parts: Seq<Seq<char>>) -> Seq<char>
    decreases parts.len(),
{
    if parts.len() == 0 {
        seq![]
    } else if parts.len() == 1 {
        parts[0]
    } else {
        joined(parts.drop_last()) + seq![';', ' '] + parts.last()
    }
}

impl SaveFailure {
    /// The texts of the reasons.
    pub open spec fn view(&self) -> Seq<Seq<char>> {
        self.reasons@.map_values(|reason: String| reason@)
    }

    /// All the reasons in one text, separated by `"; "`.
    pub fn message(&self) -> (r: String)
        ensures
            r@ == joined(self@),
    {
        let mut text = String::new();
        let mut i: usize = 0;
        while i < self.reasons.len()
            invariant
                i <= self.reasons.len(),
                text@ == joined(self@.subrange(0, i as int)),
            decreases self.reasons.len() - i,
        {
            let ghost done = self@.subrange(0, i as int);
            let ghost upto = self@.subrange(0, i + 1);
            assert(upto.drop_last() =~= done);
            assert(upto.last() == self.reasons@[i as int]@);
            assert(i == 0 ==> upto[0] == upto.last());
            if i > 0 {
                proof {
                    reveal_strlit("; ");
                }
                assert("; "@ =~= seq![';', ' ']);
                text.append("; ");
                text.append(self.reasons[i].as_str());
                assert(text@ =~= joined(upto));
            } else {
                text.append(self.reasons[i].as_str());
                assert(text@ =~= joined(upto));
            }
            i = i + 1;
        }
        assert(self@.subrange(0, i as int) =~= self@);
        text
    }
}

impl SaveAction {
    pub open spec fn view(&self) -> ActionView {
        match self {
            SaveAction::CreateDirectory => ActionView::CreateDirectory,
            SaveAction::RunJobs(jobs) => ActionView::RunJobs(jobs@),
            SaveAction::Wait => ActionView::Wait,
            SaveAction::Finish(Ok(_)) => ActionView::Finish(Ok(())),
            SaveAction::Finish(Err(failure)) => ActionView::Finish(Err(failure@)),
        }
    }
}

/// One save of the images of a response.
pub struct SaveSession {
    phase: SavePhase,
    pending: Vec<SaveJob>,
    expected: usize,
    reported: usize,
    failures: Vec<String>,
    planned: Ghost<Seq<SaveJob>>,
    results: Ghost<Seq<Result<(), AssetError>>>,
}

impl SaveSession {
    pub closed spec fn view(&self) -> SessionView {
        SessionView { phase: self.phase, planned: self.planned@, results: self.results@ }
    }

    /// The fields agree with the model.
    pub closed spec fn wf(&self) -> bool {
        &&& self.expected == self.planned@.len()
        &&& self.reported == self.results@.len()
        &&& self.phase != SavePhase::Finished ==> self.failures@.map_values(|reason: String| reason@)
            == failure_messages(self.results@)
        &&& (self.phase == SavePhase::CheckingDirectory || self.phase
            == SavePhase::CreatingDirectory) ==> self.pending@ == self.planned@ && self.results@.len() == 0
        &&& self.phase == SavePhase::Running ==> self.results@.len() < self.planned@.len()
    }

    /// A save of the images of `response`, whose file names begin with `tag`.
    /// Its caller first finds out whether the target directory exists.
    pub fn new(response: &ImageResponse, tag: &str) -> (r: SaveSession)
        ensures
            r.wf(),
            r@ == fresh_session(r@.planned),
            is_plan(r@.planned, response.data@, tag@),
    {
        let jobs = plan_jobs(&response.data, tag);
        let ghost planned = jobs@;
        let ghost no_results: Seq<Result<(), AssetError>> = seq![];
        let s = SaveSession {
            phase: SavePhase::CheckingDirectory,
            expected: jobs.len(),
            pending: jobs,
            reported: 0,
            failures: Vec::new(),
            planned: Ghost(planned),
            results: Ghost(no_results),
        };
        assert(s.failures@.map_values(|reason: String| reason@) =~= seq![]);
        s
    }

    fn launch(&mut self) -> (a: SaveAction)
        requires
            old(self).wf(),
            old(self).phase == SavePhase::CheckingDirectory || old(self).phase
                == SavePhase::CreatingDirectory,
        ensures
            final(self).wf(),
            (final(self)@, a@) == launch(old(self)@),
    {
        if self.pending.len() == 0 {
            self.phase = SavePhase::Finished;
            SaveAction::Finish(Ok(()))
        } else {
            let mut jobs: Vec<SaveJob> = Vec::new();
            std::mem::swap(&mut jobs, &mut self.pending);
            self.phase = SavePhase::Running;
            SaveAction::RunJobs(jobs)
        }
    }

    fn abort(&mut self, detail: String) -> (a: SaveAction)
        requires
            old(self).wf(),
        ensures
            final(self).wf(),
            (final(self)@, a@) == abort(old(self)@, detail),
    {
        self.phase = SavePhase::Finished;
        let message = AssetError::Directory(detail).message();
        let reasons = vec![message];
        let failure = SaveFailure { reasons };
        assert(failure@ =~= seq![error_message(AssetError::Directory(detail))]);
        SaveAction::Finish(Err(failure))
    }

    fn record(&mut self, r: Result<(), AssetError>) -> (a: SaveAction)
        requires
            old(self).wf(),
            old(self).phase == SavePhase::Running,
        ensures
            final(self).wf(),
            (final(self)@, a@) == record(old(self)@, r),
    {
        let ghost old_results = self.results@;
        let ghost results = old_results.push(r);
        assert(results.drop_last() =~= old_results);
        match &r {
            Ok(_) => {},
            Err(e) => {
                let message = e.message();
                self.failures.push(message);
            },
        }
        self.results = Ghost(results);
        self.reported = self.reported + 1;
        assert(self.failures@.map_values(|reason: String| reason@) =~= failure_messages(results));
        if self.reported >= self.expected {
            self.phase = SavePhase::Finished;
            if self.failures.len() == 0 {
                SaveAction::Finish(Ok(()))
            } else {
                let mut reasons: Vec<String> = Vec::new();
                std::mem::swap(&mut reasons, &mut self.failures);
                SaveAction::Finish(Err(SaveFailure { reasons }))
            }
        } else {
            SaveAction::Wait
        }
    }

    /// Answers one event as `next` says.
    pub fn step(&mut self, ev: SaveEvent) -> (a: SaveAction)
        requires
            old(self).wf(),
        ensures
            final(self).wf(),
            (final(self)@, a@) == next(old(self)@, ev),
    {
        match ev {
            SaveEvent::DirectoryChecked(r) => {
                if self.phase == SavePhase::CheckingDirectory {
                    match r {
                        Err(detail) => self.abort(detail),
                        Ok(true) => self.launch(),
                        Ok(false) => {
                            self.phase = SavePhase::CreatingDirectory;
                            SaveAction::CreateDirectory
                        },
                    }
                } else {
                    SaveAction::Wait
                }
            },
            SaveEvent::DirectoryCreated(r) => {
                if self.phase == SavePhase::CreatingDirectory {
                    match r {
                        Err(detail) => self.abort(detail),
                        Ok(_) => self.launch(),
                    }
                } else {
                    SaveAction::Wait
                }
            },
            SaveEvent::JobFinished(r) => {
                if self.phase == SavePhase::Running {
                    self.record(r)
                } else {
                    SaveAction::Wait
                }
            },
        }
    }
}


/// The state and last action of a running save after its jobs report
/// `results`, one by one, in order.
pub open spec fn feed(s: SessionView, results: Seq<Result<(), AssetError>>) -> (
    SessionView,
    ActionView,
)
    decreases results.len(),
{
    if results.len() == 0 {
        (s, ActionView::Wait)
    } else {
        next(feed(s, results.drop_last()).0, SaveEvent::JobFinished(results.last()))
    }
}

/// A save of a response without images, once its directory is there (found
/// or created), finishes at once with success and hands out no job.
pub proof fn lemma_empty_response_succeeds(s: SessionView)
    requires
        s == fresh_session(seq![]),
    ensures
        next(s, SaveEvent::DirectoryChecked(Ok(true))).1 == ActionView::Finish(Ok(())),
        next(
            next(s, SaveEvent::DirectoryChecked(Ok(false))).0,
            SaveEvent::DirectoryCreated(Ok(())),
        ).1 == ActionView::Finish(Ok(())),
{
}

/// A missing directory is created before any job is handed out, and then
/// every planned job is handed out at once.
pub proof fn lemma_directory_created_before_jobs(s: SessionView, planned: Seq<SaveJob>)
    requires
        s == fresh_session(planned),
        planned.len() > 0,
    ensures
        next(s, SaveEvent::DirectoryChecked(Ok(false))).1 == ActionView::CreateDirectory,
        next(
            next(s, SaveEvent::DirectoryChecked(Ok(false))).0,
            SaveEvent::DirectoryCreated(Ok(())),
        ).1 == ActionView::RunJobs(planned),
        next(s, SaveEvent::DirectoryChecked(Ok(true))).1 == ActionView::RunJobs(planned),
{
}

/// Where the directory can be neither checked nor created, the save fails
/// with exactly that one reason, and no event that follows hands out a job.
pub proof fn lemma_directory_failure_is_final(
    s: SessionView,
    planned: Seq<SaveJob>,
    detail: String,
    later: SaveEvent,
)
    requires
        s == fresh_session(planned),
    ensures
        next(s, SaveEvent::DirectoryChecked(Err(detail))).1 == ActionView::Finish(
            Err(seq![error_message(AssetError::Directory(detail))]),
        ),
        next(
            next(s, SaveEvent::DirectoryChecked(Ok(false))).0,
            SaveEvent::DirectoryCreated(Err(detail)),
        ).1 == ActionView::Finish(Err(seq![error_message(AssetError::Directory(detail))])),
        next(next(s, SaveEvent::DirectoryChecked(Err(detail))).0, later).1 == ActionView::Wait,
        next(
            next(
                next(s, SaveEvent::DirectoryChecked(Ok(false))).0,
                SaveEvent::DirectoryCreated(Err(detail)),
            ).0,
            later,
        ).1 == ActionView::Wait,
{
}

proof fn lemma_feed_prefix(s: SessionView, results: Seq<Result<(), AssetError>>)
    requires
        s.phase == SavePhase::Running,
        s.results.len() == 0,
        results.len() <= s.planned.len(),
        s.planned.len() > 0,
    ensures
        feed(s, results).0.planned == s.planned,
        feed(s, results).0.results == results,
        feed(s, results).0.phase == if results.len() == s.planned.len() {
            SavePhase::Finished
        } else {
            SavePhase::Running
        },
        0 < results.len() == s.planned.len() ==> feed(s, results).1 == ActionView::Finish(
            outcome_of(results),
        ),
    decreases results.len(),
{
    if results.len() > 0 {
        lemma_feed_prefix(s, results.drop_last());
        assert(results.drop_last().push(results.last()) =~= results);
    }
}

/// Once every job of a running save has reported, the save finishes with
/// the outcome that all the reports together give.
pub proof fn lemma_every_outcome_reported(s: SessionView, results: Seq<Result<(), AssetError>>)
    requires
        s.phase == SavePhase::Running,
        s.results.len() == 0,
        results.len() == s.planned.len(),
        results.len() > 0,
    ensures
        feed(s, results).0.phase == SavePhase::Finished,
        feed(s, results).1 == ActionView::Finish(outcome_of(results)),
{
    lemma_feed_prefix(s, results);
}

/// Where every job succeeds, so does the save, and every job counts as a success.
pub proof fn lemma_all_succeed(results: Seq<Result<(), AssetError>>)
    requires
        forall|i: int| 0 <= i < results.len() ==> #[trigger] results[i] is Ok,
    ensures
        outcome_of(results) == Ok::<(), Seq<Seq<char>>>(()),
        success_count(results) == results.len(),
    decreases results.len(),
{
    if results.len() > 0 {
        let earlier = results.drop_last();
        assert forall|i: int| 0 <= i < earlier.len() implies #[trigger] earlier[i] is Ok by {
            assert(earlier[i] == results[i]);
        }
        lemma_all_succeed(earlier);
        assert(results.last() == results[results.len() - 1]);
    }
}

/// Each outcome is either a success or one reason of the failure: with K of N
/// jobs failed, the save fails with exactly K reasons and N - K jobs succeeded.
pub proof fn lemma_failures_counted(results: Seq<Result<(), AssetError>>)
    ensures
        failure_messages(results).len() + success_count(results) == results.len(),
        success_count(results) < results.len() ==> outcome_of(results) == Err::<(), Seq<Seq<char>>>(
            failure_messages(results),
        ),
    decreases results.len(),
{
    if results.len() > 0 {
        lemma_failures_counted(results.drop_last());
    }
}

/// A failed job never hides in a save's outcome: the save fails, and its
/// reasons hold that job's message, whatever the other jobs did.
pub proof fn lemma_failure_reported(results: Seq<Result<(), AssetError>>, i: int)
    requires
        0 <= i < results.len(),
        results[i] is Err,
    ensures
        failure_messages(results).contains(error_message(results[i]->Err_0)),
        outcome_of(results) is Err,
    decreases results.len(),
{
    let earlier = results.drop_last();
    if i == results.len() - 1 {
        assert(results.last() == results[i]);
        let msgs = failure_messages(results);
        assert(msgs[msgs.len() - 1] == error_message(results[i]->Err_0));
    } else {
        assert(earlier[i] == results[i]);
        lemma_failure_reported(earlier, i);
        let m = error_message(results[i]->Err_0);
        let k = choose|k: int| 0 <= k < failure_messages(earlier).len() && failure_messages(earlier)[k] == m;
        match results.last() {
            Ok(_) => {},
            Err(e) => {
                assert(failure_messages(results)[k] == m);
            },
        }
    }
}

} // verus!
