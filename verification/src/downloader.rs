//! The download queue and the state machine that acquires one file.
//!
//! Nothing here touches the network or the disk. A [`DownloadJob`] says
//! through its [`Signal`] what has to be done next; the caller does it and
//! reports the result as an [`Event`].

use vstd::prelude::*;
use crate::error::{Failure, RetryError};
use crate::fetcher::{
    bytes_of, fetch_bytes, fetch_json, fetch_text, json_of, text_of, Reply, ReplyView,
};
use crate::locate::{file_name, target_name};
use crate::paths::DirPath;
use crate::retry::{
    all_transient, judged, lemma_exhaustion, lemma_first_success, retry_outcome, RetryPolicy,
    RetryState, Verdict,
};

verus! {

/// One file to acquire: where it comes from and the directory it goes to.
/// Its name in that directory is the last path segment of the URL.
#[derive(Debug)]
pub struct Download {
    pub url: String,
    pub path: DirPath,
}

/// The mathematical value of a [`Download`].
pub struct DownloadView {
    pub url: Seq<char>,
    pub dir: Seq<Seq<char>>,
}

impl View for Download {
    type V = DownloadView;

    open spec fn view(&self) -> DownloadView {
        DownloadView { url: self.url@, dir: self.path@ }
    }
}

/// How a download ended well.
#[derive(Clone, Copy, Debug, PartialEq, Eq, Structural)]
pub enum Completion {
    /// The file was there already; nothing was fetched or written.
    AlreadyPresent,
    /// The file was fetched and written.
    Stored,
}

/// What the caller of a [`DownloadJob`] has to do next.
#[derive(Clone, Copy, Debug, PartialEq, Eq)]
pub enum Signal {
    /// Tell whether the file named by the job exists in its directory.
    Probe,
    /// Issue a GET request for the job's URL.
    Get,
    /// Make sure that the job's directory exists, creating it and its
    /// parents where they are missing.
    MakeDir,
    /// Write the job's body to the job's file.
    Write,
    /// Wait this many seconds.
    Sleep(u64),
    /// Nothing: the job is over, with this result.
    Finish(Result<Completion, RetryError>),
}

/// What the caller observed when it did what a [`Signal`] asked for.
pub enum Event {
    /// Answer to `Probe`: whether the file exists.
    Probed(bool),
    /// Answer to `Get`.
    Replied(Reply),
    /// Answer to `MakeDir`: whether the directory is there now.
    DirReady(bool),
    /// Answer to `Write`: whether the whole body was written.
    Written(bool),
    /// Answer to `Sleep`: the time has passed.
    Woke,
}

/// The mathematical value of an [`Event`].
pub enum EventView {
    Probed(bool),
    Replied(ReplyView),
    DirReady(bool),
    Written(bool),
    Woke,
}

impl View for Event {
    type V = EventView;

    open spec fn view(&self) -> EventView {
        match self {
            Event::Probed(exists) => EventView::Probed(*exists),
            Event::Replied(reply) => EventView::Replied(reply@),
            Event::DirReady(ok) => EventView::DirReady(*ok),
            Event::Written(ok) => EventView::Written(*ok),
            Event::Woke => EventView::Woke,
        }
    }
}

/// Where a job stands within its current attempt.
enum Stage {
    Probing { name: String },
    Fetching { name: String },
    Preparing { name: String, body: Vec<u8> },
    Writing { name: String, body: Vec<u8> },
    Sleeping,
    Finished(Result<Completion, RetryError>),
}

/// The mathematical value of a job's stage.
pub enum StageView {
    /// Waiting to learn whether the file `name` exists.
    Probing { name: Seq<char> },
    /// Waiting for the reply to the GET request.
    Fetching { name: Seq<char> },
    /// Holding the body, waiting for the directory.
    Preparing { name: Seq<char>, body: Seq<u8> },
    /// Waiting for the body to be written.
    Writing { name: Seq<char>, body: Seq<u8> },
    /// Waiting for the delay before the next attempt.
    Sleeping,
    /// Over.
    Finished(Result<Completion, RetryError>),
}

impl View for Stage {
    type V = StageView;

    closed spec fn view(&self) -> StageView {
        match self {
            Stage::Probing { name } => StageView::Probing { name: name@ },
            Stage::Fetching { name } => StageView::Fetching { name: name@ },
            Stage::Preparing { name, body } => StageView::Preparing { name: name@, body: body@ },
            Stage::Writing { name, body } => StageView::Writing { name: name@, body: body@ },
            Stage::Sleeping => StageView::Sleeping,
            Stage::Finished(result) => StageView::Finished(*result),
        }
    }
}

/// The acquisition of one file under a retry policy.
pub struct DownloadJob {
    task: Download,
    retry: RetryState,
    stage: Stage,
}

/// The mathematical value of a [`DownloadJob`].
pub struct JobView {
    pub task: DownloadView,
    pub policy: RetryPolicy,
    /// Attempts that failed so far.
    pub failed: nat,
    /// The failure of the latest failed attempt.
    pub last: Option<Failure>,
    pub stage: StageView,
}

impl View for DownloadJob {
    type V = JobView;

    closed spec fn view(&self) -> JobView {
        JobView {
            task: self.task@,
            policy: self.retry.policy(),
            failed: self.retry.failed(),
            last: self.retry.last(),
            stage: self.stage@,
        }
    }
}

/// The job, over with `result`.
pub open spec fn finished(job: JobView, result: Result<Completion, RetryError>) -> JobView {
    JobView { stage: StageView::Finished(result), ..job }
}

/// The error of a job whose attempts have run out.
pub open spec fn exhausted(job: JobView) -> RetryError {
    RetryError::RetriesExhausted { attempts: job.policy.max_attempts, last: job.last }
}

/// The job after an attempt failed with `failure`: over where the failure
/// is not transient or no attempt is left, and otherwise asleep before the
/// next attempt.
pub open spec fn after_failure(job: JobView, failure: Failure) -> JobView {
    if !failure.transient() {
        finished(job, Err(RetryError::Failed(failure)))
    } else if job.failed >= job.policy.max_attempts {
        finished(job, Err(exhausted(job)))
    } else {
        let counted = JobView { failed: job.failed + 1, last: Some(failure), ..job };
        if counted.failed >= job.policy.max_attempts {
            finished(counted, Err(exhausted(counted)))
        } else {
            JobView { stage: StageView::Sleeping, ..counted }
        }
    }
}

/// The job at the start of an attempt: the URL is parsed and the file name
/// derived from it anew, and a URL that gives none fails the attempt.
pub open spec fn attempt(job: JobView) -> JobView {
    if job.failed >= job.policy.max_attempts {
        finished(job, Err(exhausted(job)))
    } else {
        match file_name(job.task.url) {
            Some(name) => JobView { stage: StageView::Probing { name }, ..job },
            None => after_failure(job, Failure::Parse),
        }
    }
}

/// A job for `task` under `policy`, at the start of its first attempt.
pub open spec fn fresh(task: DownloadView, policy: RetryPolicy) -> JobView {
    attempt(JobView { task, policy, failed: 0, last: None, stage: StageView::Sleeping })
}

/// The job after `event`. An event that does not answer the pending signal
/// leaves the job as it is.
pub open spec fn advance(job: JobView, event: EventView) -> JobView {
    match (job.stage, event) {
        (StageView::Probing { name }, EventView::Probed(exists)) => if exists {
            finished(job, Ok(Completion::AlreadyPresent))
        } else {
            JobView { stage: StageView::Fetching { name }, ..job }
        },
        (StageView::Fetching { name }, EventView::Replied(reply)) => match bytes_of(reply) {
            Ok(body) => JobView { stage: StageView::Preparing { name, body }, ..job },
            Err(failure) => after_failure(job, failure),
        },
        (StageView::Preparing { name, body }, EventView::DirReady(ok)) => if ok {
            JobView { stage: StageView::Writing { name, body }, ..job }
        } else {
            after_failure(job, Failure::Io)
        },
        (StageView::Writing { name, body }, EventView::Written(ok)) => if ok {
            finished(job, Ok(Completion::Stored))
        } else {
            after_failure(job, Failure::Io)
        },
        (StageView::Sleeping, EventView::Woke) => attempt(job),
        _ => job,
    }
}

/// What the job is waiting for.
pub open spec fn pending(job: JobView) -> Signal {
    match job.stage {
        StageView::Probing { name } => Signal::Probe,
        StageView::Fetching { name } => Signal::Get,
        StageView::Preparing { name, body } => Signal::MakeDir,
        StageView::Writing { name, body } => Signal::Write,
        StageView::Sleeping => Signal::Sleep(job.policy.delay_secs),
        StageView::Finished(result) => Signal::Finish(result),
    }
}

/// The file name that the job is working on, in the stages that have one.
pub open spec fn working_name(job: JobView) -> Option<Seq<char>> {
    match job.stage {
        StageView::Probing { name } => Some(name),
        StageView::Fetching { name } => Some(name),
        StageView::Preparing { name, body } => Some(name),
        StageView::Writing { name, body } => Some(name),
        _ => None,
    }
}

/// The body that the job holds, in the stages that have one.
pub open spec fn held_body(job: JobView) -> Option<Seq<u8>> {
    match job.stage {
        StageView::Preparing { name, body } => Some(body),
        StageView::Writing { name, body } => Some(body),
        _ => None,
    }
}

impl DownloadJob {
    /// A job for `task` under `policy`, at the start of its first attempt.
    pub fn new(task: Download, policy: RetryPolicy) -> (job: Self)
        ensures
            job@ == fresh(task@, policy),
    {
        let job = DownloadJob { task, retry: RetryState::new(policy), stage: Stage::Sleeping };
        job.begin()
    }

    /// Starts an attempt.
    fn begin(self) -> (next: Self)
        ensures
            next@ == attempt(self@),
    {
        let DownloadJob { task, retry, stage: _ } = self;
        match retry.check() {
            Err(e) => DownloadJob { task, retry, stage: Stage::Finished(Err(e)) },
            Ok(_) => match target_name(task.url.as_str()) {
                Ok(name) => DownloadJob { task, retry, stage: Stage::Probing { name } },
                Err(failure) => {
                    let job = DownloadJob { task, retry, stage: Stage::Sleeping };
                    job.fail(failure)
                },
            },
        }
    }

    /// Ends an attempt that failed.
    fn fail(self, failure: Failure) -> (next: Self)
        ensures
            next@ == after_failure(self@, failure),
    {
        let DownloadJob { task, mut retry, stage: _ } = self;
        match retry.fail(failure) {
            Ok(_) => DownloadJob { task, retry, stage: Stage::Sleeping },
            Err(e) => DownloadJob { task, retry, stage: Stage::Finished(Err(e)) },
        }
    }

    /// Takes in what the caller observed and moves on.
    pub fn step(self, event: Event) -> (next: Self)
        ensures
            next@ == advance(self@, event@),
    {
        let DownloadJob { task, retry, stage } = self;
        match stage {
            Stage::Probing { name } => match event {
                Event::Probed(true) => DownloadJob {
                    task,
                    retry,
                    stage: Stage::Finished(Ok(Completion::AlreadyPresent)),
                },
                Event::Probed(false) => DownloadJob { task, retry, stage: Stage::Fetching { name } },
                _ => DownloadJob { task, retry, stage: Stage::Probing { name } },
            },
            Stage::Fetching { name } => match event {
                Event::Replied(reply) => match fetch_bytes(reply) {
                    Ok(body) => DownloadJob { task, retry, stage: Stage::Preparing { name, body } },
                    Err(failure) => {
                        let job = DownloadJob { task, retry, stage: Stage::Fetching { name } };
                        job.fail(failure)
                    },
                },
                _ => DownloadJob { task, retry, stage: Stage::Fetching { name } },
            },
            Stage::Preparing { name, body } => match event {
                Event::DirReady(true) => DownloadJob {
                    task,
                    retry,
                    stage: Stage::Writing { name, body },
                },
                Event::DirReady(false) => {
                    let job = DownloadJob { task, retry, stage: Stage::Preparing { name, body } };
                    job.fail(Failure::Io)
                },
                _ => DownloadJob { task, retry, stage: Stage::Preparing { name, body } },
            },
            Stage::Writing { name, body } => match event {
                Event::Written(true) => DownloadJob {
                    task,
                    retry,
                    stage: Stage::Finished(Ok(Completion::Stored)),
                },
                Event::Written(false) => {
                    let job = DownloadJob { task, retry, stage: Stage::Writing { name, body } };
                    job.fail(Failure::Io)
                },
                _ => DownloadJob { task, retry, stage: Stage::Writing { name, body } },
            },
            Stage::Sleeping => match event {
                Event::Woke => {
                    let job = DownloadJob { task, retry, stage: Stage::Sleeping };
                    job.begin()
                },
                _ => DownloadJob { task, retry, stage: Stage::Sleeping },
            },
            Stage::Finished(result) => DownloadJob { task, retry, stage: Stage::Finished(result) },
        }
    }

    /// What the caller has to do next.
    pub fn signal(&self) -> (s: Signal)
        ensures
            s == pending(self@),
    {
        match &self.stage {
            Stage::Probing { name: _ } => Signal::Probe,
            Stage::Fetching { name: _ } => Signal::Get,
            Stage::Preparing { name: _, body: _ } => Signal::MakeDir,
            Stage::Writing { name: _, body: _ } => Signal::Write,
            Stage::Sleeping => Signal::Sleep(self.retry.delay()),
            Stage::Finished(result) => Signal::Finish(*result),
        }
    }

    /// The URL to fetch.
    pub fn url(&self) -> (url: &String)
        ensures
            url@ == self@.task.url,
    {
        &self.task.url
    }

    /// The directory that the file goes to.
    pub fn dir(&self) -> (dir: &DirPath)
        ensures
            dir@ == self@.task.dir,
    {
        &self.task.path
    }

    /// The name of the file in its directory, while the job probes, fetches,
    /// prepares or writes.
    pub fn file_name(&self) -> (name: Option<&String>)
        ensures
            match name {
                Some(n) => working_name(self@) == Some(n@),
                None => working_name(self@) is None,
            },
    {
        match &self.stage {
            Stage::Probing { name } => Some(name),
            Stage::Fetching { name } => Some(name),
            Stage::Preparing { name, body: _ } => Some(name),
            Stage::Writing { name, body: _ } => Some(name),
            _ => None,
        }
    }

    /// The bytes to write, while the job prepares or writes.
    pub fn body(&self) -> (body: Option<&Vec<u8>>)
        ensures
            match body {
                Some(b) => held_body(self@) == Some(b@),
                None => held_body(self@) is None,
            },
    {
        match &self.stage {
            Stage::Preparing { name: _, body } => Some(body),
            Stage::Writing { name: _, body } => Some(body),
            _ => None,
        }
    }
}

/// The number of failures among `results`.
pub open spec fn count_failed(results: Seq<Result<Completion, RetryError>>) -> nat
    decreases results.len(),
{
    if results.len() == 0 {
        0
    } else {
        count_failed(results.drop_last()) + if results.last() is Err {
            1nat
        } else {
            0nat
        }
    }
}

/// There are no more failures than results.
pub proof fn lemma_count_failed_bound(results: Seq<Result<Completion, RetryError>>)
    ensures
        count_failed(results) <= results.len(),
    decreases results.len(),
{
    if results.len() > 0 {
        lemma_count_failed_bound(results.drop_last());
    }
}

/// The worklist of downloads, and the results of those that are over.
///
/// Tasks are taken from the end of the list. They are independent of each
/// other, and a task that fails does not keep the others from being taken.
pub struct Downloader {
    queue: Vec<Download>,
    results: Vec<Result<Completion, RetryError>>,
}

impl View for Downloader {
    type V = Seq<DownloadView>;

    /// The tasks that wait, the next one last.
    closed spec fn view(&self) -> Seq<DownloadView> {
        Seq::new(self.queue@.len(), |i: int| self.queue@[i]@)
    }
}

impl Downloader {
    /// The results recorded so far, in the order in which they came.
    pub closed spec fn results(&self) -> Seq<Result<Completion, RetryError>> {
        self.results@
    }

    /// An empty queue with nothing recorded.
    pub fn new() -> (d: Self)
        ensures
            d@ == Seq::<DownloadView>::empty(),
            d.results() == Seq::<Result<Completion, RetryError>>::empty(),
    {
        Downloader { queue: Vec::new(), results: Vec::new() }
    }

    /// Appends a task. The URL is not looked at here: whether it parses is
    /// found out, and retried, when the task is downloaded. This never fails.
    pub fn push_to_queue(&mut self, url: String, path: DirPath) -> (r: Result<(), Failure>)
        ensures
            r is Ok,
            final(self)@ == old(self)@.push(DownloadView { url: url@, dir: path@ }),
            final(self).results() == old(self).results(),
    {
        self.queue.push(Download { url, path });
        Ok(())
    }

    /// The tasks that wait, the next one last.
    pub fn tasks(&self) -> (tasks: &Vec<Download>)
        ensures
            tasks@.len() == self@.len(),
            forall|i: int| 0 <= i < tasks@.len() ==> (#[trigger] tasks@[i])@ == self@[i],
    {
        &self.queue
    }

    /// The number of tasks that wait.
    pub fn queued(&self) -> (n: usize)
        ensures
            n == self@.len(),
    {
        self.queue.len()
    }

    /// The job that downloads `url` into `path`, under the policy for
    /// downloads. The queue has no part in it.
    pub fn download_file(&self, url: String, path: &DirPath) -> (job: DownloadJob)
        ensures
            job@ == fresh(
                DownloadView { url: url@, dir: path@ },
                RetryPolicy { max_attempts: 9, delay_secs: 3 },
            ),
    {
        DownloadJob::new(Download { url, path: path.clone() }, RetryPolicy::downloads())
    }

    /// Takes the next task off the queue and starts its job, under the
    /// policy for downloads. `None` once the queue is empty.
    pub fn download_queue(&mut self) -> (next: Option<DownloadJob>)
        ensures
            final(self).results() == old(self).results(),
            old(self)@.len() == 0 ==> next is None && final(self)@ == old(self)@,
            old(self)@.len() > 0 ==> {
                &&& next is Some
                &&& next->0@ == fresh(old(self)@.last(), RetryPolicy { max_attempts: 9, delay_secs: 3 })
                &&& final(self)@ == old(self)@.drop_last()
            },
    {
        match self.queue.pop() {
            Some(task) => Some(DownloadJob::new(task, RetryPolicy::downloads())),
            None => None,
        }
    }

    /// Records how a job ended. A failure is only recorded: the queue is
    /// left as it is, and the tasks that wait stay to be taken.
    pub fn record(&mut self, result: Result<Completion, RetryError>)
        ensures
            final(self)@ == old(self)@,
            final(self).results() == old(self).results().push(result),
    {
        self.results.push(result);
    }

    /// The number of jobs recorded.
    pub fn finished(&self) -> (n: usize)
        ensures
            n == self.results().len(),
    {
        self.results.len()
    }

    /// The number of jobs recorded as failed.
    pub fn failures(&self) -> (n: usize)
        ensures
            n == count_failed(self.results()),
    {
        let mut n: usize = 0;
        let mut i: usize = 0;
        while i < self.results.len()
            invariant
                0 <= i <= self.results@.len(),
                n == count_failed(self.results@.take(i as int)),
                n <= i,
            decreases self.results@.len() - i,
        {
            proof {
                assert(self.results@.take(i + 1).drop_last() =~= self.results@.take(i as int));
                lemma_count_failed_bound(self.results@.take(i + 1));
            }
            if self.results[i].is_err() {
                n = n + 1;
            }
            i = i + 1;
        }
        assert(self.results@.take(i as int) =~= self.results@);
        n
    }

    /// Takes in the reply to a metadata request whose body is wanted as
    /// text, and decides under `state` what follows: the text, the error
    /// that ends the fetch, or the delay before the next request.
    pub fn to_text(&self, state: &mut RetryState, reply: Reply) -> (v: Verdict<String>)
        ensures
            final(state).policy() == old(state).policy(),
            match text_of(reply@) {
                Ok(text) => v matches Verdict::Finished(Ok(t)) && t@ == text && final(state).failed()
                    == old(state).failed() && final(state).last() == old(state).last(),
                Err(failure) => judged(
                    *old(state),
                    Err::<String, Failure>(failure),
                    v,
                    *final(state),
                ),
            },
    {
        state.judge(fetch_text(reply))
    }

    /// Takes in the reply to a metadata request whose body is wanted as
    /// JSON, and decides under `state` what follows: the document read from
    /// the body of this reply, the error that ends the fetch, or the delay
    /// before the next request.
    pub fn to_json(&self, state: &mut RetryState, reply: Reply) -> (v: Verdict<serde_json::Value>)
        ensures
            final(state).policy() == old(state).policy(),
            judged(*old(state), json_of(reply@), v, *final(state)),
            json_of(reply@) matches Ok(document) ==> v == Verdict::Finished(
                Ok::<serde_json::Value, RetryError>(document),
            ),
    {
        state.judge(fetch_json(reply))
    }
}

/// What a fetch of JSON comes to, attempt by attempt, when the requests are
/// answered by `replies` in order.
pub open spec fn json_outcomes(replies: Seq<ReplyView>) -> Seq<Result<serde_json::Value, Failure>> {
    Seq::new(replies.len(), |i: int| json_of(replies[i]))
}

/// A fetch of JSON returns on the first success: where the first `k`
/// replies fail in transport and reply number `k`, within the bound, holds a
/// document, the fetch gives the document of that reply, whatever later
/// replies would have held, and it is not settled before that reply.
pub proof fn lemma_json_after_failures(policy: RetryPolicy, replies: Seq<ReplyView>, k: int)
    requires
        0 <= k < replies.len(),
        k < policy.max_attempts,
        forall|j: int| 0 <= j < k ==> (#[trigger] replies[j]) is Unreachable,
        json_of(replies[k]) is Ok,
    ensures
        retry_outcome(policy, json_outcomes(replies)) == Some(
            Ok::<serde_json::Value, RetryError>(json_of(replies[k])->Ok_0),
        ),
        retry_outcome(policy, json_outcomes(replies).take(k)) is None,
{
    let outcomes = json_outcomes(replies);
    assert(all_transient(outcomes, k));
    lemma_first_success(policy, outcomes, k);
    lemma_exhaustion(policy, outcomes.take(k));
}

} // verus!
