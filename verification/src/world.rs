//! A model of what surrounds a download job, and what the job does in it.
//!
//! The caller of a [`crate::downloader::DownloadJob`] answers each signal
//! from the file system, the network and the clock. Here those answers are
//! given by a model, so that what the job does from its first signal to its
//! last can be stated and proved.

use vstd::prelude::*;
use crate::downloader::{
    advance, attempt, count_failed, fresh, Completion, DownloadView, EventView, JobView,
    StageView,
};
use crate::error::{Failure, RetryError};
use crate::fetcher::{bytes_of, success, ReplyView};
use crate::locate::file_name;
use crate::retry::RetryPolicy;

verus! {

/// What has been stored, asked and waited so far.
pub struct World {
    /// The files, by directory and name, with their contents.
    pub files: Map<(Seq<Seq<char>>, Seq<char>), Seq<u8>>,
    /// The URLs of the GET requests made, in order.
    pub requests: Seq<Seq<char>>,
    /// The seconds spent asleep.
    pub waited: nat,
}

/// How the outside answers.
pub struct Outside {
    /// The reply to a GET request for a URL, made after so many earlier
    /// requests.
    pub serve: spec_fn(Seq<char>, nat) -> ReplyView,
    /// Whether a directory can be made to exist.
    pub dir_ok: spec_fn(Seq<Seq<char>>) -> bool,
    /// Whether a file can be written, by directory and name.
    pub write_ok: spec_fn(Seq<Seq<char>>, Seq<char>) -> bool,
}

/// The answer to the pending signal of `job`, and the world after it. A
/// write that fails leaves no file.
pub open spec fn respond(outside: Outside, job: JobView, world: World) -> (EventView, World) {
    let dir = job.task.dir;
    match job.stage {
        StageView::Probing { name } => (
            EventView::Probed(world.files.dom().contains((dir, name))),
            world,
        ),
        StageView::Fetching { name } => (
            EventView::Replied((outside.serve)(job.task.url, world.requests.len())),
            World { requests: world.requests.push(job.task.url), ..world },
        ),
        StageView::Preparing { name, body } => (EventView::DirReady((outside.dir_ok)(dir)), world),
        StageView::Writing { name, body } => if (outside.write_ok)(dir, name) {
            (
                EventView::Written(true),
                World { files: world.files.insert((dir, name), body), ..world },
            )
        } else {
            (EventView::Written(false), world)
        },
        StageView::Sleeping => (
            EventView::Woke,
            World { waited: world.waited + job.policy.delay_secs as nat, ..world },
        ),
        StageView::Finished(result) => (EventView::Woke, world),
    }
}

/// The job and the world after at most `fuel` signals were answered.
pub open spec fn run(outside: Outside, job: JobView, world: World, fuel: nat) -> (JobView, World)
    decreases fuel,
{
    if fuel == 0 || job.stage is Finished {
        (job, world)
    } else {
        let (event, next) = respond(outside, job, world);
        run(outside, advance(job, event), next, (fuel - 1) as nat)
    }
}

/// A job that is not over has an attempt left.
pub open spec fn well_formed(job: JobView) -> bool {
    &&& job.failed <= job.policy.max_attempts
    &&& !(job.stage is Finished) ==> job.failed < job.policy.max_attempts
}

/// The greatest number of signals that `job` can still give out before it
/// is over.
pub open spec fn budget(job: JobView) -> nat {
    let left = job.policy.max_attempts - job.failed;
    match job.stage {
        StageView::Finished(result) => 0,
        StageView::Writing { name, body } => 1,
        StageView::Preparing { name, body } => 2,
        StageView::Fetching { name } => (3 * left) as nat,
        StageView::Probing { name } => (3 * left + 1) as nat,
        StageView::Sleeping => (3 * left + 2) as nat,
    }
}

/// The job and the world when the job is over.
pub open spec fn complete(outside: Outside, job: JobView, world: World) -> (JobView, World) {
    run(outside, job, world, budget(job))
}

/// The result of a job, once it is over.
pub open spec fn result_of(job: JobView) -> Option<Result<Completion, RetryError>> {
    match job.stage {
        StageView::Finished(result) => Some(result),
        _ => None,
    }
}

/// A new job is well formed.
pub proof fn lemma_fresh_well_formed(task: DownloadView, policy: RetryPolicy)
    ensures
        well_formed(fresh(task, policy)),
        fresh(task, policy).task == task,
        fresh(task, policy).policy == policy,
{
}

/// Every event leaves a well-formed job well formed, changes neither task
/// nor policy, and brings the job nearer to its end whenever it answers the
/// pending signal.
pub proof fn lemma_advance(job: JobView, event: EventView)
    requires
        well_formed(job),
    ensures
        well_formed(advance(job, event)),
        advance(job, event).task == job.task,
        advance(job, event).policy == job.policy,
        advance(job, event).failed >= job.failed,
        budget(advance(job, event)) <= budget(job),
{
}

/// Answering the pending signal brings the job nearer to its end.
pub proof fn lemma_respond_advances(outside: Outside, job: JobView, world: World)
    requires
        well_formed(job),
        !(job.stage is Finished),
    ensures
        budget(advance(job, respond(outside, job, world).0)) < budget(job),
{
}

/// A job is over once as many signals were answered as its budget allows,
/// and further fuel changes nothing: no download goes on for ever.
pub proof fn lemma_run_ends(outside: Outside, job: JobView, world: World, fuel: nat)
    requires
        well_formed(job),
        fuel >= budget(job),
    ensures
        run(outside, job, world, fuel) == complete(outside, job, world),
        complete(outside, job, world).0.stage is Finished,
        complete(outside, job, world).0.task == job.task,
        complete(outside, job, world).0.policy == job.policy,
    decreases fuel,
{
    if job.stage is Finished {
    } else {
        let (event, next) = respond(outside, job, world);
        let after = advance(job, event);
        lemma_advance(job, event);
        lemma_respond_advances(outside, job, world);
        lemma_run_ends(outside, after, next, (fuel - 1) as nat);
        lemma_run_ends(outside, after, next, (budget(job) - 1) as nat);
    }
}

/// One signal answered.
proof fn lemma_run_step(outside: Outside, job: JobView, world: World, fuel: nat)
    requires
        fuel > 0,
        !(job.stage is Finished),
    ensures
        run(outside, job, world, fuel) == run(
            outside,
            advance(job, respond(outside, job, world).0),
            respond(outside, job, world).1,
            (fuel - 1) as nat,
        ),
{
}

/// The place of the file that `task` is stored as.
pub open spec fn place_of(task: DownloadView) -> Option<(Seq<Seq<char>>, Seq<char>)> {
    match file_name(task.url) {
        Some(name) => Some((task.dir, name)),
        None => None,
    }
}

/// A file that is there already is left alone: the download succeeds at
/// once, and nothing is requested, written or waited for.
pub proof fn lemma_present_file_untouched(
    outside: Outside,
    task: DownloadView,
    policy: RetryPolicy,
    world: World,
)
    requires
        policy.max_attempts >= 1,
        place_of(task) is Some,
        world.files.dom().contains(place_of(task)->0),
    ensures
        result_of(complete(outside, fresh(task, policy), world).0) == Some(
            Ok::<Completion, RetryError>(Completion::AlreadyPresent),
        ),
        complete(outside, fresh(task, policy), world).1 == world,
{
    let job = fresh(task, policy);
    let (event, next) = respond(outside, job, world);
    assert(run(outside, advance(job, event), next, (budget(job) - 1) as nat) == (
        advance(job, event),
        world,
    ));
}

/// Every request for `url` from request number `from` on is answered with
/// a status outside 200..=299.
pub open spec fn always_refused(outside: Outside, url: Seq<char>, from: nat) -> bool {
    forall|n: nat|
        n >= from ==> (#[trigger] (outside.serve)(url, n)) is Answered && !success(
            (outside.serve)(url, n)->status,
        )
}

/// `later` is `earlier` followed by `n` requests for `url`.
pub open spec fn asked_again(
    earlier: Seq<Seq<char>>,
    later: Seq<Seq<char>>,
    url: Seq<char>,
    n: nat,
) -> bool {
    &&& later.len() == earlier.len() + n
    &&& later.take(earlier.len() as int) == earlier
    &&& forall|i: int| earlier.len() <= i < later.len() ==> later[i] == url
}

/// From the start of an attempt on, a URL that is always refused is asked
/// once for each attempt that is left, and then the job gives up.
proof fn lemma_refused_from(outside: Outside, job: JobView, world: World)
    requires
        well_formed(job),
        job.stage is Probing,
        place_of(job.task) == Some((job.task.dir, job.stage->Probing_name)),
        !world.files.dom().contains(place_of(job.task)->0),
        always_refused(outside, job.task.url, world.requests.len()),
    ensures
        ({
            let (end, after) = complete(outside, job, world);
            let left = (job.policy.max_attempts - job.failed) as nat;
            let last = (outside.serve)(job.task.url, (world.requests.len() + left - 1) as nat);
            &&& result_of(end) == Some(
                Err::<Completion, RetryError>(
                    RetryError::RetriesExhausted {
                        attempts: job.policy.max_attempts,
                        last: Some(Failure::Status(last->status)),
                    },
                ),
            )
            &&& after.files == world.files
            &&& asked_again(world.requests, after.requests, job.task.url, left)
            &&& after.waited == world.waited + (left - 1) * job.policy.delay_secs
        }),
    decreases job.policy.max_attempts - job.failed,
{
    let url = job.task.url;
    let left = (job.policy.max_attempts - job.failed) as nat;
    // The probe finds nothing.
    let (e1, w1) = respond(outside, job, world);
    let j1 = advance(job, e1);
    // The request is refused.
    let (e2, w2) = respond(outside, j1, w1);
    let j2 = advance(j1, e2);
    assert(w2.requests.take(world.requests.len() as int) =~= world.requests);
    lemma_run_step(outside, job, world, budget(job));
    lemma_run_step(outside, j1, w1, (budget(job) - 1) as nat);
    if job.failed + 1 >= job.policy.max_attempts {
        assert((left - 1) * job.policy.delay_secs == 0) by (nonlinear_arith)
            requires
                left == 1,
        ;
    } else {
        // The delay passes and the next attempt starts.
        let (e3, w3) = respond(outside, j2, w2);
        let j3 = advance(j2, e3);
        lemma_run_step(outside, j2, w2, (budget(job) - 2) as nat);
        lemma_refused_from(outside, j3, w3);
        let (end, after) = complete(outside, j3, w3);
        assert(asked_again(world.requests, after.requests, url, left)) by {
            assert(after.requests.take(world.requests.len() as int) =~= w3.requests.take(
                world.requests.len() as int,
            ));
            assert forall|i: int| world.requests.len() <= i < after.requests.len() implies after.requests[i]
                == url by {
                if i < w3.requests.len() {
                    assert(after.requests[i] == after.requests.take(w3.requests.len() as int)[i]);
                }
            }
        }
        assert(after.waited == world.waited + (left - 1) * job.policy.delay_secs) by (nonlinear_arith)
            requires
                after.waited == w3.waited + (left - 1 - 1) * job.policy.delay_secs,
                w3.waited == world.waited + job.policy.delay_secs,
        ;
    }
}

/// A URL that answers every request with a status outside 200..=299 is
/// asked exactly as often as the policy permits attempts, with the delay
/// between two attempts; then the download fails as exhausted, with the
/// status of the last reply, and no file has been written.
pub proof fn lemma_refused_url_exhausts(
    outside: Outside,
    task: DownloadView,
    policy: RetryPolicy,
    world: World,
)
    requires
        policy.max_attempts >= 1,
        place_of(task) is Some,
        !world.files.dom().contains(place_of(task)->0),
        always_refused(outside, task.url, world.requests.len()),
    ensures
        ({
            let (end, after) = complete(outside, fresh(task, policy), world);
            let last = (outside.serve)(
                task.url,
                (world.requests.len() + policy.max_attempts - 1) as nat,
            );
            &&& result_of(end) == Some(
                Err::<Completion, RetryError>(
                    RetryError::RetriesExhausted {
                        attempts: policy.max_attempts,
                        last: Some(Failure::Status(last->status)),
                    },
                ),
            )
            &&& after.files == world.files
            &&& asked_again(world.requests, after.requests, task.url, policy.max_attempts as nat)
            &&& after.waited == world.waited + (policy.max_attempts - 1) * policy.delay_secs
        }),
{
    lemma_refused_from(outside, fresh(task, policy), world);
}

/// A file that is missing, served with a success status and written without
/// trouble, ends up under its directory and the last path segment of its
/// URL, holding exactly the bytes of the reply, after a single request.
pub proof fn lemma_round_trip(
    outside: Outside,
    task: DownloadView,
    policy: RetryPolicy,
    world: World,
    body: Seq<u8>,
)
    requires
        policy.max_attempts >= 1,
        place_of(task) is Some,
        !world.files.dom().contains(place_of(task)->0),
        bytes_of((outside.serve)(task.url, world.requests.len())) == Ok::<Seq<u8>, Failure>(body),
        (outside.dir_ok)(task.dir),
        (outside.write_ok)(task.dir, file_name(task.url)->0),
    ensures
        ({
            let (end, after) = complete(outside, fresh(task, policy), world);
            &&& result_of(end) == Some(Ok::<Completion, RetryError>(Completion::Stored))
            &&& after.files == world.files.insert(place_of(task)->0, body)
            &&& after.requests == world.requests.push(task.url)
            &&& after.waited == world.waited
        }),
{
    let job = fresh(task, policy);
    let (e1, w1) = respond(outside, job, world);
    let j1 = advance(job, e1);
    let (e2, w2) = respond(outside, j1, w1);
    let j2 = advance(j1, e2);
    let (e3, w3) = respond(outside, j2, w2);
    let j3 = advance(j2, e3);
    let (e4, w4) = respond(outside, j3, w3);
    let j4 = advance(j3, e4);
    lemma_run_step(outside, job, world, budget(job));
    lemma_run_step(outside, j1, w1, (budget(job) - 1) as nat);
    lemma_run_step(outside, j2, w2, (budget(job) - 2) as nat);
    lemma_run_step(outside, j3, w3, (budget(job) - 3) as nat);
    assert(run(outside, j2, w2, (budget(job) - 2) as nat) == run(
        outside,
        j4,
        w4,
        (budget(job) - 4) as nat,
    ));
}

/// Draining a queue: the tasks are taken from the end, one at a time, each
/// job is carried through to its end whatever the ones before came to, and
/// the results are collected in the order in which the jobs ended.
pub open spec fn drain(
    outside: Outside,
    queue: Seq<DownloadView>,
    policy: RetryPolicy,
    world: World,
) -> (Seq<Result<Completion, RetryError>>, World)
    decreases queue.len(),
{
    if queue.len() == 0 {
        (Seq::empty(), world)
    } else {
        let (end, after) = complete(outside, fresh(queue.last(), policy), world);
        let (rest, last) = drain(outside, queue.drop_last(), policy, after);
        (seq![result_of(end)->0] + rest, last)
    }
}

/// Draining gives one result for each task: no failure ends it early.
pub proof fn lemma_drain_visits_all(
    outside: Outside,
    queue: Seq<DownloadView>,
    policy: RetryPolicy,
    world: World,
)
    ensures
        drain(outside, queue, policy, world).0.len() == queue.len(),
    decreases queue.len(),
{
    if queue.len() > 0 {
        let (end, after) = complete(outside, fresh(queue.last(), policy), world);
        lemma_drain_visits_all(outside, queue.drop_last(), policy, after);
    }
}

/// Every request for `url` is answered with a success status and `body`.
pub open spec fn always_serves(outside: Outside, url: Seq<char>, body: Seq<u8>) -> bool {
    forall|n: nat| bytes_of(#[trigger] (outside.serve)(url, n)) == Ok::<Seq<u8>, Failure>(body)
}

/// The tasks of `queue` go to places of their own, none of which holds a
/// file in `world`, and the file system lets each be written.
pub open spec fn places_free(outside: Outside, queue: Seq<DownloadView>, world: World) -> bool {
    &&& forall|i: int|
        0 <= i < queue.len() ==> {
            &&& (#[trigger] place_of(queue[i])) is Some
            &&& !world.files.dom().contains(place_of(queue[i])->0)
            &&& (outside.dir_ok)(queue[i].dir)
            &&& (outside.write_ok)(queue[i].dir, file_name(queue[i].url)->0)
        }
    &&& forall|i: int, j: int|
        0 <= i < j < queue.len() ==> #[trigger] place_of(queue[i]) != #[trigger] place_of(queue[j])
}

/// All tasks but number `k` are always served, with the body that `content`
/// gives for their URL, and number `k`, if there is one, is always refused.
pub open spec fn all_but_one_served(
    outside: Outside,
    queue: Seq<DownloadView>,
    k: int,
    content: spec_fn(Seq<char>) -> Seq<u8>,
) -> bool {
    forall|i: int|
        0 <= i < queue.len() ==> if i == k {
            always_refused(outside, (#[trigger] queue[i]).url, 0)
        } else {
            always_serves(outside, queue[i].url, content(queue[i].url))
        }
}

/// `p` is the place of no task of `queue`.
pub open spec fn off_queue(queue: Seq<DownloadView>, p: (Seq<Seq<char>>, Seq<char>)) -> bool {
    forall|i: int| 0 <= i < queue.len() ==> #[trigger] place_of(queue[i]) != Some(p)
}

/// One more result in front adds its failure to the count.
proof fn lemma_count_failed_front(
    first: Result<Completion, RetryError>,
    rest: Seq<Result<Completion, RetryError>>,
)
    ensures
        count_failed(seq![first] + rest) == count_failed(rest) + if first is Err {
            1nat
        } else {
            0nat
        },
    decreases rest.len(),
{
    let all = seq![first] + rest;
    if rest.len() == 0 {
        assert(count_failed(all.drop_last()) == 0);
    } else {
        assert(all.drop_last() =~= seq![first] + rest.drop_last());
        lemma_count_failed_front(first, rest.drop_last());
    }
}

/// What draining comes to where at most one task, number `k`, is refused.
proof fn lemma_drain_one_refused(
    outside: Outside,
    queue: Seq<DownloadView>,
    policy: RetryPolicy,
    world: World,
    k: int,
    content: spec_fn(Seq<char>) -> Seq<u8>,
)
    requires
        policy.max_attempts >= 1,
        places_free(outside, queue, world),
        all_but_one_served(outside, queue, k, content),
    ensures
        ({
            let (results, after) = drain(outside, queue, policy, world);
            let n = queue.len() as int;
            &&& results.len() == n
            &&& count_failed(results) == if 0 <= k < n {
                1nat
            } else {
                0nat
            }
            &&& forall|i: int|
                0 <= i < n && i != k ==> #[trigger] results[n - 1 - i] == Ok::<
                    Completion,
                    RetryError,
                >(Completion::Stored)
            &&& 0 <= k < n ==> results[n - 1 - k] is Err
            &&& forall|i: int|
                0 <= i < n && i != k ==> {
                    &&& after.files.dom().contains((#[trigger] place_of(queue[i]))->0)
                    &&& after.files[place_of(queue[i])->0] == content(queue[i].url)
                }
            &&& 0 <= k < n ==> !after.files.dom().contains(place_of(queue[k])->0)
            &&& forall|p: (Seq<Seq<char>>, Seq<char>)|
                off_queue(queue, p) ==> {
                    &&& after.files.dom().contains(p) == world.files.dom().contains(p)
                    &&& after.files[p] == world.files[p]
                }
        }),
    decreases queue.len(),
{
    let n = queue.len() as int;
    if n > 0 {
        let task = queue.last();
        let front = queue.drop_last();
        let place = place_of(task)->0;
        let job = fresh(task, policy);
        let (end, mid) = complete(outside, job, world);
        if k == n - 1 {
            lemma_refused_url_exhausts(outside, task, policy, world);
        } else {
            lemma_round_trip(outside, task, policy, world, content(task.url));
        }
        assert forall|i: int| 0 <= i < front.len() implies front[i] == queue[i] by {}
        assert(places_free(outside, front, mid));
        assert(all_but_one_served(outside, front, k, content));
        lemma_drain_one_refused(outside, front, policy, mid, k, content);
        let (rest, after) = drain(outside, front, policy, mid);
        let first = result_of(end)->0;
        let results = seq![first] + rest;
        lemma_count_failed_front(first, rest);
        assert forall|i: int| 0 <= i < n && i != k implies #[trigger] results[n - 1 - i] == Ok::<
            Completion,
            RetryError,
        >(Completion::Stored) by {
            if i < n - 1 {
                assert(results[n - 1 - i] == rest[(n - 1) - 1 - i]);
            }
        }
        assert(off_queue(front, place));
        assert forall|i: int| 0 <= i < n && i != k implies {
            &&& after.files.dom().contains((#[trigger] place_of(queue[i]))->0)
            &&& after.files[place_of(queue[i])->0] == content(queue[i].url)
        } by {
            if i < n - 1 {
                assert(place_of(front[i]) is Some);
            }
        }
        assert forall|p: (Seq<Seq<char>>, Seq<char>)| off_queue(queue, p) implies {
            &&& after.files.dom().contains(p) == world.files.dom().contains(p)
            &&& after.files[p] == world.files[p]
        } by {
            assert(off_queue(front, p));
        }
    }
}

/// One task that fails for good does not stop the others. Where the tasks
/// go to free places of their own, task number `k` is refused on every
/// request and every other task is served, draining visits all of them:
/// task `k` is the one failure, every other task is stored with the body
/// that was served for it, and no other file is touched.
pub proof fn lemma_one_failure_keeps_the_rest(
    outside: Outside,
    queue: Seq<DownloadView>,
    policy: RetryPolicy,
    world: World,
    k: int,
    content: spec_fn(Seq<char>) -> Seq<u8>,
)
    requires
        policy.max_attempts >= 1,
        0 <= k < queue.len(),
        places_free(outside, queue, world),
        all_but_one_served(outside, queue, k, content),
    ensures
        ({
            let (results, after) = drain(outside, queue, policy, world);
            let n = queue.len() as int;
            &&& results.len() == n
            &&& count_failed(results) == 1
            &&& results[n - 1 - k] is Err
            &&& forall|i: int|
                0 <= i < n && i != k ==> #[trigger] results[n - 1 - i] == Ok::<
                    Completion,
                    RetryError,
                >(Completion::Stored)
            &&& forall|i: int|
                0 <= i < n && i != k ==> {
                    &&& after.files.dom().contains((#[trigger] place_of(queue[i]))->0)
                    &&& after.files[place_of(queue[i])->0] == content(queue[i].url)
                }
            &&& !after.files.dom().contains(place_of(queue[k])->0)
            &&& forall|p: (Seq<Seq<char>>, Seq<char>)|
                off_queue(queue, p) ==> {
                    &&& after.files.dom().contains(p) == world.files.dom().contains(p)
                    &&& after.files[p] == world.files[p]
                }
        }),
{
    lemma_drain_one_refused(outside, queue, policy, world, k, content);
}

/// Queueing one task and draining at once stores the file: where the place
/// is free, the server answers the first request with a success status and
/// `body`, and the file system lets the file be written, the one result is
/// success, and the file lies in the task's directory under the last path
/// segment of its URL, holding `body` byte for byte.
pub proof fn lemma_enqueue_then_drain(
    outside: Outside,
    task: DownloadView,
    policy: RetryPolicy,
    world: World,
    body: Seq<u8>,
)
    requires
        policy.max_attempts >= 1,
        place_of(task) is Some,
        !world.files.dom().contains(place_of(task)->0),
        bytes_of((outside.serve)(task.url, world.requests.len())) == Ok::<Seq<u8>, Failure>(body),
        (outside.dir_ok)(task.dir),
        (outside.write_ok)(task.dir, file_name(task.url)->0),
    ensures
        ({
            let queue = Seq::<DownloadView>::empty().push(task);
            let (results, after) = drain(outside, queue, policy, world);
            &&& results == seq![Ok::<Completion, RetryError>(Completion::Stored)]
            &&& after.files == world.files.insert((task.dir, file_name(task.url)->0), body)
            &&& after.files[(task.dir, file_name(task.url)->0)] == body
            &&& after.requests == world.requests.push(task.url)
        }),
{
    let queue = Seq::<DownloadView>::empty().push(task);
    lemma_round_trip(outside, task, policy, world, body);
    let (end, mid) = complete(outside, fresh(task, policy), world);
    assert(drain(outside, queue.drop_last(), policy, mid) == (
        Seq::<Result<Completion, RetryError>>::empty(),
        mid,
    ));
    assert(drain(outside, queue, policy, world).0 =~= seq![
        Ok::<Completion, RetryError>(Completion::Stored),
    ]);
}

} // verus!
