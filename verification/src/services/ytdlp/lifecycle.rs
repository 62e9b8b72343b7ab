//! The life of a download job: queued, running, then finished or failed,
//! with the instants (seconds since the Unix epoch) at which it changed.
use vstd::prelude::*;

verus! {

/// Where a job stands.
#[derive(Debug, Clone, Copy, PartialEq, Eq, Structural)]
pub enum JobStatus {
    Queued,
    Running,
    Finished,
    Failed,
}

/// The plain part of a job's record: its status, when it started, finished
/// and last changed, why it failed and what it downloaded.
#[derive(Debug, Clone)]
pub struct JobState {
    pub status: JobStatus,
    pub started_at: Option<u64>,
    pub finished_at: Option<u64>,
    pub updated_at: Option<u64>,
    pub error: Option<String>,
    pub files: Option<Vec<String>>,
}

/// What happens to a job.
#[derive(Debug, Clone)]
pub enum JobEvent {
    /// A download slot was taken and the process is being started.
    Started,
    /// The downloader reported progress: a queued job counts as running.
    Progress,
    /// The downloader printed a status line.
    Message,
    /// The download failed, for this reason.
    Failed(String),
    /// The download finished with these files moved into place.
    Finished(Vec<String>),
}

/// Whether the job is over.
pub open spec fn is_terminal(s: JobStatus) -> bool {
    s == JobStatus::Finished || s == JobStatus::Failed
}

/// A new job at instant `now`: queued; or, when its output directory was
/// refused, failed at once with that reason.
pub open spec fn job_enqueued(now: u64, dir_error: Option<String>) -> JobState {
    let queued = JobState {
        status: JobStatus::Queued,
        started_at: None,
        finished_at: None,
        updated_at: Some(now),
        error: None,
        files: None,
    };
    match dir_error {
        None => queued,
        Some(m) => JobState { status: JobStatus::Failed, error: Some(m), finished_at: Some(now), ..queued },
    }
}

/// The job after event `ev` at instant `now`.
pub open spec fn job_next(s: JobState, ev: JobEvent, now: u64) -> JobState {
    match ev {
        JobEvent::Started => JobState {
            status: JobStatus::Running,
            started_at: Some(now),
            updated_at: Some(now),
            ..s
        },
        JobEvent::Progress => if s.status == JobStatus::Queued {
            JobState {
                status: JobStatus::Running,
                started_at: match s.started_at {
                    Some(t) => Some(t),
                    None => Some(now),
                },
                updated_at: Some(now),
                ..s
            }
        } else {
            JobState { updated_at: Some(now), ..s }
        },
        JobEvent::Message => JobState { updated_at: Some(now), ..s },
        JobEvent::Failed(m) => JobState {
            status: JobStatus::Failed,
            error: Some(m),
            finished_at: Some(now),
            updated_at: Some(now),
            ..s
        },
        JobEvent::Finished(files) => JobState {
            status: JobStatus::Finished,
            files: Some(files),
            finished_at: Some(now),
            updated_at: Some(now),
            ..s
        },
    }
}

/// The record of a job enqueued at instant `now` (see `job_enqueued`).
pub fn enqueue_job(now: u64, dir_error: Option<String>) -> (r: JobState)
    ensures
        r == job_enqueued(now, dir_error),
{
    let queued = JobState {
        status: JobStatus::Queued,
        started_at: None,
        finished_at: None,
        updated_at: Some(now),
        error: None,
        files: None,
    };
    match dir_error {
        None => queued,
        Some(m) => JobState { status: JobStatus::Failed, error: Some(m), finished_at: Some(now), ..queued },
    }
}

/// Applies event `ev` at instant `now` to a job (see `job_next`).
pub fn job_step(s: &mut JobState, ev: JobEvent, now: u64)
    ensures
        *final(s) == job_next(*old(s), ev, now),
{
    match ev {
        JobEvent::Started => {
            s.status = JobStatus::Running;
            s.started_at = Some(now);
            s.updated_at = Some(now);
        },
        JobEvent::Progress => {
            if s.status == JobStatus::Queued {
                s.status = JobStatus::Running;
                if s.started_at.is_none() {
                    s.started_at = Some(now);
                }
            }
            s.updated_at = Some(now);
        },
        JobEvent::Message => {
            s.updated_at = Some(now);
        },
        JobEvent::Failed(m) => {
            s.status = JobStatus::Failed;
            s.error = Some(m);
            s.finished_at = Some(now);
            s.updated_at = Some(now);
        },
        JobEvent::Finished(files) => {
            s.status = JobStatus::Finished;
            s.files = Some(files);
            s.finished_at = Some(now);
            s.updated_at = Some(now);
        },
    }
}

/// A job has a finish time exactly when it is over.
pub open spec fn finish_consistent(s: JobState) -> bool {
    s.finished_at is Some <==> is_terminal(s.status)
}

/// Every new job has a finish time exactly when it is over; a job that is not
/// over keeps that property under every event; a job that is over stays over,
/// with the same finish time, under progress and status lines, and a failure
/// or a finish only moves it between the two ends. (Starting a job that is
/// over would reopen it; the manager never starts a job twice.)
pub proof fn law_job_lifecycle(s: JobState, ev: JobEvent, now: u64, dir_error: Option<String>)
    ensures
        finish_consistent(job_enqueued(now, dir_error)),
        finish_consistent(s) && !is_terminal(s.status) ==> finish_consistent(job_next(s, ev, now)),
        is_terminal(s.status) && (ev is Progress || ev is Message) ==> job_next(s, ev, now).status
            == s.status && job_next(s, ev, now).finished_at == s.finished_at,
        is_terminal(s.status) && (ev is Failed || ev is Finished) ==> is_terminal(
            job_next(s, ev, now).status,
        ),
        ev is Finished ==> job_next(s, ev, now).status == JobStatus::Finished && job_next(
            s,
            ev,
            now,
        ).files == Some(ev->Finished_0),
{
}

} // verus!
