//! The job queue: which job may be dispatched, what becomes of a job when it
//! is pulled, when it fails and when it succeeds, and what the runner does
//! with what it pulled.
use vstd::prelude::*;
use crate::datasource::{DataSourceInfo, DataSourceInfoView, Home, HomeView, address, address_of};
use crate::json::{single_member_body, single_member_text};
use crate::time::Instant;

verus! {

/// A job is given up after this many failed attempts.
pub const MAX_FAILED_ATTEMPTS: u32 = 3;

/// How many jobs the runner pulls at once.
pub const JOB_CONCURRENCY: usize = 1;

/// What a job is to do.
#[derive(Debug, Clone)]
pub enum JobType {
    /// Build the tile pyramid of a datasource.
    Pyramid { datasource_id: String },
    Calculation,
}

/// `JobType` over mathematical text.
pub enum JobTypeView {
    Pyramid { datasource_id: Seq<char> },
    Calculation,
}

impl View for JobType {
    type V = JobTypeView;

    open spec fn view(&self) -> JobTypeView {
        match self {
            JobType::Pyramid { datasource_id } => JobTypeView::Pyramid {
                datasource_id: datasource_id@,
            },
            JobType::Calculation => JobTypeView::Calculation,
        }
    }
}

impl JobType {
    /// The name under which the kind of job is stored.
    pub fn as_ref(&self) -> (r: &'static str)
        ensures
            r@ == (match self@ {
                JobTypeView::Pyramid { datasource_id } => "pyramid"@,
                JobTypeView::Calculation => "calculation"@,
            }),
    {
        match self {
            JobType::Pyramid { datasource_id } => "pyramid",
            JobType::Calculation => "calculation",
        }
    }
}

/// A job as it is handed in.
pub struct JobDetail {
    pub jt: JobType,
    pub name: String,
    /// When the job is due; at once where this is `None`.
    pub scheduled_for: Option<Instant>,
    /// The request that asked for the job.
    pub data: serde_json::Value,
}

/// `JobDetail` over mathematical text.
pub struct JobDetailView {
    pub jt: JobTypeView,
    pub name: Seq<char>,
    pub scheduled_for: Option<Instant>,
    pub data: serde_json::Value,
}

impl View for JobDetail {
    type V = JobDetailView;

    open spec fn view(&self) -> JobDetailView {
        JobDetailView {
            jt: self.jt@,
            name: self.name@,
            scheduled_for: self.scheduled_for,
            data: self.data,
        }
    }
}

/// A job as the runner gets it. The identifier is the 128-bit number of a
/// ULID.
pub struct Job {
    pub job_id: u128,
    pub detail: JobDetail,
}

/// Where a job stands in the queue.
#[derive(Debug, Clone, Copy, PartialEq, Eq, Structural)]
pub enum JobStatus {
    Queued,
    Running,
    Failed,
}

impl JobStatus {
    /// The number under which the status is stored.
    pub open spec fn number(self) -> i32 {
        match self {
            JobStatus::Queued => 0,
            JobStatus::Running => 1,
            JobStatus::Failed => 2,
        }
    }

    /// The number under which the status is stored.
    pub fn code(&self) -> (r: i32)
        ensures
            r == self.number(),
    {
        match self {
            JobStatus::Queued => 0,
            JobStatus::Running => 1,
            JobStatus::Failed => 2,
        }
    }

    /// The status stored under `code`.
    pub fn from_code(code: i32) -> (r: Option<JobStatus>)
        ensures
            r matches Some(s) ==> s.number() == code,
            r is None ==> code < 0 || code > 2,
    {
        if code == 0 {
            Some(JobStatus::Queued)
        } else if code == 1 {
            Some(JobStatus::Running)
        } else if code == 2 {
            Some(JobStatus::Failed)
        } else {
            None
        }
    }
}

/// The bookkeeping of one job in the queue.
#[derive(Debug, Clone, Copy, PartialEq, Eq, Structural)]
pub struct JobRecord {
    pub job_id: u128,
    pub created_at: Instant,
    pub updated_at: Instant,
    pub scheduled_for: Instant,
    pub failed_attempts: u32,
    pub status: JobStatus,
}

impl JobRecord {
    /// A job is dispatched only while it is queued, due, and has failed
    /// fewer than three times.
    pub open spec fn dispatchable(self, now: Instant) -> bool {
        &&& self.status == JobStatus::Queued
        &&& self.scheduled_for.at_or_before(now)
        &&& self.failed_attempts < MAX_FAILED_ATTEMPTS
    }

    /// The record of a job that was handed in at `now`: queued, never
    /// failed, due at the moment asked for or at once.
    pub open spec fn queued(job_id: u128, scheduled_for: Option<Instant>, now: Instant) -> JobRecord {
        JobRecord {
            job_id,
            created_at: now,
            updated_at: now,
            scheduled_for: match scheduled_for {
                Some(t) => t,
                None => now,
            },
            failed_attempts: 0,
            status: JobStatus::Queued,
        }
    }

    /// The record after the job was pulled at `now`.
    pub open spec fn pulled(self, now: Instant) -> JobRecord {
        JobRecord { status: JobStatus::Running, updated_at: now, ..self }
    }

    /// The record after the job failed at `now`: back in the queue, with one
    /// more failed attempt.
    pub open spec fn failed(self, now: Instant) -> JobRecord {
        JobRecord {
            status: JobStatus::Queued,
            updated_at: now,
            failed_attempts: (self.failed_attempts + 1) as u32,
            ..self
        }
    }

    /// The record of a job that is handed in at `now`.
    pub fn new(job_id: u128, scheduled_for: Option<Instant>, now: Instant) -> (r: JobRecord)
        ensures
            r == JobRecord::queued(job_id, scheduled_for, now),
    {
        JobRecord {
            job_id,
            created_at: now,
            updated_at: now,
            scheduled_for: match scheduled_for {
                Some(t) => t,
                None => now,
            },
            failed_attempts: 0,
            status: JobStatus::Queued,
        }
    }

    /// Whether the job may be dispatched at `now`.
    pub fn is_dispatchable(&self, now: Instant) -> (r: bool)
        ensures
            r == self.dispatchable(now),
    {
        match self.status {
            JobStatus::Queued => self.scheduled_for.is_at_or_before(&now) && self.failed_attempts
                < MAX_FAILED_ATTEMPTS,
            _ => false,
        }
    }

    /// Marks the job as running.
    pub fn mark_pulled(&mut self, now: Instant)
        requires
            old(self).dispatchable(now),
        ensures
            *final(self) == old(self).pulled(now),
    {
        self.status = JobStatus::Running;
        self.updated_at = now;
    }

    /// Puts the job back in the queue after a failure.
    pub fn mark_failed(&mut self, now: Instant)
        requires
            old(self).failed_attempts < u32::MAX,
        ensures
            *final(self) == old(self).failed(now),
    {
        self.status = JobStatus::Queued;
        self.updated_at = now;
        self.failed_attempts = self.failed_attempts + 1;
    }
}

/// What becomes of a job once its request was answered.
#[derive(Debug, Clone, Copy, PartialEq, Eq, Structural)]
pub enum JobOutcome {
    /// The job is done: its row is deleted.
    Delete,
    /// The job failed: it goes back to the queue with one more failed
    /// attempt.
    Fail,
}

/// A reply whose status starts with 4, 5 or 6 fails the job; any other
/// completes it.
pub open spec fn outcome_of_status(status: u16) -> JobOutcome {
    if 400 <= status < 700 {
        JobOutcome::Fail
    } else {
        JobOutcome::Delete
    }
}

/// What becomes of a job whose request was answered with `status`.
pub fn job_processing_result(status: u16) -> (r: JobOutcome)
    ensures
        r == outcome_of_status(status),
{
    let first = status / 100;
    if first == 4 || first == 5 || first == 6 {
        JobOutcome::Fail
    } else {
        JobOutcome::Delete
    }
}

/// What becomes of a job whose request was answered, or could not be sent
/// (`None`): a request that could not be sent fails the job.
pub fn job_result(status: Option<u16>) -> (r: JobOutcome)
    ensures
        r == (match status {
            Some(s) => outcome_of_status(s),
            None => JobOutcome::Fail,
        }),
{
    match status {
        Some(s) => job_processing_result(s),
        None => JobOutcome::Fail,
    }
}

/// What the runner does with a batch it pulled.
#[derive(Debug, Clone, Copy, PartialEq, Eq, Structural)]
pub enum RunnerStep {
    /// Wait for the next round.
    Sleep,
    /// Build the pyramid that the first job of the batch asks for.
    BuildPyramid,
    /// The first job is a calculation: nothing is done for it.
    Skip,
}

/// The runner acts only on a full batch, and then on its first job.
pub open spec fn runner_step_of(jobs: Seq<Job>, concurrency: usize) -> RunnerStep {
    if jobs.len() != concurrency || jobs.len() == 0 {
        RunnerStep::Sleep
    } else {
        match jobs[0].detail.jt {
            JobType::Pyramid { datasource_id } => RunnerStep::BuildPyramid,
            JobType::Calculation => RunnerStep::Skip,
        }
    }
}

/// What the runner does with the batch it pulled.
pub fn runner_step(jobs: &Vec<Job>, concurrency: usize) -> (r: RunnerStep)
    ensures
        r == runner_step_of(jobs@, concurrency),
{
    if jobs.len() != concurrency || jobs.len() == 0 {
        RunnerStep::Sleep
    } else {
        match &jobs[0].detail.jt {
            JobType::Pyramid { datasource_id } => RunnerStep::BuildPyramid,
            JobType::Calculation => RunnerStep::Skip,
        }
    }
}

/// Where the runner sends a pyramid job: to the peer that owns the
/// datasource if the datasource names a peer and this node has an address
/// that differs from it; to a worker of this node in every other case.
pub open spec fn job_home_of(info: Option<DataSourceInfoView>, own_address: Option<Seq<char>>) -> HomeView {
    match (info, own_address) {
        (Some(i), Some(own)) => match (i.host, i.port) {
            (Some(host), Some(port)) => if own != address_of(host, port) {
                HomeView::Remote { host, port }
            } else {
                HomeView::Local
            },
            _ => HomeView::Local,
        },
        _ => HomeView::Local,
    }
}

/// Where the runner sends a pyramid job.
pub fn job_home(info: &Option<DataSourceInfo>, own_address: Option<&str>) -> (r: Home)
    ensures
        r@ == job_home_of(
            match info {
                Some(i) => Some(i@),
                None => None,
            },
            match own_address {
                Some(a) => Some(a@),
                None => None,
            },
        ),
{
    match (info, own_address) {
        (Some(i), Some(own)) => match (&i.host, i.port) {
            (Some(host), Some(port)) => {
                let addr = address(host.as_str(), port);
                if addr != own.to_owned() {
                    Home::Remote { host: host.clone(), port }
                } else {
                    Home::Local
                }
            },
            _ => Home::Local,
        },
        _ => Home::Local,
    }
}

/// The body of the request that asks a node to build a pyramid:
/// `{"datasource_id": ..}`.
pub fn pyramid_job_body(datasource_id: &str) -> (r: String)
    ensures
        r@ == single_member_text("datasource_id"@, datasource_id@),
{
    single_member_body("datasource_id", datasource_id)
}

/// A job that has failed three times is never pulled.
pub proof fn lemma_given_up(job: JobRecord, now: Instant)
    requires
        job.failed_attempts >= MAX_FAILED_ATTEMPTS,
    ensures
        !job.dispatchable(now),
{
}

/// A job runs at most once at a time: once pulled it cannot be pulled again,
/// at that moment or later, until it fails.
pub proof fn lemma_pulled_once(job: JobRecord, now: Instant, later: Instant)
    ensures
        !job.pulled(now).dispatchable(later),
        job.pulled(now).status == JobStatus::Running,
        job.pulled(now).job_id == job.job_id,
{
}

/// A reply with a status from 400 to 699 to a pyramid request puts the job
/// back in the queue with one more failed attempt.
pub proof fn lemma_failure_requeues(job: JobRecord, status: u16, now: Instant)
    requires
        400 <= status < 700,
        job.failed_attempts < u32::MAX,
    ensures
        outcome_of_status(status) == JobOutcome::Fail,
        job.failed(now).status == JobStatus::Queued,
        job.failed(now).failed_attempts == job.failed_attempts + 1,
        job.failed(now).job_id == job.job_id,
        job.failed(now).scheduled_for == job.scheduled_for,
{
}

/// A reply with a status below 400 completes the job.
pub proof fn lemma_success_completes(status: u16)
    requires
        status < 400,
    ensures
        outcome_of_status(status) == JobOutcome::Delete,
{
}

/// A job that keeps failing is dispatched three times and no more.
pub proof fn lemma_three_attempts(job: JobRecord, t1: Instant, t2: Instant, t3: Instant, now: Instant)
    requires
        job.failed_attempts == 0,
    ensures
        !job.pulled(t1).failed(t1).pulled(t2).failed(t2).pulled(t3).failed(t3).dispatchable(now),
{
}

} // verus!
