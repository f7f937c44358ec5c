//! Carrying out a job: fetch its test suite and its repository, set the tests up
//! and run them.
//!
//! [`JobRun`] names one action at a time and is told how it went.

use crate::client::error::{IoError, JobExecErr, TomlError, WsError};
use crate::client::job_laws::begun;
use crate::client::model::{
    ClientMsg, FlowSnake, Job, JobProgressMsg, JobResultKind, JobResultMsg, JobStage, NewJob,
};
use crate::config::{
    JudgeToml, JudgeTomlTestConfig, JudgerPrivateConfig, JudgerPublicConfig, PublicConfigView,
};
use crate::text::{copy_option, to_wrapped_usize, wrapped_usize};
use std::collections::HashMap;
use std::path::PathBuf;
use vstd::prelude::*;

verus! {

/// How many commits of a repository are fetched.
pub const CLONE_DEPTH: u32 = 3;

/// What to clone.
#[derive(Debug)]
pub struct GitCloneOptions {
    pub repo: String,
    pub revision: String,
    pub depth: u32,
}

/// How to run the tests of a suite.
#[derive(Debug)]
pub struct TestSuiteOptions {
    pub tests: Vec<String>,
    pub time_limit: Option<usize>,
    pub mem_limit: Option<usize>,
    pub build_image: bool,
    pub remove_image: bool,
}

/// What a run of a suite is set up from. `K` is the suite's own configuration
/// and `I` describes an image.
#[derive(Debug)]
pub struct SuiteSetup<K, I> {
    pub image: I,
    pub private_cfg: JudgerPrivateConfig,
    pub public_cfg: K,
    pub options: TestSuiteOptions,
}

/// Where the output of tests is uploaded to.
#[derive(Debug)]
pub struct ResultUploadConfig {
    pub endpoint: String,
    pub access_token: Option<String>,
    pub job_id: FlowSnake,
}

/// The folders that a job works with: its own, and that of its test suite.
#[derive(Debug)]
pub struct JobFolders {
    pub job: PathBuf,
    pub suite: PathBuf,
}

/// What to do next. `T` is the result of one test.
#[derive(Debug)]
pub enum JobAction<K, I, T> {
    /// Fetch this test suite, unless the job is cancelled meanwhile.
    FetchSuite(FlowSnake),
    /// Send this message to the coordinator.
    Report(ClientMsg<T>),
    /// Remove this folder, whether or not that works.
    ClearJobDir(PathBuf),
    /// Clone the repository into this folder.
    CloneRepo { dir: PathBuf, options: GitCloneOptions },
    /// Look for the root of what is to be judged in this folder.
    FindRoot(PathBuf),
    /// Read the judge file in this root and parse it.
    ReadJudgeFile { root: PathBuf },
    /// Resolve `path` against the folder `base`.
    JoinPath { base: PathBuf, path: String },
    /// Set a run of the suite in this folder up.
    BuildSuite { suite_root: PathBuf, setup: SuiteSetup<K, I> },
    /// Begin, on its own, to pass the results of single tests of this job on.
    ForwardResults(FlowSnake),
    /// Begin, on its own, to pass the output of the image build of this job on.
    ForwardOutput(FlowSnake),
    /// Run the suite on this root.
    RunSuite { root: PathBuf, upload: ResultUploadConfig },
    /// Wait until all output of the image build has been passed on.
    AwaitOutput,
    /// Wait until all results of single tests have been passed on.
    AwaitResults,
    /// End with this result.
    Return(Result<JobResultMsg<T>, JobExecErr>),
}

/// How an action went.
#[derive(Debug)]
pub enum JobEvent<K, I, T> {
    Done,
    Failed(JobExecErr),
    IoFailed(IoError),
    SendFailed(WsError),
    TomlFailed(TomlError),
    Cancelled,
    SuiteReady(K),
    /// The root of what is to be judged.
    Root(PathBuf),
    JudgeFile(JudgeToml<I>),
    /// The resolved path.
    Joined(PathBuf),
    Ran(HashMap<String, T>),
}

/// How far the job has got: which action was named last.
#[derive(Debug)]
pub enum JobStep<K, I, T> {
    FetchSuite { job: Job },
    ReportFetching { job: Job, config: K },
    ClearJobDir { job: Job, config: K },
    CloneRepo { job: Job, config: K },
    FindRoot { job: Job, config: K },
    ReadJudgeFile { job: Job, config: K, root: PathBuf },
    ReportRunning { job: Job, config: K, entry: JudgeTomlTestConfig<I>, root: PathBuf },
    JoinPath { job: Job, config: K, entry: JudgeTomlTestConfig<I>, root: PathBuf },
    BuildSuite { root: PathBuf },
    ForwardResults { root: PathBuf },
    ForwardOutput { root: PathBuf },
    RunSuite,
    AwaitOutput { results: HashMap<String, T> },
    AwaitResults { results: HashMap<String, T> },
    Finished,
}

/// One job under way.
#[derive(Debug)]
pub struct JobRun<K, I, T> {
    pub job_id: FlowSnake,
    pub folders: JobFolders,
    pub upload_endpoint: String,
    pub access_token: Option<String>,
    pub step: JobStep<K, I, T>,
}

/// A limit as the tester takes it: a negative one wraps around.
pub open spec fn limit_of(limit: Option<i32>) -> Option<usize> {
    match limit {
        Some(x) => Some(wrapped_usize(x as int) as usize),
        None => None,
    }
}

/// The message that a job has reached a stage.
pub open spec fn progress<T>(job_id: FlowSnake, stage: JobStage) -> ClientMsg<T> {
    ClientMsg::JobProgress(JobProgressMsg { job_id, stage })
}

/// What is cloned for a job.
pub open spec fn clone_options(job: Job) -> GitCloneOptions {
    GitCloneOptions { repo: job.repo, revision: job.revision, depth: CLONE_DEPTH }
}

/// What a run is set up from: the image that the repository asks for, the tests in
/// the folder `tests_dir`, the commands of the repository before those of the suite,
/// the suite's limits, and the tests that the job asks for.
pub open spec fn setup_of<B, R, I>(
    job: Job,
    config: PublicConfigView<B, R>,
    entry: JudgeTomlTestConfig<I>,
    tests_dir: PathBuf,
) -> SuiteSetup<PublicConfigView<B, R>, I> {
    SuiteSetup {
        image: entry.image,
        private_cfg: JudgerPrivateConfig {
            test_root_dir: tests_dir,
            mapped_test_root_dir: config.mapped_dir.to,
        },
        public_cfg: config.running_after(entry.run@),
        options: TestSuiteOptions {
            tests: job.tests,
            time_limit: limit_of(config.time_limit),
            mem_limit: limit_of(config.memory_limit),
            build_image: true,
            remove_image: true,
        },
    }
}

/// The result of a job whose tests ran.
pub open spec fn accepted<T>(job_id: FlowSnake, results: HashMap<String, T>) -> JobResultMsg<T> {
    JobResultMsg { job_id, results, job_result: JobResultKind::Accepted, message: None }
}

impl<B, R, I, T> JobStep<JudgerPublicConfig<B, R>, I, T> {
    /// The step with what its configuration says in the configuration's place.
    pub open spec fn model(self) -> JobStep<PublicConfigView<B, R>, I, T> {
        match self {
            JobStep::FetchSuite { job } => JobStep::FetchSuite { job },
            JobStep::ReportFetching { job, config } => JobStep::ReportFetching {
                job,
                config: config@,
            },
            JobStep::ClearJobDir { job, config } => JobStep::ClearJobDir { job, config: config@ },
            JobStep::CloneRepo { job, config } => JobStep::CloneRepo { job, config: config@ },
            JobStep::FindRoot { job, config } => JobStep::FindRoot { job, config: config@ },
            JobStep::ReadJudgeFile { job, config, root } => JobStep::ReadJudgeFile {
                job,
                config: config@,
                root,
            },
            JobStep::ReportRunning { job, config, entry, root } => JobStep::ReportRunning {
                job,
                config: config@,
                entry,
                root,
            },
            JobStep::JoinPath { job, config, entry, root } => JobStep::JoinPath {
                job,
                config: config@,
                entry,
                root,
            },
            JobStep::BuildSuite { root } => JobStep::BuildSuite { root },
            JobStep::ForwardResults { root } => JobStep::ForwardResults { root },
            JobStep::ForwardOutput { root } => JobStep::ForwardOutput { root },
            JobStep::RunSuite => JobStep::RunSuite,
            JobStep::AwaitOutput { results } => JobStep::AwaitOutput { results },
            JobStep::AwaitResults { results } => JobStep::AwaitResults { results },
            JobStep::Finished => JobStep::Finished,
        }
    }
}

impl<B, R, I, T> View for JobRun<JudgerPublicConfig<B, R>, I, T> {
    type V = JobRun<PublicConfigView<B, R>, I, T>;

    open spec fn view(&self) -> JobRun<PublicConfigView<B, R>, I, T> {
        JobRun {
            job_id: self.job_id,
            folders: self.folders,
            upload_endpoint: self.upload_endpoint,
            access_token: self.access_token,
            step: self.step.model(),
        }
    }
}

impl<B, R, I, T> View for JobAction<JudgerPublicConfig<B, R>, I, T> {
    type V = JobAction<PublicConfigView<B, R>, I, T>;

    open spec fn view(&self) -> JobAction<PublicConfigView<B, R>, I, T> {
        match *self {
            JobAction::FetchSuite(suite) => JobAction::FetchSuite(suite),
            JobAction::Report(msg) => JobAction::Report(msg),
            JobAction::ClearJobDir(dir) => JobAction::ClearJobDir(dir),
            JobAction::CloneRepo { dir, options } => JobAction::CloneRepo { dir, options },
            JobAction::FindRoot(dir) => JobAction::FindRoot(dir),
            JobAction::ReadJudgeFile { root } => JobAction::ReadJudgeFile { root },
            JobAction::JoinPath { base, path } => JobAction::JoinPath { base, path },
            JobAction::BuildSuite { suite_root, setup } => JobAction::BuildSuite {
                suite_root,
                setup: SuiteSetup {
                    image: setup.image,
                    private_cfg: setup.private_cfg,
                    public_cfg: setup.public_cfg@,
                    options: setup.options,
                },
            },
            JobAction::ForwardResults(job_id) => JobAction::ForwardResults(job_id),
            JobAction::ForwardOutput(job_id) => JobAction::ForwardOutput(job_id),
            JobAction::RunSuite { root, upload } => JobAction::RunSuite { root, upload },
            JobAction::AwaitOutput => JobAction::AwaitOutput,
            JobAction::AwaitResults => JobAction::AwaitResults,
            JobAction::Return(result) => JobAction::Return(result),
        }
    }
}

impl<B, R, I, T> View for JobEvent<JudgerPublicConfig<B, R>, I, T> {
    type V = JobEvent<PublicConfigView<B, R>, I, T>;

    open spec fn view(&self) -> JobEvent<PublicConfigView<B, R>, I, T> {
        match *self {
            JobEvent::Done => JobEvent::Done,
            JobEvent::Failed(e) => JobEvent::Failed(e),
            JobEvent::IoFailed(e) => JobEvent::IoFailed(e),
            JobEvent::SendFailed(e) => JobEvent::SendFailed(e),
            JobEvent::TomlFailed(e) => JobEvent::TomlFailed(e),
            JobEvent::Cancelled => JobEvent::Cancelled,
            JobEvent::SuiteReady(config) => JobEvent::SuiteReady(config@),
            JobEvent::Root(root) => JobEvent::Root(root),
            JobEvent::JudgeFile(file) => JobEvent::JudgeFile(file),
            JobEvent::Joined(path) => JobEvent::Joined(path),
            JobEvent::Ran(results) => JobEvent::Ran(results),
        }
    }
}

impl<K, I, T> JobRun<K, I, T> {
    /// Whether `event` can be the answer to the action named last.
    pub open spec fn awaits(self, event: JobEvent<K, I, T>) -> bool {
        match self.step {
            JobStep::FetchSuite { .. } => event is SuiteReady || event is Failed
                || event is Cancelled,
            JobStep::ReportFetching { .. } => event is Done || event is SendFailed,
            JobStep::ClearJobDir { .. } => event is Done || event is Failed,
            JobStep::CloneRepo { .. } => event is Done || event is Failed,
            JobStep::FindRoot { .. } => event is Root || event is Failed,
            JobStep::ReadJudgeFile { .. } => event is JudgeFile || event is IoFailed
                || event is TomlFailed,
            JobStep::ReportRunning { .. } => event is Done || event is SendFailed,
            JobStep::JoinPath { .. } => event is Joined,
            JobStep::BuildSuite { .. } => event is Done || event is Failed,
            JobStep::ForwardResults { .. } => event is Done,
            JobStep::ForwardOutput { .. } => event is Done,
            JobStep::RunSuite => event is Ran || event is Failed,
            JobStep::AwaitOutput { .. } => event is Done,
            JobStep::AwaitResults { .. } => event is Done,
            JobStep::Finished => false,
        }
    }

    /// How many steps are left at most.
    pub open spec fn rank(self) -> nat {
        match self.step {
            JobStep::FetchSuite { .. } => 14,
            JobStep::ReportFetching { .. } => 13,
            JobStep::ClearJobDir { .. } => 12,
            JobStep::CloneRepo { .. } => 11,
            JobStep::FindRoot { .. } => 10,
            JobStep::ReadJudgeFile { .. } => 9,
            JobStep::ReportRunning { .. } => 8,
            JobStep::JoinPath { .. } => 7,
            JobStep::BuildSuite { .. } => 6,
            JobStep::ForwardResults { .. } => 5,
            JobStep::ForwardOutput { .. } => 4,
            JobStep::RunSuite => 3,
            JobStep::AwaitOutput { .. } => 2,
            JobStep::AwaitResults { .. } => 1,
            JobStep::Finished => 0,
        }
    }

    /// The same job at another step.
    pub open spec fn at(self, step: JobStep<K, I, T>) -> Self {
        JobRun { step, ..self }
    }

    /// The job is over.
    pub open spec fn ended(self, result: Result<JobResultMsg<T>, JobExecErr>) -> (
        Self,
        JobAction<K, I, T>,
    ) {
        (self.at(JobStep::Finished), JobAction::Return(result))
    }

    /// Where the output of the job's tests is uploaded to.
    pub open spec fn upload(self) -> ResultUploadConfig {
        ResultUploadConfig {
            endpoint: self.upload_endpoint,
            access_token: self.access_token,
            job_id: self.job_id,
        }
    }
}

impl<B, R, I, T> JobRun<PublicConfigView<B, R>, I, T> {
    /// What follows when the action named last went as `event` says.
    pub open spec fn after(self, event: JobEvent<PublicConfigView<B, R>, I, T>) -> (
        Self,
        JobAction<PublicConfigView<B, R>, I, T>,
    ) {
        match (self.step, event) {
            (_, JobEvent::IoFailed(e)) => self.ended(Err(JobExecErr::Io(e))),
            (_, JobEvent::TomlFailed(e)) => self.ended(Err(JobExecErr::TomlDes(e))),
            (_, JobEvent::Cancelled) => self.ended(Err(JobExecErr::Cancelled)),
            (_, JobEvent::SendFailed(e)) => self.ended(
                Err(
                    match e.io {
                        Some(io) => JobExecErr::Io(io),
                        None => JobExecErr::Ws(e),
                    },
                ),
            ),
            (JobStep::FetchSuite { job }, JobEvent::SuiteReady(config)) => (
                self.at(JobStep::ReportFetching { job, config: config.with_binds() }),
                JobAction::Report(progress(self.job_id, JobStage::Fetching)),
            ),
            (JobStep::ReportFetching { job, config }, _) => (
                self.at(JobStep::ClearJobDir { job, config }),
                JobAction::ClearJobDir(self.folders.job),
            ),
            (JobStep::ClearJobDir { job, config }, _) => (
                self.at(JobStep::CloneRepo { job, config }),
                JobAction::CloneRepo { dir: self.folders.job, options: clone_options(job) },
            ),
            (_, JobEvent::Failed(e)) => self.ended(Err(e)),
            (JobStep::CloneRepo { job, config }, _) => (
                self.at(JobStep::FindRoot { job, config }),
                JobAction::FindRoot(self.folders.job),
            ),
            (JobStep::FindRoot { job, config }, JobEvent::Root(root)) => (
                self.at(JobStep::ReadJudgeFile { job, config, root }),
                JobAction::ReadJudgeFile { root },
            ),
            (JobStep::ReadJudgeFile { job, config, root }, JobEvent::JudgeFile(file)) =>
                if file.jobs@.contains_key(config.name@) {
                    (
                        self.at(
                            JobStep::ReportRunning {
                                job,
                                config,
                                entry: file.jobs@[config.name@],
                                root,
                            },
                        ),
                        JobAction::Report(progress(self.job_id, JobStage::Running)),
                    )
                } else {
                    self.ended(Err(JobExecErr::NoSuchConfig(config.name)))
                },
            (JobStep::ReportRunning { job, config, entry, root }, _) => (
                self.at(JobStep::JoinPath { job, config, entry, root }),
                JobAction::JoinPath { base: self.folders.suite, path: config.mapped_dir.from },
            ),
            (JobStep::JoinPath { job, config, entry, root }, JobEvent::Joined(tests_dir)) => (
                self.at(JobStep::BuildSuite { root }),
                JobAction::BuildSuite {
                    suite_root: self.folders.suite,
                    setup: setup_of(job, config, entry, tests_dir),
                },
            ),
            (JobStep::BuildSuite { root }, _) => (
                self.at(JobStep::ForwardResults { root }),
                JobAction::ForwardResults(self.job_id),
            ),
            (JobStep::ForwardResults { root }, _) => (
                self.at(JobStep::ForwardOutput { root }),
                JobAction::ForwardOutput(self.job_id),
            ),
            (JobStep::ForwardOutput { root }, _) => (
                self.at(JobStep::RunSuite),
                JobAction::RunSuite { root, upload: self.upload() },
            ),
            (JobStep::RunSuite, JobEvent::Ran(results)) => (
                self.at(JobStep::AwaitOutput { results }),
                JobAction::AwaitOutput,
            ),
            (JobStep::AwaitOutput { results }, _) => (
                self.at(JobStep::AwaitResults { results }),
                JobAction::AwaitResults,
            ),
            (JobStep::AwaitResults { results }, _) => self.ended(
                Ok(accepted(self.job_id, results)),
            ),
            _ => (self, arbitrary()),
        }
    }
}

/// Begins a job that works with these folders.
pub fn handle_job<B, R, I, T>(
    job: NewJob,
    folders: JobFolders,
    upload_endpoint: String,
    access_token: Option<String>,
) -> (r: (JobRun<JudgerPublicConfig<B, R>, I, T>, JobAction<JudgerPublicConfig<B, R>, I, T>))
    ensures
        r.0@ == (JobRun::<PublicConfigView<B, R>, I, T> {
            job_id: job.job.id,
            folders,
            upload_endpoint,
            access_token,
            step: JobStep::FetchSuite { job: job.job },
        }),
        r.0@ == begun::<PublicConfigView<B, R>, I, T>(
            job.job,
            folders,
            upload_endpoint,
            access_token,
        ),
        r.1 == JobAction::<JudgerPublicConfig<B, R>, I, T>::FetchSuite(job.job.test_suite),
{
    let job = job.job;
    let suite = job.test_suite;
    let run = JobRun {
        job_id: job.id,
        folders,
        upload_endpoint,
        access_token,
        step: JobStep::FetchSuite { job },
    };
    (run, JobAction::FetchSuite(suite))
}

/// A limit as the tester takes it.
fn convert_limit(limit: Option<i32>) -> (r: Option<usize>)
    ensures
        r == limit_of(limit),
{
    match limit {
        Some(x) => Some(to_wrapped_usize(x)),
        None => None,
    }
}

/// What a run of the suite is set up from.
fn build_setup<B, R, I>(
    job: Job,
    config: JudgerPublicConfig<B, R>,
    entry: JudgeTomlTestConfig<I>,
    tests_dir: PathBuf,
) -> (r: SuiteSetup<JudgerPublicConfig<B, R>, I>)
    ensures
        (SuiteSetup {
            image: r.image,
            private_cfg: r.private_cfg,
            public_cfg: r.public_cfg@,
            options: r.options,
        }) == setup_of(job, config@, entry, tests_dir),
{
    let mut public_cfg = config;
    let JudgeTomlTestConfig { image, build: _, run } = entry;
    public_cfg.prepend_run(run);
    let private_cfg = public_cfg.private_config(tests_dir);
    let options = TestSuiteOptions {
        tests: job.tests,
        time_limit: convert_limit(public_cfg.time_limit),
        mem_limit: convert_limit(public_cfg.memory_limit),
        build_image: true,
        remove_image: true,
    };
    SuiteSetup { image, private_cfg, public_cfg, options }
}

impl<B, R, I, T> JobRun<JudgerPublicConfig<B, R>, I, T> {
    /// Whether `event` can be the answer to the action named last.
    pub fn check_awaits(&self, event: &JobEvent<JudgerPublicConfig<B, R>, I, T>) -> (r: bool)
        ensures
            r == self@.awaits(event@),
    {
        match (&self.step, event) {
            (JobStep::FetchSuite { .. }, JobEvent::SuiteReady(_)) => true,
            (JobStep::FetchSuite { .. }, JobEvent::Failed(_)) => true,
            (JobStep::FetchSuite { .. }, JobEvent::Cancelled) => true,
            (JobStep::ReportFetching { .. }, JobEvent::Done) => true,
            (JobStep::ReportFetching { .. }, JobEvent::SendFailed(_)) => true,
            (JobStep::ClearJobDir { .. }, JobEvent::Done) => true,
            (JobStep::ClearJobDir { .. }, JobEvent::Failed(_)) => true,
            (JobStep::CloneRepo { .. }, JobEvent::Done) => true,
            (JobStep::CloneRepo { .. }, JobEvent::Failed(_)) => true,
            (JobStep::FindRoot { .. }, JobEvent::Root(_)) => true,
            (JobStep::FindRoot { .. }, JobEvent::Failed(_)) => true,
            (JobStep::ReadJudgeFile { .. }, JobEvent::JudgeFile(_)) => true,
            (JobStep::ReadJudgeFile { .. }, JobEvent::IoFailed(_)) => true,
            (JobStep::ReadJudgeFile { .. }, JobEvent::TomlFailed(_)) => true,
            (JobStep::ReportRunning { .. }, JobEvent::Done) => true,
            (JobStep::ReportRunning { .. }, JobEvent::SendFailed(_)) => true,
            (JobStep::JoinPath { .. }, JobEvent::Joined(_)) => true,
            (JobStep::BuildSuite { .. }, JobEvent::Done) => true,
            (JobStep::BuildSuite { .. }, JobEvent::Failed(_)) => true,
            (JobStep::ForwardResults { .. }, JobEvent::Done) => true,
            (JobStep::ForwardOutput { .. }, JobEvent::Done) => true,
            (JobStep::AwaitOutput { .. }, JobEvent::Done) => true,
            (JobStep::AwaitResults { .. }, JobEvent::Done) => true,
            (JobStep::RunSuite, JobEvent::Ran(_)) => true,
            (JobStep::RunSuite, JobEvent::Failed(_)) => true,
            _ => false,
        }
    }

    fn move_to(self, step: JobStep<JudgerPublicConfig<B, R>, I, T>) -> (r: Self)
        ensures
            r == self.at(step),
            r@ == self@.at(step.model()),
    {
        JobRun { step, ..self }
    }

    fn end(self, result: Result<JobResultMsg<T>, JobExecErr>) -> (r: (
        Self,
        JobAction<JudgerPublicConfig<B, R>, I, T>,
    ))
        ensures
            (r.0@, r.1@) == self@.ended(result),
    {
        (self.move_to(JobStep::Finished), JobAction::Return(result))
    }

    /// Takes in how the action named last went, and names the next one.
    pub fn next(self, event: JobEvent<JudgerPublicConfig<B, R>, I, T>) -> (r: (
        Self,
        JobAction<JudgerPublicConfig<B, R>, I, T>,
    ))
        requires
            self@.awaits(event@),
        ensures
            (r.0@, r.1@) == self@.after(event@),
            r.0@.rank() < self@.rank(),
            r.1 is Return <==> r.0.step is Finished,
    {
        let JobRun { job_id, folders, upload_endpoint, access_token, step } = self;
        let run = JobRun {
            job_id,
            folders,
            upload_endpoint,
            access_token,
            step: JobStep::Finished,
        };
        match (step, event) {
            (JobStep::ClearJobDir { job, config }, _) => {
                let options = GitCloneOptions {
                    repo: job.repo.clone(),
                    revision: job.revision.clone(),
                    depth: CLONE_DEPTH,
                };
                let dir = run.folders.job.clone();
                (
                    run.move_to(JobStep::CloneRepo { job, config }),
                    JobAction::CloneRepo { dir, options },
                )
            },
            (_, JobEvent::Failed(e)) => run.end(Err(e)),
            (_, JobEvent::IoFailed(e)) => run.end(Err(JobExecErr::from(e))),
            (_, JobEvent::TomlFailed(e)) => run.end(Err(JobExecErr::from(e))),
            (_, JobEvent::SendFailed(e)) => run.end(Err(JobExecErr::from(e))),
            (_, JobEvent::Cancelled) => run.end(Err(JobExecErr::Cancelled)),
            (JobStep::FetchSuite { job }, JobEvent::SuiteReady(ready)) => {
                let mut config = ready;
                config.fill_binds();
                let msg = ClientMsg::JobProgress(
                    JobProgressMsg { job_id, stage: JobStage::Fetching },
                );
                (run.move_to(JobStep::ReportFetching { job, config }), JobAction::Report(msg))
            },
            (JobStep::ReportFetching { job, config }, _) => {
                let dir = run.folders.job.clone();
                (run.move_to(JobStep::ClearJobDir { job, config }), JobAction::ClearJobDir(dir))
            },
            (JobStep::CloneRepo { job, config }, _) => {
                let dir = run.folders.job.clone();
                (run.move_to(JobStep::FindRoot { job, config }), JobAction::FindRoot(dir))
            },
            (JobStep::FindRoot { job, config }, JobEvent::Root(root)) => {
                let found = root.clone();
                (
                    run.move_to(JobStep::ReadJudgeFile { job, config, root }),
                    JobAction::ReadJudgeFile { root: found },
                )
            },
            (JobStep::ReadJudgeFile { job, config, root }, JobEvent::JudgeFile(file)) => {
                let mut jobs = file.jobs;
                match jobs.take(&config.name) {
                    Some(entry) => {
                        let msg = ClientMsg::JobProgress(
                            JobProgressMsg { job_id, stage: JobStage::Running },
                        );
                        (
                            run.move_to(JobStep::ReportRunning { job, config, entry, root }),
                            JobAction::Report(msg),
                        )
                    },
                    None => run.end(Err(JobExecErr::NoSuchConfig(config.name))),
                }
            },
            (JobStep::ReportRunning { job, config, entry, root }, _) => {
                let base = run.folders.suite.clone();
                let path = config.mapped_dir.from.clone();
                (
                    run.move_to(JobStep::JoinPath { job, config, entry, root }),
                    JobAction::JoinPath { base, path },
                )
            },
            (JobStep::JoinPath { job, config, entry, root }, JobEvent::Joined(tests_dir)) => {
                let suite_root = run.folders.suite.clone();
                let setup = build_setup(job, config, entry, tests_dir);
                (
                    run.move_to(JobStep::BuildSuite { root }),
                    JobAction::BuildSuite { suite_root, setup },
                )
            },
            (JobStep::BuildSuite { root }, _) => (
                run.move_to(JobStep::ForwardResults { root }),
                JobAction::ForwardResults(job_id),
            ),
            (JobStep::ForwardResults { root }, _) => (
                run.move_to(JobStep::ForwardOutput { root }),
                JobAction::ForwardOutput(job_id),
            ),
            (JobStep::ForwardOutput { root }, _) => {
                let upload = ResultUploadConfig {
                    endpoint: run.upload_endpoint.clone(),
                    access_token: copy_option(&run.access_token),
                    job_id,
                };
                (run.move_to(JobStep::RunSuite), JobAction::RunSuite { root, upload })
            },
            (JobStep::RunSuite, JobEvent::Ran(results)) => (
                run.move_to(JobStep::AwaitOutput { results }),
                JobAction::AwaitOutput,
            ),
            (JobStep::AwaitOutput { results }, _) => (
                run.move_to(JobStep::AwaitResults { results }),
                JobAction::AwaitResults,
            ),
            (JobStep::AwaitResults { results }, _) => run.end(
                Ok(
                    JobResultMsg {
                        job_id,
                        results,
                        job_result: JobResultKind::Accepted,
                        message: None,
                    },
                ),
            ),
            _ => unreached(),
        }
    }
}

} // verus!
