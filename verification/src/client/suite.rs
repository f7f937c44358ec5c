//! Fetching a test suite: download it when the copy at hand is missing or out
//! of date, then read its configuration.
//!
//! [`SuiteFetch`] names one action at a time and is told how it went. The suite
//! is locked while it is brought up to date, so that concurrent jobs wait for one
//! download; when bringing it up to date fails, its folder is removed.

use crate::client::error::{IoError, IoErrorKind, JobExecErr, JsonError, RequestError};
use crate::client::model::{FlowSnake, HttpMethod, HttpRequest, TestSuite};
use crate::client::suite_laws::begun;
use crate::text::copy_option;
use std::path::PathBuf;
use vstd::prelude::*;

verus! {

/// The file in a suite's folder that holds its configuration.
pub const TEST_CONF_FILE: &'static str = "testconf.json";

/// Which suite is fetched, from where and with which token, and where it is kept.
#[derive(Debug)]
pub struct SuiteSources {
    pub suite_id: FlowSnake,
    pub info_endpoint: String,
    pub download_endpoint: String,
    pub access_token: Option<String>,
    /// The folder of all suites.
    pub root: PathBuf,
    /// The folder of this suite.
    pub folder: PathBuf,
    /// The file that says which package the folder holds.
    pub lockfile: PathBuf,
    /// The folder of temporary files.
    pub temp_root: PathBuf,
    /// Where a package is put before it is unpacked.
    pub temp_file: PathBuf,
}

/// What to do next. `C` is the configuration of a suite, `X` what the coordinator
/// tells of it besides its package.
#[derive(Debug)]
pub enum SuiteAction<C, X> {
    /// Create this folder, with its parents.
    MakeRoot(PathBuf),
    /// Wait for the lock of this suite.
    Lock(FlowSnake),
    /// Ask the coordinator what it knows of the suite.
    FetchInfo(HttpRequest),
    /// Create this folder, which must not exist.
    MakeDir(PathBuf),
    /// Read this lockfile and parse it.
    ReadLockfile(PathBuf),
    /// Remove this folder, if it is there.
    RemoveStale(PathBuf),
    /// Create this folder, with its parents.
    MakeTempRoot(PathBuf),
    /// Download a package to `temp_file` and unpack it into `folder`.
    Download { request: HttpRequest, folder: PathBuf, temp_file: PathBuf },
    /// Write what the coordinator knows of the suite to this lockfile.
    WriteLockfile { lockfile: PathBuf, info: TestSuite<X> },
    /// Remove this folder, whether or not that works.
    CleanUp(PathBuf),
    /// Cancel the handle that came with the lock, if told to, and unlock this suite.
    Unlock { suite_id: FlowSnake, cancel_handle: bool },
    /// Resolve `path` against the folder `base`.
    JoinPath { base: PathBuf, path: &'static str },
    /// Read this file and parse it as the suite's configuration.
    ReadConfig(PathBuf),
    /// End with this result.
    Return(Result<C, JobExecErr>),
}

/// How an action went.
#[derive(Debug)]
pub enum SuiteEvent<C, X> {
    Done,
    Failed(JobExecErr),
    IoFailed(IoError),
    RequestFailed(RequestError),
    JsonFailed(JsonError),
    /// The lock is held; with `handle` it came with a handle.
    Locked { handle: bool },
    Info(TestSuite<X>),
    /// The lockfile was read; it holds what its text parses as, if it does.
    Lockfile(Option<TestSuite<X>>),
    /// The resolved path, and how it reads.
    Joined { path: PathBuf, text: String },
    Config(C),
}

/// How far the fetch has got: which action was named last.
#[derive(Debug)]
pub enum SuiteStep<X> {
    MakeRoot,
    Lock,
    FetchInfo,
    MakeDir { info: TestSuite<X> },
    ReadLockfile { info: TestSuite<X>, dir_exists: bool },
    RemoveStale { info: TestSuite<X>, up_to_date: bool },
    MakeTempRoot { info: TestSuite<X>, up_to_date: bool },
    Download { info: TestSuite<X>, up_to_date: bool },
    WriteLockfile,
    CleanUp { error: JobExecErr },
    Unlock,
    JoinPath,
    ReadConfig { text: String },
    Finished,
}

/// A fetch of one test suite.
#[derive(Debug)]
pub struct SuiteFetch<X> {
    pub sources: SuiteSources,
    pub handle: bool,
    pub step: SuiteStep<X>,
}

/// Whether two descriptions of a suite speak of the same package.
pub open spec fn same_package<X>(a: TestSuite<X>, b: TestSuite<X>) -> bool {
    a.package_file_id@ == b.package_file_id@
}

/// Whether what the lockfile holds is up to date.
pub open spec fn is_up_to_date<X>(locked: Option<TestSuite<X>>, info: TestSuite<X>) -> bool {
    locked is Some && same_package(locked->0, info)
}

/// The request for what the coordinator knows of the suite.
pub open spec fn info_request(sources: SuiteSources) -> HttpRequest {
    HttpRequest {
        method: HttpMethod::Get,
        endpoint: sources.info_endpoint,
        authorization: None,
    }
}

/// The request for the package of the suite.
pub open spec fn download_request(sources: SuiteSources) -> HttpRequest {
    HttpRequest {
        method: HttpMethod::Get,
        endpoint: sources.download_endpoint,
        authorization: sources.access_token,
    }
}

/// The download of the suite into its folder.
pub open spec fn download_of<C, X>(sources: SuiteSources) -> SuiteAction<C, X> {
    SuiteAction::Download {
        request: download_request(sources),
        folder: sources.folder,
        temp_file: sources.temp_file,
    }
}

impl<X> SuiteFetch<X> {
    /// Whether `event` can be the answer to the action named last. A download
    /// needs an access token, so the step before it can end well only with one.
    pub open spec fn awaits<C>(self, event: SuiteEvent<C, X>) -> bool {
        match self.step {
            SuiteStep::MakeRoot => event is Done || event is IoFailed,
            SuiteStep::Lock => event is Locked,
            SuiteStep::FetchInfo => event is Info || event is RequestFailed,
            SuiteStep::MakeDir { .. } => event is Done || event is IoFailed,
            SuiteStep::ReadLockfile { .. } => event is Lockfile || event is IoFailed,
            SuiteStep::RemoveStale { .. } => event is Done || event is Failed,
            SuiteStep::MakeTempRoot { .. } => event is IoFailed || (event is Done
                && self.sources.access_token is Some),
            SuiteStep::Download { .. } => event is Done || event is Failed,
            SuiteStep::WriteLockfile => event is Done || event is JsonFailed || event is IoFailed,
            SuiteStep::CleanUp { .. } => event is Done || event is Failed,
            SuiteStep::Unlock => event is Done,
            SuiteStep::JoinPath => event is Joined,
            SuiteStep::ReadConfig { .. } => event is Config || event is IoFailed
                || event is JsonFailed,
            SuiteStep::Finished => false,
        }
    }

    /// How many steps are left at most.
    pub open spec fn rank(self) -> nat {
        match self.step {
            SuiteStep::MakeRoot => 13,
            SuiteStep::Lock => 12,
            SuiteStep::FetchInfo => 11,
            SuiteStep::MakeDir { .. } => 10,
            SuiteStep::ReadLockfile { .. } => 9,
            SuiteStep::RemoveStale { .. } => 8,
            SuiteStep::MakeTempRoot { .. } => 7,
            SuiteStep::Download { .. } => 6,
            SuiteStep::WriteLockfile => 5,
            SuiteStep::CleanUp { .. } => 4,
            SuiteStep::Unlock => 3,
            SuiteStep::JoinPath => 2,
            SuiteStep::ReadConfig { .. } => 1,
            SuiteStep::Finished => 0,
        }
    }

    /// The same fetch at another step.
    pub open spec fn at(self, step: SuiteStep<X>) -> Self {
        SuiteFetch { step, ..self }
    }

    /// Bringing the suite up to date has failed: clean up, then report the error.
    pub open spec fn abandoned<C>(self, error: JobExecErr) -> (Self, SuiteAction<C, X>) {
        (self.at(SuiteStep::CleanUp { error }), SuiteAction::CleanUp(self.sources.folder))
    }

    /// The suite is up to date: give the lock back.
    pub open spec fn settled<C>(self) -> (Self, SuiteAction<C, X>) {
        (
            self.at(SuiteStep::Unlock),
            SuiteAction::Unlock { suite_id: self.sources.suite_id, cancel_handle: self.handle },
        )
    }

    /// The fetch is over.
    pub open spec fn ended<C>(self, result: Result<C, JobExecErr>) -> (Self, SuiteAction<C, X>) {
        (self.at(SuiteStep::Finished), SuiteAction::Return(result))
    }

    /// The folder of the suite is there, and it is known whether it was there before.
    pub open spec fn dir_known<C>(self, info: TestSuite<X>, dir_exists: bool) -> (
        Self,
        SuiteAction<C, X>,
    ) {
        (
            self.at(SuiteStep::ReadLockfile { info, dir_exists }),
            SuiteAction::ReadLockfile(self.sources.lockfile),
        )
    }

    /// It is known what the lockfile holds.
    pub open spec fn lockfile_known<C>(
        self,
        info: TestSuite<X>,
        dir_exists: bool,
        locked: Option<TestSuite<X>>,
    ) -> (Self, SuiteAction<C, X>) {
        let up_to_date = is_up_to_date(locked, info);
        if dir_exists && up_to_date {
            self.settled()
        } else {
            (
                self.at(SuiteStep::RemoveStale { info, up_to_date }),
                SuiteAction::RemoveStale(self.sources.folder),
            )
        }
    }

    /// What follows when the action named last went as `event` says.
    pub open spec fn after<C>(self, event: SuiteEvent<C, X>) -> (Self, SuiteAction<C, X>) {
        match (self.step, event) {
            (SuiteStep::MakeRoot, SuiteEvent::IoFailed(e)) => self.ended(Err(JobExecErr::Io(e))),
            (SuiteStep::MakeRoot, _) => (
                self.at(SuiteStep::Lock),
                SuiteAction::Lock(self.sources.suite_id),
            ),
            (SuiteStep::Lock, SuiteEvent::Locked { handle }) => (
                SuiteFetch { handle, step: SuiteStep::FetchInfo, ..self },
                SuiteAction::FetchInfo(info_request(self.sources)),
            ),
            (SuiteStep::FetchInfo, SuiteEvent::RequestFailed(e)) => self.abandoned(
                JobExecErr::Request(e),
            ),
            (SuiteStep::FetchInfo, SuiteEvent::Info(info)) => (
                self.at(SuiteStep::MakeDir { info }),
                SuiteAction::MakeDir(self.sources.folder),
            ),
            (SuiteStep::MakeDir { info }, SuiteEvent::IoFailed(e)) => if e.kind
                == IoErrorKind::AlreadyExists {
                self.dir_known(info, true)
            } else {
                self.abandoned(JobExecErr::Io(e))
            },
            (SuiteStep::MakeDir { info }, _) => self.dir_known(info, false),
            (SuiteStep::ReadLockfile { info, dir_exists }, SuiteEvent::Lockfile(locked)) =>
                self.lockfile_known(info, dir_exists, locked),
            (SuiteStep::ReadLockfile { info, dir_exists }, SuiteEvent::IoFailed(e)) => if e.kind
                == IoErrorKind::NotFound {
                self.lockfile_known(info, dir_exists, None)
            } else {
                self.abandoned(JobExecErr::Io(e))
            },
            (SuiteStep::RemoveStale { .. }, SuiteEvent::Failed(e)) => self.abandoned(e),
            (SuiteStep::RemoveStale { info, up_to_date }, _) => (
                self.at(SuiteStep::MakeTempRoot { info, up_to_date }),
                SuiteAction::MakeTempRoot(self.sources.temp_root),
            ),
            (SuiteStep::MakeTempRoot { .. }, SuiteEvent::IoFailed(e)) => self.abandoned(
                JobExecErr::Io(e),
            ),
            (SuiteStep::MakeTempRoot { info, up_to_date }, _) => (
                self.at(SuiteStep::Download { info, up_to_date }),
                download_of(self.sources),
            ),
            (SuiteStep::Download { .. }, SuiteEvent::Failed(e)) => self.abandoned(e),
            (SuiteStep::Download { info, up_to_date }, _) => if up_to_date {
                self.settled()
            } else {
                (
                    self.at(SuiteStep::WriteLockfile),
                    SuiteAction::WriteLockfile { lockfile: self.sources.lockfile, info },
                )
            },
            (SuiteStep::WriteLockfile, SuiteEvent::JsonFailed(e)) => self.abandoned(
                JobExecErr::Json(e),
            ),
            (SuiteStep::WriteLockfile, SuiteEvent::IoFailed(e)) => self.abandoned(
                JobExecErr::Io(e),
            ),
            (SuiteStep::WriteLockfile, _) => self.settled(),
            (SuiteStep::CleanUp { error }, _) => self.ended(Err(error)),
            (SuiteStep::Unlock, _) => (
                self.at(SuiteStep::JoinPath),
                SuiteAction::JoinPath { base: self.sources.folder, path: TEST_CONF_FILE },
            ),
            (SuiteStep::JoinPath, SuiteEvent::Joined { path, text }) => (
                self.at(SuiteStep::ReadConfig { text }),
                SuiteAction::ReadConfig(path),
            ),
            (SuiteStep::ReadConfig { .. }, SuiteEvent::Config(config)) => self.ended(Ok(config)),
            (SuiteStep::ReadConfig { text }, SuiteEvent::IoFailed(e)) => self.ended(
                Err(
                    if e.kind == IoErrorKind::NotFound {
                        JobExecErr::NoSuchFile(text)
                    } else {
                        JobExecErr::Io(e)
                    },
                ),
            ),
            (SuiteStep::ReadConfig { .. }, SuiteEvent::JsonFailed(e)) => self.ended(
                Err(JobExecErr::Json(e)),
            ),
            _ => (self, arbitrary()),
        }
    }
}

/// Begins a fetch.
pub fn check_download_read_test_suite<C, X>(sources: SuiteSources) -> (r: (SuiteFetch<X>, SuiteAction<C, X>))
    ensures
        r.0 == (SuiteFetch { sources, handle: false, step: SuiteStep::<X>::MakeRoot }),
        r.0 == begun::<X>(sources),
        r.1 == SuiteAction::<C, X>::MakeRoot(sources.root),
{
    let root = sources.root.clone();
    (SuiteFetch { sources, handle: false, step: SuiteStep::MakeRoot }, SuiteAction::MakeRoot(root))
}

impl<X> SuiteFetch<X> {
    /// Whether `event` can be the answer to the action named last.
    pub fn check_awaits<C>(&self, event: &SuiteEvent<C, X>) -> (r: bool)
        ensures
            r == self.awaits(*event),
    {
        match (&self.step, event) {
            (SuiteStep::MakeRoot, SuiteEvent::Done) => true,
            (SuiteStep::MakeRoot, SuiteEvent::IoFailed(_)) => true,
            (SuiteStep::Lock, SuiteEvent::Locked { .. }) => true,
            (SuiteStep::FetchInfo, SuiteEvent::Info(_)) => true,
            (SuiteStep::FetchInfo, SuiteEvent::RequestFailed(_)) => true,
            (SuiteStep::MakeDir { .. }, SuiteEvent::Done) => true,
            (SuiteStep::MakeDir { .. }, SuiteEvent::IoFailed(_)) => true,
            (SuiteStep::ReadLockfile { .. }, SuiteEvent::Lockfile(_)) => true,
            (SuiteStep::ReadLockfile { .. }, SuiteEvent::IoFailed(_)) => true,
            (SuiteStep::RemoveStale { .. }, SuiteEvent::Done) => true,
            (SuiteStep::RemoveStale { .. }, SuiteEvent::Failed(_)) => true,
            (SuiteStep::MakeTempRoot { .. }, SuiteEvent::Done) =>
                self.sources.access_token.is_some(),
            (SuiteStep::MakeTempRoot { .. }, SuiteEvent::IoFailed(_)) => true,
            (SuiteStep::Download { .. }, SuiteEvent::Done) => true,
            (SuiteStep::Download { .. }, SuiteEvent::Failed(_)) => true,
            (SuiteStep::WriteLockfile, SuiteEvent::Done) => true,
            (SuiteStep::WriteLockfile, SuiteEvent::JsonFailed(_)) => true,
            (SuiteStep::WriteLockfile, SuiteEvent::IoFailed(_)) => true,
            (SuiteStep::CleanUp { .. }, SuiteEvent::Done) => true,
            (SuiteStep::CleanUp { .. }, SuiteEvent::Failed(_)) => true,
            (SuiteStep::Unlock, SuiteEvent::Done) => true,
            (SuiteStep::JoinPath, SuiteEvent::Joined { .. }) => true,
            (SuiteStep::ReadConfig { .. }, SuiteEvent::Config(_)) => true,
            (SuiteStep::ReadConfig { .. }, SuiteEvent::IoFailed(_)) => true,
            (SuiteStep::ReadConfig { .. }, SuiteEvent::JsonFailed(_)) => true,
            _ => false,
        }
    }

    fn move_to(self, step: SuiteStep<X>) -> (r: Self)
        ensures
            r == self.at(step),
    {
        SuiteFetch { step, ..self }
    }

    fn abandon<C>(self, error: JobExecErr) -> (r: (Self, SuiteAction<C, X>))
        ensures
            r == self.abandoned::<C>(error),
    {
        let folder = self.sources.folder.clone();
        (self.move_to(SuiteStep::CleanUp { error }), SuiteAction::CleanUp(folder))
    }

    fn settle<C>(self) -> (r: (Self, SuiteAction<C, X>))
        ensures
            r == self.settled::<C>(),
    {
        let suite_id = self.sources.suite_id;
        let cancel_handle = self.handle;
        (self.move_to(SuiteStep::Unlock), SuiteAction::Unlock { suite_id, cancel_handle })
    }

    fn end<C>(self, result: Result<C, JobExecErr>) -> (r: (Self, SuiteAction<C, X>))
        ensures
            r == self.ended(result),
    {
        (self.move_to(SuiteStep::Finished), SuiteAction::Return(result))
    }

    fn learn_dir<C>(self, info: TestSuite<X>, dir_exists: bool) -> (r: (Self, SuiteAction<C, X>))
        ensures
            r == self.dir_known::<C>(info, dir_exists),
    {
        let lockfile = self.sources.lockfile.clone();
        (
            self.move_to(SuiteStep::ReadLockfile { info, dir_exists }),
            SuiteAction::ReadLockfile(lockfile),
        )
    }

    fn learn_lockfile<C>(self, info: TestSuite<X>, dir_exists: bool, locked: Option<TestSuite<X>>) -> (r:
        (Self, SuiteAction<C, X>))
        ensures
            r == self.lockfile_known::<C>(info, dir_exists, locked),
    {
        let up_to_date = match &locked {
            Some(suite) => suite.package_file_id == info.package_file_id,
            None => false,
        };
        if dir_exists && up_to_date {
            self.settle()
        } else {
            let folder = self.sources.folder.clone();
            (
                self.move_to(SuiteStep::RemoveStale { info, up_to_date }),
                SuiteAction::RemoveStale(folder),
            )
        }
    }

    /// Takes in how the action named last went, and names the next one.
    pub fn next<C>(self, event: SuiteEvent<C, X>) -> (r: (Self, SuiteAction<C, X>))
        requires
            self.awaits(event),
        ensures
            r == self.after(event),
            r.0.rank() < self.rank(),
            r.1 is Return <==> r.0.step is Finished,
    {
        let SuiteFetch { sources, handle, step } = self;
        let fetch = SuiteFetch { sources, handle, step: SuiteStep::Finished };
        match (step, event) {
            (SuiteStep::MakeRoot, SuiteEvent::IoFailed(e)) => fetch.end(Err(JobExecErr::from(e))),
            (SuiteStep::MakeRoot, _) => {
                let suite_id = fetch.sources.suite_id;
                (fetch.move_to(SuiteStep::Lock), SuiteAction::Lock(suite_id))
            },
            (SuiteStep::Lock, SuiteEvent::Locked { handle: with_handle }) => {
                let request = HttpRequest {
                    method: HttpMethod::Get,
                    endpoint: fetch.sources.info_endpoint.clone(),
                    authorization: None,
                };
                let locked = SuiteFetch {
                    sources: fetch.sources,
                    handle: with_handle,
                    step: SuiteStep::FetchInfo,
                };
                (locked, SuiteAction::FetchInfo(request))
            },
            (SuiteStep::FetchInfo, SuiteEvent::RequestFailed(e)) => fetch.abandon(
                JobExecErr::from(e),
            ),
            (SuiteStep::FetchInfo, SuiteEvent::Info(info)) => {
                let folder = fetch.sources.folder.clone();
                (fetch.move_to(SuiteStep::MakeDir { info }), SuiteAction::MakeDir(folder))
            },
            (SuiteStep::MakeDir { info }, SuiteEvent::IoFailed(e)) => {
                if e.kind == IoErrorKind::AlreadyExists {
                    fetch.learn_dir(info, true)
                } else {
                    fetch.abandon(JobExecErr::from(e))
                }
            },
            (SuiteStep::MakeDir { info }, _) => fetch.learn_dir(info, false),
            (SuiteStep::ReadLockfile { info, dir_exists }, SuiteEvent::Lockfile(locked)) =>
                fetch.learn_lockfile(info, dir_exists, locked),
            (SuiteStep::ReadLockfile { info, dir_exists }, SuiteEvent::IoFailed(e)) => {
                if e.kind == IoErrorKind::NotFound {
                    fetch.learn_lockfile(info, dir_exists, None)
                } else {
                    fetch.abandon(JobExecErr::from(e))
                }
            },
            (SuiteStep::RemoveStale { .. }, SuiteEvent::Failed(e)) => fetch.abandon(e),
            (SuiteStep::RemoveStale { info, up_to_date }, _) => {
                let temp_root = fetch.sources.temp_root.clone();
                (
                    fetch.move_to(SuiteStep::MakeTempRoot { info, up_to_date }),
                    SuiteAction::MakeTempRoot(temp_root),
                )
            },
            (SuiteStep::MakeTempRoot { .. }, SuiteEvent::IoFailed(e)) => fetch.abandon(
                JobExecErr::from(e),
            ),
            (SuiteStep::MakeTempRoot { info, up_to_date }, _) => {
                let request = HttpRequest {
                    method: HttpMethod::Get,
                    endpoint: fetch.sources.download_endpoint.clone(),
                    authorization: copy_option(&fetch.sources.access_token),
                };
                let folder = fetch.sources.folder.clone();
                let temp_file = fetch.sources.temp_file.clone();
                (
                    fetch.move_to(SuiteStep::Download { info, up_to_date }),
                    SuiteAction::Download { request, folder, temp_file },
                )
            },
            (SuiteStep::Download { .. }, SuiteEvent::Failed(e)) => fetch.abandon(e),
            (SuiteStep::Download { info, up_to_date }, _) => {
                if up_to_date {
                    fetch.settle()
                } else {
                    let lockfile = fetch.sources.lockfile.clone();
                    (
                        fetch.move_to(SuiteStep::WriteLockfile),
                        SuiteAction::WriteLockfile { lockfile, info },
                    )
                }
            },
            (SuiteStep::WriteLockfile, SuiteEvent::JsonFailed(e)) => fetch.abandon(
                JobExecErr::from(e),
            ),
            (SuiteStep::WriteLockfile, SuiteEvent::IoFailed(e)) => fetch.abandon(
                JobExecErr::from(e),
            ),
            (SuiteStep::WriteLockfile, _) => fetch.settle(),
            (SuiteStep::CleanUp { error }, _) => fetch.end(Err(error)),
            (SuiteStep::Unlock, _) => {
                let base = fetch.sources.folder.clone();
                (
                    fetch.move_to(SuiteStep::JoinPath),
                    SuiteAction::JoinPath { base, path: TEST_CONF_FILE },
                )
            },
            (SuiteStep::JoinPath, SuiteEvent::Joined { path, text }) => (
                fetch.move_to(SuiteStep::ReadConfig { text }),
                SuiteAction::ReadConfig(path),
            ),
            (SuiteStep::ReadConfig { .. }, SuiteEvent::Config(config)) => fetch.end(Ok(config)),
            (SuiteStep::ReadConfig { text }, SuiteEvent::IoFailed(e)) => {
                if e.kind == IoErrorKind::NotFound {
                    fetch.end(Err(JobExecErr::NoSuchFile(text)))
                } else {
                    fetch.end(Err(JobExecErr::from(e)))
                }
            },
            (SuiteStep::ReadConfig { .. }, SuiteEvent::JsonFailed(e)) => fetch.end(
                Err(JobExecErr::from(e)),
            ),
            _ => unreached(),
        }
    }
}

} // verus!
