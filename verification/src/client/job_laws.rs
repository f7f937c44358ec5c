//! What a whole job does, from the first action to the last.

use crate::client::error::JobExecErr;
use crate::client::job::{
    GitCloneOptions, JobAction, JobEvent, JobFolders, JobRun, JobStep, ResultUploadConfig,
    SuiteSetup, accepted, clone_options, limit_of, progress, setup_of,
};
use crate::client::model::{
    ClientMsg, Job, JobProgressMsg, JobResultKind, JobResultMsg, JobStage,
};
use crate::client::plan::{
    carried_out, first_error, lemma_last_fails, lemma_last_of_failed, lemma_prefix,
};
use crate::client::report::reported;
use crate::config::{JudgeToml, JudgeTomlTestConfig, JudgerPublicConfig, PublicConfigView};
use crate::text::law_wrapped;
use std::collections::HashMap;
use std::path::PathBuf;
use vstd::prelude::*;

verus! {

/// Whether `event` is a way in which `action` can go.
pub open spec fn fits<K, I, T>(action: JobAction<K, I, T>, event: JobEvent<K, I, T>) -> bool {
    match action {
        JobAction::FetchSuite(_) => event is SuiteReady || event is Failed || event is Cancelled,
        JobAction::Report(_) => event is Done || event is SendFailed,
        JobAction::ClearJobDir(_) => event is Done || event is Failed,
        JobAction::CloneRepo { .. } => event is Done || event is Failed,
        JobAction::FindRoot(_) => event is Root || event is Failed,
        JobAction::ReadJudgeFile { .. } => event is JudgeFile || event is IoFailed
            || event is TomlFailed,
        JobAction::JoinPath { .. } => event is Joined,
        JobAction::BuildSuite { .. } => event is Done || event is Failed,
        JobAction::ForwardResults(_) => event is Done,
        JobAction::ForwardOutput(_) => event is Done,
        JobAction::RunSuite { .. } => event is Ran || event is Failed,
        JobAction::AwaitOutput => event is Done,
        JobAction::AwaitResults => event is Done,
        JobAction::Return(_) => true,
    }
}

/// The outside world of one job: how each action goes when it is performed.
pub open spec fn is_world<K, I, T>(
    world: spec_fn(JobAction<K, I, T>) -> JobEvent<K, I, T>,
) -> bool {
    forall|action: JobAction<K, I, T>| fits(action, #[trigger] world(action))
}

/// The actions that a job performs from here on, in order.
pub open spec fn run<B, R, I, T>(
    job_run: JobRun<PublicConfigView<B, R>, I, T>,
    action: JobAction<PublicConfigView<B, R>, I, T>,
    world: spec_fn(JobAction<PublicConfigView<B, R>, I, T>) -> JobEvent<PublicConfigView<B, R>, I, T>,
) -> Seq<JobAction<PublicConfigView<B, R>, I, T>>
    decreases job_run.rank(),
{
    if action is Return || !job_run.awaits(world(action)) {
        seq![action]
    } else {
        let (rest, then_action) = job_run.after(world(action));
        seq![action] + run(rest, then_action, world)
    }
}

/// A job before its first step.
pub open spec fn begun<K, I, T>(
    job: Job,
    folders: JobFolders,
    upload_endpoint: String,
    access_token: Option<String>,
) -> JobRun<K, I, T> {
    JobRun {
        job_id: job.id,
        folders,
        upload_endpoint,
        access_token,
        step: JobStep::FetchSuite { job },
    }
}

/// The configuration that the job works with in this world.
pub open spec fn config_of<B, R, I, T>(
    job: Job,
    world: spec_fn(JobAction<PublicConfigView<B, R>, I, T>) -> JobEvent<PublicConfigView<B, R>, I, T>,
) -> PublicConfigView<B, R> {
    (world(JobAction::FetchSuite(job.test_suite))->SuiteReady_0).with_binds()
}

/// The root of what is to be judged in this world.
pub open spec fn root_of<B, R, I, T>(
    folders: JobFolders,
    world: spec_fn(JobAction<PublicConfigView<B, R>, I, T>) -> JobEvent<PublicConfigView<B, R>, I, T>,
) -> PathBuf {
    world(JobAction::FindRoot(folders.job))->Root_0
}

/// The judge file of the repository in this world.
pub open spec fn file_of<B, R, I, T>(
    folders: JobFolders,
    world: spec_fn(JobAction<PublicConfigView<B, R>, I, T>) -> JobEvent<PublicConfigView<B, R>, I, T>,
) -> JudgeToml<I> {
    world(JobAction::ReadJudgeFile { root: root_of(folders, world) })->JudgeFile_0
}

/// The entry of the repository's judge file for the job's test suite.
pub open spec fn entry_of<B, R, I, T>(
    job: Job,
    folders: JobFolders,
    world: spec_fn(JobAction<PublicConfigView<B, R>, I, T>) -> JobEvent<PublicConfigView<B, R>, I, T>,
) -> JudgeTomlTestConfig<I> {
    file_of(folders, world).jobs@[config_of(job, world).name@]
}

/// The folder of the suite's tests in this world: the suite's folder joined with the
/// one that its configuration names.
pub open spec fn tests_dir_of<B, R, I, T>(
    job: Job,
    folders: JobFolders,
    world: spec_fn(JobAction<PublicConfigView<B, R>, I, T>) -> JobEvent<PublicConfigView<B, R>, I, T>,
) -> PathBuf {
    world(
        JobAction::JoinPath { base: folders.suite, path: config_of(job, world).mapped_dir.from },
    )->Joined_0
}

/// What it takes to carry the job out.
pub open spec fn plan<B, R, I, T>(
    job: Job,
    folders: JobFolders,
    upload: ResultUploadConfig,
    world: spec_fn(JobAction<PublicConfigView<B, R>, I, T>) -> JobEvent<PublicConfigView<B, R>, I, T>,
) -> Seq<JobAction<PublicConfigView<B, R>, I, T>> {
    let config = config_of(job, world);
    let root = root_of(folders, world);
    seq![
        JobAction::FetchSuite(job.test_suite),
        JobAction::Report(progress(job.id, JobStage::Fetching)),
        JobAction::ClearJobDir(folders.job),
        JobAction::CloneRepo { dir: folders.job, options: clone_options(job) },
        JobAction::FindRoot(folders.job),
        JobAction::ReadJudgeFile { root },
        JobAction::Report(progress(job.id, JobStage::Running)),
        JobAction::JoinPath { base: folders.suite, path: config.mapped_dir.from },
        JobAction::BuildSuite {
            suite_root: folders.suite,
            setup: setup_of(
                job,
                config,
                entry_of(job, folders, world),
                tests_dir_of(job, folders, world),
            ),
        },
        JobAction::ForwardResults(job.id),
        JobAction::ForwardOutput(job.id),
        JobAction::RunSuite { root, upload },
        JobAction::AwaitOutput,
        JobAction::AwaitResults,
    ]
}

/// The error with which `event` ends the job, where it does. Failing to clear the
/// job's folder does not.
pub open spec fn failure<B, R, I, T>(
    config: PublicConfigView<B, R>,
    action: JobAction<PublicConfigView<B, R>, I, T>,
    event: JobEvent<PublicConfigView<B, R>, I, T>,
) -> Option<JobExecErr> {
    match event {
        JobEvent::Failed(e) => if action is ClearJobDir {
            None
        } else {
            Some(e)
        },
        JobEvent::IoFailed(e) => Some(JobExecErr::Io(e)),
        JobEvent::TomlFailed(e) => Some(JobExecErr::TomlDes(e)),
        JobEvent::SendFailed(e) => Some(
            match e.io {
                Some(io) => JobExecErr::Io(io),
                None => JobExecErr::Ws(e),
            },
        ),
        JobEvent::Cancelled => Some(JobExecErr::Cancelled),
        JobEvent::JudgeFile(file) => if file.jobs@.contains_key(config.name@) {
            None
        } else {
            Some(JobExecErr::NoSuchConfig(config.name))
        },
        _ => None,
    }
}

/// Which actions of a job fail in this world, and how.
pub open spec fn fails<B, R, I, T>(
    job: Job,
    world: spec_fn(JobAction<PublicConfigView<B, R>, I, T>) -> JobEvent<PublicConfigView<B, R>, I, T>,
) -> spec_fn(JobAction<PublicConfigView<B, R>, I, T>) -> Option<JobExecErr> {
    |action: JobAction<PublicConfigView<B, R>, I, T>|
        failure(config_of(job, world), action, world(action))
}

/// The results of the job's tests in this world.
pub open spec fn ran_of<B, R, I, T>(
    folders: JobFolders,
    upload: ResultUploadConfig,
    world: spec_fn(JobAction<PublicConfigView<B, R>, I, T>) -> JobEvent<PublicConfigView<B, R>, I, T>,
) -> HashMap<String, T> {
    world(JobAction::RunSuite { root: root_of(folders, world), upload })->Ran_0
}

/// What the job returns: the first error, or the results of its tests.
pub open spec fn outcome<B, R, I, T>(
    job: Job,
    folders: JobFolders,
    upload: ResultUploadConfig,
    world: spec_fn(JobAction<PublicConfigView<B, R>, I, T>) -> JobEvent<PublicConfigView<B, R>, I, T>,
) -> Result<JobResultMsg<T>, JobExecErr> {
    match first_error(plan(job, folders, upload, world), fails(job, world)) {
        Some(e) => Err(e),
        None => Ok(accepted(job.id, ran_of(folders, upload, world))),
    }
}

/// Everything that a job does in this world.
pub open spec fn whole_job<B, R, I, T>(
    job: Job,
    folders: JobFolders,
    upload: ResultUploadConfig,
    world: spec_fn(JobAction<PublicConfigView<B, R>, I, T>) -> JobEvent<PublicConfigView<B, R>, I, T>,
) -> Seq<JobAction<PublicConfigView<B, R>, I, T>> {
    carried_out(plan(job, folders, upload, world), fails(job, world)) + seq![
        JobAction::Return(outcome(job, folders, upload, world)),
    ]
}

/// The rest of a plan and the end of the job.
spec fn rest_of<B, R, I, T>(
    job: Job,
    folders: JobFolders,
    upload: ResultUploadConfig,
    plan: Seq<JobAction<PublicConfigView<B, R>, I, T>>,
    world: spec_fn(JobAction<PublicConfigView<B, R>, I, T>) -> JobEvent<PublicConfigView<B, R>, I, T>,
) -> Seq<JobAction<PublicConfigView<B, R>, I, T>> {
    carried_out(plan, fails(job, world)) + seq![
        JobAction::Return(
            match first_error(plan, fails(job, world)) {
                Some(e) => Err(e),
                None => Ok(accepted(job.id, ran_of(folders, upload, world))),
            },
        ),
    ]
}

/// One action of a plan: it is performed, and either fails or leads to the rest.
proof fn lemma_one<B, R, I, T>(
    job: Job,
    folders: JobFolders,
    upload: ResultUploadConfig,
    job_run: JobRun<PublicConfigView<B, R>, I, T>,
    remaining: Seq<JobAction<PublicConfigView<B, R>, I, T>>,
    world: spec_fn(JobAction<PublicConfigView<B, R>, I, T>) -> JobEvent<PublicConfigView<B, R>, I, T>,
)
    requires
        is_world(world),
        remaining.len() > 0,
        !(remaining[0] is Return),
        job_run.awaits(world(remaining[0])),
        match fails(job, world)(remaining[0]) {
            Some(e) => job_run.after(world(remaining[0])) == job_run.ended(Err(e)),
            None => {
                let (next, action) = job_run.after(world(remaining[0]));
                run(next, action, world) == rest_of(
                    job,
                    folders,
                    upload,
                    remaining.drop_first(),
                    world,
                )
            },
        },
    ensures
        run(job_run, remaining[0], world) == rest_of(job, folders, upload, remaining, world),
{
    reveal_with_fuel(run, 2);
    assert(run(job_run, remaining[0], world) =~= rest_of(job, folders, upload, remaining, world));
}

/// The second half of a job, once the judge file has been read.
proof fn lemma_second_half<B, R, I, T>(
    job: Job,
    base: JobRun<PublicConfigView<B, R>, I, T>,
    world: spec_fn(JobAction<PublicConfigView<B, R>, I, T>) -> JobEvent<PublicConfigView<B, R>, I, T>,
)
    requires
        is_world(world),
        base.job_id == job.id,
    ensures
        run(
            base.at(
                JobStep::ReportRunning {
                    job,
                    config: config_of(job, world),
                    entry: entry_of(job, base.folders, world),
                    root: root_of(base.folders, world),
                },
            ),
            JobAction::Report(progress(job.id, JobStage::Running)),
            world,
        ) == rest_of(
            job,
            base.folders,
            base.upload(),
            plan(job, base.folders, base.upload(), world).skip(6),
            world,
        ),
{
    let folders = base.folders;
    let upload = base.upload();
    let config = config_of(job, world);
    let entry = entry_of(job, folders, world);
    let root = root_of(folders, world);
    let p6 = plan(job, folders, upload, world).skip(6);
    let p7 = p6.drop_first();
    let p8 = p7.drop_first();
    let p9 = p8.drop_first();
    let p10 = p9.drop_first();
    let p11 = p10.drop_first();
    let p12 = p11.drop_first();
    let p13 = p12.drop_first();
    let p14 = p13.drop_first();
    let results = ran_of(folders, upload, world);
    let waiting = base.at(JobStep::AwaitResults { results });
    let (next, action) = waiting.after(world(p13[0]));
    assert(run(next, action, world) =~= rest_of(job, folders, upload, p14, world));
    lemma_one(job, folders, upload, waiting, p13, world);
    lemma_one(job, folders, upload, base.at(JobStep::AwaitOutput { results }), p12, world);
    lemma_one(job, folders, upload, base.at(JobStep::RunSuite), p11, world);
    lemma_one(job, folders, upload, base.at(JobStep::ForwardOutput { root }), p10, world);
    lemma_one(job, folders, upload, base.at(JobStep::ForwardResults { root }), p9, world);
    lemma_one(job, folders, upload, base.at(JobStep::BuildSuite { root }), p8, world);
    lemma_one(
        job,
        folders,
        upload,
        base.at(JobStep::JoinPath { job, config, entry, root }),
        p7,
        world,
    );
    lemma_one(
        job,
        folders,
        upload,
        base.at(JobStep::ReportRunning { job, config, entry, root }),
        p6,
        world,
    );
}

/// A job performs exactly the actions of [`whole_job`], in that order, whatever the
/// outside world does.
pub proof fn law_whole_job<B, R, I, T>(
    job: Job,
    folders: JobFolders,
    upload_endpoint: String,
    access_token: Option<String>,
    world: spec_fn(JobAction<PublicConfigView<B, R>, I, T>) -> JobEvent<PublicConfigView<B, R>, I, T>,
)
    requires
        is_world(world),
    ensures
        run(
            begun::<PublicConfigView<B, R>, I, T>(job, folders, upload_endpoint, access_token),
            JobAction::FetchSuite(job.test_suite),
            world,
        ) == whole_job(
            job,
            folders,
            ResultUploadConfig { endpoint: upload_endpoint, access_token, job_id: job.id },
            world,
        ),
{
    let base = begun::<PublicConfigView<B, R>, I, T>(job, folders, upload_endpoint, access_token);
    let upload = base.upload();
    let config = config_of(job, world);
    let root = root_of(folders, world);
    let p0 = plan(job, folders, upload, world);
    let p1 = p0.drop_first();
    let p2 = p1.drop_first();
    let p3 = p2.drop_first();
    let p4 = p3.drop_first();
    let p5 = p4.drop_first();
    assert(p5.drop_first() =~= p0.skip(6));
    lemma_second_half(job, base, world);
    lemma_one(
        job,
        folders,
        upload,
        base.at(JobStep::ReadJudgeFile { job, config, root }),
        p5,
        world,
    );
    lemma_one(job, folders, upload, base.at(JobStep::FindRoot { job, config }), p4, world);
    lemma_one(job, folders, upload, base.at(JobStep::CloneRepo { job, config }), p3, world);
    lemma_one(job, folders, upload, base.at(JobStep::ClearJobDir { job, config }), p2, world);
    lemma_one(job, folders, upload, base.at(JobStep::ReportFetching { job, config }), p1, world);
    lemma_one(job, folders, upload, base, p0, world);
    assert(rest_of(job, folders, upload, p0, world) == whole_job(job, folders, upload, world));
}

/// A job that is cancelled before its test suite is there does nothing more.
pub proof fn law_cancelled_early<B, R, I, T>(
    job: Job,
    folders: JobFolders,
    upload: ResultUploadConfig,
    world: spec_fn(JobAction<PublicConfigView<B, R>, I, T>) -> JobEvent<PublicConfigView<B, R>, I, T>,
)
    requires
        is_world(world),
        world(JobAction::FetchSuite(job.test_suite)) is Cancelled,
    ensures
        whole_job(job, folders, upload, world) == seq![
            JobAction::<PublicConfigView<B, R>, I, T>::FetchSuite(job.test_suite),
            JobAction::Return(Err(JobExecErr::Cancelled)),
        ],
{
    let all = plan(job, folders, upload, world);
    assert(fails(job, world)(all[0]) == Some(JobExecErr::Cancelled));
    assert(whole_job(job, folders, upload, world) =~= seq![
        JobAction::<PublicConfigView<B, R>, I, T>::FetchSuite(job.test_suite),
        JobAction::Return(Err(JobExecErr::Cancelled)),
    ]);
}

/// A job succeeds exactly where every action of its plan goes well. It has then
/// performed all of them, and it returns the results of its tests as they came,
/// under its own identifier, as accepted and without a message.
pub proof fn law_success<B, R, I, T>(
    job: Job,
    folders: JobFolders,
    upload: ResultUploadConfig,
    world: spec_fn(JobAction<PublicConfigView<B, R>, I, T>) -> JobEvent<PublicConfigView<B, R>, I, T>,
)
    requires
        is_world(world),
    ensures
        outcome(job, folders, upload, world) is Ok <==> forall|i: int|
            0 <= i < plan(job, folders, upload, world).len() ==> fails(job, world)(
                #[trigger] plan(job, folders, upload, world)[i],
            ) is None,
        outcome(job, folders, upload, world) matches Ok(msg) ==> {
            &&& whole_job(job, folders, upload, world) == plan(job, folders, upload, world).push(
                JobAction::Return(Ok(msg)),
            )
            &&& world(JobAction::RunSuite { root: root_of(folders, world), upload })
                == JobEvent::<PublicConfigView<B, R>, I, T>::Ran(msg.results)
            &&& msg.job_id == job.id
            &&& msg.job_result == JobResultKind::Accepted
            &&& msg.message is None
        },
{
    let all = plan(job, folders, upload, world);
    lemma_prefix(all, fails(job, world));
    if first_error(all, fails(job, world)) is None {
        assert(fails(job, world)(all[11]) is None);
        assert(fits(all[11], world(all[11])));
        assert(whole_job(job, folders, upload, world) =~= all.push(
            JobAction::Return(outcome(job, folders, upload, world)),
        ));
    }
}

/// The tests run only after the coordinator has been told that the job is being
/// fetched and then that it is running, and after the repository has been cloned into
/// the job's folder. They run on the root that was found in that folder, where the
/// judge file was read, once results and output are being passed on.
pub proof fn law_reported_before_run<B, R, I, T>(
    job: Job,
    folders: JobFolders,
    upload: ResultUploadConfig,
    world: spec_fn(JobAction<PublicConfigView<B, R>, I, T>) -> JobEvent<PublicConfigView<B, R>, I, T>,
    i: int,
)
    requires
        is_world(world),
        0 <= i < whole_job(job, folders, upload, world).len(),
        whole_job(job, folders, upload, world)[i] is RunSuite,
    ensures
        ({
            let all = whole_job(job, folders, upload, world);
            let root = all[i]->RunSuite_root;
            &&& i == 11
            &&& all[1] == JobAction::<PublicConfigView<B, R>, I, T>::Report(
                progress(job.id, JobStage::Fetching),
            )
            &&& world(all[1]) is Done
            &&& all[3] == (JobAction::<PublicConfigView<B, R>, I, T>::CloneRepo {
                dir: folders.job,
                options: clone_options(job),
            })
            &&& world(all[3]) is Done
            &&& all[4] == JobAction::<PublicConfigView<B, R>, I, T>::FindRoot(folders.job)
            &&& world(all[4]) == JobEvent::<PublicConfigView<B, R>, I, T>::Root(root)
            &&& all[5] == (JobAction::<PublicConfigView<B, R>, I, T>::ReadJudgeFile { root })
            &&& world(all[5]) is JudgeFile
            &&& all[6] == JobAction::<PublicConfigView<B, R>, I, T>::Report(
                progress(job.id, JobStage::Running),
            )
            &&& world(all[6]) is Done
            &&& all[9] == JobAction::<PublicConfigView<B, R>, I, T>::ForwardResults(job.id)
            &&& all[10] == JobAction::<PublicConfigView<B, R>, I, T>::ForwardOutput(job.id)
        }),
{
    let p = plan(job, folders, upload, world);
    let done = carried_out(p, fails(job, world));
    lemma_prefix(p, fails(job, world));
    let all = whole_job(job, folders, upload, world);
    assert(all[i] == done[i] && done[i] == p[i]);
    assert forall|k: int| 0 <= k < i implies #[trigger] all[k] == p[k] && fails(job, world)(
        all[k],
    ) is None && fits(all[k], world(all[k])) by {
        assert(all[k] == done[k]);
    }
    assert(all[1] == p[1] && all[3] == p[3] && all[4] == p[4] && all[5] == p[5] && all[6] == p[6]
        && all[9] == p[9] && all[10] == p[10]);
}

/// What the tests of a job are set up from: the suite's folder and the folder of its
/// tests in it, the tests that the job names, the suite's limits, the image of the
/// repository's entry for the suite, the commands of that entry before those of the
/// suite, a list of bind mounts in any case, and all else as the suite's configuration
/// has it.
pub proof fn law_setup<B, R, I, T>(
    job: Job,
    folders: JobFolders,
    upload: ResultUploadConfig,
    world: spec_fn(JobAction<PublicConfigView<B, R>, I, T>) -> JobEvent<PublicConfigView<B, R>, I, T>,
    i: int,
)
    requires
        is_world(world),
        0 <= i < whole_job(job, folders, upload, world).len(),
        whole_job(job, folders, upload, world)[i] is BuildSuite,
    ensures
        ({
            let build = whole_job(job, folders, upload, world)[i];
            let setup = build->setup;
            let suite = world(JobAction::FetchSuite(job.test_suite))->SuiteReady_0;
            let file = file_of(folders, world);
            let entry = file.jobs@[suite.name@];
            &&& world(JobAction::FetchSuite(job.test_suite)) is SuiteReady
            &&& world(JobAction::ReadJudgeFile { root: root_of(folders, world) }) is JudgeFile
            &&& file.jobs@.contains_key(suite.name@)
            &&& build->suite_root == folders.suite
            &&& world(JobAction::JoinPath { base: folders.suite, path: suite.mapped_dir.from })
                == JobEvent::<PublicConfigView<B, R>, I, T>::Joined(setup.private_cfg.test_root_dir)
            &&& setup.private_cfg.mapped_test_root_dir == suite.mapped_dir.to
            &&& setup.image == entry.image
            &&& setup.options.tests == job.tests
            &&& setup.options.time_limit == limit_of(suite.time_limit)
            &&& setup.options.mem_limit == limit_of(suite.memory_limit)
            &&& setup.options.build_image && setup.options.remove_image
            &&& setup.public_cfg.run == entry.run@ + suite.run
            &&& setup.public_cfg.binds is Some
            &&& suite.binds is Some ==> setup.public_cfg.binds == suite.binds
            &&& suite.binds is None ==> setup.public_cfg.binds == Some(Seq::<B>::empty())
            &&& setup.public_cfg == (PublicConfigView {
                binds: setup.public_cfg.binds,
                run: setup.public_cfg.run,
                ..suite
            })
        }),
{
    let p = plan(job, folders, upload, world);
    let done = carried_out(p, fails(job, world));
    lemma_prefix(p, fails(job, world));
    let all = whole_job(job, folders, upload, world);
    assert(all[i] == done[i] && done[i] == p[i]);
    assert(done[0] == p[0] && done[5] == p[5]);
    assert(fits(p[0], world(p[0])) && fits(p[5], world(p[5])) && fits(p[7], world(p[7])));
}

/// A job returns what its tests gave only after all output of the image build and all
/// results of single tests have been passed on.
pub proof fn law_all_passed_on<B, R, I, T>(
    job: Job,
    folders: JobFolders,
    upload: ResultUploadConfig,
    world: spec_fn(JobAction<PublicConfigView<B, R>, I, T>) -> JobEvent<PublicConfigView<B, R>, I, T>,
)
    requires
        is_world(world),
        outcome(job, folders, upload, world) is Ok,
    ensures
        ({
            let all = whole_job(job, folders, upload, world);
            &&& all.len() == 15
            &&& all[9] == JobAction::<PublicConfigView<B, R>, I, T>::ForwardResults(job.id)
            &&& all[10] == JobAction::<PublicConfigView<B, R>, I, T>::ForwardOutput(job.id)
            &&& all[11] is RunSuite
            &&& all[12] is AwaitOutput && world(all[12]) is Done
            &&& all[13] is AwaitResults && world(all[13]) is Done
            &&& all[14] is Return
        }),
{
    law_success(job, folders, upload, world);
    let all = whole_job(job, folders, upload, world);
    assert(fits(all[12], world(all[12])) && fits(all[13], world(all[13])));
}

/// What the coordinator learns of a job: it is reported under its own identifier,
/// as accepted exactly where every action of its plan went well, and with a message
/// exactly where one did not; then with the kind and the text of the first error.
pub proof fn law_reported_outcome<B, R, I, T>(
    job: Job,
    folders: JobFolders,
    upload: ResultUploadConfig,
    world: spec_fn(JobAction<PublicConfigView<B, R>, I, T>) -> JobEvent<PublicConfigView<B, R>, I, T>,
)
    requires
        is_world(world),
    ensures
        ({
            let report = reported(job.id, outcome(job, folders, upload, world));
            let error = first_error(plan(job, folders, upload, world), fails(job, world));
            &&& report.job_id == job.id
            &&& report.job_result == JobResultKind::Accepted <==> error is None
            &&& report.message is None <==> error is None
            &&& error matches Some(e) ==> report.job_result == e.result_kind() && report.message
                == Some(e.report_text())
        }),
{
}

/// A job whose every action goes well, written out. The suite that the job names is
/// fetched; the repository that the job names is cloned at the revision that it names into
/// the job's own folder; the entry for the suite is looked up in the judge file of the
/// root that is found there; the tests that the job names are set up from the suite's
/// folder, with the entry's image, its commands before those of the suite, and the
/// suite's limits; they run on that root; and the results are returned as they came. That
/// the job's folder could not be cleared does not matter.
pub proof fn law_job_that_goes_well<B, R, I, T>(
    job: Job,
    folders: JobFolders,
    upload_endpoint: String,
    access_token: Option<String>,
    world: spec_fn(JobAction<PublicConfigView<B, R>, I, T>) -> JobEvent<PublicConfigView<B, R>, I, T>,
    suite: PublicConfigView<B, R>,
    root: PathBuf,
    file: JudgeToml<I>,
    tests_dir: PathBuf,
    results: HashMap<String, T>,
    build: SuiteSetup<PublicConfigView<B, R>, I>,
)
    requires
        is_world(world),
        world(JobAction::FetchSuite(job.test_suite)) == JobEvent::<PublicConfigView<B, R>, I, T>::SuiteReady(suite),
        world(
            JobAction::Report(
                ClientMsg::JobProgress(
                    JobProgressMsg { job_id: job.id, stage: JobStage::Fetching },
                ),
            ),
        ) is Done,
        world(
            JobAction::CloneRepo {
                dir: folders.job,
                options: GitCloneOptions { repo: job.repo, revision: job.revision, depth: 3 },
            },
        ) is Done,
        world(JobAction::FindRoot(folders.job)) == JobEvent::<PublicConfigView<B, R>, I, T>::Root(root),
        world(JobAction::ReadJudgeFile { root }) == JobEvent::<PublicConfigView<B, R>, I, T>::JudgeFile(file),
        file.jobs@.contains_key(suite.name@),
        world(
            JobAction::Report(
                ClientMsg::JobProgress(
                    JobProgressMsg { job_id: job.id, stage: JobStage::Running },
                ),
            ),
        ) is Done,
        world(JobAction::JoinPath { base: folders.suite, path: suite.mapped_dir.from })
            == JobEvent::<PublicConfigView<B, R>, I, T>::Joined(tests_dir),
        build.image == file.jobs@[suite.name@].image,
        build.private_cfg.test_root_dir == tests_dir,
        build.private_cfg.mapped_test_root_dir == suite.mapped_dir.to,
        build.public_cfg == (PublicConfigView {
            binds: Some(
                if suite.binds is Some {
                    suite.binds->0
                } else {
                    Seq::empty()
                },
            ),
            run: file.jobs@[suite.name@].run@ + suite.run,
            ..suite
        }),
        build.options.tests == job.tests,
        build.options.time_limit == (if suite.time_limit is None {
            None
        } else if suite.time_limit->0 >= 0 {
            Some((suite.time_limit->0) as usize)
        } else {
            Some((suite.time_limit->0 + usize::MAX + 1) as usize)
        }),
        build.options.mem_limit == (if suite.memory_limit is None {
            None
        } else if suite.memory_limit->0 >= 0 {
            Some((suite.memory_limit->0) as usize)
        } else {
            Some((suite.memory_limit->0 + usize::MAX + 1) as usize)
        }),
        build.options.build_image,
        build.options.remove_image,
        world(JobAction::BuildSuite { suite_root: folders.suite, setup: build }) is Done,
        world(
            JobAction::RunSuite {
                root,
                upload: ResultUploadConfig {
                    endpoint: upload_endpoint,
                    access_token,
                    job_id: job.id,
                },
            },
        ) == JobEvent::<PublicConfigView<B, R>, I, T>::Ran(results),
    ensures
        run(
            JobRun {
                job_id: job.id,
                folders,
                upload_endpoint,
                access_token,
                step: JobStep::FetchSuite { job },
            },
            JobAction::FetchSuite(job.test_suite),
            world,
        ) == seq![
            JobAction::FetchSuite(job.test_suite),
            JobAction::Report(
                ClientMsg::JobProgress(
                    JobProgressMsg { job_id: job.id, stage: JobStage::Fetching },
                ),
            ),
            JobAction::ClearJobDir(folders.job),
            JobAction::CloneRepo {
                dir: folders.job,
                options: GitCloneOptions { repo: job.repo, revision: job.revision, depth: 3 },
            },
            JobAction::FindRoot(folders.job),
            JobAction::ReadJudgeFile { root },
            JobAction::Report(
                ClientMsg::JobProgress(
                    JobProgressMsg { job_id: job.id, stage: JobStage::Running },
                ),
            ),
            JobAction::JoinPath { base: folders.suite, path: suite.mapped_dir.from },
            JobAction::BuildSuite { suite_root: folders.suite, setup: build },
            JobAction::ForwardResults(job.id),
            JobAction::ForwardOutput(job.id),
            JobAction::RunSuite {
                root,
                upload: ResultUploadConfig {
                    endpoint: upload_endpoint,
                    access_token,
                    job_id: job.id,
                },
            },
            JobAction::AwaitOutput,
            JobAction::AwaitResults,
            JobAction::Return(
                Ok(
                    JobResultMsg {
                        job_id: job.id,
                        results,
                        job_result: JobResultKind::Accepted,
                        message: None,
                    },
                ),
            ),
        ],
{
    let upload = ResultUploadConfig { endpoint: upload_endpoint, access_token, job_id: job.id };
    let all = plan(job, folders, upload, world);
    let f = fails(job, world);
    assert(setup_of(
        job,
        config_of(job, world),
        entry_of(job, folders, world),
        tests_dir_of(job, folders, world),
    ) == build);
    assert forall|i: int| 0 <= i < all.len() implies f(#[trigger] all[i]) is None by {
        assert(fits(all[i], world(all[i])));
    }
    lemma_prefix(all, f);
    law_whole_job(job, folders, upload_endpoint, access_token, world);
    assert(whole_job(job, folders, upload, world) =~= all.push(
        JobAction::Return(outcome(job, folders, upload, world)),
    ));
}

/// Whatever happens, every action of a job has the operands that belong to it. Above all,
/// what is cloned is the repository that the job names, at the revision that it names,
/// three commits deep and into the job's own folder; what is reported and passed on goes
/// under the job's own identifier; and each action stands at its own place.
pub proof fn law_job_operands<B, R, I, T>(
    job: Job,
    folders: JobFolders,
    upload_endpoint: String,
    access_token: Option<String>,
    world: spec_fn(JobAction<PublicConfigView<B, R>, I, T>) -> JobEvent<PublicConfigView<B, R>, I, T>,
    i: int,
)
    requires
        is_world(world),
        0 <= i < run(
            JobRun {
                job_id: job.id,
                folders,
                upload_endpoint,
                access_token,
                step: JobStep::FetchSuite { job },
            },
            JobAction::FetchSuite(job.test_suite),
            world,
        ).len(),
    ensures
        ({
            let all = run(
                JobRun {
                    job_id: job.id,
                    folders,
                    upload_endpoint,
                    access_token,
                    step: JobStep::FetchSuite { job },
                },
                JobAction::FetchSuite(job.test_suite),
                world,
            );
            let suite = world(JobAction::FetchSuite(job.test_suite))->SuiteReady_0;
            match all[i] {
                JobAction::FetchSuite(id) => i == 0 && id == job.test_suite,
                JobAction::Report(msg) => {
                    &&& i == 1 || i == 6
                    &&& msg is JobProgress
                    &&& msg->JobProgress_0.job_id == job.id
                    &&& i == 1 <==> msg->JobProgress_0.stage == JobStage::Fetching
                    &&& i == 6 <==> msg->JobProgress_0.stage == JobStage::Running
                },
                JobAction::ClearJobDir(dir) => i == 2 && dir == folders.job,
                JobAction::CloneRepo { dir, options } => {
                    &&& i == 3
                    &&& dir == folders.job
                    &&& options.repo == job.repo
                    &&& options.revision == job.revision
                    &&& options.depth == 3
                },
                JobAction::FindRoot(dir) => i == 4 && dir == folders.job,
                JobAction::ReadJudgeFile { root } => i == 5 && world(
                    JobAction::FindRoot(folders.job),
                ) == JobEvent::<PublicConfigView<B, R>, I, T>::Root(root),
                JobAction::JoinPath { base, path } => {
                    &&& i == 7
                    &&& base == folders.suite
                    &&& path == suite.mapped_dir.from
                },
                JobAction::BuildSuite { suite_root, setup } => {
                    &&& i == 8
                    &&& suite_root == folders.suite
                    &&& setup.options.tests == job.tests
                    &&& setup.options.build_image && setup.options.remove_image
                    &&& setup.options.time_limit is Some <==> suite.time_limit is Some
                    &&& setup.options.mem_limit is Some <==> suite.memory_limit is Some
                    &&& suite.time_limit matches Some(x) ==> if x >= 0 {
                        setup.options.time_limit->0 == x
                    } else {
                        usize::MAX - setup.options.time_limit->0 == -1 - x
                    }
                    &&& suite.memory_limit matches Some(x) ==> if x >= 0 {
                        setup.options.mem_limit->0 == x
                    } else {
                        usize::MAX - setup.options.mem_limit->0 == -1 - x
                    }
                    &&& setup.private_cfg.mapped_test_root_dir == suite.mapped_dir.to
                    &&& world(
                        JobAction::JoinPath { base: folders.suite, path: suite.mapped_dir.from },
                    ) == JobEvent::<PublicConfigView<B, R>, I, T>::Joined(setup.private_cfg.test_root_dir)
                    &&& setup.public_cfg.name == suite.name
                    &&& setup.public_cfg.rest == suite.rest
                    &&& setup.public_cfg.binds is Some
                },
                JobAction::ForwardResults(id) => i == 9 && id == job.id,
                JobAction::ForwardOutput(id) => i == 10 && id == job.id,
                JobAction::RunSuite { root, upload } => {
                    &&& i == 11
                    &&& world(JobAction::FindRoot(folders.job)) == JobEvent::<PublicConfigView<B, R>, I, T>::Root(root)
                    &&& upload.endpoint == upload_endpoint
                    &&& upload.access_token == access_token
                    &&& upload.job_id == job.id
                },
                JobAction::AwaitOutput => i == 12,
                JobAction::AwaitResults => i == 13,
                JobAction::Return(result) => {
                    &&& i == all.len() - 1
                    &&& result matches Ok(msg) ==> i == 14 && msg.job_id == job.id
                        && msg.job_result == JobResultKind::Accepted && msg.message is None
                },
            }
        }),
{
    let upload = ResultUploadConfig { endpoint: upload_endpoint, access_token, job_id: job.id };
    let p = plan(job, folders, upload, world);
    let done = carried_out(p, fails(job, world));
    let all = whole_job(job, folders, upload, world);
    law_whole_job(job, folders, upload_endpoint, access_token, world);
    lemma_prefix(p, fails(job, world));
    if i < done.len() {
        assert(all[i] == done[i] && done[i] == p[i]);
        assert forall|k: int| 0 <= k < i implies fails(job, world)(#[trigger] p[k]) is None && fits(
            p[k],
            world(p[k]),
        ) by {
            assert(done[k] == p[k]);
        }
        if i == 8 {
            assert(p[0] == JobAction::<PublicConfigView<B, R>, I, T>::FetchSuite(job.test_suite));
            assert(fits(p[7], world(p[7])));
            let suite = world(JobAction::FetchSuite(job.test_suite))->SuiteReady_0;
            if let Some(x) = suite.time_limit {
                law_wrapped(x);
            }
            if let Some(x) = suite.memory_limit {
                law_wrapped(x);
            }
        }
        if i > 4 {
            assert(fails(job, world)(p[4]) is None && fits(p[4], world(p[4])));
        }
    }
}

/// Whatever fails first, that very error is returned next, and nothing more is done. That
/// a websocket failed because of an I/O error counts as that I/O error; a judge file
/// without an entry for the suite counts as a missing configuration of the suite's name;
/// and that the job's folder could not be cleared is no failure.
pub proof fn law_first_error_is_returned<B, R, I, T>(
    job: Job,
    folders: JobFolders,
    upload_endpoint: String,
    access_token: Option<String>,
    world: spec_fn(JobAction<PublicConfigView<B, R>, I, T>) -> JobEvent<PublicConfigView<B, R>, I, T>,
    i: int,
    error: JobExecErr,
)
    requires
        is_world(world),
        0 <= i < run(
            JobRun {
                job_id: job.id,
                folders,
                upload_endpoint,
                access_token,
                step: JobStep::FetchSuite { job },
            },
            JobAction::FetchSuite(job.test_suite),
            world,
        ).len(),
        ({
            let action = run(
                JobRun {
                    job_id: job.id,
                    folders,
                    upload_endpoint,
                    access_token,
                    step: JobStep::FetchSuite { job },
                },
                JobAction::FetchSuite(job.test_suite),
                world,
            )[i];
            let suite = world(JobAction::FetchSuite(job.test_suite))->SuiteReady_0;
            match world(action) {
                JobEvent::Cancelled => action is FetchSuite && error == JobExecErr::Cancelled,
                JobEvent::Failed(e) => {
                    &&& error == e
                    &&& action is FetchSuite || action is CloneRepo || action is FindRoot
                        || action is BuildSuite || action is RunSuite
                },
                JobEvent::IoFailed(e) => action is ReadJudgeFile && error == JobExecErr::Io(e),
                JobEvent::TomlFailed(e) => action is ReadJudgeFile && error == JobExecErr::TomlDes(
                    e,
                ),
                JobEvent::JudgeFile(file) => {
                    &&& action is ReadJudgeFile
                    &&& !file.jobs@.contains_key(suite.name@)
                    &&& error == JobExecErr::NoSuchConfig(suite.name)
                },
                JobEvent::SendFailed(e) => {
                    &&& action is Report
                    &&& e.io is None ==> error == JobExecErr::Ws(e)
                    &&& e.io matches Some(cause) ==> error == JobExecErr::Io(cause)
                },
                _ => false,
            }
        }),
    ensures
        ({
            let all = run(
                JobRun {
                    job_id: job.id,
                    folders,
                    upload_endpoint,
                    access_token,
                    step: JobStep::FetchSuite { job },
                },
                JobAction::FetchSuite(job.test_suite),
                world,
            );
            &&& all.len() == i + 2
            &&& all[i + 1] == JobAction::<PublicConfigView<B, R>, I, T>::Return(Err(error))
        }),
{
    let upload = ResultUploadConfig { endpoint: upload_endpoint, access_token, job_id: job.id };
    let p = plan(job, folders, upload, world);
    let f = fails(job, world);
    let done = carried_out(p, f);
    let all = whole_job(job, folders, upload, world);
    law_whole_job(job, folders, upload_endpoint, access_token, world);
    lemma_prefix(p, f);
    assert(i < done.len());
    assert(all[i] == done[i] && done[i] == p[i]);
    assert(f(p[i]) == Some(error));
    assert(done.len() == i + 1) by {
        if i < done.len() - 1 {
            assert(f(done[i]) is None);
        }
    }
    lemma_last_fails(p, f, i);
}

/// Nothing but an error ends a job early: whatever goes well is followed by the next
/// action of the job.
pub proof fn law_goes_on<B, R, I, T>(
    job: Job,
    folders: JobFolders,
    upload_endpoint: String,
    access_token: Option<String>,
    world: spec_fn(JobAction<PublicConfigView<B, R>, I, T>) -> JobEvent<PublicConfigView<B, R>, I, T>,
    i: int,
)
    requires
        is_world(world),
        0 <= i < run(
            JobRun {
                job_id: job.id,
                folders,
                upload_endpoint,
                access_token,
                step: JobStep::FetchSuite { job },
            },
            JobAction::FetchSuite(job.test_suite),
            world,
        ).len() - 1,
        ({
            let action = run(
                JobRun {
                    job_id: job.id,
                    folders,
                    upload_endpoint,
                    access_token,
                    step: JobStep::FetchSuite { job },
                },
                JobAction::FetchSuite(job.test_suite),
                world,
            )[i];
            let suite = world(JobAction::FetchSuite(job.test_suite))->SuiteReady_0;
            match world(action) {
                JobEvent::Failed(_) => action is ClearJobDir,
                JobEvent::JudgeFile(file) => file.jobs@.contains_key(suite.name@),
                JobEvent::Cancelled => false,
                JobEvent::IoFailed(_) => false,
                JobEvent::TomlFailed(_) => false,
                JobEvent::SendFailed(_) => false,
                _ => true,
            }
        }),
    ensures
        ({
            let all = run(
                JobRun {
                    job_id: job.id,
                    folders,
                    upload_endpoint,
                    access_token,
                    step: JobStep::FetchSuite { job },
                },
                JobAction::FetchSuite(job.test_suite),
                world,
            );
            all[i + 1] is Return ==> i == 13 && all[i + 1]->Return_0 is Ok
        }),
{
    let upload = ResultUploadConfig { endpoint: upload_endpoint, access_token, job_id: job.id };
    let p = plan(job, folders, upload, world);
    let f = fails(job, world);
    let done = carried_out(p, f);
    let all = whole_job(job, folders, upload, world);
    law_whole_job(job, folders, upload_endpoint, access_token, world);
    lemma_prefix(p, f);
    assert(i < done.len());
    assert(all[i] == done[i] && done[i] == p[i]);
    assert(f(p[i]) is None);
    if i + 1 < done.len() {
        assert(all[i + 1] == done[i + 1] && done[i + 1] == p[i + 1]);
    } else {
        if first_error(p, f) is Some {
            lemma_last_of_failed(p, f);
        }
    }
}

/// An event and what it says are the same event; of a suite's configuration, what it
/// says is kept.
pub proof fn law_event_says<B, R, I, T>(event: JobEvent<JudgerPublicConfig<B, R>, I, T>)
    ensures
        match event {
            JobEvent::Done => event@ is Done,
            JobEvent::Failed(e) => event@ == JobEvent::<PublicConfigView<B, R>, I, T>::Failed(e),
            JobEvent::IoFailed(e) => event@ == JobEvent::<PublicConfigView<B, R>, I, T>::IoFailed(e),
            JobEvent::SendFailed(e) => event@ == JobEvent::<PublicConfigView<B, R>, I, T>::SendFailed(e),
            JobEvent::TomlFailed(e) => event@ == JobEvent::<PublicConfigView<B, R>, I, T>::TomlFailed(e),
            JobEvent::Cancelled => event@ is Cancelled,
            JobEvent::SuiteReady(config) => event@ == JobEvent::<PublicConfigView<B, R>, I, T>::SuiteReady(config@),
            JobEvent::Root(root) => event@ == JobEvent::<PublicConfigView<B, R>, I, T>::Root(root),
            JobEvent::JudgeFile(file) => event@ == JobEvent::<PublicConfigView<B, R>, I, T>::JudgeFile(file),
            JobEvent::Joined(path) => event@ == JobEvent::<PublicConfigView<B, R>, I, T>::Joined(path),
            JobEvent::Ran(results) => event@ == JobEvent::<PublicConfigView<B, R>, I, T>::Ran(results),
        },
{
}

/// An action and what it says are the same action with the same operands; of a suite's
/// configuration, what it says is kept.
pub proof fn law_action_says<B, R, I, T>(action: JobAction<JudgerPublicConfig<B, R>, I, T>)
    ensures
        match action {
            JobAction::FetchSuite(id) => action@ == JobAction::<PublicConfigView<B, R>, I, T>::FetchSuite(id),
            JobAction::Report(msg) => action@ == JobAction::<PublicConfigView<B, R>, I, T>::Report(msg),
            JobAction::ClearJobDir(dir) => action@ == JobAction::<PublicConfigView<B, R>, I, T>::ClearJobDir(dir),
            JobAction::CloneRepo { dir, options } => action@ == (
            JobAction::<PublicConfigView<B, R>, I, T>::CloneRepo { dir, options }),
            JobAction::FindRoot(dir) => action@ == JobAction::<PublicConfigView<B, R>, I, T>::FindRoot(dir),
            JobAction::ReadJudgeFile { root } => action@ == (
            JobAction::<PublicConfigView<B, R>, I, T>::ReadJudgeFile { root }),
            JobAction::JoinPath { base, path } => action@ == (
            JobAction::<PublicConfigView<B, R>, I, T>::JoinPath { base, path }),
            JobAction::BuildSuite { suite_root, setup } => {
                &&& action@ is BuildSuite
                &&& action@->suite_root == suite_root
                &&& action@->setup.image == setup.image
                &&& action@->setup.private_cfg == setup.private_cfg
                &&& action@->setup.public_cfg == setup.public_cfg@
                &&& action@->setup.options == setup.options
            },
            JobAction::ForwardResults(id) => action@ == JobAction::<PublicConfigView<B, R>, I, T>::ForwardResults(id),
            JobAction::ForwardOutput(id) => action@ == JobAction::<PublicConfigView<B, R>, I, T>::ForwardOutput(id),
            JobAction::RunSuite { root, upload } => action@ == (
            JobAction::<PublicConfigView<B, R>, I, T>::RunSuite { root, upload }),
            JobAction::AwaitOutput => action@ is AwaitOutput,
            JobAction::AwaitResults => action@ is AwaitResults,
            JobAction::Return(result) => action@ == JobAction::<PublicConfigView<B, R>, I, T>::Return(result),
        },
{
}

/// What can come back of each action, and nothing else, can be told to a job that has
/// named it.
pub proof fn law_answers<K, I, T>(job_run: JobRun<K, I, T>, event: JobEvent<K, I, T>)
    ensures
        job_run.awaits(event) <==> match job_run.step {
            JobStep::FetchSuite { .. } => event is SuiteReady || event is Failed
                || event is Cancelled,
            JobStep::ReportFetching { .. } | JobStep::ReportRunning { .. } => event is Done
                || event is SendFailed,
            JobStep::ClearJobDir { .. }
            | JobStep::CloneRepo { .. }
            | JobStep::BuildSuite { .. } => event is Done || event is Failed,
            JobStep::FindRoot { .. } => event is Root || event is Failed,
            JobStep::ReadJudgeFile { .. } => event is JudgeFile || event is IoFailed
                || event is TomlFailed,
            JobStep::JoinPath { .. } => event is Joined,
            JobStep::RunSuite => event is Ran || event is Failed,
            JobStep::ForwardResults { .. }
            | JobStep::ForwardOutput { .. }
            | JobStep::AwaitOutput { .. }
            | JobStep::AwaitResults { .. } => event is Done,
            JobStep::Finished => false,
        },
{
}

/// A job is begun under its own identifier, with what it was given, and with nothing
/// learned.
pub proof fn law_begun<K, I, T>(
    job: Job,
    folders: JobFolders,
    upload_endpoint: String,
    access_token: Option<String>,
)
    ensures
        begun::<K, I, T>(job, folders, upload_endpoint, access_token) == (JobRun::<K, I, T> {
            job_id: job.id,
            folders,
            upload_endpoint,
            access_token,
            step: JobStep::FetchSuite { job },
        }),
{
}

} // verus!
