//! What a whole fetch of a test suite does, from the first action to the last.

use crate::client::error::{IoError, IoErrorKind, JobExecErr};
use crate::client::model::{HttpMethod, HttpRequest, TestSuite};
use crate::client::plan::{carried_out, first_error, lemma_prefix};
use crate::client::suite::{
    SuiteAction, SuiteEvent, SuiteFetch, SuiteSources, SuiteStep, TEST_CONF_FILE, download_of,
    info_request, is_up_to_date, same_package,
};
use vstd::prelude::*;

verus! {

/// Whether `event` is a way in which `action` can go.
pub open spec fn fits<C, X>(action: SuiteAction<C, X>, event: SuiteEvent<C, X>) -> bool {
    match action {
        SuiteAction::MakeRoot(_) => event is Done || event is IoFailed,
        SuiteAction::Lock(_) => event is Locked,
        SuiteAction::FetchInfo(_) => event is Info || event is RequestFailed,
        SuiteAction::MakeDir(_) => event is Done || event is IoFailed,
        SuiteAction::ReadLockfile(_) => event is Lockfile || event is IoFailed,
        SuiteAction::RemoveStale(_) => event is Done || event is Failed,
        SuiteAction::MakeTempRoot(_) => event is Done || event is IoFailed,
        SuiteAction::Download { .. } => event is Done || event is Failed,
        SuiteAction::WriteLockfile { .. } => event is Done || event is JsonFailed
            || event is IoFailed,
        SuiteAction::CleanUp(_) => event is Done || event is Failed,
        SuiteAction::Unlock { .. } => event is Done,
        SuiteAction::JoinPath { .. } => event is Joined,
        SuiteAction::ReadConfig(_) => event is Config || event is IoFailed || event is JsonFailed,
        SuiteAction::Return(_) => true,
    }
}

/// The outside world of one fetch: how each action goes when it is performed.
pub open spec fn is_world<C, X>(world: spec_fn(SuiteAction<C, X>) -> SuiteEvent<C, X>) -> bool {
    forall|action: SuiteAction<C, X>| fits(action, #[trigger] world(action))
}

/// The actions that a fetch performs from here on, in order.
pub open spec fn run<C, X>(
    fetch: SuiteFetch<X>,
    action: SuiteAction<C, X>,
    world: spec_fn(SuiteAction<C, X>) -> SuiteEvent<C, X>,
) -> Seq<SuiteAction<C, X>>
    decreases fetch.rank(),
{
    if action is Return || !fetch.awaits(world(action)) {
        seq![action]
    } else {
        let (rest, then_action) = fetch.after(world(action));
        seq![action] + run(rest, then_action, world)
    }
}

/// A fetch before its first step.
pub open spec fn begun<X>(sources: SuiteSources) -> SuiteFetch<X> {
    SuiteFetch { sources, handle: false, step: SuiteStep::MakeRoot }
}

/// The error with which `event` ends the work on the suite's folder, where it does.
pub open spec fn failure<C, X>(action: SuiteAction<C, X>, event: SuiteEvent<C, X>) -> Option<
    JobExecErr,
> {
    match event {
        SuiteEvent::IoFailed(e) => if (action is MakeDir && e.kind == IoErrorKind::AlreadyExists)
            || (action is ReadLockfile && e.kind == IoErrorKind::NotFound) {
            None
        } else {
            Some(JobExecErr::Io(e))
        },
        SuiteEvent::RequestFailed(e) => Some(JobExecErr::Request(e)),
        SuiteEvent::JsonFailed(e) => Some(JobExecErr::Json(e)),
        SuiteEvent::Failed(e) => Some(e),
        _ => None,
    }
}

/// Which actions fail in this world, and how.
pub open spec fn fails<C, X>(
    world: spec_fn(SuiteAction<C, X>) -> SuiteEvent<C, X>,
) -> spec_fn(SuiteAction<C, X>) -> Option<JobExecErr> {
    |action: SuiteAction<C, X>| failure(action, world(action))
}

/// What the coordinator knows of the suite in this world.
pub open spec fn info_of<C, X>(
    sources: SuiteSources,
    world: spec_fn(SuiteAction<C, X>) -> SuiteEvent<C, X>,
) -> TestSuite<X> {
    world(SuiteAction::FetchInfo(info_request(sources)))->Info_0
}

/// Whether the lock of the suite comes with a handle in this world.
pub open spec fn handle_of<C, X>(
    sources: SuiteSources,
    world: spec_fn(SuiteAction<C, X>) -> SuiteEvent<C, X>,
) -> bool {
    world(SuiteAction::Lock(sources.suite_id))->handle
}

/// Whether the suite's folder is there before the fetch.
pub open spec fn dir_exists<C, X>(
    sources: SuiteSources,
    world: spec_fn(SuiteAction<C, X>) -> SuiteEvent<C, X>,
) -> bool {
    world(SuiteAction::MakeDir(sources.folder)) is IoFailed
}

/// Whether the suite's lockfile names the package that the coordinator names.
pub open spec fn up_to_date<C, X>(
    sources: SuiteSources,
    world: spec_fn(SuiteAction<C, X>) -> SuiteEvent<C, X>,
) -> bool {
    match world(SuiteAction::ReadLockfile(sources.lockfile)) {
        SuiteEvent::Lockfile(locked) => is_up_to_date(locked, info_of(sources, world)),
        _ => false,
    }
}

/// What it takes to see whether the suite is up to date.
pub open spec fn look_plan<C, X>(sources: SuiteSources) -> Seq<SuiteAction<C, X>> {
    seq![
        SuiteAction::FetchInfo(info_request(sources)),
        SuiteAction::MakeDir(sources.folder),
        SuiteAction::ReadLockfile(sources.lockfile),
    ]
}

/// What it takes to download the suite.
pub open spec fn download_plan<C, X>(sources: SuiteSources) -> Seq<SuiteAction<C, X>> {
    seq![
        SuiteAction::RemoveStale(sources.folder),
        SuiteAction::MakeTempRoot(sources.temp_root),
        download_of(sources),
    ]
}

/// What it takes to bring the lockfile up to date.
pub open spec fn lockfile_plan<C, X>(
    sources: SuiteSources,
    info: TestSuite<X>,
    up_to_date: bool,
) -> Seq<SuiteAction<C, X>> {
    if up_to_date {
        Seq::empty()
    } else {
        seq![SuiteAction::WriteLockfile { lockfile: sources.lockfile, info }]
    }
}

/// What it takes to bring the suite up to date: look at what is there; download
/// unless the folder is there and up to date; write the lockfile last, unless it
/// is up to date.
pub open spec fn plan<C, X>(
    sources: SuiteSources,
    world: spec_fn(SuiteAction<C, X>) -> SuiteEvent<C, X>,
) -> Seq<SuiteAction<C, X>> {
    look_plan(sources) + (if dir_exists(sources, world) && up_to_date(sources, world) {
        Seq::empty()
    } else {
        download_plan(sources)
    }) + lockfile_plan(sources, info_of(sources, world), up_to_date(sources, world))
}

/// The path of the suite's configuration in this world, and how it reads: its folder
/// joined with [`TEST_CONF_FILE`].
pub open spec fn config_path<C, X>(
    sources: SuiteSources,
    world: spec_fn(SuiteAction<C, X>) -> SuiteEvent<C, X>,
) -> SuiteEvent<C, X> {
    world(SuiteAction::JoinPath { base: sources.folder, path: TEST_CONF_FILE })
}

/// How reading the suite's configuration goes in this world.
pub open spec fn config_read<C, X>(
    sources: SuiteSources,
    world: spec_fn(SuiteAction<C, X>) -> SuiteEvent<C, X>,
) -> SuiteEvent<C, X> {
    world(SuiteAction::ReadConfig(config_path(sources, world)->path))
}

/// What a fetch returns after reading the suite's configuration: the configuration, or
/// an error, which names the path where there is no such file.
pub open spec fn config_result<C, X>(
    sources: SuiteSources,
    world: spec_fn(SuiteAction<C, X>) -> SuiteEvent<C, X>,
) -> Result<C, JobExecErr> {
    match config_read(sources, world) {
        SuiteEvent::Config(config) => Ok(config),
        SuiteEvent::JsonFailed(e) => Err(JobExecErr::Json(e)),
        SuiteEvent::IoFailed(e) => if e.kind == IoErrorKind::NotFound {
            Err(JobExecErr::NoSuchFile(config_path(sources, world)->text))
        } else {
            Err(JobExecErr::Io(e))
        },
        _ => arbitrary(),
    }
}

/// What follows the plan: after an error the folder is removed and the error
/// returned; otherwise the suite is unlocked and its configuration read.
pub open spec fn closing<C, X>(
    sources: SuiteSources,
    error: Option<JobExecErr>,
    world: spec_fn(SuiteAction<C, X>) -> SuiteEvent<C, X>,
) -> Seq<SuiteAction<C, X>> {
    match error {
        Some(e) => seq![SuiteAction::CleanUp(sources.folder), SuiteAction::Return(Err(e))],
        None => seq![
            SuiteAction::Unlock {
                suite_id: sources.suite_id,
                cancel_handle: handle_of(sources, world),
            },
            SuiteAction::JoinPath { base: sources.folder, path: TEST_CONF_FILE },
            SuiteAction::ReadConfig(config_path(sources, world)->path),
            SuiteAction::Return(config_result(sources, world)),
        ],
    }
}

/// Everything that a fetch does in this world.
pub open spec fn whole_fetch<C, X>(
    sources: SuiteSources,
    world: spec_fn(SuiteAction<C, X>) -> SuiteEvent<C, X>,
) -> Seq<SuiteAction<C, X>> {
    match world(SuiteAction::MakeRoot(sources.root)) {
        SuiteEvent::IoFailed(e) => seq![
            SuiteAction::MakeRoot(sources.root),
            SuiteAction::Return(Err(JobExecErr::Io(e))),
        ],
        _ => seq![SuiteAction::MakeRoot(sources.root), SuiteAction::Lock(sources.suite_id)]
            + carried_out(plan(sources, world), fails(world)) + closing(
            sources,
            first_error(plan(sources, world), fails(world)),
            world,
        ),
    }
}

/// Whether the access token is there when the fetch comes to need it.
pub open spec fn has_token_if_needed<C, X>(
    sources: SuiteSources,
    world: spec_fn(SuiteAction<C, X>) -> SuiteEvent<C, X>,
) -> bool {
    carried_out(plan(sources, world), fails(world)).contains(download_of(sources))
        ==> sources.access_token is Some
}

/// The rest of a plan and what follows it.
spec fn rest_of<C, X>(
    sources: SuiteSources,
    plan: Seq<SuiteAction<C, X>>,
    world: spec_fn(SuiteAction<C, X>) -> SuiteEvent<C, X>,
) -> Seq<SuiteAction<C, X>> {
    carried_out(plan, fails(world)) + closing(sources, first_error(plan, fails(world)), world)
}

proof fn lemma_closing<C, X>(
    fetch: SuiteFetch<X>,
    world: spec_fn(SuiteAction<C, X>) -> SuiteEvent<C, X>,
)
    requires
        is_world(world),
        fetch.handle == handle_of(fetch.sources, world),
    ensures
        run(fetch.settled::<C>().0, fetch.settled::<C>().1, world) == closing(
            fetch.sources,
            None,
            world,
        ),
        forall|e: JobExecErr|
            #![trigger fetch.abandoned::<C>(e)]
            run(fetch.abandoned::<C>(e).0, fetch.abandoned::<C>(e).1, world) == closing(
                fetch.sources,
                Some(e),
                world,
            ),
{
    reveal_with_fuel(run, 4);
    let path = config_path(fetch.sources, world);
    assert(fits(
        SuiteAction::<C, X>::JoinPath { base: fetch.sources.folder, path: TEST_CONF_FILE },
        path,
    ));
    assert(run(fetch.settled::<C>().0, fetch.settled::<C>().1, world) =~= closing(
        fetch.sources,
        None,
        world,
    ));
    assert forall|e: JobExecErr|
        #![trigger fetch.abandoned::<C>(e)]
        run(fetch.abandoned::<C>(e).0, fetch.abandoned::<C>(e).1, world) == closing(
            fetch.sources,
            Some(e),
            world,
        ) by {
        assert(run(fetch.abandoned::<C>(e).0, fetch.abandoned::<C>(e).1, world) =~= closing(
            fetch.sources,
            Some(e),
            world,
        ));
    }
}

/// One action of a plan: it is performed, and either fails or leads to the rest.
proof fn lemma_one<C, X>(
    fetch: SuiteFetch<X>,
    remaining: Seq<SuiteAction<C, X>>,
    world: spec_fn(SuiteAction<C, X>) -> SuiteEvent<C, X>,
)
    requires
        is_world(world),
        fetch.handle == handle_of(fetch.sources, world),
        remaining.len() > 0,
        !(remaining[0] is Return),
        fetch.awaits(world(remaining[0])),
        match failure(remaining[0], world(remaining[0])) {
            Some(e) => fetch.after(world(remaining[0])) == fetch.abandoned::<C>(e),
            None => {
                let (next, action) = fetch.after(world(remaining[0]));
                run(next, action, world) == rest_of(fetch.sources, remaining.drop_first(), world)
            },
        },
    ensures
        run(fetch, remaining[0], world) == rest_of(fetch.sources, remaining, world),
{
    lemma_closing(fetch, world);
    assert(run(fetch, remaining[0], world) =~= rest_of(fetch.sources, remaining, world));
}

proof fn lemma_lockfile<C, X>(
    fetch: SuiteFetch<X>,
    info: TestSuite<X>,
    fresh: bool,
    world: spec_fn(SuiteAction<C, X>) -> SuiteEvent<C, X>,
)
    requires
        is_world(world),
        fetch.handle == handle_of(fetch.sources, world),
        fetch.step == (SuiteStep::Download { info, up_to_date: fresh }),
    ensures
        ({
            let (next, action) = fetch.after(SuiteEvent::<C, X>::Done);
            run(next, action, world) == rest_of(
                fetch.sources,
                lockfile_plan(fetch.sources, info, fresh),
                world,
            )
        }),
{
    lemma_closing(fetch, world);
    let remaining = lockfile_plan::<C, X>(fetch.sources, info, fresh);
    if fresh {
        assert(rest_of(fetch.sources, remaining, world) =~= closing(fetch.sources, None, world));
    } else {
        let writing = fetch.at(SuiteStep::WriteLockfile);
        let nothing = Seq::<SuiteAction<C, X>>::empty();
        lemma_closing(writing, world);
        assert(remaining.drop_first() =~= nothing);
        assert(rest_of(fetch.sources, nothing, world) =~= closing(fetch.sources, None, world));
        lemma_one(writing, remaining, world);
    }
}

proof fn lemma_download<C, X>(
    fetch: SuiteFetch<X>,
    info: TestSuite<X>,
    fresh: bool,
    world: spec_fn(SuiteAction<C, X>) -> SuiteEvent<C, X>,
)
    requires
        is_world(world),
        fetch.handle == handle_of(fetch.sources, world),
        fetch.step == (SuiteStep::RemoveStale { info, up_to_date: fresh }),
        world(SuiteAction::RemoveStale(fetch.sources.folder)) is Done && world(
            SuiteAction::MakeTempRoot(fetch.sources.temp_root),
        ) is Done ==> fetch.sources.access_token is Some,
    ensures
        run(fetch, SuiteAction::RemoveStale(fetch.sources.folder), world) == rest_of(
            fetch.sources,
            download_plan(fetch.sources) + lockfile_plan(fetch.sources, info, fresh),
            world,
        ),
{
    let sources = fetch.sources;
    let all = download_plan::<C, X>(sources) + lockfile_plan(sources, info, fresh);
    let from_temp = all.drop_first();
    let from_download = from_temp.drop_first();
    if world(SuiteAction::RemoveStale(sources.folder)) is Done {
        if world(SuiteAction::MakeTempRoot(sources.temp_root)) is Done {
            let downloading = fetch.at(SuiteStep::Download { info, up_to_date: fresh });
            assert(from_download.drop_first() =~= lockfile_plan(sources, info, fresh));
            lemma_lockfile(downloading, info, fresh, world);
            lemma_one(downloading, from_download, world);
        }
        lemma_one(fetch.at(SuiteStep::MakeTempRoot { info, up_to_date: fresh }), from_temp, world);
    }
    lemma_one(fetch, all, world);
}

proof fn lemma_download_reached<C, X>(
    sources: SuiteSources,
    world: spec_fn(SuiteAction<C, X>) -> SuiteEvent<C, X>,
)
    requires
        is_world(world),
        !(dir_exists(sources, world) && up_to_date(sources, world)),
        forall|i: int| 0 <= i < 5 ==> fails(world)(#[trigger] plan(sources, world)[i]) is None,
    ensures
        carried_out(plan(sources, world), fails(world)).contains(download_of(sources)),
{
    let p0 = plan(sources, world);
    let p1 = p0.drop_first();
    let p2 = p1.drop_first();
    let p3 = p2.drop_first();
    let p4 = p3.drop_first();
    let p5 = p4.drop_first();
    let f = fails(world);
    assert(p0[5] == download_of::<C, X>(sources));
    assert(f(p0[4]) is None && f(p0[3]) is None && f(p0[2]) is None && f(p0[1]) is None && f(
        p0[0],
    ) is None);
    assert(carried_out(p5, f)[0] == p0[5]);
    assert(carried_out(p4, f)[1] == p0[5]);
    assert(carried_out(p3, f)[2] == p0[5]);
    assert(carried_out(p2, f)[3] == p0[5]);
    assert(carried_out(p1, f)[4] == p0[5]);
    assert(carried_out(p0, f)[5] == p0[5]);
}

proof fn lemma_opening<C, X>(
    sources: SuiteSources,
    world: spec_fn(SuiteAction<C, X>) -> SuiteEvent<C, X>,
)
    requires
        is_world(world),
        run(
            SuiteFetch {
                sources,
                handle: handle_of(sources, world),
                step: SuiteStep::FetchInfo,
            },
            SuiteAction::FetchInfo(info_request(sources)),
            world,
        ) == rest_of(sources, plan(sources, world), world),
    ensures
        run(begun(sources), SuiteAction::MakeRoot(sources.root), world) == whole_fetch(
            sources,
            world,
        ),
{
    reveal_with_fuel(run, 2);
    assert(fits(
        SuiteAction::<C, X>::Lock(sources.suite_id),
        world(SuiteAction::Lock(sources.suite_id)),
    ));
    assert(run(begun(sources), SuiteAction::MakeRoot(sources.root), world) =~= whole_fetch(
        sources,
        world,
    ));
}

/// A fetch performs exactly the actions of [`whole_fetch`], in that order, whatever
/// the outside world does.
pub proof fn law_whole_fetch<C, X>(
    sources: SuiteSources,
    world: spec_fn(SuiteAction<C, X>) -> SuiteEvent<C, X>,
)
    requires
        is_world(world),
        has_token_if_needed(sources, world),
    ensures
        run(begun(sources), SuiteAction::MakeRoot(sources.root), world) == whole_fetch(
            sources,
            world,
        ),
{
    let all = plan(sources, world);
    let from_dir = all.drop_first();
    let from_lockfile = from_dir.drop_first();
    let info = info_of(sources, world);
    let fresh = up_to_date(sources, world);
    let there = dir_exists(sources, world);
    let base = SuiteFetch {
        sources,
        handle: handle_of(sources, world),
        step: SuiteStep::FetchInfo,
    };
    if fails(world)(all[0]) is None {
        if fails(world)(all[1]) is None {
            if fails(world)(all[2]) is None {
                lemma_closing(base, world);
                if there && fresh {
                    let nothing = Seq::<SuiteAction<C, X>>::empty();
                    assert(from_lockfile.drop_first() =~= nothing);
                    assert(rest_of(sources, nothing, world) =~= closing(sources, None, world));
                } else {
                    assert(from_lockfile.drop_first() =~= download_plan(sources) + lockfile_plan(
                        sources,
                        info,
                        fresh,
                    ));
                    if world(all[3]) is Done && world(all[4]) is Done {
                        lemma_download_reached(sources, world);
                    }
                    lemma_download(
                        base.at(SuiteStep::RemoveStale { info, up_to_date: fresh }),
                        info,
                        fresh,
                        world,
                    );
                }
            }
            lemma_one(
                base.at(SuiteStep::ReadLockfile { info, dir_exists: there }),
                from_lockfile,
                world,
            );
        }
        lemma_one(base.at(SuiteStep::MakeDir { info }), from_dir, world);
    }
    lemma_one(base, all, world);
    lemma_opening(sources, world);
}

/// Where an action of a plan stands in a whole fetch.
proof fn lemma_placed<C, X>(
    sources: SuiteSources,
    world: spec_fn(SuiteAction<C, X>) -> SuiteEvent<C, X>,
    i: int,
)
    requires
        is_world(world),
        0 <= i < whole_fetch(sources, world).len(),
        ({
            let action = whole_fetch(sources, world)[i];
            action is RemoveStale || action is Download || action is WriteLockfile
        }),
    ensures
        !(world(SuiteAction::MakeRoot(sources.root)) is IoFailed),
        2 <= i < 2 + carried_out(plan(sources, world), fails(world)).len(),
        i < 2 + plan(sources, world).len(),
        whole_fetch(sources, world)[i] == plan(sources, world)[i - 2],
        whole_fetch(sources, world)[i] == carried_out(plan(sources, world), fails(world))[i - 2],
{
    lemma_prefix(plan(sources, world), fails(world));
}

/// The suite is downloaded only where its folder is missing or its lockfile is
/// out of date, and its stale folder is removed only there.
pub proof fn law_download_only_if_needed<C, X>(
    sources: SuiteSources,
    world: spec_fn(SuiteAction<C, X>) -> SuiteEvent<C, X>,
    i: int,
)
    requires
        is_world(world),
        0 <= i < whole_fetch(sources, world).len(),
        whole_fetch(sources, world)[i] is Download || whole_fetch(sources, world)[i] is RemoveStale,
    ensures
        !dir_exists(sources, world) || !up_to_date(sources, world),
{
    lemma_placed(sources, world, i);
}

/// The lockfile is written only after the package has been downloaded into the suite's
/// folder without a failure, and it then names the package that the coordinator names.
pub proof fn law_lockfile_after_download<C, X>(
    sources: SuiteSources,
    world: spec_fn(SuiteAction<C, X>) -> SuiteEvent<C, X>,
    i: int,
)
    requires
        is_world(world),
        0 <= i < whole_fetch(sources, world).len(),
        whole_fetch(sources, world)[i] is WriteLockfile,
    ensures
        whole_fetch(sources, world)[i] == (SuiteAction::<C, X>::WriteLockfile {
            lockfile: sources.lockfile,
            info: info_of(sources, world),
        }),
        i > 0,
        whole_fetch(sources, world)[i - 1] == download_of::<C, X>(sources),
        world(whole_fetch(sources, world)[i - 1]) is Done,
{
    let all = plan(sources, world);
    lemma_placed(sources, world, i);
    lemma_prefix(all, fails(world));
    let done = carried_out(all, fails(world));
    assert(i - 2 == 6);
    assert(done[5] == all[5]);
    assert(whole_fetch(sources, world)[i - 1] == done[5]);
    assert(fails(world)(done[5]) is None);
    assert(fits(done[5], world(done[5])));
}

/// Whether a fetch brings the suite up to date in this world: it gets as far as to
/// unlock it.
pub open spec fn brings_up_to_date<C, X>(
    sources: SuiteSources,
    world: spec_fn(SuiteAction<C, X>) -> SuiteEvent<C, X>,
) -> bool {
    &&& !(world(SuiteAction::MakeRoot(sources.root)) is IoFailed)
    &&& first_error(plan(sources, world), fails(world)) is None
}

/// What the lockfile holds after a fetch that brought the suite up to date: what it
/// held before, if that was up to date, and otherwise what was written to it.
pub open spec fn lockfile_after<C, X>(
    sources: SuiteSources,
    world: spec_fn(SuiteAction<C, X>) -> SuiteEvent<C, X>,
) -> TestSuite<X> {
    if up_to_date(sources, world) {
        (world(SuiteAction::ReadLockfile(sources.lockfile))->Lockfile_0)->0
    } else {
        info_of(sources, world)
    }
}

/// Whether `later` is a world in which the suite is as a fetch in the world `earlier`
/// left it: its folder is there with a lockfile that names the same package and with
/// the same configuration, and the coordinator names no newer package. Asking the
/// coordinator and looking at the folder go well.
pub open spec fn left_as_it_was<C, X>(
    sources: SuiteSources,
    earlier: spec_fn(SuiteAction<C, X>) -> SuiteEvent<C, X>,
    later_sources: SuiteSources,
    later: spec_fn(SuiteAction<C, X>) -> SuiteEvent<C, X>,
) -> bool {
    &&& later(SuiteAction::MakeRoot(later_sources.root)) is Done
    &&& later(SuiteAction::FetchInfo(info_request(later_sources))) matches SuiteEvent::Info(info)
        && same_package(info, info_of(sources, earlier))
    &&& later(SuiteAction::MakeDir(later_sources.folder)) matches SuiteEvent::IoFailed(e) && e.kind
        == IoErrorKind::AlreadyExists
    &&& later(SuiteAction::ReadLockfile(later_sources.lockfile)) matches SuiteEvent::Lockfile(
        Some(locked),
    ) && same_package(locked, lockfile_after(sources, earlier))
    &&& config_path(later_sources, later) == config_path(sources, earlier)
    &&& config_read(later_sources, later) == config_read(sources, earlier)
}

/// A fetch that follows one which brought the suite up to date, whether by a download
/// or because there was nothing to do, neither downloads anything nor touches the
/// folder or the lockfile, needs no access token, and returns what the first one
/// returned, as long as the suite is as the first one left it.
pub proof fn law_fetched_once<C, X>(
    sources: SuiteSources,
    first: spec_fn(SuiteAction<C, X>) -> SuiteEvent<C, X>,
    later_sources: SuiteSources,
    second: spec_fn(SuiteAction<C, X>) -> SuiteEvent<C, X>,
)
    requires
        is_world(first),
        is_world(second),
        brings_up_to_date(sources, first),
        left_as_it_was(sources, first, later_sources, second),
    ensures
        run(begun(later_sources), SuiteAction::MakeRoot(later_sources.root), second) == seq![
            SuiteAction::MakeRoot(later_sources.root),
            SuiteAction::Lock(later_sources.suite_id),
            SuiteAction::FetchInfo(info_request(later_sources)),
            SuiteAction::MakeDir(later_sources.folder),
            SuiteAction::ReadLockfile(later_sources.lockfile),
            SuiteAction::Unlock {
                suite_id: later_sources.suite_id,
                cancel_handle: handle_of(later_sources, second),
            },
            SuiteAction::JoinPath { base: later_sources.folder, path: TEST_CONF_FILE },
            SuiteAction::ReadConfig(config_path(sources, first)->path),
            whole_fetch(sources, first).last(),
        ],
{
    let p0 = plan(later_sources, second);
    let f = fails(second);
    assert(up_to_date(later_sources, second));
    assert(p0 =~= look_plan(later_sources));
    assert(f(p0[0]) is None && f(p0[1]) is None && f(p0[2]) is None);
    lemma_prefix(p0, f);
    law_whole_fetch(later_sources, second);
    assert(whole_fetch(sources, first).last() == SuiteAction::<C, X>::Return(
        config_result(later_sources, second),
    ));
    assert(whole_fetch(later_sources, second) =~= seq![
        SuiteAction::MakeRoot(later_sources.root),
        SuiteAction::Lock(later_sources.suite_id),
    ] + look_plan(later_sources) + closing(later_sources, None, second));
    assert(look_plan::<C, X>(later_sources).len() == 3);
}

/// A fetch ends in exactly one `Return`. Once the suite is locked, either the work
/// on its folder fails, and then the folder is removed and that error is returned; or
/// it does not, and then the suite is unlocked, its folder kept and its configuration
/// read.
pub proof fn law_failure_cleans_up<C, X>(
    sources: SuiteSources,
    world: spec_fn(SuiteAction<C, X>) -> SuiteEvent<C, X>,
)
    requires
        is_world(world),
        !(world(SuiteAction::MakeRoot(sources.root)) is IoFailed),
    ensures
        ({
            let all = whole_fetch(sources, world);
            let error = first_error(plan(sources, world), fails(world));
            &&& all.len() > 2
            &&& forall|i: int|
                0 <= i < all.len() ==> ((#[trigger] all[i]) is Return <==> i == all.len() - 1)
            &&& forall|i: int|
                0 <= i < all.len() ==> ((#[trigger] all[i]) is CleanUp ==> error is Some)
            &&& match error {
                Some(e) => {
                    &&& all.last() == SuiteAction::<C, X>::Return(Err(e))
                    &&& all[all.len() - 2] == SuiteAction::<C, X>::CleanUp(sources.folder)
                },
                None => {
                    &&& all.last() == SuiteAction::<C, X>::Return(config_result(sources, world))
                    &&& all[all.len() - 2] == SuiteAction::<C, X>::ReadConfig(
                        config_path(sources, world)->path,
                    )
                    &&& all[all.len() - 4] == (SuiteAction::<C, X>::Unlock {
                        suite_id: sources.suite_id,
                        cancel_handle: handle_of(sources, world),
                    })
                },
            }
        }),
{
    lemma_prefix(plan(sources, world), fails(world));
    let all = whole_fetch(sources, world);
    let done = carried_out(plan(sources, world), fails(world));
    assert forall|i: int| 2 <= i < 2 + done.len() implies #[trigger] all[i] == plan(
        sources,
        world,
    )[i - 2] by {
        assert(all[i] == done[i - 2]);
    }
}

/// Whether an action looks at the suite's folder or changes it, before its
/// configuration is read, or asks what should be in it.
pub open spec fn works_on_folder<C, X>(action: SuiteAction<C, X>) -> bool {
    action is FetchInfo || action is MakeDir || action is ReadLockfile || action is RemoveStale
        || action is MakeTempRoot || action is Download || action is WriteLockfile
        || action is CleanUp
}

/// The suite is locked, once, before anything is done to bring it up to date, and
/// it is unlocked, if it is, only after that.
pub proof fn law_locked_meanwhile<C, X>(
    sources: SuiteSources,
    world: spec_fn(SuiteAction<C, X>) -> SuiteEvent<C, X>,
    i: int,
    j: int,
)
    requires
        is_world(world),
        0 <= i < whole_fetch(sources, world).len(),
        works_on_folder(whole_fetch(sources, world)[i]),
        0 <= j < whole_fetch(sources, world).len(),
    ensures
        whole_fetch(sources, world)[1] == SuiteAction::<C, X>::Lock(sources.suite_id),
        1 < i,
        whole_fetch(sources, world)[j] is Lock ==> j == 1,
        whole_fetch(sources, world)[j] is Unlock ==> i < j && whole_fetch(
            sources,
            world,
        )[j]->suite_id == sources.suite_id,
        whole_fetch(sources, world)[j] is ReadConfig ==> i < j,
{
    lemma_prefix(plan(sources, world), fails(world));
    let all = whole_fetch(sources, world);
    let done = carried_out(plan(sources, world), fails(world));
    if 2 <= j < 2 + done.len() {
        assert(all[j] == done[j - 2]);
    }
}

/// A fetch whose every action goes well, written out. The suite counts as current
/// exactly where its lockfile names, letter for letter, the package that the coordinator
/// names. It is downloaded unless its folder was there and it is current; what the
/// coordinator told is written to the lockfile unless it is current; then the suite is
/// unlocked, and what its configuration file holds is returned.
pub proof fn law_fetch_that_goes_well<C, X>(
    sources: SuiteSources,
    world: spec_fn(SuiteAction<C, X>) -> SuiteEvent<C, X>,
    info: TestSuite<X>,
    locked: Option<TestSuite<X>>,
    there: bool,
    current: bool,
    config: C,
)
    requires
        is_world(world),
        world(SuiteAction::MakeRoot(sources.root)) is Done,
        world(
            SuiteAction::FetchInfo(
                HttpRequest {
                    method: HttpMethod::Get,
                    endpoint: sources.info_endpoint,
                    authorization: None,
                },
            ),
        ) == SuiteEvent::<C, X>::Info(info),
        match world(SuiteAction::MakeDir(sources.folder)) {
            SuiteEvent::IoFailed(e) => there && e.kind == IoErrorKind::AlreadyExists,
            _ => !there,
        },
        match world(SuiteAction::ReadLockfile(sources.lockfile)) {
            SuiteEvent::IoFailed(e) => locked is None && e.kind == IoErrorKind::NotFound,
            event => event == SuiteEvent::<C, X>::Lockfile(locked),
        },
        current <==> locked is Some && locked->0.package_file_id@ == info.package_file_id@,
        !(there && current) ==> {
            &&& world(SuiteAction::RemoveStale(sources.folder)) is Done
            &&& world(SuiteAction::MakeTempRoot(sources.temp_root)) is Done
            &&& sources.access_token is Some
            &&& world(
                SuiteAction::Download {
                    request: HttpRequest {
                        method: HttpMethod::Get,
                        endpoint: sources.download_endpoint,
                        authorization: sources.access_token,
                    },
                    folder: sources.folder,
                    temp_file: sources.temp_file,
                },
            ) is Done
        },
        !current ==> world(
            SuiteAction::WriteLockfile { lockfile: sources.lockfile, info },
        ) is Done,
        world(
            SuiteAction::ReadConfig(
                world(
                    SuiteAction::JoinPath { base: sources.folder, path: TEST_CONF_FILE },
                )->path,
            ),
        ) == SuiteEvent::<C, X>::Config(config),
    ensures
        run(
            SuiteFetch { sources, handle: false, step: SuiteStep::MakeRoot },
            SuiteAction::MakeRoot(sources.root),
            world,
        ) == seq![
            SuiteAction::MakeRoot(sources.root),
            SuiteAction::Lock(sources.suite_id),
            SuiteAction::FetchInfo(
                HttpRequest {
                    method: HttpMethod::Get,
                    endpoint: sources.info_endpoint,
                    authorization: None,
                },
            ),
            SuiteAction::MakeDir(sources.folder),
            SuiteAction::ReadLockfile(sources.lockfile),
        ] + (if there && current {
            Seq::empty()
        } else {
            seq![
                SuiteAction::RemoveStale(sources.folder),
                SuiteAction::MakeTempRoot(sources.temp_root),
                SuiteAction::Download {
                    request: HttpRequest {
                        method: HttpMethod::Get,
                        endpoint: sources.download_endpoint,
                        authorization: sources.access_token,
                    },
                    folder: sources.folder,
                    temp_file: sources.temp_file,
                },
            ]
        }) + (if current {
            Seq::empty()
        } else {
            seq![SuiteAction::WriteLockfile { lockfile: sources.lockfile, info }]
        }) + seq![
            SuiteAction::Unlock {
                suite_id: sources.suite_id,
                cancel_handle: world(SuiteAction::Lock(sources.suite_id))->handle,
            },
            SuiteAction::JoinPath { base: sources.folder, path: TEST_CONF_FILE },
            SuiteAction::ReadConfig(
                world(
                    SuiteAction::JoinPath { base: sources.folder, path: TEST_CONF_FILE },
                )->path,
            ),
            SuiteAction::Return(Ok(config)),
        ],
        TEST_CONF_FILE@ == "testconf.json"@,
{
    let all = plan(sources, world);
    let f = fails(world);
    assert(up_to_date(sources, world) == current);
    assert(dir_exists(sources, world) == there);
    assert forall|i: int| 0 <= i < all.len() implies f(#[trigger] all[i]) is None by {
        assert(fits(all[i], world(all[i])));
    }
    lemma_prefix(all, f);
    if there && current {
        assert(all =~= look_plan(sources));
    }
    law_whole_fetch(sources, world);
    assert(whole_fetch(sources, world) =~= seq![
        SuiteAction::MakeRoot(sources.root),
        SuiteAction::Lock(sources.suite_id),
    ] + all + closing(sources, None, world));
}

/// A suite whose lockfile names another package than the coordinator does is downloaded,
/// and what the coordinator told is written to the lockfile, whether or not its folder
/// was there, as far as the work goes well.
pub proof fn law_outdated_is_replaced<C, X>(
    sources: SuiteSources,
    world: spec_fn(SuiteAction<C, X>) -> SuiteEvent<C, X>,
    info: TestSuite<X>,
    locked: TestSuite<X>,
)
    requires
        is_world(world),
        !(world(SuiteAction::MakeRoot(sources.root)) is IoFailed),
        world(
            SuiteAction::FetchInfo(
                HttpRequest {
                    method: HttpMethod::Get,
                    endpoint: sources.info_endpoint,
                    authorization: None,
                },
            ),
        ) == SuiteEvent::<C, X>::Info(info),
        world(SuiteAction::MakeDir(sources.folder)) matches SuiteEvent::IoFailed(e) ==> e.kind
            == IoErrorKind::AlreadyExists,
        world(SuiteAction::ReadLockfile(sources.lockfile)) == SuiteEvent::<C, X>::Lockfile(
            Some(locked),
        ),
        locked.package_file_id@ != info.package_file_id@,
        world(SuiteAction::RemoveStale(sources.folder)) is Done,
        world(SuiteAction::MakeTempRoot(sources.temp_root)) is Done,
        sources.access_token is Some,
    ensures
        ({
            let all = run(
                SuiteFetch { sources, handle: false, step: SuiteStep::MakeRoot },
                SuiteAction::MakeRoot(sources.root),
                world,
            );
            let download = SuiteAction::Download {
                request: HttpRequest {
                    method: HttpMethod::Get,
                    endpoint: sources.download_endpoint,
                    authorization: sources.access_token,
                },
                folder: sources.folder,
                temp_file: sources.temp_file,
            };
            &&& all.len() > 8
            &&& all[5] == SuiteAction::<C, X>::RemoveStale(sources.folder)
            &&& all[7] == download
            &&& world(download) is Done ==> all[8] == (SuiteAction::<C, X>::WriteLockfile {
                lockfile: sources.lockfile,
                info,
            })
        }),
{
    let all = plan(sources, world);
    let f = fails(world);
    assert(!up_to_date(sources, world));
    law_whole_fetch(sources, world);
    let p1 = all.drop_first();
    let p2 = p1.drop_first();
    let p3 = p2.drop_first();
    let p4 = p3.drop_first();
    let p5 = p4.drop_first();
    let p6 = p5.drop_first();
    assert(fits(all[1], world(all[1])));
    assert(fits(all[5], world(all[5])));
    assert(f(all[0]) is None && f(all[1]) is None && f(all[2]) is None && f(all[3]) is None && f(
        all[4],
    ) is None);
    let c5 = carried_out(p5, f);
    assert(c5.len() > 0 && c5[0] == all[5]);
    if f(all[5]) is None {
        assert(carried_out(p6, f)[0] == all[6]);
        assert(c5[1] == all[6]);
    }
    let c4 = seq![all[4]] + c5;
    let c3 = seq![all[3]] + c4;
    let c2 = seq![all[2]] + c3;
    let c1 = seq![all[1]] + c2;
    assert(carried_out(p4, f) == c4);
    assert(carried_out(p3, f) == c3);
    assert(carried_out(p2, f) == c2);
    assert(carried_out(p1, f) == c1);
    assert(carried_out(all, f) == seq![all[0]] + c1);
}

/// A suite that is there and whose lockfile names the package that the coordinator names
/// is left as it is: nothing is removed, downloaded or written, with or without an access
/// token.
pub proof fn law_current_is_kept<C, X>(
    sources: SuiteSources,
    world: spec_fn(SuiteAction<C, X>) -> SuiteEvent<C, X>,
    info: TestSuite<X>,
    locked: TestSuite<X>,
    error: IoError,
    i: int,
)
    requires
        is_world(world),
        !(world(SuiteAction::MakeRoot(sources.root)) is IoFailed),
        world(
            SuiteAction::FetchInfo(
                HttpRequest {
                    method: HttpMethod::Get,
                    endpoint: sources.info_endpoint,
                    authorization: None,
                },
            ),
        ) == SuiteEvent::<C, X>::Info(info),
        world(SuiteAction::MakeDir(sources.folder)) == SuiteEvent::<C, X>::IoFailed(error),
        error.kind == IoErrorKind::AlreadyExists,
        world(SuiteAction::ReadLockfile(sources.lockfile)) == SuiteEvent::<C, X>::Lockfile(
            Some(locked),
        ),
        locked.package_file_id@ == info.package_file_id@,
    ensures
        ({
            let all = run(
                SuiteFetch { sources, handle: false, step: SuiteStep::MakeRoot },
                SuiteAction::MakeRoot(sources.root),
                world,
            );
            &&& all.len() == 9
            &&& all[5] == (SuiteAction::<C, X>::Unlock {
                suite_id: sources.suite_id,
                cancel_handle: world(SuiteAction::Lock(sources.suite_id))->handle,
            })
            &&& 0 <= i < all.len() ==> !(all[i] is RemoveStale) && !(all[i] is Download) && !(
            all[i] is WriteLockfile) && !(all[i] is CleanUp)
        }),
{
    let all = plan(sources, world);
    let f = fails(world);
    assert(up_to_date(sources, world));
    assert(all =~= look_plan(sources));
    assert(f(all[0]) is None && f(all[1]) is None && f(all[2]) is None);
    lemma_prefix(all, f);
    law_whole_fetch(sources, world);
    assert(whole_fetch(sources, world) =~= seq![
        SuiteAction::MakeRoot(sources.root),
        SuiteAction::Lock(sources.suite_id),
    ] + look_plan(sources) + closing(sources, None, world));
}

/// Whether a fetch has just named `action`, with what it has learned so far.
spec fn in_step<C, X>(
    sources: SuiteSources,
    world: spec_fn(SuiteAction<C, X>) -> SuiteEvent<C, X>,
    fetch: SuiteFetch<X>,
    action: SuiteAction<C, X>,
) -> bool {
    let told = world(
        SuiteAction::FetchInfo(
            HttpRequest {
                method: HttpMethod::Get,
                endpoint: sources.info_endpoint,
                authorization: None,
            },
        ),
    );
    let joined = world(SuiteAction::JoinPath { base: sources.folder, path: TEST_CONF_FILE });
    &&& fetch.sources == sources
    &&& fetch.step is MakeRoot || fetch.step is Lock || fetch.step is Finished || fetch.handle
        == world(SuiteAction::Lock(sources.suite_id))->handle
    &&& match (fetch.step, action) {
        (SuiteStep::MakeRoot, SuiteAction::MakeRoot(dir)) => dir == sources.root,
        (SuiteStep::Lock, SuiteAction::Lock(id)) => id == sources.suite_id,
        (SuiteStep::FetchInfo, SuiteAction::FetchInfo(request)) => request == (HttpRequest {
            method: HttpMethod::Get,
            endpoint: sources.info_endpoint,
            authorization: None,
        }),
        (SuiteStep::MakeDir { info }, SuiteAction::MakeDir(dir)) => dir == sources.folder && told
            == SuiteEvent::<C, X>::Info(info),
        (SuiteStep::ReadLockfile { info, .. }, SuiteAction::ReadLockfile(path)) => path
            == sources.lockfile && told == SuiteEvent::<C, X>::Info(info),
        (SuiteStep::RemoveStale { info, .. }, SuiteAction::RemoveStale(dir)) => dir
            == sources.folder && told == SuiteEvent::<C, X>::Info(info),
        (SuiteStep::MakeTempRoot { info, .. }, SuiteAction::MakeTempRoot(dir)) => dir
            == sources.temp_root && told == SuiteEvent::<C, X>::Info(info),
        (SuiteStep::Download { info, .. }, SuiteAction::Download { request, folder, temp_file }) => {
            &&& told == SuiteEvent::<C, X>::Info(info)
            &&& request.method == HttpMethod::Get
            &&& request.endpoint == sources.download_endpoint
            &&& request.authorization == sources.access_token
            &&& sources.access_token is Some
            &&& folder == sources.folder
            &&& temp_file == sources.temp_file
        },
        (SuiteStep::WriteLockfile, SuiteAction::WriteLockfile { lockfile, info }) => lockfile
            == sources.lockfile && told == SuiteEvent::<C, X>::Info(info),
        (SuiteStep::CleanUp { .. }, SuiteAction::CleanUp(dir)) => dir == sources.folder,
        (SuiteStep::Unlock, SuiteAction::Unlock { suite_id, cancel_handle }) => suite_id
            == sources.suite_id && cancel_handle == fetch.handle,
        (SuiteStep::JoinPath, SuiteAction::JoinPath { base, path }) => base == sources.folder
            && path == TEST_CONF_FILE,
        (SuiteStep::ReadConfig { text }, SuiteAction::ReadConfig(path)) => joined == (
        SuiteEvent::<C, X>::Joined { path, text }),
        (SuiteStep::Finished, SuiteAction::Return(_)) => true,
        _ => false,
    }
}

/// Whether the action at `i` has the operands that the fetch was begun with or has been
/// told since.
spec fn has_operands<C, X>(
    sources: SuiteSources,
    world: spec_fn(SuiteAction<C, X>) -> SuiteEvent<C, X>,
    action: SuiteAction<C, X>,
) -> bool {
    action is Return || exists|fetch: SuiteFetch<X>| #[trigger]
        in_step(sources, world, fetch, action)
}

/// Whether the actions that follow the one at `i` are the right ones where it fails or
/// is the last one before the end.
spec fn ends_right<C, X>(
    sources: SuiteSources,
    world: spec_fn(SuiteAction<C, X>) -> SuiteEvent<C, X>,
    all: Seq<SuiteAction<C, X>>,
    i: int,
) -> bool {
    let event = world(all[i]);
    let joined = world(SuiteAction::JoinPath { base: sources.folder, path: TEST_CONF_FILE });
    let cleaned = |e: JobExecErr|
        all.len() == i + 3 && all[i + 1] == SuiteAction::<C, X>::CleanUp(sources.folder) && all[i
            + 2] == SuiteAction::<C, X>::Return(Err(e));
    let over = |result: Result<C, JobExecErr>|
        all.len() == i + 2 && all[i + 1] == SuiteAction::<C, X>::Return(result);
    match (all[i], event) {
        (SuiteAction::MakeRoot(_), SuiteEvent::IoFailed(e)) => over(Err(JobExecErr::Io(e))),
        (SuiteAction::FetchInfo(_), SuiteEvent::RequestFailed(e)) => cleaned(
            JobExecErr::Request(e),
        ),
        (SuiteAction::MakeDir(_), SuiteEvent::IoFailed(e)) => e.kind != IoErrorKind::AlreadyExists
            ==> cleaned(JobExecErr::Io(e)),
        (SuiteAction::ReadLockfile(_), SuiteEvent::IoFailed(e)) => e.kind != IoErrorKind::NotFound
            ==> cleaned(JobExecErr::Io(e)),
        (SuiteAction::RemoveStale(_), SuiteEvent::Failed(e)) => cleaned(e),
        (SuiteAction::MakeTempRoot(_), SuiteEvent::IoFailed(e)) => cleaned(JobExecErr::Io(e)),
        (SuiteAction::Download { .. }, SuiteEvent::Failed(e)) => cleaned(e),
        (SuiteAction::WriteLockfile { .. }, SuiteEvent::JsonFailed(e)) => cleaned(
            JobExecErr::Json(e),
        ),
        (SuiteAction::WriteLockfile { .. }, SuiteEvent::IoFailed(e)) => cleaned(JobExecErr::Io(e)),
        (SuiteAction::ReadConfig(_), SuiteEvent::Config(config)) => over(Ok(config)),
        (SuiteAction::ReadConfig(_), SuiteEvent::JsonFailed(e)) => over(Err(JobExecErr::Json(e))),
        (SuiteAction::ReadConfig(_), SuiteEvent::IoFailed(e)) => if e.kind
            == IoErrorKind::NotFound {
            over(Err(JobExecErr::NoSuchFile(joined->text)))
        } else {
            over(Err(JobExecErr::Io(e)))
        },
        _ => true,
    }
}

proof fn lemma_each<C, X>(
    sources: SuiteSources,
    world: spec_fn(SuiteAction<C, X>) -> SuiteEvent<C, X>,
    fetch: SuiteFetch<X>,
    action: SuiteAction<C, X>,
    i: int,
)
    requires
        is_world(world),
        in_step(sources, world, fetch, action),
        0 <= i < run(fetch, action, world).len(),
    ensures
        has_operands(sources, world, run(fetch, action, world)[i]),
        ends_right(sources, world, run(fetch, action, world), i),
    decreases fetch.rank(),
{
    let all = run(fetch, action, world);
    assert(fits(action, world(action)));
    if !(action is Return) && fetch.awaits(world(action)) {
        let (next, then_action) = fetch.after(world(action));
        let rest = run(next, then_action, world);
        assert(in_step(sources, world, next, then_action));
        assert(all == seq![action] + rest);
        if i > 0 {
            lemma_each(sources, world, next, then_action, i - 1);
            assert(all[i] == rest[i - 1]);
            if i + 1 < all.len() {
                assert(all[i + 1] == rest[i]);
            }
            if i + 2 < all.len() {
                assert(all[i + 2] == rest[i + 1]);
            }
        } else {
            assert(all[0] == action);
            assert(rest.len() > 0 && rest[0] == then_action);
            assert(all[1] == then_action);
            if then_action is CleanUp {
                assert(fits(then_action, world(then_action)));
                let (last, last_action) = next.after(world(then_action));
                assert(run(last, last_action, world) == seq![last_action]);
                assert(rest == seq![then_action] + seq![last_action]);
                assert(all[2] == last_action);
            }
        }
    } else {
        assert(all == seq![action]);
        assert(in_step(sources, world, fetch, action));
    }
}

/// Whatever happens, every action of a fetch has the operands that belong to it: the
/// suite's own folder, lockfile and identifier, the requests for what the coordinator
/// knows (without a token) and for the package (with the token, which is then there), and
/// in the lockfile what the coordinator told.
pub proof fn law_fetch_operands<C, X>(
    sources: SuiteSources,
    world: spec_fn(SuiteAction<C, X>) -> SuiteEvent<C, X>,
    i: int,
)
    requires
        is_world(world),
        0 <= i < run(
            SuiteFetch { sources, handle: false, step: SuiteStep::MakeRoot },
            SuiteAction::MakeRoot(sources.root),
            world,
        ).len(),
    ensures
        ({
            let all = run(
                SuiteFetch { sources, handle: false, step: SuiteStep::MakeRoot },
                SuiteAction::MakeRoot(sources.root),
                world,
            );
            let info_request = HttpRequest {
                method: HttpMethod::Get,
                endpoint: sources.info_endpoint,
                authorization: None,
            };
            match all[i] {
                SuiteAction::MakeRoot(dir) => dir == sources.root,
                SuiteAction::Lock(id) => id == sources.suite_id,
                SuiteAction::FetchInfo(request) => request == info_request,
                SuiteAction::MakeDir(dir) => dir == sources.folder,
                SuiteAction::ReadLockfile(path) => path == sources.lockfile,
                SuiteAction::RemoveStale(dir) => dir == sources.folder,
                SuiteAction::MakeTempRoot(dir) => dir == sources.temp_root,
                SuiteAction::Download { request, folder, temp_file } => {
                    &&& request.method == HttpMethod::Get
                    &&& request.endpoint == sources.download_endpoint
                    &&& request.authorization == sources.access_token
                    &&& request.authorization is Some
                    &&& folder == sources.folder
                    &&& temp_file == sources.temp_file
                },
                SuiteAction::WriteLockfile { lockfile, info } => {
                    &&& lockfile == sources.lockfile
                    &&& world(SuiteAction::FetchInfo(info_request)) == SuiteEvent::<C, X>::Info(
                        info,
                    )
                },
                SuiteAction::CleanUp(dir) => dir == sources.folder,
                SuiteAction::Unlock { suite_id, cancel_handle } => {
                    &&& suite_id == sources.suite_id
                    &&& cancel_handle == world(SuiteAction::Lock(sources.suite_id))->handle
                },
                SuiteAction::JoinPath { base, path } => base == sources.folder && path@
                    == "testconf.json"@,
                SuiteAction::ReadConfig(path) => world(
                    SuiteAction::JoinPath { base: sources.folder, path: TEST_CONF_FILE },
                )->path == path,
                SuiteAction::Return(_) => true,
            }
        }),
{
    let begin = SuiteFetch { sources, handle: false, step: SuiteStep::<X>::MakeRoot };
    lemma_each(sources, world, begin, SuiteAction::MakeRoot(sources.root), i);
}

/// Whatever fails first while the suite is brought up to date, the suite's folder is
/// removed next and then that very error is returned. That the folder exists, or that
/// the lockfile does not, is no failure.
pub proof fn law_first_failure_is_returned<C, X>(
    sources: SuiteSources,
    world: spec_fn(SuiteAction<C, X>) -> SuiteEvent<C, X>,
    i: int,
    error: JobExecErr,
)
    requires
        is_world(world),
        0 <= i < run(
            SuiteFetch { sources, handle: false, step: SuiteStep::MakeRoot },
            SuiteAction::MakeRoot(sources.root),
            world,
        ).len(),
        ({
            let action = run(
                SuiteFetch { sources, handle: false, step: SuiteStep::MakeRoot },
                SuiteAction::MakeRoot(sources.root),
                world,
            )[i];
            match world(action) {
                SuiteEvent::RequestFailed(e) => action is FetchInfo && error
                    == JobExecErr::Request(e),
                SuiteEvent::JsonFailed(e) => action is WriteLockfile && error == JobExecErr::Json(
                    e,
                ),
                SuiteEvent::Failed(e) => (action is RemoveStale || action is Download) && error
                    == e,
                SuiteEvent::IoFailed(e) => {
                    &&& error == JobExecErr::Io(e)
                    &&& action is MakeTempRoot || action is WriteLockfile || (action is MakeDir
                        && e.kind != IoErrorKind::AlreadyExists) || (action is ReadLockfile
                        && e.kind != IoErrorKind::NotFound)
                },
                _ => false,
            }
        }),
    ensures
        ({
            let all = run(
                SuiteFetch { sources, handle: false, step: SuiteStep::MakeRoot },
                SuiteAction::MakeRoot(sources.root),
                world,
            );
            &&& all.len() == i + 3
            &&& all[i + 1] == SuiteAction::<C, X>::CleanUp(sources.folder)
            &&& all[i + 2] == SuiteAction::<C, X>::Return(Err(error))
        }),
{
    let begin = SuiteFetch { sources, handle: false, step: SuiteStep::<X>::MakeRoot };
    lemma_each(sources, world, begin, SuiteAction::MakeRoot(sources.root), i);
}

/// Without the folder of all suites nothing is done. Once the configuration file has
/// been looked at, its contents are returned, or why they cannot be: that there is no
/// such file, with its path, or what else went wrong.
pub proof fn law_how_a_fetch_ends<C, X>(
    sources: SuiteSources,
    world: spec_fn(SuiteAction<C, X>) -> SuiteEvent<C, X>,
    i: int,
)
    requires
        is_world(world),
        0 <= i < run(
            SuiteFetch { sources, handle: false, step: SuiteStep::MakeRoot },
            SuiteAction::MakeRoot(sources.root),
            world,
        ).len(),
    ensures
        ({
            let all = run(
                SuiteFetch { sources, handle: false, step: SuiteStep::MakeRoot },
                SuiteAction::MakeRoot(sources.root),
                world,
            );
            let joined = world(
                SuiteAction::JoinPath { base: sources.folder, path: TEST_CONF_FILE },
            );
            &&& world(SuiteAction::MakeRoot(sources.root)) matches SuiteEvent::IoFailed(e) ==> all
                == seq![
                SuiteAction::<C, X>::MakeRoot(sources.root),
                SuiteAction::Return(Err(JobExecErr::Io(e))),
            ]
            &&& all[i] is ReadConfig ==> all.len() == i + 2 && match world(all[i]) {
                SuiteEvent::Config(config) => all[i + 1] == SuiteAction::<C, X>::Return(
                    Ok(config),
                ),
                SuiteEvent::JsonFailed(e) => all[i + 1] == SuiteAction::<C, X>::Return(
                    Err(JobExecErr::Json(e)),
                ),
                SuiteEvent::IoFailed(e) => if e.kind == IoErrorKind::NotFound {
                    all[i + 1] == SuiteAction::<C, X>::Return(
                        Err(JobExecErr::NoSuchFile(joined->text)),
                    )
                } else {
                    all[i + 1] == SuiteAction::<C, X>::Return(Err(JobExecErr::Io(e)))
                },
                _ => false,
            }
        }),
{
    let begin = SuiteFetch { sources, handle: false, step: SuiteStep::<X>::MakeRoot };
    let all = run(begin, SuiteAction::MakeRoot(sources.root), world);
    lemma_each(sources, world, begin, SuiteAction::MakeRoot(sources.root), i);
    assert(fits(all[i], world(all[i])));
    if let SuiteEvent::IoFailed(e) = world(SuiteAction::MakeRoot(sources.root)) {
        reveal_with_fuel(run, 2);
        assert(all =~= seq![
            SuiteAction::MakeRoot(sources.root),
            SuiteAction::Return(Err(JobExecErr::Io(e))),
        ]);
    }
}

/// What can come back of each action, and nothing else, can be told to a fetch that has
/// named it; only the step before a download asks for an access token besides.
pub proof fn law_answers<C, X>(fetch: SuiteFetch<X>, event: SuiteEvent<C, X>)
    ensures
        fetch.awaits(event) <==> match fetch.step {
            SuiteStep::MakeRoot | SuiteStep::MakeDir { .. } => event is Done || event is IoFailed,
            SuiteStep::Lock => event is Locked,
            SuiteStep::FetchInfo => event is Info || event is RequestFailed,
            SuiteStep::ReadLockfile { .. } => event is Lockfile || event is IoFailed,
            SuiteStep::RemoveStale { .. }
            | SuiteStep::Download { .. }
            | SuiteStep::CleanUp { .. } => event is Done || event is Failed,
            SuiteStep::MakeTempRoot { .. } => event is IoFailed || (event is Done
                && fetch.sources.access_token is Some),
            SuiteStep::WriteLockfile => event is Done || event is IoFailed || event is JsonFailed,
            SuiteStep::Unlock => event is Done,
            SuiteStep::JoinPath => event is Joined,
            SuiteStep::ReadConfig { .. } => event is Config || event is IoFailed
                || event is JsonFailed,
            SuiteStep::Finished => false,
        },
{
}

/// A fetch is begun with what it was given, and with nothing learned.
pub proof fn law_begun<X>(sources: SuiteSources)
    ensures
        begun::<X>(sources).sources == sources,
        begun::<X>(sources).step is MakeRoot,
        !begun::<X>(sources).handle,
{
}

} // verus!
