//! The configuration files that a job brings along.

use crate::text::copy_strings;
use std::path::PathBuf;
use vstd::prelude::*;

verus! {

/// How one test suite wants a repository to be built and run. `I` describes an
/// image.
#[derive(Debug)]
pub struct JudgeTomlTestConfig<I> {
    /// Base image to build from, if needed.
    pub image: I,
    pub build: Option<Vec<String>>,
    pub run: Vec<String>,
}

/// The judge file of a repository: one entry for each test suite it knows.
#[derive(Debug, Clone)]
pub struct JudgeToml<I> {
    pub id: String,
    pub jobs: JobConfigs<I>,
}

/// The entries of a judge file by the name of their test suite. No name occurs
/// twice.
#[derive(Debug)]
pub struct JobConfigs<I> {
    entries: Vec<(String, JudgeTomlTestConfig<I>)>,
}

/// A folder of a test suite and where it appears inside the container.
#[derive(Debug, Clone)]
pub struct MappedDir {
    pub from: String,
    pub to: String,
}

/// A test suite's configuration. `B` describes a bind mount; `R` is what the
/// configuration holds beyond what a job is set up from, and is carried along as it
/// is.
#[derive(Debug)]
pub struct JudgerPublicConfig<B, R> {
    pub time_limit: Option<i32>,
    pub memory_limit: Option<i32>,
    pub name: String,
    pub mapped_dir: MappedDir,
    pub binds: Option<Vec<B>>,
    pub run: Vec<String>,
    pub rest: R,
}

/// What a [`JudgerPublicConfig`] says.
pub struct PublicConfigView<B, R> {
    pub time_limit: Option<i32>,
    pub memory_limit: Option<i32>,
    pub name: String,
    pub mapped_dir: MappedDir,
    pub binds: Option<Seq<B>>,
    pub run: Seq<String>,
    pub rest: R,
}

impl<B, R> View for JudgerPublicConfig<B, R> {
    type V = PublicConfigView<B, R>;

    open spec fn view(&self) -> PublicConfigView<B, R> {
        PublicConfigView {
            time_limit: self.time_limit,
            memory_limit: self.memory_limit,
            name: self.name,
            mapped_dir: self.mapped_dir,
            binds: match self.binds {
                Some(binds) => Some(binds@),
                None => None,
            },
            run: self.run@,
            rest: self.rest,
        }
    }
}

impl<B, R> PublicConfigView<B, R> {
    /// The same configuration with a list of bind mounts, empty if there was none.
    pub open spec fn with_binds(self) -> Self {
        PublicConfigView {
            binds: Some(
                match self.binds {
                    Some(binds) => binds,
                    None => Seq::empty(),
                },
            ),
            ..self
        }
    }

    /// The same configuration with `first` run before its own commands.
    pub open spec fn running_after(self, first: Seq<String>) -> Self {
        PublicConfigView { run: first + self.run, ..self }
    }
}

/// A path of the file system. Nothing is known of what is inside.
#[verifier::external_type_specification]
#[verifier::external_body]
pub struct ExPathBuf(std::path::PathBuf);

/// Calls `clone` of `std::path::PathBuf`. Trusted: a clone is the same path.
pub assume_specification[ <PathBuf as Clone>::clone ](path: &PathBuf) -> (r: PathBuf)
    ensures
        r == *path,
;

/// Where the judger finds the tests of a suite.
#[derive(Debug, Clone)]
pub struct JudgerPrivateConfig {
    pub test_root_dir: PathBuf,
    pub mapped_test_root_dir: String,
}

impl<B, R> JudgerPublicConfig<B, R> {
    /// Makes sure that there is a list of bind mounts.
    pub fn fill_binds(&mut self)
        ensures
            final(self)@ == old(self)@.with_binds(),
            final(self).binds is Some,
            old(self).binds matches Some(binds) ==> (final(self).binds->0)@ == binds@,
            old(self).binds is None ==> (final(self).binds->0)@.len() == 0,
            *final(self) == (JudgerPublicConfig { binds: final(self).binds, ..*old(self) }),
    {
        if self.binds.is_none() {
            let none: Vec<B> = Vec::new();
            self.binds = Some(none);
        }
    }

    /// Puts the commands of a repository before those of the suite.
    pub fn prepend_run(&mut self, first: Vec<String>)
        ensures
            final(self)@ == old(self)@.running_after(first@),
            final(self).run@ == first@ + old(self).run@,
            *final(self) == (JudgerPublicConfig { run: final(self).run, ..*old(self) }),
    {
        let mut run = first;
        let mut own: Vec<String> = Vec::new();
        std::mem::swap(&mut own, &mut self.run);
        run.append(&mut own);
        self.run = run;
    }

    /// Where the tests of the suite are found, given the folder that `mapped_dir.from`
    /// stands for.
    pub fn private_config(&self, test_root_dir: PathBuf) -> (r: JudgerPrivateConfig)
        ensures
            r == (JudgerPrivateConfig {
                test_root_dir,
                mapped_test_root_dir: self.mapped_dir.to,
            }),
    {
        JudgerPrivateConfig { test_root_dir, mapped_test_root_dir: self.mapped_dir.to.clone() }
    }
}

/// Whether `b` is `a` with its image cloned.
pub open spec fn is_copy<I: Clone>(a: JudgeTomlTestConfig<I>, b: JudgeTomlTestConfig<I>) -> bool {
    &&& cloned::<I>(a.image, b.image)
    &&& b.run@ == a.run@
    &&& match (a.build, b.build) {
        (Some(x), Some(y)) => y@ == x@,
        (None, None) => true,
        _ => false,
    }
}

impl<I: Clone> Clone for JudgeTomlTestConfig<I> {
    fn clone(&self) -> (r: Self)
        ensures
            is_copy(*self, r),
            cloned::<I>(self.image, r.image),
            r.run@ == self.run@,
            r.build is Some <==> self.build is Some,
            self.build is Some ==> (r.build->0)@ == (self.build->0)@,
    {
        let build = match &self.build {
            Some(steps) => Some(copy_strings(steps)),
            None => None,
        };
        JudgeTomlTestConfig { image: self.image.clone(), build, run: copy_strings(&self.run) }
    }
}

/// Whether the entry at `i` is called `name`.
spec fn named<I>(entries: Seq<(String, JudgeTomlTestConfig<I>)>, i: int, name: Seq<char>) -> bool {
    0 <= i < entries.len() && entries[i].0@ == name
}

/// Whether no two entries share a name.
spec fn distinct<I>(entries: Seq<(String, JudgeTomlTestConfig<I>)>) -> bool {
    forall|i: int, j: int|
        0 <= i < j < entries.len() ==> (#[trigger] entries[i]).0@ != (#[trigger] entries[j]).0@
}

/// The entries as a map.
spec fn as_map<I>(entries: Seq<(String, JudgeTomlTestConfig<I>)>) -> Map<
    Seq<char>,
    JudgeTomlTestConfig<I>,
> {
    Map::new(
        |name: Seq<char>| exists|i: int| named(entries, i, name),
        |name: Seq<char>| entries[choose|i: int| named(entries, i, name)].1,
    )
}

proof fn lemma_entry<I>(entries: Seq<(String, JudgeTomlTestConfig<I>)>, i: int)
    requires
        distinct(entries),
        0 <= i < entries.len(),
    ensures
        as_map(entries).contains_key(entries[i].0@),
        as_map(entries)[entries[i].0@] == entries[i].1,
{
    let name = entries[i].0@;
    assert(named(entries, i, name));
    let k = choose|k: int| named(entries, k, name);
    assert(named(entries, k, name));
    assert(k == i);
}

impl<I> View for JobConfigs<I> {
    type V = Map<Seq<char>, JudgeTomlTestConfig<I>>;

    closed spec fn view(&self) -> Map<Seq<char>, JudgeTomlTestConfig<I>> {
        as_map(self.entries@)
    }
}

impl<I> JobConfigs<I> {
    #[verifier::type_invariant]
    spec fn wf(self) -> bool {
        distinct(self.entries@)
    }

    /// No entries.
    pub fn new() -> (r: Self)
        ensures
            r@ == Map::<Seq<char>, JudgeTomlTestConfig<I>>::empty(),
    {
        let r = JobConfigs { entries: Vec::new() };
        assert(r@ =~= Map::<Seq<char>, JudgeTomlTestConfig<I>>::empty());
        r
    }

    /// Takes the entry called `name` out, where there is one.
    pub fn take(&mut self, name: &String) -> (r: Option<JudgeTomlTestConfig<I>>)
        ensures
            match r {
                Some(config) => old(self)@.contains_key(name@) && config == old(self)@[name@],
                None => !old(self)@.contains_key(name@),
            },
            final(self)@ == old(self)@.remove(name@),
    {
        proof {
            use_type_invariant(&*self);
        }
        let ghost before = self.entries@;
        let mut i: usize = 0;
        while i < self.entries.len()
            invariant
                self.entries@ == before,
                before == old(self).entries@,
                distinct(before),
                forall|j: int| 0 <= j < i ==> (#[trigger] before[j]).0@ != name@,
            decreases self.entries.len() - i,
        {
            if self.entries[i].0 == *name {
                let mut entries: Vec<(String, JudgeTomlTestConfig<I>)> = Vec::new();
                std::mem::swap(&mut entries, &mut self.entries);
                let found = entries.remove(i);
                self.entries = entries;
                proof {
                    lemma_entry(before, i as int);
                    lemma_removed(before, i as int);
                }
                return Some(found.1);
            }
            i += 1;
        }
        assert(as_map(before) =~= as_map(before).remove(name@));
        None
    }

    /// Adds an entry; one of the same name that was there comes back.
    pub fn insert(&mut self, name: String, config: JudgeTomlTestConfig<I>) -> (r: Option<
        JudgeTomlTestConfig<I>,
    >)
        ensures
            match r {
                Some(earlier) => old(self)@.contains_key(name@) && earlier == old(self)@[name@],
                None => !old(self)@.contains_key(name@),
            },
            final(self)@ == old(self)@.insert(name@, config),
            final(self)@.contains_key(name@) && final(self)@[name@] == config,
            forall|other: Seq<char>|
                other != name@ ==> #[trigger] final(self)@.get(other) == old(self)@.get(other),
    {
        let earlier = self.take(&name);
        proof {
            use_type_invariant(&*self);
        }
        let ghost before = self.entries@;
        let mut entries: Vec<(String, JudgeTomlTestConfig<I>)> = Vec::new();
        std::mem::swap(&mut entries, &mut self.entries);
        entries.push((name, config));
        proof {
            assert forall|i: int| 0 <= i < before.len() implies (#[trigger] before[i]).0@
                != name@ by {
                lemma_entry(before, i);
            }
            lemma_pushed(before, name, config);
        }
        self.entries = entries;
        assert(self@ =~= old(self)@.insert(name@, config));
        earlier
    }
}

impl<I: Clone> Clone for JobConfigs<I> {
    fn clone(&self) -> (r: Self)
        ensures
            r@.dom() == self@.dom(),
            forall|name: Seq<char>| #[trigger]
                self@.contains_key(name) ==> is_copy(self@[name], r@[name]),
    {
        proof {
            use_type_invariant(self);
        }
        let ghost from = self.entries@;
        let mut entries: Vec<(String, JudgeTomlTestConfig<I>)> = Vec::new();
        for i in 0..self.entries.len()
            invariant
                from == self.entries@,
                entries@.len() == i,
                forall|j: int|
                    0 <= j < i ==> (#[trigger] entries@[j]).0 == from[j].0 && is_copy(
                        from[j].1,
                        entries@[j].1,
                    ),
        {
            let name = self.entries[i].0.clone();
            let config = self.entries[i].1.clone();
            entries.push((name, config));
        }
        proof {
            let to = entries@;
            assert(distinct(to)) by {
                assert forall|i: int, j: int| 0 <= i < j < to.len() implies (#[trigger] to[i]).0@
                    != (#[trigger] to[j]).0@ by {
                    assert(from[i].0@ != from[j].0@);
                }
            }
            assert forall|name: Seq<char>| #[trigger]
                as_map(from).contains_key(name) implies as_map(to).contains_key(name) && is_copy(
                as_map(from)[name],
                as_map(to)[name],
            ) by {
                let k = choose|k: int| named(from, k, name);
                assert(to[k].0 == from[k].0);
                lemma_entry(from, k);
                lemma_entry(to, k);
            }
            assert forall|name: Seq<char>| #[trigger]
                as_map(to).contains_key(name) implies as_map(from).contains_key(name) by {
                let k = choose|k: int| named(to, k, name);
                assert(named(from, k, name));
            }
            assert(as_map(to).dom() =~= as_map(from).dom());
        }
        JobConfigs { entries }
    }
}

proof fn lemma_removed<I>(before: Seq<(String, JudgeTomlTestConfig<I>)>, i: int)
    requires
        distinct(before),
        0 <= i < before.len(),
    ensures
        distinct(before.remove(i)),
        as_map(before.remove(i)) =~= as_map(before).remove(before[i].0@),
{
    let after = before.remove(i);
    let name = before[i].0@;
    assert forall|n: Seq<char>| #[trigger]
        as_map(after).contains_key(n) implies as_map(before).contains_key(n) && n != name
        && as_map(after)[n] == as_map(before)[n] by {
        let k = choose|k: int| named(after, k, n);
        let m = if k < i { k } else { k + 1 };
        assert(before[m] == after[k]);
        lemma_entry(before, m);
        lemma_entry(after, k);
    }
    assert forall|n: Seq<char>| #[trigger]
        as_map(before).contains_key(n) && n != name implies as_map(after).contains_key(n) by {
        let k = choose|k: int| named(before, k, n);
        let m = if k < i { k } else { k - 1 };
        assert(before[k] == after[m]);
        assert(named(after, m, n));
    }
}

proof fn lemma_pushed<I>(
    before: Seq<(String, JudgeTomlTestConfig<I>)>,
    name: String,
    config: JudgeTomlTestConfig<I>,
)
    requires
        distinct(before),
        forall|i: int| 0 <= i < before.len() ==> (#[trigger] before[i]).0@ != name@,
    ensures
        distinct(before.push((name, config))),
        as_map(before.push((name, config))) =~= as_map(before).insert(name@, config),
{
    let after = before.push((name, config));
    assert forall|n: Seq<char>| #[trigger]
        as_map(after).contains_key(n) implies as_map(before).insert(name@, config).contains_key(n)
        && as_map(after)[n] == as_map(before).insert(name@, config)[n] by {
        let k = choose|k: int| named(after, k, n);
        lemma_entry(after, k);
        if k < before.len() {
            assert(before[k] == after[k]);
            lemma_entry(before, k);
        }
    }
    assert forall|n: Seq<char>| #[trigger]
        as_map(before).insert(name@, config).contains_key(n) implies as_map(after).contains_key(
        n,
    ) by {
        if n == name@ {
            assert(named(after, before.len() as int, n));
        } else {
            let k = choose|k: int| named(before, k, n);
            assert(before[k] == after[k]);
            assert(named(after, k, n));
        }
    }
}

/// Nothing of a configuration is left out of what it says, and nothing is added.
pub proof fn law_config_says<B, R>(config: JudgerPublicConfig<B, R>)
    ensures
        config@.time_limit == config.time_limit,
        config@.memory_limit == config.memory_limit,
        config@.name == config.name,
        config@.mapped_dir == config.mapped_dir,
        config@.binds is Some <==> config.binds is Some,
        config.binds matches Some(binds) ==> config@.binds == Some(binds@),
        config@.run == config.run@,
        config@.rest == config.rest,
{
}

/// Giving a configuration a list of bind mounts keeps the list it has, adds an empty
/// one where it has none, and changes nothing else; doing it twice is doing it once.
pub proof fn law_with_binds<B, R>(config: PublicConfigView<B, R>)
    ensures
        config.binds is Some ==> config.with_binds() == config,
        config.binds is None ==> config.with_binds().binds == Some(Seq::<B>::empty()),
        config.with_binds() == (PublicConfigView { binds: config.with_binds().binds, ..config }),
        config.with_binds().with_binds() == config.with_binds(),
{
}

/// Putting commands before those of a configuration keeps both in their order and
/// changes nothing else; putting none there changes nothing.
pub proof fn law_running_after<B, R>(config: PublicConfigView<B, R>, first: Seq<String>)
    ensures
        config.running_after(first).run.len() == first.len() + config.run.len(),
        forall|i: int|
            0 <= i < first.len() ==> #[trigger] config.running_after(first).run[i] == first[i],
        forall|i: int|
            0 <= i < config.run.len() ==> #[trigger] config.run[i] == config.running_after(
                first,
            ).run[first.len() + i],
        config.running_after(first) == (PublicConfigView {
            run: config.running_after(first).run,
            ..config
        }),
        config.running_after(Seq::empty()) == config,
{
    assert(config.running_after(Seq::empty()).run =~= config.run);
}

/// A copy of an entry has the commands and the build steps of the entry, and a clone of
/// its image.
pub proof fn law_copy<I: Clone>(a: JudgeTomlTestConfig<I>, b: JudgeTomlTestConfig<I>)
    requires
        is_copy(a, b),
    ensures
        cloned::<I>(a.image, b.image),
        b.run@ == a.run@,
        b.build is Some <==> a.build is Some,
        a.build is Some ==> (b.build->0)@ == (a.build->0)@,
{
}

} // verus!
