//! The registry of installed packages: for each package the versions that
//! are installed, and for each version the checksum of its tree.

use vstd::prelude::*;
use crate::json::{frame_member, frame_object, json_quote, json_string_of, member, object};
use crate::text::{followed_by, str_eq, views};

verus! {

/// One installed version of a package.
#[derive(Clone, Debug, PartialEq, Eq)]
pub struct VersionRecord {
    pub version: String,
    /// The checksum of the installed tree, in hexadecimal.
    pub checksum: String,
}

/// A package with its installed versions.
#[derive(Clone, Debug, PartialEq, Eq)]
pub struct PackageRecord {
    pub name: String,
    pub versions: Vec<VersionRecord>,
}

/// The registry. It stands for a map from package names to maps from
/// versions to checksums; see [`State::view`].
#[derive(Clone, Debug, PartialEq, Eq)]
pub struct State {
    pub packages: Vec<PackageRecord>,
}

/// What a registry says: package name to version to checksum.
pub type Registry = Map<Seq<char>, Map<Seq<char>, Seq<char>>>;

/// Whether `k` is a key of the list.
pub open spec fn has_key<V>(s: Seq<(Seq<char>, V)>, k: Seq<char>) -> bool {
    exists|i: int| 0 <= i < s.len() && (#[trigger] s[i]).0 == k
}

/// A position at which the key `k` stands.
pub open spec fn key_index<V>(s: Seq<(Seq<char>, V)>, k: Seq<char>) -> int {
    choose|i: int| 0 <= i < s.len() && (#[trigger] s[i]).0 == k
}

/// No key is listed twice.
pub open spec fn distinct_keys<V>(s: Seq<(Seq<char>, V)>) -> bool {
    forall|i: int, j: int| 0 <= i < j < s.len() ==> (#[trigger] s[i]).0 != (#[trigger] s[j]).0
}

/// The map that a list of keys with their values stands for.
pub open spec fn list_map<V>(s: Seq<(Seq<char>, V)>) -> Map<Seq<char>, V> {
    Map::new(|k: Seq<char>| has_key(s, k), |k: Seq<char>| s[key_index(s, k)].1)
}

/// In a list without repeated keys, a key stands at one position only.
pub proof fn lemma_key_index<V>(s: Seq<(Seq<char>, V)>, i: int)
    requires
        distinct_keys(s),
        0 <= i < s.len(),
    ensures
        has_key(s, s[i].0),
        key_index(s, s[i].0) == i,
{
    let j = key_index(s, s[i].0);
    assert(0 <= j < s.len() && s[j].0 == s[i].0);
    if j < i {
        assert(s[j].0 != s[i].0);
    } else if i < j {
        assert(s[i].0 != s[j].0);
    }
}

/// Adding a new key at the end inserts it into the map.
pub proof fn lemma_list_map_push<V>(s: Seq<(Seq<char>, V)>, k: Seq<char>, v: V)
    requires
        distinct_keys(s),
        !has_key(s, k),
    ensures
        distinct_keys(s.push((k, v))),
        list_map(s.push((k, v))) == list_map(s).insert(k, v),
{
    let t = s.push((k, v));
    assert forall|i: int, j: int| 0 <= i < j < t.len() implies (#[trigger] t[i]).0 != (
    #[trigger] t[j]).0 by {
        assert(t[i] == s[i]);
        if j < s.len() {
            assert(t[j] == s[j]);
        }
    }
    assert forall|q: Seq<char>| has_key(t, q) <==> (has_key(s, q) || q == k) by {
        if has_key(t, q) {
            let i = key_index(t, q);
            if i < s.len() {
                assert(s[i].0 == q);
            }
        }
        if has_key(s, q) {
            let i = key_index(s, q);
            assert(t[i].0 == q);
        }
        if q == k {
            assert(t[s.len() as int].0 == q);
        }
    }
    assert forall|q: Seq<char>| has_key(t, q) implies #[trigger] list_map(t)[q] == list_map(
        s,
    ).insert(k, v)[q] by {
        if q == k {
            lemma_key_index(t, s.len() as int);
        } else {
            let i = key_index(s, q);
            assert(t[i] == s[i]);
            lemma_key_index(t, i);
        }
    }
    assert(list_map(t) =~= list_map(s).insert(k, v));
}

/// Giving a key a new value in its place inserts that value into the map.
pub proof fn lemma_list_map_update<V>(s: Seq<(Seq<char>, V)>, i: int, v: V)
    requires
        distinct_keys(s),
        0 <= i < s.len(),
    ensures
        distinct_keys(s.update(i, (s[i].0, v))),
        list_map(s.update(i, (s[i].0, v))) == list_map(s).insert(s[i].0, v),
{
    let k = s[i].0;
    let t = s.update(i, (k, v));
    assert forall|a: int| 0 <= a < t.len() implies (#[trigger] t[a]).0 == s[a].0 by {}
    assert forall|a: int, b: int| 0 <= a < b < t.len() implies (#[trigger] t[a]).0 != (
    #[trigger] t[b]).0 by {
        assert(s[a].0 != s[b].0);
    }
    assert forall|q: Seq<char>| has_key(t, q) <==> has_key(s, q) by {
        if has_key(t, q) {
            let a = key_index(t, q);
            assert(s[a].0 == q);
        }
        if has_key(s, q) {
            let a = key_index(s, q);
            assert(t[a].0 == q);
        }
    }
    lemma_key_index(s, i);
    assert forall|q: Seq<char>| has_key(t, q) implies #[trigger] list_map(t)[q] == list_map(
        s,
    ).insert(k, v)[q] by {
        let a = key_index(s, q);
        assert(t[a].0 == q);
        lemma_key_index(t, a);
        lemma_key_index(s, a);
    }
    assert(list_map(t) =~= list_map(s).insert(k, v));
}

/// Taking a key out of the list removes it from the map.
pub proof fn lemma_list_map_remove<V>(s: Seq<(Seq<char>, V)>, i: int)
    requires
        distinct_keys(s),
        0 <= i < s.len(),
    ensures
        distinct_keys(s.remove(i)),
        list_map(s.remove(i)) == list_map(s).remove(s[i].0),
{
    let k = s[i].0;
    let t = s.remove(i);
    assert forall|a: int| 0 <= a < t.len() implies #[trigger] t[a] == s[if a < i {
        a
    } else {
        a + 1
    }] by {}
    assert forall|a: int, b: int| 0 <= a < b < t.len() implies (#[trigger] t[a]).0 != (
    #[trigger] t[b]).0 by {
        let a2 = if a < i {
            a
        } else {
            a + 1
        };
        let b2 = if b < i {
            b
        } else {
            b + 1
        };
        assert(s[a2].0 != s[b2].0);
    }
    lemma_key_index(s, i);
    assert forall|q: Seq<char>| has_key(t, q) <==> (has_key(s, q) && q != k) by {
        if has_key(t, q) {
            let a = key_index(t, q);
            let a2 = if a < i {
                a
            } else {
                a + 1
            };
            assert(s[a2].0 == q);
            lemma_key_index(s, a2);
        }
        if has_key(s, q) && q != k {
            let a = key_index(s, q);
            let a1 = if a < i {
                a
            } else {
                a - 1
            };
            assert(t[a1] == s[a]);
        }
    }
    assert forall|q: Seq<char>| has_key(t, q) implies #[trigger] list_map(t)[q] == list_map(
        s,
    ).remove(k)[q] by {
        let a = key_index(t, q);
        let a2 = if a < i {
            a
        } else {
            a + 1
        };
        assert(s[a2].0 == q);
        lemma_key_index(s, a2);
    }
    assert(list_map(t) =~= list_map(s).remove(k));
}

/// The versions with their checksums, as keys with values.
pub open spec fn version_pairs(vs: Seq<VersionRecord>) -> Seq<(Seq<char>, Seq<char>)> {
    vs.map_values(|r: VersionRecord| (r.version@, r.checksum@))
}

/// The map from version to checksum that a list of versions stands for.
pub open spec fn versions_map(vs: Seq<VersionRecord>) -> Map<Seq<char>, Seq<char>> {
    list_map(version_pairs(vs))
}

/// The packages with their versions, as keys with values.
pub open spec fn package_pairs(ps: Seq<PackageRecord>) -> Seq<
    (Seq<char>, Map<Seq<char>, Seq<char>>),
> {
    ps.map_values(|p: PackageRecord| (p.name@, versions_map(p.versions@)))
}

/// The versions of a package in a registry; none where the package is unknown.
pub open spec fn versions_of(r: Registry, name: Seq<char>) -> Map<Seq<char>, Seq<char>> {
    if r.dom().contains(name) {
        r[name]
    } else {
        Map::empty()
    }
}

/// The registry after `version` of `name` was recorded with `checksum`.
pub open spec fn registry_update(
    r: Registry,
    name: Seq<char>,
    version: Seq<char>,
    checksum: Seq<char>,
) -> Registry {
    r.insert(name, versions_of(r, name).insert(version, checksum))
}

/// The registry after `version` of `name` was forgotten. A package whose
/// last version goes, goes with it.
pub open spec fn registry_remove(r: Registry, name: Seq<char>, version: Seq<char>) -> Registry {
    if !r.dom().contains(name) {
        r
    } else if r[name].remove(version).is_empty() {
        r.remove(name)
    } else {
        r.insert(name, r[name].remove(version))
    }
}

impl View for State {
    type V = Registry;

    open spec fn view(&self) -> Registry {
        list_map(package_pairs(self.packages@))
    }
}

impl State {
    /// What holds of every registry: no package is listed twice, and no
    /// version twice for one package.
    pub open spec fn wf(&self) -> bool {
        &&& distinct_keys(package_pairs(self.packages@))
        &&& forall|i: int|
            0 <= i < self.packages@.len() ==> distinct_keys(
                version_pairs(#[trigger] self.packages@[i].versions@),
            )
    }

    /// The empty registry.
    pub fn new() -> (s: State)
        ensures
            s.wf(),
            s@ == Map::<Seq<char>, Map<Seq<char>, Seq<char>>>::empty(),
    {
        let s = State { packages: Vec::new() };
        assert(s@ =~= Map::<Seq<char>, Map<Seq<char>, Seq<char>>>::empty());
        s
    }
}

impl Default for State {
    /// The empty registry.
    fn default() -> (s: State)
        ensures
            s.wf(),
            s@ == Map::<Seq<char>, Map<Seq<char>, Seq<char>>>::empty(),
    {
        State::new()
    }
}

fn find_version(vs: &Vec<VersionRecord>, version: &str) -> (r: Option<usize>)
    ensures
        match r {
            Some(i) => i < vs.len() && vs@[i as int].version@ == version@,
            None => !has_key(version_pairs(vs@), version@),
        },
{
    let mut i: usize = 0;
    while i < vs.len()
        invariant
            i <= vs.len(),
            forall|j: int| 0 <= j < i ==> (#[trigger] version_pairs(vs@)[j]).0 != version@,
        decreases vs.len() - i,
    {
        if str_eq(vs[i].version.as_str(), version) {
            return Some(i);
        }
        i += 1;
    }
    None
}

fn find_package(ps: &Vec<PackageRecord>, name: &str) -> (r: Option<usize>)
    ensures
        match r {
            Some(i) => i < ps.len() && ps@[i as int].name@ == name@,
            None => !has_key(package_pairs(ps@), name@),
        },
{
    let mut i: usize = 0;
    while i < ps.len()
        invariant
            i <= ps.len(),
            forall|j: int| 0 <= j < i ==> (#[trigger] package_pairs(ps@)[j]).0 != name@,
        decreases ps.len() - i,
    {
        if str_eq(ps[i].name.as_str(), name) {
            return Some(i);
        }
        i += 1;
    }
    None
}

/// Records that `version` of `package_name` is installed with `checksum`:
/// the package is added where the registry does not know it, and a checksum
/// recorded earlier for the same version is replaced.
pub fn update_state(state: &mut State, package_name: &str, version: &str, checksum: &str)
    requires
        old(state).wf(),
    ensures
        final(state).wf(),
        final(state)@ == registry_update(old(state)@, package_name@, version@, checksum@),
{
    let record = VersionRecord { version: version.to_string(), checksum: checksum.to_string() };
    let ghost ps = state.packages@;
    match find_package(&state.packages, package_name) {
        None => {
            let mut versions: Vec<VersionRecord> = Vec::new();
            versions.push(record);
            let package = PackageRecord { name: package_name.to_string(), versions };
            state.packages.push(package);
            proof {
                let none = Seq::<(Seq<char>, Seq<char>)>::empty();
                assert(version_pairs(package.versions@) =~= none.push((version@, checksum@)));
                lemma_list_map_push(none, version@, checksum@);
                assert(list_map(none) =~= Map::<Seq<char>, Seq<char>>::empty());
                assert(package_pairs(state.packages@) =~= package_pairs(ps).push(
                    (package_name@, versions_map(package.versions@)),
                ));
                lemma_list_map_push(
                    package_pairs(ps),
                    package_name@,
                    versions_map(package.versions@),
                );
                assert forall|i: int| 0 <= i < state.packages@.len() implies distinct_keys(
                    version_pairs(#[trigger] state.packages@[i].versions@),
                ) by {
                    if i < ps.len() {
                        assert(state.packages@[i] == ps[i]);
                    }
                }
            }
        },
        Some(i) => {
            let mut package = state.packages.remove(i);
            let ghost vs = package.versions@;
            proof {
                assert(package == ps[i as int]);
                assert(distinct_keys(version_pairs(ps[i as int].versions@)));
                lemma_key_index(package_pairs(ps), i as int);
            }
            match find_version(&package.versions, version) {
                None => {
                    package.versions.push(record);
                    proof {
                        assert(version_pairs(package.versions@) =~= version_pairs(vs).push(
                            (version@, checksum@),
                        ));
                        lemma_list_map_push(version_pairs(vs), version@, checksum@);
                    }
                },
                Some(j) => {
                    package.versions.set(j, record);
                    proof {
                        assert(version_pairs(package.versions@) =~= version_pairs(vs).update(
                            j as int,
                            (version@, checksum@),
                        ));
                        lemma_list_map_update(version_pairs(vs), j as int, checksum@);
                    }
                },
            }
            state.packages.insert(i, package);
            proof {
                assert(state.packages@ =~= ps.update(i as int, package));
                assert(package_pairs(state.packages@) =~= package_pairs(ps).update(
                    i as int,
                    (package_name@, versions_map(package.versions@)),
                ));
                lemma_list_map_update(
                    package_pairs(ps),
                    i as int,
                    versions_map(package.versions@),
                );
                assert forall|k: int| 0 <= k < state.packages@.len() implies distinct_keys(
                    version_pairs(#[trigger] state.packages@[k].versions@),
                ) by {
                    if k != i {
                        assert(state.packages@[k] == ps[k]);
                    }
                }
            }
        },
    }
}

/// A list of keys stands for the empty map only where it is empty.
pub proof fn lemma_list_map_empty<V>(s: Seq<(Seq<char>, V)>)
    ensures
        list_map(s).is_empty() <==> s.len() == 0,
{
    if s.len() > 0 {
        assert(has_key(s, s[0].0));
        assert(list_map(s).dom().contains(s[0].0));
    } else {
        assert(list_map(s).dom() =~= Set::<Seq<char>>::empty());
    }
}

/// Forgets `version` of `package_name`. A package that is left without a
/// version is dropped from the registry. Where the registry does not know
/// the package, nothing changes.
pub fn remove_version(state: &mut State, package_name: &str, version: &str)
    requires
        old(state).wf(),
    ensures
        final(state).wf(),
        final(state)@ == registry_remove(old(state)@, package_name@, version@),
{
    let ghost ps = state.packages@;
    match find_package(&state.packages, package_name) {
        None => {},
        Some(i) => {
            let mut package = state.packages.remove(i);
            let ghost vs = package.versions@;
            proof {
                assert(package == ps[i as int]);
                assert(distinct_keys(version_pairs(ps[i as int].versions@)));
                lemma_key_index(package_pairs(ps), i as int);
                lemma_list_map_remove(package_pairs(ps), i as int);
                assert(package_pairs(state.packages@) =~= package_pairs(ps).remove(i as int));
                assert forall|k: int| 0 <= k < state.packages@.len() implies distinct_keys(
                    version_pairs(#[trigger] state.packages@[k].versions@),
                ) by {
                    assert(state.packages@[k] == ps[if k < i {
                        k
                    } else {
                        k + 1
                    }]);
                }
            }
            match find_version(&package.versions, version) {
                None => {
                    proof {
                        assert(versions_map(vs).remove(version@) =~= versions_map(vs));
                    }
                },
                Some(j) => {
                    package.versions.remove(j);
                    proof {
                        assert(version_pairs(package.versions@) =~= version_pairs(vs).remove(
                            j as int,
                        ));
                        lemma_list_map_remove(version_pairs(vs), j as int);
                    }
                },
            }
            proof {
                lemma_list_map_empty(version_pairs(package.versions@));
            }
            if package.versions.len() > 0 {
                let ghost rest = state.packages@;
                state.packages.insert(i, package);
                proof {
                    assert(state.packages@ =~= ps.update(i as int, package));
                    assert(package_pairs(state.packages@) =~= package_pairs(ps).update(
                        i as int,
                        (package_name@, versions_map(package.versions@)),
                    ));
                    lemma_list_map_update(
                        package_pairs(ps),
                        i as int,
                        versions_map(package.versions@),
                    );
                    assert forall|k: int| 0 <= k < state.packages@.len() implies distinct_keys(
                        version_pairs(#[trigger] state.packages@[k].versions@),
                    ) by {
                        if k != i {
                            assert(state.packages@[k] == ps[k]);
                        }
                    }
                }
            }
        },
    }
}

impl State {
    /// The checksum recorded for `version` of `package_name`, if any.
    pub fn checksum_of(&self, package_name: &str, version: &str) -> (r: Option<String>)
        requires
            self.wf(),
        ensures
            match r {
                Some(c) => self@.dom().contains(package_name@) && self@[package_name@].dom().contains(
                    version@,
                ) && self@[package_name@][version@] == c@,
                None => !(self@.dom().contains(package_name@)
                    && self@[package_name@].dom().contains(version@)),
            },
    {
        match find_package(&self.packages, package_name) {
            None => None,
            Some(i) => {
                proof {
                    lemma_key_index(package_pairs(self.packages@), i as int);
                }
                match find_version(&self.packages[i].versions, version) {
                    None => None,
                    Some(j) => {
                        proof {
                            lemma_key_index(
                                version_pairs(self.packages@[i as int].versions@),
                                j as int,
                            );
                        }
                        Some(self.packages[i].versions[j].checksum.clone())
                    },
                }
            },
        }
    }
}

/// Where the registry is kept.
pub const STATE_PATH: &'static str = "/var/lib/hpm/state.json";

/// The registry with the package `name` known, without versions where it
/// was not known before.
pub open spec fn with_package(r: Registry, name: Seq<char>) -> Registry {
    if r.dom().contains(name) {
        r
    } else {
        r.insert(name, Map::empty())
    }
}

/// The registry with the package `name` known and the versions `vs`
/// recorded for it one after another.
pub open spec fn with_versions(r: Registry, name: Seq<char>, vs: Seq<(Seq<char>, Seq<char>)>)
    -> Registry
    decreases vs.len(),
{
    if vs.len() == 0 {
        with_package(r, name)
    } else {
        registry_update(with_versions(r, name, vs.drop_last()), name, vs.last().0, vs.last().1)
    }
}

/// The registry that a stored list of packages with their versions stands for.
pub open spec fn registry_from(list: Seq<(Seq<char>, Seq<(Seq<char>, Seq<char>)>)>) -> Registry
    decreases list.len(),
{
    if list.len() == 0 {
        Map::empty()
    } else {
        with_versions(registry_from(list.drop_last()), list.last().0, list.last().1)
    }
}

/// The views of a list of pairs of strings.
pub open spec fn pair_views(v: Seq<(String, String)>) -> Seq<(Seq<char>, Seq<char>)> {
    v.map_values(|p: (String, String)| (p.0@, p.1@))
}

/// The views of a stored list of packages.
pub open spec fn stored_views(v: Seq<(String, Vec<(String, String)>)>) -> Seq<
    (Seq<char>, Seq<(Seq<char>, Seq<char>)>),
> {
    v.map_values(|p: (String, Vec<(String, String)>)| (p.0@, pair_views(p.1@)))
}

impl State {
    /// Makes the package known, without versions where it was not known.
    pub fn add_package(&mut self, package_name: &str)
        requires
            old(self).wf(),
        ensures
            final(self).wf(),
            final(self)@ == with_package(old(self)@, package_name@),
    {
        let ghost ps = self.packages@;
        match find_package(&self.packages, package_name) {
            Some(i) => {
                proof {
                    lemma_key_index(package_pairs(ps), i as int);
                }
            },
            None => {
                let package = PackageRecord { name: package_name.to_string(), versions: Vec::new() };
                self.packages.push(package);
                proof {
                    let none = Seq::<(Seq<char>, Seq<char>)>::empty();
                    assert(version_pairs(package.versions@) =~= none);
                    assert(list_map(none) =~= Map::<Seq<char>, Seq<char>>::empty());
                    assert(package_pairs(self.packages@) =~= package_pairs(ps).push(
                        (package_name@, versions_map(package.versions@)),
                    ));
                    lemma_list_map_push(
                        package_pairs(ps),
                        package_name@,
                        versions_map(package.versions@),
                    );
                    assert forall|i: int| 0 <= i < self.packages@.len() implies distinct_keys(
                        version_pairs(#[trigger] self.packages@[i].versions@),
                    ) by {
                        if i < ps.len() {
                            assert(self.packages@[i] == ps[i]);
                        }
                    }
                }
            },
        }
    }
}

/// Builds the registry from what was read from its file: `None` where
/// there is no file, which stands for the empty registry, else the packages
/// with their versions and checksums as the file lists them.
pub fn load_state(stored: Option<Vec<(String, Vec<(String, String)>)>>) -> (state: State)
    ensures
        state.wf(),
        state@ == match stored {
            Some(list) => registry_from(stored_views(list@)),
            None => Map::<Seq<char>, Map<Seq<char>, Seq<char>>>::empty(),
        },
{
    let mut state = State::new();
    let list = match stored {
        None => {
            return state;
        },
        Some(list) => list,
    };
    let ghost all = stored_views(list@);
    let mut i: usize = 0;
    while i < list.len()
        invariant
            i <= list.len(),
            all == stored_views(list@),
            state.wf(),
            state@ == registry_from(all.take(i as int)),
        decreases list.len() - i,
    {
        let name = list[i].0.as_str();
        let versions = &list[i].1;
        let ghost base = state@;
        let ghost vs = pair_views(versions@);
        state.add_package(name);
        let mut j: usize = 0;
        while j < versions.len()
            invariant
                j <= versions.len(),
                vs == pair_views(versions@),
                state.wf(),
                state@ == with_versions(base, name@, vs.take(j as int)),
            decreases versions.len() - j,
        {
            update_state(&mut state, name, versions[j].0.as_str(), versions[j].1.as_str());
            proof {
                assert(vs.take(j + 1).drop_last() =~= vs.take(j as int));
            }
            j += 1;
        }
        proof {
            assert(vs.take(versions@.len() as int) =~= vs);
            assert(all.take(i + 1).drop_last() =~= all.take(i as int));
        }
        i += 1;
    }
    assert(all.take(list@.len() as int) =~= all);
    state
}

/// The JSON object of one package's versions: each version with its checksum.
pub open spec fn versions_document(vs: Seq<(Seq<char>, Seq<char>)>) -> Seq<char> {
    object(
        vs.map_values(
            |p: (Seq<char>, Seq<char>)| member(json_string_of(p.0), json_string_of(p.1)),
        ),
    )
}

/// The JSON object of the packages: each name with its versions.
pub open spec fn packages_document(ps: Seq<PackageRecord>) -> Seq<char> {
    object(
        ps.map_values(
            |p: PackageRecord|
                member(json_string_of(p.name@), versions_document(version_pairs(p.versions@))),
        ),
    )
}

/// The registry as a JSON document: `{"packages":{..}}`.
pub open spec fn registry_document(ps: Seq<PackageRecord>) -> Seq<char> {
    "{\"packages\":"@ + packages_document(ps) + "}"@
}

fn versions_to_json(vs: &Vec<VersionRecord>) -> (doc: String)
    ensures
        doc@ == versions_document(version_pairs(vs@)),
{
    let ghost wanted = version_pairs(vs@).map_values(
        |p: (Seq<char>, Seq<char>)| member(json_string_of(p.0), json_string_of(p.1)),
    );
    let mut members: Vec<String> = Vec::new();
    let mut i: usize = 0;
    while i < vs.len()
        invariant
            i <= vs.len(),
            views(members@) == wanted.take(i as int),
            wanted == version_pairs(vs@).map_values(
                |p: (Seq<char>, Seq<char>)| member(json_string_of(p.0), json_string_of(p.1)),
            ),
        decreases vs.len() - i,
    {
        let ghost before = views(members@);
        let key = json_quote(vs[i].version.as_str());
        let value = json_quote(vs[i].checksum.as_str());
        let m = frame_member(key.as_str(), value.as_str());
        members.push(m);
        assert(views(members@) =~= before.push(m@));
        assert(wanted.take(i + 1) =~= wanted.take(i as int).push(wanted[i as int]));
        i += 1;
    }
    assert(wanted.take(vs@.len() as int) =~= wanted);
    frame_object(&members)
}

impl State {
    /// The registry as a JSON document, on one line and without spaces.
    pub fn to_json(&self) -> (doc: String)
        ensures
            doc@ == registry_document(self.packages@),
    {
        let ghost wanted = self.packages@.map_values(
            |p: PackageRecord|
                member(json_string_of(p.name@), versions_document(version_pairs(p.versions@))),
        );
        let mut members: Vec<String> = Vec::new();
        let mut i: usize = 0;
        while i < self.packages.len()
            invariant
                i <= self.packages.len(),
                views(members@) == wanted.take(i as int),
                wanted == self.packages@.map_values(
                    |p: PackageRecord|
                        member(
                            json_string_of(p.name@),
                            versions_document(version_pairs(p.versions@)),
                        ),
                ),
            decreases self.packages.len() - i,
        {
            let ghost before = views(members@);
            let key = json_quote(self.packages[i].name.as_str());
            let value = versions_to_json(&self.packages[i].versions);
            let m = frame_member(key.as_str(), value.as_str());
            members.push(m);
            assert(views(members@) =~= before.push(m@));
            assert(wanted.take(i + 1) =~= wanted.take(i as int).push(wanted[i as int]));
            i += 1;
        }
        assert(wanted.take(self.packages@.len() as int) =~= wanted);
        let mut doc = followed_by("{\"packages\":", frame_object(&members).as_str());
        doc.append("}");
        doc
    }
}

/// A step of saving the registry.
#[derive(Clone, Debug, PartialEq, Eq)]
pub enum SaveStep {
    /// Create or truncate `path` and write `content` to it.
    Write { path: String, content: String },
    /// Rename `from` to `to`, replacing `to` in one step.
    Rename { from: String, to: String },
}

/// The mathematical value of a [`SaveStep`].
pub enum SaveStepView {
    Write { path: Seq<char>, content: Seq<char> },
    Rename { from: Seq<char>, to: Seq<char> },
}

impl View for SaveStep {
    type V = SaveStepView;

    open spec fn view(&self) -> SaveStepView {
        match *self {
            SaveStep::Write { path, content } => SaveStepView::Write {
                path: path@,
                content: content@,
            },
            SaveStep::Rename { from, to } => SaveStepView::Rename { from: from@, to: to@ },
        }
    }
}

/// The file beside `path` that a document is written to before it takes
/// `path`'s place.
pub open spec fn temporary_path(path: Seq<char>) -> Seq<char> {
    path + ".tmp"@
}

/// Saving a document at `path`: it is written to a file beside `path`,
/// which then takes `path`'s place.
pub open spec fn save_plan(path: Seq<char>, document: Seq<char>) -> Seq<SaveStepView> {
    seq![
        SaveStepView::Write { path: temporary_path(path), content: document },
        SaveStepView::Rename { from: temporary_path(path), to: path },
    ]
}

/// Plans the saving of the registry: its document is written to a file
/// beside the registry's, which then takes the registry's place.
pub fn save_state(state: &State) -> (plan: Vec<SaveStep>)
    ensures
        plan@.map_values(|s: SaveStep| s@) == save_plan(
            STATE_PATH@,
            registry_document(state.packages@),
        ),
{
    let mut plan: Vec<SaveStep> = Vec::new();
    plan.push(SaveStep::Write { path: followed_by(STATE_PATH, ".tmp"), content: state.to_json() });
    plan.push(SaveStep::Rename { from: followed_by(STATE_PATH, ".tmp"), to: STATE_PATH.to_string() });
    assert(plan@.map_values(|s: SaveStep| s@) =~= save_plan(
        STATE_PATH@,
        registry_document(state.packages@),
    ));
    plan
}

/// The files that saving touches: path to content.
pub type Files = Map<Seq<char>, Seq<char>>;

/// The files after a step of saving was carried out in full.
pub open spec fn after_step(files: Files, step: SaveStepView) -> Files {
    match step {
        SaveStepView::Write { path, content } => files.insert(path, content),
        SaveStepView::Rename { from, to } => if files.dom().contains(from) {
            files.insert(to, files[from]).remove(from)
        } else {
            files
        },
    }
}

/// Whether `seen` can be found on disk while a step of saving is under way:
/// a file that is being written may hold anything; a rename has happened or
/// has not, and leaves nothing in between.
pub open spec fn seen_during(files: Files, step: SaveStepView, seen: Files) -> bool {
    match step {
        SaveStepView::Write { path, content } => exists|partial: Seq<char>|
            seen == files.insert(path, partial),
        SaveStepView::Rename { from, to } => false,
    }
}

/// Whether `seen` can be found on disk when the carrying out of `plan` is
/// cut short at any point, or is not.
pub open spec fn seen_on_crash(files: Files, plan: Seq<SaveStepView>, seen: Files) -> bool
    decreases plan.len(),
{
    seen == files || (plan.len() > 0 && (seen_during(files, plan[0], seen) || seen_on_crash(
        after_step(files, plan[0]),
        plan.drop_first(),
        seen,
    )))
}

/// Saving is all or nothing: whenever the saving of `document` at `path`
/// is cut short, `path` holds what it held before or holds `document`, and
/// is missing only where it was missing before.
pub proof fn lemma_save_all_or_nothing(
    files: Files,
    path: Seq<char>,
    document: Seq<char>,
    seen: Files,
)
    requires
        seen_on_crash(files, save_plan(path, document), seen),
    ensures
        seen.dom().contains(path) ==> seen[path] == document || (files.dom().contains(path)
            && seen[path] == files[path]),
        !seen.dom().contains(path) ==> !files.dom().contains(path),
{
    reveal_strlit(".tmp");
    let tmp = temporary_path(path);
    assert(tmp.len() == path.len() + 4);
    assert(tmp != path);
    let plan = save_plan(path, document);
    let write = plan[0];
    let rename = plan[1];
    let written = after_step(files, write);
    let renamed = after_step(written, rename);
    assert(plan.drop_first().drop_first().len() == 0);
    assert(plan.drop_first()[0] == rename);
    reveal_with_fuel(seen_on_crash, 3);
    if seen == files {
    } else if seen_during(files, write, seen) {
    } else if seen == written {
    } else {
        assert(seen == renamed);
        assert(written.dom().contains(tmp));
    }
}

/// Whether every package of the registry has a version.
pub open spec fn no_empty_package(r: Registry) -> bool {
    forall|n: Seq<char>| r.dom().contains(n) ==> !(#[trigger] r[n]).is_empty()
}

/// After a version was recorded, the registry gives its checksum, and says
/// of every other package what it said before.
pub proof fn lemma_update_records(
    r: Registry,
    name: Seq<char>,
    version: Seq<char>,
    checksum: Seq<char>,
    other: Seq<char>,
)
    requires
        other != name,
    ensures
        registry_update(r, name, version, checksum).dom().contains(name),
        registry_update(r, name, version, checksum)[name].dom().contains(version),
        registry_update(r, name, version, checksum)[name][version] == checksum,
        registry_update(r, name, version, checksum).dom().contains(other) == r.dom().contains(
            other,
        ),
        r.dom().contains(other) ==> registry_update(r, name, version, checksum)[other] == r[other],
{
}

/// Forgetting the only version of a package drops the package.
pub proof fn lemma_last_version_takes_package(r: Registry, name: Seq<char>, version: Seq<char>)
    requires
        r.dom().contains(name),
        forall|v: Seq<char>| r[name].dom().contains(v) ==> v == version,
    ensures
        !registry_remove(r, name, version).dom().contains(name),
        forall|other: Seq<char>|
            other != name ==> registry_remove(r, name, version).dom().contains(other)
                == r.dom().contains(other),
{
    assert(r[name].remove(version).dom() =~= Set::<Seq<char>>::empty());
}

/// Recording a version of an unknown package and forgetting it again
/// leaves the registry as it was.
pub proof fn lemma_update_then_remove(
    r: Registry,
    name: Seq<char>,
    version: Seq<char>,
    checksum: Seq<char>,
)
    requires
        !r.dom().contains(name),
    ensures
        registry_remove(registry_update(r, name, version, checksum), name, version) == r,
{
    let updated = registry_update(r, name, version, checksum);
    assert(updated[name].remove(version).dom() =~= Set::<Seq<char>>::empty());
    assert(updated.remove(name) =~= r);
}

/// Recording and forgetting versions never leaves a package without one.
pub proof fn lemma_no_empty_package_kept(
    r: Registry,
    name: Seq<char>,
    version: Seq<char>,
    checksum: Seq<char>,
)
    requires
        no_empty_package(r),
    ensures
        no_empty_package(registry_update(r, name, version, checksum)),
        no_empty_package(registry_remove(r, name, version)),
{
    let updated = registry_update(r, name, version, checksum);
    assert forall|n: Seq<char>| updated.dom().contains(n) implies !(#[trigger] updated[n]).is_empty() by {
        if n == name {
            assert(updated[n].dom().contains(version));
        } else {
            assert(updated[n] == r[n]);
        }
    }
    let removed = registry_remove(r, name, version);
    assert forall|n: Seq<char>| removed.dom().contains(n) implies !(#[trigger] removed[n]).is_empty() by {
        if n != name {
            assert(removed[n] == r[n]);
        }
    }
}

} // verus!
