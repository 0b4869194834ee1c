//! Load order and dependency validation of loaded plugins.
//!
//! Plugins are arranged so that each comes after every other loaded plugin it
//! names as a dependency; among plugins that are ready at the same time the
//! one loaded first comes first. Then every plugin's version and every
//! dependency requirement are checked.
use vstd::prelude::*;
use vstd::multiset::Multiset;
use crate::metadata::{
    dependency_is_optional, dependency_requirement, PluginMetadataDependency, PluginMetadataV0,
};
use crate::version::{game_id, GameInfo};
use crate::versioning::{
    semver_requirement_matches, semver_requirement_parses, semver_version_parses, PluginVersion,
    VersionRequirement,
};

verus! {

/// A loaded plugin: what the host keeps of it (its instance and library
/// handle) and its metadata.
pub struct PluginContainer<P> {
    pub plugin: P,
    pub metadata: PluginMetadataV0,
}

/// The loader: the loaded plugins in load order, and the running game.
pub struct CauldronLoader<P> {
    pub plugins: Vec<PluginContainer<P>>,
    pub game: GameInfo,
}

/// Why a set of plugins cannot be started.
#[derive(Debug, Clone)]
pub enum PluginError {
    /// The two plugins named each depend on the other.
    CircularDependency { first: String, second: String },
    /// A plugin's own version is not a semantic version.
    InvalidVersion { plugin: String, version: String },
    /// A dependency's version requirement cannot be read.
    MalformedRequirement { plugin: String, requirement: String },
    /// The dependency is loaded, but its version does not meet the requirement.
    VersionMismatch { plugin: String, dependency: String, requirement: String },
    /// A required dependency is not loaded.
    MissingDependency { plugin: String, dependency: String, requirement: String },
}

/// `PluginError` with its texts as character sequences.
pub enum PluginFailure {
    CircularDependency { first: Seq<char>, second: Seq<char> },
    InvalidVersion { plugin: Seq<char>, version: Seq<char> },
    MalformedRequirement { plugin: Seq<char>, requirement: Seq<char> },
    VersionMismatch { plugin: Seq<char>, dependency: Seq<char>, requirement: Seq<char> },
    MissingDependency { plugin: Seq<char>, dependency: Seq<char>, requirement: Seq<char> },
}

impl View for PluginError {
    type V = PluginFailure;

    open spec fn view(&self) -> PluginFailure {
        match self {
            PluginError::CircularDependency { first, second } =>
                PluginFailure::CircularDependency { first: first@, second: second@ },
            PluginError::InvalidVersion { plugin, version } =>
                PluginFailure::InvalidVersion { plugin: plugin@, version: version@ },
            PluginError::MalformedRequirement { plugin, requirement } =>
                PluginFailure::MalformedRequirement { plugin: plugin@, requirement: requirement@ },
            PluginError::VersionMismatch { plugin, dependency, requirement } =>
                PluginFailure::VersionMismatch {
                    plugin: plugin@,
                    dependency: dependency@,
                    requirement: requirement@,
                },
            PluginError::MissingDependency { plugin, dependency, requirement } =>
                PluginFailure::MissingDependency {
                    plugin: plugin@,
                    dependency: dependency@,
                    requirement: requirement@,
                },
        }
    }
}

/// The identifier of a plugin.
pub open spec fn plugin_id<P>(c: PluginContainer<P>) -> Seq<char> {
    c.metadata.cauldron.id@
}

/// The dependency entries of a plugin's metadata, in table order.
pub open spec fn dependency_entries(m: PluginMetadataV0) -> Seq<(String, PluginMetadataDependency)> {
    match m.cauldron.dependencies {
        Some(d) => d@,
        None => Seq::empty(),
    }
}

/// Whether the metadata names `id` among its dependencies.
pub open spec fn names_dependency(m: PluginMetadataV0, id: Seq<char>) -> bool {
    exists|k: int| 0 <= k < dependency_entries(m).len() && (#[trigger] dependency_entries(m)[k]).0@ == id
}

/// Whether the `i`-th plugin of `s` must come after the `j`-th.
pub open spec fn waits_for<P>(s: Seq<PluginContainer<P>>, i: int, j: int) -> bool {
    i != j && names_dependency(s[i].metadata, plugin_id(s[j]))
}

/// Whether the `i`-th plugin of `s` waits for no other plugin of `s`.
pub open spec fn is_ready<P>(s: Seq<PluginContainer<P>>, i: int) -> bool {
    forall|j: int| 0 <= j < s.len() ==> !waits_for(s, i, j)
}

/// The first ready plugin of `s` at index `i` or later, or `s.len()` if none is.
pub open spec fn first_ready_from<P>(s: Seq<PluginContainer<P>>, i: int) -> int
    decreases s.len() - i,
{
    if i < 0 || i >= s.len() {
        s.len() as int
    } else if is_ready(s, i) {
        i
    } else {
        first_ready_from(s, i + 1)
    }
}

/// The first plugin of `s` at index `j` or later that the `i`-th waits for,
/// or `s.len()` if there is none.
pub open spec fn first_awaited_from<P>(s: Seq<PluginContainer<P>>, i: int, j: int) -> int
    decreases s.len() - j,
{
    if j < 0 || j >= s.len() {
        s.len() as int
    } else if waits_for(s, i, j) {
        j
    } else {
        first_awaited_from(s, i, j + 1)
    }
}

/// Arranges plugins in load order: repeatedly the first plugin that waits for
/// none of the plugins not yet placed is placed next. When no remaining plugin
/// is ready (they wait on one another in cycles), the remaining ones keep
/// their order after those placed, and the first of them is named together
/// with the first plugin it waits for.
pub open spec fn arrange<P>(s: Seq<PluginContainer<P>>) -> (Seq<PluginContainer<P>>, Option<(Seq<char>, Seq<char>)>)
    decreases s.len(),
{
    if s.len() == 0 {
        (s, None)
    } else {
        let i = first_ready_from(s, 0);
        if 0 <= i < s.len() {
            let rest = arrange(s.remove(i));
            (seq![s[i]] + rest.0, rest.1)
        } else {
            (s, Some((plugin_id(s[0]), plugin_id(s[first_awaited_from(s, 0, 0)]))))
        }
    }
}

/// `first_ready_from` finds the first ready plugin at or after `i`.
pub proof fn lemma_first_ready<P>(s: Seq<PluginContainer<P>>, i: int)
    requires
        0 <= i <= s.len(),
    ensures
        i <= first_ready_from(s, i) <= s.len(),
        first_ready_from(s, i) < s.len() ==> is_ready(s, first_ready_from(s, i)),
        forall|q: int| i <= q < first_ready_from(s, i) ==> !#[trigger] is_ready(s, q),
    decreases s.len() - i,
{
    if i < s.len() && !is_ready(s, i) {
        lemma_first_ready(s, i + 1);
    }
}

/// `first_awaited_from` finds the first plugin at or after `j` that plugin `i` waits for.
pub proof fn lemma_first_awaited<P>(s: Seq<PluginContainer<P>>, i: int, j: int)
    requires
        0 <= j <= s.len(),
    ensures
        j <= first_awaited_from(s, i, j) <= s.len(),
        first_awaited_from(s, i, j) < s.len() ==> waits_for(s, i, first_awaited_from(s, i, j)),
        forall|q: int| j <= q < first_awaited_from(s, i, j) ==> !#[trigger] waits_for(s, i, q),
    decreases s.len() - j,
{
    if j < s.len() && !waits_for(s, i, j) {
        lemma_first_awaited(s, i, j + 1);
    }
}

/// A plugin that is not ready waits for some plugin, which `first_awaited_from` finds.
pub proof fn lemma_not_ready_awaits<P>(s: Seq<PluginContainer<P>>, i: int)
    requires
        0 <= i < s.len(),
        !is_ready(s, i),
    ensures
        0 <= first_awaited_from(s, i, 0) < s.len(),
        waits_for(s, i, first_awaited_from(s, i, 0)),
{
    lemma_first_awaited(s, i, 0);
}

/// Arranging plugins neither loses nor adds any: the arrangement holds
/// exactly the plugins it was given.
pub proof fn law_arrange_permutes<P>(s: Seq<PluginContainer<P>>)
    ensures
        arrange(s).0.to_multiset() == s.to_multiset(),
        arrange(s).0.len() == s.len(),
    decreases s.len(),
{
    broadcast use vstd::multiset::group_multiset_axioms;
    broadcast use vstd::seq_lib::group_to_multiset_ensures;

    if s.len() > 0 {
        let i = first_ready_from(s, 0);
        if 0 <= i < s.len() {
            let sub = s.remove(i);
            law_arrange_permutes(sub);
            let rest = arrange(sub).0;
            vstd::seq_lib::lemma_multiset_commutative(seq![s[i]], rest);
            vstd::seq_lib::to_multiset_remove(s, i);
            assert(seq![s[i]].to_multiset() =~= Multiset::empty().insert(s[i])) by {
                vstd::seq_lib::to_multiset_build(Seq::<PluginContainer<P>>::empty(), s[i]);
            }
            assert(s.to_multiset().count(s[i]) > 0) by {
                vstd::seq_lib::to_multiset_contains(s, s[i]);
            }
        }
    }
}

/// When the plugins can be arranged, no plugin comes before a plugin it
/// depends on.
pub proof fn law_arrange_places_dependencies_first<P>(s: Seq<PluginContainer<P>>)
    ensures
        arrange(s).1 is None ==> forall|i: int, j: int|
            0 <= i < j < arrange(s).0.len() ==> !#[trigger] waits_for(arrange(s).0, i, j),
    decreases s.len(),
{
    broadcast use vstd::seq_lib::group_to_multiset_ensures;

    if s.len() > 0 && arrange(s).1 is None {
        let i = first_ready_from(s, 0);
        lemma_first_ready(s, 0);
        let sub = s.remove(i);
        law_arrange_places_dependencies_first(sub);
        law_arrange_permutes(sub);
        let rest = arrange(sub).0;
        let out = arrange(s).0;
        assert forall|a: int, b: int| 0 <= a < b < out.len() implies !#[trigger] waits_for(out, a, b) by {
            if a == 0 {
                let e = rest[b - 1];
                vstd::seq_lib::to_multiset_contains(rest, e);
                vstd::seq_lib::to_multiset_contains(sub, e);
                let q = choose|q: int| 0 <= q < sub.len() && sub[q] == e;
                let qs = if q < i { q } else { q + 1 };
                assert(!waits_for(s, i, qs));
            } else {
                assert(waits_for(out, a, b) == waits_for(rest, a - 1, b - 1));
            }
        }
    }
}

/// Plugins that do not depend on one another keep the order in which they
/// were loaded.
pub proof fn law_arrange_keeps_independent_order<P>(s: Seq<PluginContainer<P>>)
    requires
        forall|i: int, j: int| 0 <= i < s.len() && 0 <= j < s.len() ==> !#[trigger] waits_for(s, i, j),
    ensures
        arrange(s) == (s, None::<(Seq<char>, Seq<char>)>),
    decreases s.len(),
{
    if s.len() > 0 {
        let sub = s.remove(0);
        assert forall|i: int, j: int| 0 <= i < sub.len() && 0 <= j < sub.len() implies !#[trigger] waits_for(sub, i, j) by {
            assert(waits_for(sub, i, j) == waits_for(s, i + 1, j + 1));
        }
        law_arrange_keeps_independent_order(sub);
    }
}

/// Whether `out[k..]` is a non-empty run of plugins each of which depends on
/// another plugin of the run, the first of which is identified by `pair.0`
/// and depends on a plugin of the run identified by `pair.1`.
pub open spec fn is_dependency_cycle<P>(out: Seq<PluginContainer<P>>, k: int, pair: (Seq<char>, Seq<char>)) -> bool {
    let run = out.subrange(k, out.len() as int);
    &&& 0 <= k < out.len()
    &&& forall|i: int| 0 <= i < run.len() ==> !#[trigger] is_ready(run, i)
    &&& pair.0 == plugin_id(run[0])
    &&& exists|j: int| 0 <= j < run.len() && #[trigger] waits_for(run, 0, j) && pair.1 == plugin_id(run[j])
}

/// When some plugins are left unplaced, the arrangement ends in a non-empty
/// run of plugins each of which depends on another plugin of that run: they
/// depend on one another in a cycle. The first plugin named is the first of
/// that run, the second one it depends on.
pub proof fn law_arrange_reports_cycle<P>(s: Seq<PluginContainer<P>>)
    ensures
        arrange(s).1 matches Some(pair) ==> exists|k: int| #[trigger] is_dependency_cycle(arrange(s).0, k, pair),
    decreases s.len(),
{
    if s.len() > 0 && arrange(s).1 is Some {
        let i = first_ready_from(s, 0);
        lemma_first_ready(s, 0);
        let out = arrange(s).0;
        let pair = arrange(s).1.unwrap();
        if 0 <= i < s.len() {
            let sub = s.remove(i);
            law_arrange_reports_cycle(sub);
            let rest = arrange(sub).0;
            let k = choose|k: int| #[trigger] is_dependency_cycle(rest, k, pair);
            assert(out.subrange(k + 1, out.len() as int) =~= rest.subrange(k, rest.len() as int));
            assert(is_dependency_cycle(out, k + 1, pair));
        } else {
            lemma_not_ready_awaits(s, 0);
            assert(out.subrange(0, out.len() as int) =~= s);
            assert(is_dependency_cycle(out, 0, pair));
        }
    }
}

/// Whether `c` is a non-empty set of indices of `s` whose plugins each depend
/// on another plugin of the set: the set holds a dependency cycle.
pub open spec fn depends_among<P>(s: Seq<PluginContainer<P>>, c: Set<int>) -> bool {
    &&& exists|i: int| c.contains(i)
    &&& forall|i: int| #[trigger] c.contains(i) ==> 0 <= i < s.len() && exists|j: int|
        c.contains(j) && #[trigger] waits_for(s, i, j)
}

/// The index in `s` of the plugin at index `x` of `s.remove(i0)`.
pub open spec fn index_before_remove(i0: int, x: int) -> int {
    if x < i0 { x } else { x + 1 }
}

proof fn lemma_waits_after_remove<P>(s: Seq<PluginContainer<P>>, i0: int, x: int, y: int)
    requires
        0 <= i0 < s.len(),
        0 <= x < s.len() - 1,
        0 <= y < s.len() - 1,
    ensures
        waits_for(s.remove(i0), x, y) == waits_for(s, index_before_remove(i0, x), index_before_remove(i0, y)),
{
    assert(s.remove(i0)[x] == s[index_before_remove(i0, x)]);
    assert(s.remove(i0)[y] == s[index_before_remove(i0, y)]);
}

/// The indices in `s.remove(i0)` of the plugins of `c`, where `s` has `n` plugins.
pub open spec fn indices_after_remove(c: Set<int>, i0: int, n: int) -> Set<int> {
    Set::new(|x: int| 0 <= x < n - 1 && c.contains(index_before_remove(i0, x)))
}

proof fn lemma_member_after_remove<P>(s: Seq<PluginContainer<P>>, c: Set<int>, i0: int, x: int)
    requires
        depends_among(s, c),
        0 <= i0 < s.len(),
        !c.contains(i0),
        indices_after_remove(c, i0, s.len() as int).contains(x),
    ensures
        0 <= x < s.len() - 1,
        exists|y: int| indices_after_remove(c, i0, s.len() as int).contains(y) && #[trigger] waits_for(
            s.remove(i0),
            x,
            y,
        ),
{
    let xo = index_before_remove(i0, x);
    assert(c.contains(xo));
    let yo = choose|j: int| c.contains(j) && #[trigger] waits_for(s, xo, j);
    let y = if yo < i0 { yo } else { yo - 1 };
    assert(index_before_remove(i0, y) == yo);
    lemma_waits_after_remove(s, i0, x, y);
    assert(indices_after_remove(c, i0, s.len() as int).contains(y));
}

proof fn lemma_depends_among_after_remove<P>(s: Seq<PluginContainer<P>>, c: Set<int>, i0: int)
    requires
        depends_among(s, c),
        0 <= i0 < s.len(),
        !c.contains(i0),
    ensures
        depends_among(s.remove(i0), indices_after_remove(c, i0, s.len() as int)),
{
    let c2 = indices_after_remove(c, i0, s.len() as int);
    let w = choose|i: int| c.contains(i);
    let w2 = if w < i0 { w } else { w - 1 };
    assert(index_before_remove(i0, w2) == w);
    assert(c2.contains(w2));
    assert forall|x: int| #[trigger] c2.contains(x) implies 0 <= x < s.remove(i0).len() && exists|y: int|
        c2.contains(y) && #[trigger] waits_for(s.remove(i0), x, y) by {
        lemma_member_after_remove(s, c, i0, x);
    }
}

/// Every dependency cycle is found: when some plugins each depend on another
/// of them, arranging leaves plugins unplaced. So plugins without a
/// dependency cycle are always placed in an order where each comes after
/// those it depends on.
pub proof fn law_arrange_reports_every_cycle<P>(s: Seq<PluginContainer<P>>, c: Set<int>)
    requires
        depends_among(s, c),
    ensures
        arrange(s).1 is Some,
    decreases s.len(),
{
    let w = choose|i: int| c.contains(i);
    assert(0 <= w < s.len());
    let i0 = first_ready_from(s, 0);
    lemma_first_ready(s, 0);
    if 0 <= i0 < s.len() {
        assert(!c.contains(i0)) by {
            if c.contains(i0) {
                let j = choose|j: int| c.contains(j) && #[trigger] waits_for(s, i0, j);
                assert(!waits_for(s, i0, j));
            }
        }
        lemma_depends_among_after_remove(s, c, i0);
        law_arrange_reports_every_cycle(s.remove(i0), indices_after_remove(c, i0, s.len() as int));
    }
}

/// An arrangement with `prefix` placed before it.
pub open spec fn after_prefix<P>(
    prefix: Seq<PluginContainer<P>>,
    r: (Seq<PluginContainer<P>>, Option<(Seq<char>, Seq<char>)>),
) -> (Seq<PluginContainer<P>>, Option<(Seq<char>, Seq<char>)>) {
    (prefix + r.0, r.1)
}

/// Whether the metadata `m` names `id` among its dependencies.
fn names_dependency_exec(m: &PluginMetadataV0, id: &String) -> (r: bool)
    ensures
        r == names_dependency(*m, id@),
{
    match &m.cauldron.dependencies {
        None => false,
        Some(deps) => {
            let mut k: usize = 0;
            while k < deps.len()
                invariant
                    m.cauldron.dependencies == Some(*deps),
                    k <= deps.len(),
                    forall|q: int| 0 <= q < k ==> deps@[q].0@ != id@,
                decreases deps.len() - k,
            {
                if deps[k].0 == *id {
                    assert(dependency_entries(*m)[k as int].0@ == id@);
                    return true;
                }
                k = k + 1;
            }
            false
        },
    }
}

/// Whether plugin `j` waits for no plugin among `v[lo..]`.
fn is_ready_among<P>(v: &Vec<PluginContainer<P>>, lo: usize, j: usize) -> (r: bool)
    requires
        lo <= j < v.len(),
    ensures
        r == is_ready(v@.subrange(lo as int, v.len() as int), j - lo),
{
    let ghost s = v@.subrange(lo as int, v.len() as int);
    let mut m: usize = lo;
    while m < v.len()
        invariant
            lo <= j < v.len(),
            lo <= m <= v.len(),
            s == v@.subrange(lo as int, v.len() as int),
            forall|q: int| 0 <= q < m - lo ==> !#[trigger] waits_for(s, j - lo, q),
        decreases v.len() - m,
    {
        if m != j && names_dependency_exec(&v[j].metadata, &v[m].metadata.cauldron.id) {
            assert(waits_for(s, j - lo, m - lo));
            return false;
        }
        m = m + 1;
    }
    true
}

/// The first plugin of `v[lo..]` that is ready among `v[lo..]`, or `v.len()`.
fn first_ready_among<P>(v: &Vec<PluginContainer<P>>, lo: usize) -> (r: usize)
    requires
        lo < v.len(),
    ensures
        lo <= r <= v.len(),
        r - lo == first_ready_from(v@.subrange(lo as int, v.len() as int), 0),
{
    let ghost s = v@.subrange(lo as int, v.len() as int);
    let mut j: usize = lo;
    while j < v.len()
        invariant
            lo <= j <= v.len(),
            s == v@.subrange(lo as int, v.len() as int),
            first_ready_from(s, 0) == first_ready_from(s, j - lo),
        decreases v.len() - j,
    {
        if is_ready_among(v, lo, j) {
            return j;
        }
        j = j + 1;
    }
    j
}

/// The first plugin of `v[lo..]` that plugin `i` waits for, or `v.len()`.
fn first_awaited_among<P>(v: &Vec<PluginContainer<P>>, lo: usize, i: usize) -> (r: usize)
    requires
        lo <= i < v.len(),
    ensures
        lo <= r <= v.len(),
        r - lo == first_awaited_from(v@.subrange(lo as int, v.len() as int), i - lo, 0),
{
    let ghost s = v@.subrange(lo as int, v.len() as int);
    let mut j: usize = lo;
    while j < v.len()
        invariant
            lo <= i < v.len(),
            lo <= j <= v.len(),
            s == v@.subrange(lo as int, v.len() as int),
            first_awaited_from(s, i - lo, 0) == first_awaited_from(s, i - lo, j - lo),
        decreases v.len() - j,
    {
        if j != i && names_dependency_exec(&v[i].metadata, &v[j].metadata.cauldron.id) {
            return j;
        }
        j = j + 1;
    }
    j
}

/// Reorders `plugins` into load order (see `arrange`); returns the identifiers
/// of a plugin and of a plugin it waits for when some plugins wait on one
/// another in a cycle and are left in their order at the end.
pub fn arrange_plugins<P>(plugins: &mut Vec<PluginContainer<P>>) -> (r: Option<(String, String)>)
    ensures
        final(plugins)@ == arrange(old(plugins)@).0,
        r is Some <==> arrange(old(plugins)@).1 is Some,
        r matches Some(p) ==> arrange(old(plugins)@).1 == Some((p.0@, p.1@)),
{
    let ghost orig = plugins@;
    let n = plugins.len();
    let mut k: usize = 0;
    proof {
        assert(plugins@.subrange(0, n as int) =~= plugins@);
    }
    while k < n
        invariant
            orig == old(plugins)@,
            n == plugins.len(),
            k <= n,
            arrange(orig) == after_prefix(
                plugins@.subrange(0, k as int),
                arrange(plugins@.subrange(k as int, n as int)),
            ),
        decreases n - k,
    {
        let ghost rem = plugins@.subrange(k as int, n as int);
        let j = first_ready_among(plugins, k);
        if j == n {
            proof {
                lemma_first_ready(rem, 0);
                lemma_not_ready_awaits(rem, 0);
            }
            let b = first_awaited_among(plugins, k, k);
            let first = plugins[k].metadata.cauldron.id.clone();
            let second = plugins[b].metadata.cauldron.id.clone();
            return Some((first, second));
        }
        let ghost jr = j - k;
        let x = plugins.remove(j);
        plugins.insert(k, x);
        proof {
            assert(plugins@.subrange(k + 1, n as int) =~= rem.remove(jr));
        }
        k = k + 1;
    }
    None
}

/// The version text of the last plugin in `s` identified by `id`, if any:
/// when several plugins share an identifier, the one loaded last counts.
pub open spec fn loaded_version<P>(s: Seq<PluginContainer<P>>, id: Seq<char>) -> Option<Seq<char>>
    decreases s.len(),
{
    if s.len() == 0 {
        None
    } else if plugin_id(s.last()) == id {
        Some(s.last().metadata.cauldron.version@)
    } else {
        loaded_version(s.drop_last(), id)
    }
}

/// The first plugin at index `i` or later whose version `semver` rejects, or `s.len()`.
pub open spec fn first_invalid_version_from<P>(s: Seq<PluginContainer<P>>, i: int) -> int
    decreases s.len() - i,
{
    if i < 0 || i >= s.len() {
        s.len() as int
    } else if !semver_version_parses(s[i].metadata.cauldron.version@) {
        i
    } else {
        first_invalid_version_from(s, i + 1)
    }
}

/// What is wrong, if anything, with the dependency on `name` with requirement
/// `dep` that the plugin `plugin` declares, among the loaded plugins `s` of
/// the game identified by `game`. A dependency on the game itself is not checked.
pub open spec fn dependency_failure<P>(
    s: Seq<PluginContainer<P>>,
    plugin: Seq<char>,
    name: Seq<char>,
    dep: PluginMetadataDependency,
    game: Seq<char>,
) -> Option<PluginFailure> {
    let requirement = dependency_requirement(dep);
    if name == game {
        None
    } else if !semver_requirement_parses(requirement) {
        Some(PluginFailure::MalformedRequirement { plugin, requirement })
    } else {
        match loaded_version(s, name) {
            Some(version) => if semver_requirement_matches(requirement, version) {
                None
            } else {
                Some(PluginFailure::VersionMismatch { plugin, dependency: name, requirement })
            },
            None => if dependency_is_optional(dep) {
                None
            } else {
                Some(PluginFailure::MissingDependency { plugin, dependency: name, requirement })
            },
        }
    }
}

/// The first failing dependency of `m` at entry `k` or later.
pub open spec fn first_dependency_failure_in<P>(
    s: Seq<PluginContainer<P>>,
    m: PluginMetadataV0,
    k: int,
    game: Seq<char>,
) -> Option<PluginFailure>
    decreases dependency_entries(m).len() - k,
{
    if k < 0 || k >= dependency_entries(m).len() {
        None
    } else {
        let entry = dependency_entries(m)[k];
        match dependency_failure(s, m.cauldron.id@, entry.0@, entry.1, game) {
            Some(f) => Some(f),
            None => first_dependency_failure_in(s, m, k + 1, game),
        }
    }
}

/// The first failing dependency of the plugins at index `i` or later.
pub open spec fn first_dependency_failure_from<P>(
    s: Seq<PluginContainer<P>>,
    i: int,
    game: Seq<char>,
) -> Option<PluginFailure>
    decreases s.len() - i,
{
    if i < 0 || i >= s.len() {
        None
    } else {
        match first_dependency_failure_in(s, s[i].metadata, 0, game) {
            Some(f) => Some(f),
            None => first_dependency_failure_from(s, i + 1, game),
        }
    }
}

/// What is wrong with the arranged plugins `s` of the game identified by
/// `game`: first any plugin version `semver` rejects, then, plugin by plugin
/// and entry by entry, any failing dependency.
pub open spec fn validation_failure<P>(s: Seq<PluginContainer<P>>, game: Seq<char>) -> Option<PluginFailure> {
    let i = first_invalid_version_from(s, 0);
    if 0 <= i < s.len() {
        Some(PluginFailure::InvalidVersion {
            plugin: plugin_id(s[i]),
            version: s[i].metadata.cauldron.version@,
        })
    } else {
        first_dependency_failure_from(s, 0, game)
    }
}

/// Whether the `i`-th and the `j`-th plugins of `s` each depend on the other.
pub open spec fn depend_on_each_other<P>(s: Seq<PluginContainer<P>>, i: int, j: int) -> bool {
    waits_for(s, i, j) && waits_for(s, j, i)
}

/// The first `j` from `j` on at which the `i`-th plugin and the `j`-th depend
/// on each other, or `s.len()`.
pub open spec fn first_partner_from<P>(s: Seq<PluginContainer<P>>, i: int, j: int) -> int
    decreases s.len() - j,
{
    if j < 0 || j >= s.len() {
        s.len() as int
    } else if depend_on_each_other(s, i, j) {
        j
    } else {
        first_partner_from(s, i, j + 1)
    }
}

/// The first pair `(i, j)`, `i < j`, with `i` from `i` on, of plugins that
/// depend on each other: by the earlier plugin, then by its partner.
pub open spec fn first_mutual_from<P>(s: Seq<PluginContainer<P>>, i: int) -> Option<(int, int)>
    decreases s.len() - i,
{
    if i < 0 || i >= s.len() {
        None
    } else {
        let j = first_partner_from(s, i, i + 1);
        if j < s.len() {
            Some((i, j))
        } else {
            first_mutual_from(s, i + 1)
        }
    }
}

/// The identifiers of the first two plugins of `s` that depend on each other.
pub open spec fn mutual_dependency<P>(s: Seq<PluginContainer<P>>) -> Option<(Seq<char>, Seq<char>)> {
    match first_mutual_from(s, 0) {
        Some((i, j)) => Some((plugin_id(s[i]), plugin_id(s[j]))),
        None => None,
    }
}

/// The outcome of the check of the plugins `s`: two plugins that depend on
/// each other are refused; otherwise the plugins are arranged and validated.
pub open spec fn plugin_check<P>(s: Seq<PluginContainer<P>>, game: Seq<char>) -> Option<PluginFailure> {
    match mutual_dependency(s) {
        Some(pair) => Some(PluginFailure::CircularDependency { first: pair.0, second: pair.1 }),
        None => validation_failure(arrange(s).0, game),
    }
}

proof fn lemma_first_partner<P>(s: Seq<PluginContainer<P>>, i: int, j: int)
    requires
        0 <= j <= s.len(),
    ensures
        j <= first_partner_from(s, i, j) <= s.len(),
        first_partner_from(s, i, j) < s.len() ==> depend_on_each_other(s, i, first_partner_from(s, i, j)),
        forall|q: int| j <= q < first_partner_from(s, i, j) ==> !#[trigger] depend_on_each_other(s, i, q),
    decreases s.len() - j,
{
    if j < s.len() && !depend_on_each_other(s, i, j) {
        lemma_first_partner(s, i, j + 1);
    }
}

proof fn lemma_first_mutual<P>(s: Seq<PluginContainer<P>>, i: int)
    requires
        0 <= i <= s.len(),
    ensures
        first_mutual_from(s, i) matches Some((a, b)) ==> i <= a < b < s.len() && depend_on_each_other(s, a, b),
        first_mutual_from(s, i) is None ==> forall|a: int, b: int|
            i <= a < b < s.len() ==> !#[trigger] depend_on_each_other(s, a, b),
    decreases s.len() - i,
{
    if i < s.len() {
        lemma_first_partner(s, i, i + 1);
        lemma_first_mutual(s, i + 1);
    }
}

/// A circular dependency is reported exactly when two of the plugins each
/// depend on the other; the two named are such plugins.
pub proof fn law_circular_exactly_on_mutual_dependency<P>(s: Seq<PluginContainer<P>>)
    ensures
        mutual_dependency(s) is None <==> forall|a: int, b: int|
            0 <= a < s.len() && 0 <= b < s.len() ==> !#[trigger] depend_on_each_other(s, a, b),
        mutual_dependency(s) matches Some(pair) ==> exists|a: int, b: int|
            0 <= a < s.len() && 0 <= b < s.len() && #[trigger] depend_on_each_other(s, a, b)
                && pair == (plugin_id(s[a]), plugin_id(s[b])),
{
    lemma_first_mutual(s, 0);
    if mutual_dependency(s) is None {
        assert forall|a: int, b: int| 0 <= a < s.len() && 0 <= b < s.len() implies !#[trigger] depend_on_each_other(
            s,
            a,
            b,
        ) by {
            if a < b {
            } else if b < a {
                assert(!depend_on_each_other(s, b, a));
            }
        }
    } else {
        let (a, b) = first_mutual_from(s, 0).unwrap();
        assert(depend_on_each_other(s, a, b));
    }
}

/// Whether a declared dependency is met: it names the game itself, or its
/// requirement can be read and either the loaded plugin of that identifier
/// meets it, or no such plugin is loaded and the dependency is optional.
pub open spec fn dependency_satisfied<P>(
    s: Seq<PluginContainer<P>>,
    name: Seq<char>,
    dep: PluginMetadataDependency,
    game: Seq<char>,
) -> bool {
    let requirement = dependency_requirement(dep);
    ||| name == game
    ||| semver_requirement_parses(requirement) && match loaded_version(s, name) {
        Some(version) => semver_requirement_matches(requirement, version),
        None => dependency_is_optional(dep),
    }
}

proof fn lemma_first_invalid_version<P>(s: Seq<PluginContainer<P>>, i: int)
    requires
        0 <= i <= s.len(),
    ensures
        i <= first_invalid_version_from(s, i) <= s.len(),
        first_invalid_version_from(s, i) == s.len() <==> forall|q: int|
            i <= q < s.len() ==> semver_version_parses(#[trigger] s[q].metadata.cauldron.version@),
    decreases s.len() - i,
{
    if i < s.len() {
        lemma_first_invalid_version(s, i + 1);
    }
}

proof fn lemma_first_dependency_failure_in<P>(s: Seq<PluginContainer<P>>, m: PluginMetadataV0, k: int, game: Seq<char>)
    requires
        0 <= k <= dependency_entries(m).len(),
    ensures
        first_dependency_failure_in(s, m, k, game) is None <==> forall|q: int|
            k <= q < dependency_entries(m).len() ==> dependency_satisfied(
                s,
                (#[trigger] dependency_entries(m)[q]).0@,
                dependency_entries(m)[q].1,
                game,
            ),
    decreases dependency_entries(m).len() - k,
{
    if k < dependency_entries(m).len() {
        lemma_first_dependency_failure_in(s, m, k + 1, game);
    }
}

proof fn lemma_first_dependency_failure_from<P>(s: Seq<PluginContainer<P>>, i: int, game: Seq<char>)
    requires
        0 <= i <= s.len(),
    ensures
        first_dependency_failure_from(s, i, game) is None <==> forall|p: int, q: int|
            i <= p < s.len() && 0 <= q < dependency_entries(s[p].metadata).len() ==> dependency_satisfied(
                s,
                (#[trigger] dependency_entries(s[p].metadata)[q]).0@,
                dependency_entries(s[p].metadata)[q].1,
                game,
            ),
    decreases s.len() - i,
{
    if i < s.len() {
        lemma_first_dependency_failure_in(s, s[i].metadata, 0, game);
        lemma_first_dependency_failure_from(s, i + 1, game);
    }
}

/// A set of arranged plugins passes validation exactly when every plugin's
/// version is a semantic version and every dependency every plugin declares
/// is met.
pub proof fn law_validation_accepts_exactly<P>(s: Seq<PluginContainer<P>>, game: Seq<char>)
    ensures
        validation_failure(s, game) is None <==> {
            &&& forall|i: int| 0 <= i < s.len() ==> semver_version_parses(#[trigger] s[i].metadata.cauldron.version@)
            &&& forall|p: int, q: int|
                0 <= p < s.len() && 0 <= q < dependency_entries(s[p].metadata).len() ==> dependency_satisfied(
                    s,
                    (#[trigger] dependency_entries(s[p].metadata)[q]).0@,
                    dependency_entries(s[p].metadata)[q].1,
                    game,
                )
        },
{
    lemma_first_invalid_version(s, 0);
    lemma_first_dependency_failure_from(s, 0, game);
}

/// The index of the last plugin identified by `id`.
fn last_plugin_with_id<P>(plugins: &Vec<PluginContainer<P>>, id: &String) -> (r: Option<usize>)
    ensures
        r is None <==> loaded_version(plugins@, id@) is None,
        r matches Some(q) ==> q < plugins.len() && loaded_version(plugins@, id@) == Some(
            plugins@[q as int].metadata.cauldron.version@,
        ),
{
    let mut m: usize = plugins.len();
    proof {
        assert(plugins@.subrange(0, m as int) =~= plugins@);
    }
    while m > 0
        invariant
            m <= plugins.len(),
            loaded_version(plugins@, id@) == loaded_version(plugins@.subrange(0, m as int), id@),
        decreases m,
    {
        let ghost sub = plugins@.subrange(0, m as int);
        assert(sub.drop_last() =~= plugins@.subrange(0, m - 1));
        if plugins[m - 1].metadata.cauldron.id == *id {
            return Some(m - 1);
        }
        m = m - 1;
    }
    None
}

/// Checks one dependency entry; `versions` holds the parsed version of each plugin.
fn check_dependency<P>(
    plugins: &Vec<PluginContainer<P>>,
    versions: &Vec<PluginVersion>,
    plugin: &String,
    name: &String,
    dep: &PluginMetadataDependency,
    game: &String,
) -> (r: Result<(), PluginError>)
    requires
        versions.len() == plugins.len(),
        forall|q: int| 0 <= q < plugins.len() ==> (#[trigger] versions@[q])@ == plugins@[q].metadata.cauldron.version@,
    ensures
        match dependency_failure(plugins@, plugin@, name@, *dep, game@) {
            Some(f) => r matches Err(e) && e@ == f,
            None => r is Ok,
        },
{
    if *name == *game {
        return Ok(());
    }
    let (requirement_text, optional) = match dep {
        PluginMetadataDependency::Plain(v) => (v, false),
        PluginMetadataDependency::Detailed(d) => (&d.version, d.optional),
    };
    let requirement = match VersionRequirement::parse(requirement_text.as_str()) {
        Some(req) => req,
        None => {
            return Err(PluginError::MalformedRequirement {
                plugin: plugin.clone(),
                requirement: requirement_text.clone(),
            });
        },
    };
    match last_plugin_with_id(plugins, name) {
        Some(q) => {
            if requirement.matches(&versions[q]) {
                Ok(())
            } else {
                Err(PluginError::VersionMismatch {
                    plugin: plugin.clone(),
                    dependency: name.clone(),
                    requirement: requirement_text.clone(),
                })
            }
        },
        None => {
            if optional {
                Ok(())
            } else {
                Err(PluginError::MissingDependency {
                    plugin: plugin.clone(),
                    dependency: name.clone(),
                    requirement: requirement_text.clone(),
                })
            }
        },
    }
}

/// Checks the arranged plugins: every version must be a semantic version and
/// every dependency on another plugin must be met (see `validation_failure`).
pub fn validate_plugins<P>(plugins: &Vec<PluginContainer<P>>, game: &String) -> (r: Result<(), PluginError>)
    ensures
        match validation_failure(plugins@, game@) {
            Some(f) => r matches Err(e) && e@ == f,
            None => r is Ok,
        },
{
    let ghost s = plugins@;
    let mut versions: Vec<PluginVersion> = Vec::new();
    let mut i: usize = 0;
    while i < plugins.len()
        invariant
            s == plugins@,
            i <= plugins.len(),
            versions.len() == i,
            forall|q: int| 0 <= q < i ==> (#[trigger] versions@[q])@ == s[q].metadata.cauldron.version@,
            first_invalid_version_from(s, 0) == first_invalid_version_from(s, i as int),
        decreases plugins.len() - i,
    {
        match PluginVersion::parse(plugins[i].metadata.cauldron.version.as_str()) {
            Some(v) => {
                versions.push(v);
            },
            None => {
                return Err(PluginError::InvalidVersion {
                    plugin: plugins[i].metadata.cauldron.id.clone(),
                    version: plugins[i].metadata.cauldron.version.clone(),
                });
            },
        }
        i = i + 1;
    }
    let mut p: usize = 0;
    while p < plugins.len()
        invariant
            s == plugins@,
            p <= plugins.len(),
            versions.len() == plugins.len(),
            forall|q: int| 0 <= q < plugins.len() ==> (#[trigger] versions@[q])@ == s[q].metadata.cauldron.version@,
            first_invalid_version_from(s, 0) == s.len(),
            first_dependency_failure_from(s, 0, game@) == first_dependency_failure_from(s, p as int, game@),
        decreases plugins.len() - p,
    {
        let meta = &plugins[p].metadata;
        match &meta.cauldron.dependencies {
            None => {
            },
            Some(deps) => {
                let mut k: usize = 0;
                while k < deps.len()
                    invariant
                        s == plugins@,
                        p < plugins.len(),
                        *meta == s[p as int].metadata,
                        meta.cauldron.dependencies == Some(*deps),
                        k <= deps.len(),
                        versions.len() == plugins.len(),
                        forall|q: int| 0 <= q < plugins.len() ==> (#[trigger] versions@[q])@ == s[q].metadata.cauldron.version@,
                        first_dependency_failure_in(s, *meta, 0, game@) == first_dependency_failure_in(s, *meta, k as int, game@),
                        first_invalid_version_from(s, 0) == s.len(),
                        first_dependency_failure_from(s, 0, game@) == first_dependency_failure_from(s, p as int, game@),
                    decreases deps.len() - k,
                {
                    let entry = &deps[k];
                    let checked = check_dependency(plugins, &versions, &meta.cauldron.id, &entry.0, &entry.1, game);
                    if checked.is_err() {
                        proof {
                            assert(first_dependency_failure_from(s, p as int, game@)
                                == first_dependency_failure_in(s, *meta, k as int, game@));
                            assert(first_dependency_failure_in(s, *meta, k as int, game@)
                                == dependency_failure(s, meta.cauldron.id@, entry.0@, entry.1, game@));
                        }
                        return checked;
                    }
                    k = k + 1;
                }
            },
        }
        p = p + 1;
    }
    Ok(())
}

/// The identifiers of the first two plugins that depend on each other (see
/// `mutual_dependency`).
pub fn find_mutual_dependency<P>(plugins: &Vec<PluginContainer<P>>) -> (r: Option<(String, String)>)
    ensures
        r is Some <==> mutual_dependency(plugins@) is Some,
        r matches Some(p) ==> mutual_dependency(plugins@) == Some((p.0@, p.1@)),
{
    let ghost s = plugins@;
    let n = plugins.len();
    let mut i: usize = 0;
    while i < n
        invariant
            s == plugins@,
            n == plugins.len(),
            i <= n,
            first_mutual_from(s, 0) == first_mutual_from(s, i as int),
        decreases n - i,
    {
        let mut j: usize = i + 1;
        while j < n
            invariant
                s == plugins@,
                n == plugins.len(),
                i < n,
                i + 1 <= j <= n,
                first_mutual_from(s, 0) == first_mutual_from(s, i as int),
                first_partner_from(s, i as int, i + 1) == first_partner_from(s, i as int, j as int),
            decreases n - j,
        {
            if names_dependency_exec(&plugins[i].metadata, &plugins[j].metadata.cauldron.id)
                && names_dependency_exec(&plugins[j].metadata, &plugins[i].metadata.cauldron.id)
            {
                proof {
                    assert(depend_on_each_other(s, i as int, j as int));
                    assert(first_partner_from(s, i as int, j as int) == j);
                    assert(first_mutual_from(s, i as int) == Some((i as int, j as int)));
                }
                return Some((plugins[i].metadata.cauldron.id.clone(), plugins[j].metadata.cauldron.id.clone()));
            }
            j = j + 1;
        }
        i = i + 1;
    }
    None
}

impl<P> CauldronLoader<P> {
    /// Arranges the loaded plugins in load order and validates them.
    ///
    /// When two plugins each depend on the other, fails with
    /// `CircularDependency` naming the first such pair and leaves the plugins
    /// as they are. Otherwise the plugins are arranged (see `arrange`; plugins
    /// caught in a longer cycle are accepted and left in their order at the
    /// end) and the result is the first problem `validation_failure` names.
    pub fn sort_and_validate_plugins(&mut self) -> (r: Result<(), PluginError>)
        ensures
            final(self).plugins@ == (if mutual_dependency(old(self).plugins@) is Some {
                old(self).plugins@
            } else {
                arrange(old(self).plugins@).0
            }),
            final(self).game == old(self).game,
            match plugin_check(old(self).plugins@, game_id(old(self).game.game_type)) {
                Some(f) => r matches Err(e) && e@ == f,
                None => r is Ok,
            },
    {
        match find_mutual_dependency(&self.plugins) {
            Some((first, second)) => Err(PluginError::CircularDependency { first, second }),
            None => {
                arrange_plugins(&mut self.plugins);
                let game = self.game.game_type.id();
                validate_plugins(&self.plugins, &game)
            },
        }
    }
}

/// Whether entry `k` of the dependency table of `m` names `id`, whatever the
/// entry's requirement and optional flag.
pub open spec fn entry_names(m: PluginMetadataV0, k: int, id: Seq<char>) -> bool {
    match m.cauldron.dependencies {
        Some(d) => 0 <= k < d.len() && d[k].0@ == id,
        None => false,
    }
}

/// Every entry of a plugin's dependency table counts for the load order,
/// optional or not: when all plugins are placed, each plugin comes after
/// every other loaded plugin whose identifier one of its entries names.
pub proof fn law_dependency_entries_load_first<P>(s: Seq<PluginContainer<P>>)
    ensures
        arrange(s).1 is None ==> forall|i: int, j: int, k: int|
            0 <= i < arrange(s).0.len() && 0 <= j < arrange(s).0.len() && i != j && #[trigger] entry_names(
                arrange(s).0[i].metadata,
                k,
                arrange(s).0[j].metadata.cauldron.id@,
            ) ==> j < i,
{
    law_arrange_places_dependencies_first(s);
    let out = arrange(s).0;
    if arrange(s).1 is None {
        assert forall|i: int, j: int, k: int|
            0 <= i < out.len() && 0 <= j < out.len() && i != j && #[trigger] entry_names(
                out[i].metadata,
                k,
                out[j].metadata.cauldron.id@,
            ) implies j < i by {
            assert(dependency_entries(out[i].metadata)[k].0@ == plugin_id(out[j]));
            assert(names_dependency(out[i].metadata, plugin_id(out[j])));
            if j > i {
                assert(waits_for(out, i, j));
            }
        }
    }
}

} // verus!
