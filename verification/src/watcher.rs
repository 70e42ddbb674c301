//! Shared resource state: workspaces and pro instances, refreshed
//! periodically from the external CLI, and the incremental diffing that
//! drives menu updates.
//!
//! The periodic loops themselves run outside the library; they hand the
//! freshly listed entities in and carry the computed differences and
//! supervisor actions out.

use vstd::prelude::*;
use crate::{DaemonStatus};
use crate::supervisor::Daemon;

verus! {

/// Capability a pro instance must expose for a daemon to be supervised.
pub const CAPABILITY_DAEMON: &'static str = "daemon";

/// An entity with a stable identity, used for diffing collections.
pub trait Identifiable {
    /// The identity at the specification level.
    spec fn spec_id(&self) -> Seq<char>;

    /// The identity of this entity.
    fn id(&self) -> (r: String)
        ensures
            r@ == self.spec_id(),
    ;
}

/// Whether some element of `s` has identity `id`.
pub open spec fn has_id<T: Identifiable>(s: Seq<T>, id: Seq<char>) -> bool {
    exists|i: int| 0 <= i < s.len() && s[i].spec_id() == id
}

/// The first index at or after `i` whose element has identity `id`.
pub open spec fn spec_find_id<T: Identifiable>(s: Seq<T>, id: Seq<char>, i: int) -> Option<int>
    decreases s.len() - i when 0 <= i <= s.len()
{
    if i >= s.len() {
        None
    } else if s[i].spec_id() == id {
        Some(i)
    } else {
        spec_find_id(s, id, i + 1)
    }
}

pub proof fn lemma_find_id<T: Identifiable>(s: Seq<T>, id: Seq<char>, i: int)
    requires
        0 <= i <= s.len(),
    ensures
        match spec_find_id(s, id, i) {
            Some(j) => i <= j < s.len() && s[j].spec_id() == id && forall|k: int|
                i <= k < j ==> s[k].spec_id() != id,
            None => forall|k: int| i <= k < s.len() ==> s[k].spec_id() != id,
        },
    decreases s.len() - i,
{
    if i < s.len() && s[i].spec_id() != id {
        lemma_find_id(s, id, i + 1);
    }
}

/// Two collections whose elements agree pairwise on identity are searched
/// alike.
pub proof fn lemma_find_id_congruent<T: Identifiable>(a: Seq<T>, b: Seq<T>, id: Seq<char>, i: int)
    requires
        a.len() == b.len(),
        forall|k: int| 0 <= k < a.len() ==> a[k].spec_id() == b[k].spec_id(),
        0 <= i <= a.len(),
    ensures
        spec_find_id(a, id, i) == spec_find_id(b, id, i),
    decreases a.len() - i,
{
    if i < a.len() && a[i].spec_id() != id {
        lemma_find_id_congruent(a, b, id, i + 1);
    }
}

/// Whether some element of `items` has identity `id`.
pub fn contains_id<T: Identifiable>(items: &Vec<T>, id: &String) -> (r: bool)
    ensures
        r == has_id(items@, id@),
{
    let mut i: usize = 0;
    while i < items.len()
        invariant
            0 <= i <= items@.len(),
            forall|j: int| 0 <= j < i ==> items@[j].spec_id() != id@,
        decreases items@.len() - i,
    {
        let item_id = items[i].id();
        if item_id == *id {
            return true;
        }
        i = i + 1;
    }
    false
}

/// What `diff` computes: `removed` lists, in order, exactly the positions
/// of old elements whose identity is absent from the new collection, and
/// `added` exactly the positions of new elements whose identity is absent
/// from the old one.
pub open spec fn diff_post<T: Identifiable>(
    olds: Seq<T>,
    news: Seq<T>,
    removed: Seq<usize>,
    added: Seq<usize>,
) -> bool {
    &&& forall|a: int, b: int| 0 <= a < b < removed.len() ==> removed[a] < removed[b]
    &&& forall|a: int|
        0 <= a < removed.len() ==> removed[a] < olds.len() && !has_id(
            news,
            olds[removed[a] as int].spec_id(),
        )
    &&& forall|i: int|
        0 <= i < olds.len() && !has_id(news, olds[i].spec_id()) ==> removed.contains(i as usize)
    &&& forall|a: int, b: int| 0 <= a < b < added.len() ==> added[a] < added[b]
    &&& forall|a: int|
        0 <= a < added.len() ==> added[a] < news.len() && !has_id(
            olds,
            news[added[a] as int].spec_id(),
        )
    &&& forall|i: int|
        0 <= i < news.len() && !has_id(olds, news[i].spec_id()) ==> added.contains(i as usize)
}

/// The symmetric difference of two collections by identity: the positions
/// of removed entries in the old collection and of added entries in the
/// new one, each in ascending order.
pub fn diff<T: Identifiable>(old_items: &Vec<T>, new_items: &Vec<T>) -> (r: (Vec<usize>, Vec<
    usize,
>))
    ensures
        diff_post(old_items@, new_items@, r.0@, r.1@),
{
    let mut removed: Vec<usize> = Vec::new();
    let mut i: usize = 0;
    while i < old_items.len()
        invariant
            0 <= i <= old_items@.len(),
            forall|a: int, b: int| 0 <= a < b < removed@.len() ==> removed@[a] < removed@[b],
            forall|a: int|
                0 <= a < removed@.len() ==> (removed@[a] as int) < i && !has_id(
                    new_items@,
                    old_items@[removed@[a] as int].spec_id(),
                ),
            forall|j: int|
                0 <= j < i && !has_id(new_items@, old_items@[j].spec_id()) ==> removed@.contains(
                    j as usize,
                ),
        decreases old_items@.len() - i,
    {
        let id = old_items[i].id();
        if !contains_id(new_items, &id) {
            let ghost pre = removed@;
            removed.push(i);
            proof {
                assert forall|j: int|
                    0 <= j < i + 1 && !has_id(new_items@, old_items@[j].spec_id())
                        implies removed@.contains(j as usize) by {
                    if j < i {
                        let w = choose|w: int| 0 <= w < pre.len() && pre[w] == j as usize;
                        assert(removed@[w] == j as usize);
                    } else {
                        assert(removed@[removed@.len() - 1] == i as usize);
                    }
                }
            }
        }
        i = i + 1;
    }
    let mut added: Vec<usize> = Vec::new();
    let mut k: usize = 0;
    while k < new_items.len()
        invariant
            0 <= k <= new_items@.len(),
            forall|a: int, b: int| 0 <= a < b < added@.len() ==> added@[a] < added@[b],
            forall|a: int|
                0 <= a < added@.len() ==> (added@[a] as int) < k && !has_id(
                    old_items@,
                    new_items@[added@[a] as int].spec_id(),
                ),
            forall|j: int|
                0 <= j < k && !has_id(old_items@, new_items@[j].spec_id()) ==> added@.contains(
                    j as usize,
                ),
        decreases new_items@.len() - k,
    {
        let id = new_items[k].id();
        if !contains_id(old_items, &id) {
            let ghost pre = added@;
            added.push(k);
            proof {
                assert forall|j: int|
                    0 <= j < k + 1 && !has_id(old_items@, new_items@[j].spec_id())
                        implies added@.contains(j as usize) by {
                    if j < k {
                        let w = choose|w: int| 0 <= w < pre.len() && pre[w] == j as usize;
                        assert(added@[w] == j as usize);
                    } else {
                        assert(added@[added@.len() - 1] == k as usize);
                    }
                }
            }
        }
        k = k + 1;
    }
    (removed, added)
}

/// Diffing a collection against itself removes nothing and adds nothing.
pub proof fn lemma_diff_self<T: Identifiable>(items: Seq<T>, removed: Seq<usize>, added: Seq<usize>)
    requires
        diff_post(items, items, removed, added),
    ensures
        removed == Seq::<usize>::empty(),
        added == Seq::<usize>::empty(),
{
    if removed.len() > 0 {
        let i = removed[0] as int;
        assert(0 <= i < items.len() && !has_id(items, items[i].spec_id()));
        assert(has_id(items, items[i].spec_id()));
    }
    if added.len() > 0 {
        let i = added[0] as int;
        assert(0 <= i < items.len() && !has_id(items, items[i].spec_id()));
        assert(has_id(items, items[i].spec_id()));
    }
    assert(removed =~= Seq::<usize>::empty());
    assert(added =~= Seq::<usize>::empty());
}

/// A workspace, as listed by the external CLI; its id is its identity.
#[derive(Debug, Clone)]
pub struct Workspace {
    pub id: String,
}

impl Identifiable for Workspace {
    open spec fn spec_id(&self) -> Seq<char> {
        self.id@
    }

    fn id(&self) -> (r: String)
        ensures
            r@ == self.spec_id(),
    {
        self.id.clone()
    }
}

impl PartialEq for Workspace {
    /// Workspaces are compared by id alone.
    fn eq(&self, other: &Self) -> (r: bool) {
        self.id == other.id
    }
}

impl vstd::std_specs::cmp::PartialEqSpecImpl for Workspace {
    open spec fn obeys_eq_spec() -> bool {
        true
    }

    open spec fn eq_spec(&self, other: &Self) -> bool {
        self.id@ == other.id@
    }
}

/// A pro instance, as listed by the external CLI; its host is its
/// identity. The daemon supervisor, when one exists, survives refreshes.
pub struct ProInstance {
    pub host: String,
    pub provider: Option<String>,
    pub context: Option<String>,
    pub capabilities: Option<Vec<String>>,
    pub daemon: Option<Daemon>,
}

impl Identifiable for ProInstance {
    open spec fn spec_id(&self) -> Seq<char> {
        self.host@
    }

    fn id(&self) -> (r: String)
        ensures
            r@ == self.spec_id(),
    {
        self.host.clone()
    }
}

impl PartialEq for ProInstance {
    /// Pro instances are compared by host alone.
    fn eq(&self, other: &Self) -> (r: bool) {
        self.host == other.host
    }
}

impl vstd::std_specs::cmp::PartialEqSpecImpl for ProInstance {
    open spec fn obeys_eq_spec() -> bool {
        true
    }

    open spec fn eq_spec(&self, other: &Self) -> bool {
        self.host@ == other.host@
    }
}

/// Whether an instance's capability list names the given capability.
pub open spec fn spec_has_capability(inst: ProInstance, capability: Seq<char>) -> bool {
    inst.capabilities is Some && exists|i: int|
        0 <= i < inst.capabilities->0@.len() && #[trigger] inst.capabilities->0@[i]@ == capability
}

impl ProInstance {
    /// Whether this instance exposes the given capability.
    pub fn has_capability(&self, capability: String) -> (r: bool)
        ensures
            r == spec_has_capability(*self, capability@),
    {
        match &self.capabilities {
            Some(caps) => {
                let mut i: usize = 0;
                while i < caps.len()
                    invariant
                        0 <= i <= caps@.len(),
                        self.capabilities == Some(*caps),
                        forall|j: int| 0 <= j < i ==> #[trigger] caps@[j]@ != capability@,
                    decreases caps@.len() - i,
                {
                    if caps[i] == capability {
                        proof {
                            let wi = i as int;
                            assert(self.capabilities->0 == *caps);
                            assert(0 <= wi < self.capabilities->0@.len()
                                && self.capabilities->0@[wi]@ == capability@);
                            assert(spec_has_capability(*self, capability@));
                        }
                        return true;
                    }
                    i = i + 1;
                }
                false
            },
            None => false,
        }
    }

    /// The daemon supervisor of this instance, if one was created.
    pub fn daemon(&self) -> (r: &Option<Daemon>)
        ensures
            r == self.daemon,
    {
        &self.daemon
    }
}

/// An instance after a refresh: the freshly listed entry, carrying over
/// the supervisor of the old entry with the same host, if there was one.
pub open spec fn spec_migrated(olds: Seq<ProInstance>, fresh: ProInstance) -> ProInstance {
    match spec_find_id(olds, fresh.host@, 0) {
        Some(m) => ProInstance { daemon: olds[m].daemon, ..fresh },
        None => fresh,
    }
}

/// Carries the supervisors of the old instance list over onto the freshly
/// listed instances, matching by host, so that retry state, notification
/// state and live children survive a refresh. Hosts are unique in a
/// listing.
pub fn migrate_daemons(old_list: Vec<ProInstance>, new_list: Vec<ProInstance>) -> (r: Vec<
    ProInstance,
>)
    requires
        forall|k1: int, k2: int|
            0 <= k1 < k2 < new_list@.len() ==> new_list@[k1].host@ != new_list@[k2].host@,
    ensures
        r@.len() == new_list@.len(),
        forall|k: int| 0 <= k < r@.len() ==> r@[k] == spec_migrated(old_list@, new_list@[k]),
{
    let ghost old0 = old_list@;
    let ghost new0 = new_list@;
    let mut olds = old_list;
    let mut news = new_list;
    let mut out: Vec<ProInstance> = Vec::new();
    proof {
        assert(news@ =~= new0.skip(0));
    }
    while news.len() > 0
        invariant
            out@.len() + news@.len() == new0.len(),
            news@ =~= new0.skip(out@.len() as int),
            forall|k1: int, k2: int| 0 <= k1 < k2 < new0.len() ==> new0[k1].host@ != new0[k2].host@,
            olds@.len() == old0.len(),
            forall|m: int| 0 <= m < old0.len() ==> olds@[m].spec_id() == old0[m].spec_id(),
            forall|m: int|
                0 <= m < old0.len() ==> (olds@[m].daemon == old0[m].daemon || exists|j: int|
                    0 <= j < out@.len() && spec_find_id(old0, new0[j].host@, 0) == Some(m)),
            forall|k: int| 0 <= k < out@.len() ==> out@[k] == spec_migrated(old0, new0[k]),
        decreases news@.len(),
    {
        let ghost k = out@.len() as int;
        let fresh = news.remove(0);
        proof {
            assert(fresh == new0[k]);
            assert(news@ =~= new0.skip(k + 1));
            lemma_find_id_congruent(olds@, old0, fresh.host@, 0);
            lemma_find_id(old0, fresh.host@, 0);
        }
        let m = find_id_index(&olds, &fresh.host);
        let migrated = match m {
            Some(m) => {
                // the old slot keeps its identity but gives up its daemon
                let mut tmp = ProInstance {
                    host: fresh.host.clone(),
                    provider: None,
                    context: None,
                    capabilities: None,
                    daemon: None,
                };
                vstd::pervasive::VecAdditionalExecFns::set_and_swap(&mut olds, m, &mut tmp);
                proof {
                    // this slot still holds its daemon: it was never
                    // matched before, since hosts are unique
                    assert forall|j: int|
                        0 <= j < k implies spec_find_id(old0, new0[j].host@, 0) != Some(
                        m as int,
                    ) by {
                        lemma_find_id(old0, new0[j].host@, 0);
                    }
                    assert(tmp.daemon == old0[m as int].daemon);
                }
                let taken = ProInstance { daemon: None, ..tmp };
                let daemon = tmp.daemon;
                let out_inst = ProInstance { daemon, ..fresh };
                proof {
                    assert(out_inst == spec_migrated(old0, new0[k]));
                }
                let mut put_back = taken;
                vstd::pervasive::VecAdditionalExecFns::set_and_swap(&mut olds, m, &mut put_back);
                out_inst
            },
            None => fresh,
        };
        out.push(migrated);
        proof {
            assert(out@.len() == k + 1);
            assert(forall|j: int| 0 <= j < k ==> out@[j] == spec_migrated(old0, new0[j]));
        }
    }
    proof {
        assert(out@.len() == new0.len());
    }
    out
}

/// The first index in `items` whose element has the given identity.
pub fn find_id_index<T: Identifiable>(items: &Vec<T>, id: &String) -> (r: Option<usize>)
    ensures
        match r {
            Some(i) => spec_find_id(items@, id@, 0) == Some(i as int),
            None => spec_find_id(items@, id@, 0) is None,
        },
{
    let mut i: usize = 0;
    while i < items.len()
        invariant
            0 <= i <= items@.len(),
            spec_find_id(items@, id@, 0) == spec_find_id(items@, id@, i as int),
        decreases items@.len() - i,
    {
        let item_id = items[i].id();
        if item_id == *id {
            return Some(i);
        }
        i = i + 1;
    }
    None
}

/// The workspaces as last refreshed.
pub struct WorkspacesState {
    pub workspaces: Vec<Workspace>,
}

impl WorkspacesState {
    /// Prefix of every workspace menu identifier.
    pub const IDENTIFIER_PREFIX: &'static str = "workspaces-";

    /// Menu identifier of the entry that creates a workspace.
    pub const CREATE_WORKSPACE_ID: &'static str = "workspaces-create_workspace";

    pub fn new() -> (r: Self)
        ensures
            r.workspaces@.len() == 0,
    {
        WorkspacesState { workspaces: Vec::new() }
    }

    /// The menu identifier of a workspace: the common prefix, then its id.
    pub fn item_id(id: &String) -> (r: String)
        ensures
            r@ == "workspaces-"@ + id@,
    {
        String::from_str("workspaces-").concat(id.as_str())
    }
}

/// The pro instances as last refreshed, and whether all their daemons were
/// ready after the last supervision pass.
pub struct ProState {
    pub instances: Vec<ProInstance>,
    pub all_ready: bool,
}

impl ProState {
    /// Prefix of every pro-instance menu identifier.
    pub const IDENTIFIER_PREFIX: &'static str = "pro-instances-";

    pub fn new() -> (r: Self)
        ensures
            r.instances@.len() == 0,
            r.all_ready == false,
    {
        ProState { instances: Vec::new(), all_ready: false }
    }

    /// The menu identifier of a pro instance: the common prefix, then its
    /// host.
    pub fn item_id(id: &String) -> (r: String)
        ensures
            r@ == "pro-instances-"@ + id@,
    {
        String::from_str("pro-instances-").concat(id.as_str())
    }

    /// The first instance with the given id, if any.
    pub fn find_instance(&self, pro_id: String) -> (r: Option<&ProInstance>)
        ensures
            match r {
                Some(p) => exists|i: int|
                    spec_find_id(self.instances@, pro_id@, 0) == Some(i) && *p
                        == self.instances@[i],
                None => spec_find_id(self.instances@, pro_id@, 0) is None,
            },
    {
        match find_id_index(&self.instances, &pro_id) {
            Some(i) => {
                proof {
                    lemma_find_id(self.instances@, pro_id@, 0);
                }
                Some(&self.instances[i])
            },
            None => None,
        }
    }

    /// Records the readiness of the last pass; reports whether it flipped,
    /// so the caller can refresh the global indicator exactly on changes.
    pub fn update_all_ready(&mut self, all_ready: bool) -> (changed: bool)
        ensures
            changed == (old(self).all_ready != all_ready),
            final(self).all_ready == all_ready,
            final(self).instances == old(self).instances,
    {
        let changed = self.all_ready != all_ready;
        self.all_ready = all_ready;
        changed
    }

    /// Stops the daemon of the given instance: its child is no longer
    /// tracked, its status reverts to the default, and the instance itself
    /// stays in the collection; the watcher loop will respawn on its next
    /// tick. Returns the child to kill where the instance and its daemon
    /// exist (`Some(..)`), and nothing when either is missing.
    pub fn stop_daemon(&mut self, pro_id: &String) -> (r: Option<Option<u64>>)
        ensures
            final(self).all_ready == old(self).all_ready,
            final(self).instances@.len() == old(self).instances@.len(),
            forall|k: int|
                0 <= k < final(self).instances@.len() ==> final(self).instances@[k].host
                    == old(self).instances@[k].host,
            match spec_find_id(old(self).instances@, pro_id@, 0) {
                None => r is None && final(self).instances@ == old(self).instances@,
                Some(i) => match old(self).instances@[i].daemon {
                    None => r is None && final(self).instances@ == old(self).instances@,
                    Some(d) => {
                        &&& r == Some(d.child)
                        &&& final(self).instances@ == old(self).instances@.update(
                            i,
                            ProInstance {
                                daemon: Some(
                                    Daemon {
                                        child: None,
                                        status: DaemonStatus::spec_default(),
                                        ..d
                                    },
                                ),
                                ..old(self).instances@[i]
                            },
                        )
                    },
                },
            },
    {
        let idx = match find_id_index(&self.instances, pro_id) {
            Some(i) => i,
            None => {
                return None;
            },
        };
        proof {
            lemma_find_id(self.instances@, pro_id@, 0);
        }
        // lift the instance out, stop its daemon, and put it back
        let mut tmp = ProInstance {
            host: String::new(),
            provider: None,
            context: None,
            capabilities: None,
            daemon: None,
        };
        vstd::pervasive::VecAdditionalExecFns::set_and_swap(&mut self.instances, idx, &mut tmp);
        let killed = match &mut tmp.daemon {
            Some(d) => Some(d.try_stop()),
            None => None,
        };
        let mut put_back = tmp;
        vstd::pervasive::VecAdditionalExecFns::set_and_swap(
            &mut self.instances,
            idx,
            &mut put_back,
        );
        if killed.is_none() {
            proof {
                assert(final(self).instances@ =~= old(self).instances@);
            }
        }
        killed
    }
}

} // verus!
