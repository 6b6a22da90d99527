//! The registry of deployed functions: at most one entry per function name.
use vstd::prelude::*;
use crate::errors::{FunctionError, DeployError};
use crate::function::{FunctionConfig, RunningFunction};
use crate::container::ContainerRuntimeConfig;

verus! {

/// What the registry holds for one function: its configuration, its
/// container configuration and its container identifiers.
pub type FunctionModel = (FunctionConfig, ContainerRuntimeConfig, Seq<String>);

/// `ids` without any identifier whose text is `id`, order kept.
pub open spec fn ids_without(ids: Seq<String>, id: Seq<char>) -> Seq<String> {
    ids.filter(differs_from(id))
}

/// Holds of an identifier whose text is not `id`.
pub open spec fn differs_from(id: Seq<char>) -> spec_fn(String) -> bool {
    |x: String| x@ != id
}

/// `m` with the container `id` struck from the entry of `name`.
pub open spec fn remove_id_model(m: FunctionModel, id: Seq<char>) -> FunctionModel {
    (m.0, m.1, ids_without(m.2, id))
}

/// The function `name` is deployed and lists container `id`.
pub open spec fn has_container(
    m: Map<Seq<char>, FunctionModel>,
    name: Seq<char>,
    id: String,
) -> bool {
    m.contains_key(name) && m[name].2.contains(id)
}

/// Some pair of `r` names function `name` and container `id`.
pub open spec fn covered(r: Seq<(String, String)>, name: Seq<char>, id: String) -> bool {
    exists|k: int| 0 <= k < r.len() && r[k].0@ == name && r[k].1 == id
}

/// A copy of `ids` without those whose text is `id`, order kept.
pub fn retain_other_ids(ids: &Vec<String>, id: &str) -> (r: Vec<String>)
    ensures
        r@ == ids_without(ids@, id@),
{
    let key = String::from_str(id);
    let mut r: Vec<String> = Vec::new();
    let mut i: usize = 0;
    while i < ids.len()
        invariant
            i <= ids.len(),
            key@ == id@,
            r@ == ids_without(ids@.subrange(0, i as int), id@),
        decreases ids.len() - i,
    {
        proof {
            reveal(Seq::filter);
            assert(ids@.subrange(0, i + 1).drop_last() =~= ids@.subrange(0, i as int));
        }
        if ids[i] == key {
        } else {
            r.push(ids[i].clone());
        }
        i = i + 1;
    }
    assert(ids@.subrange(0, ids.len() as int) =~= ids@);
    r
}

/// The mapping from function name to its running state.
#[derive(Debug)]
pub struct DeployedFunctions {
    entries: Vec<(String, RunningFunction)>,
}

impl DeployedFunctions {
    /// Names are unique among the entries.
    pub closed spec fn wf(&self) -> bool {
        forall|i: int, j: int|
            0 <= i < self.entries@.len() && 0 <= j < self.entries@.len() && i != j
                ==> #[trigger] self.entries@[i].0@ != #[trigger] self.entries@[j].0@
    }

    closed spec fn has_at(&self, name: Seq<char>, i: int) -> bool {
        0 <= i < self.entries@.len() && self.entries@[i].0@ == name
    }

    pub closed spec fn view(&self) -> Map<Seq<char>, FunctionModel> {
        Map::new(
            |k: Seq<char>| exists|i: int| self.has_at(k, i),
            |k: Seq<char>| self.entries@[choose|i: int| self.has_at(k, i)].1@,
        )
    }

    proof fn lemma_view_at(&self, i: int)
        requires
            self.wf(),
            0 <= i < self.entries@.len(),
        ensures
            self.view().contains_key(self.entries@[i].0@),
            self.view()[self.entries@[i].0@] == self.entries@[i].1@,
    {
        let k = self.entries@[i].0@;
        assert(self.has_at(k, i));
        let j = choose|j: int| self.has_at(k, j);
        assert(self.entries@[j].0@ == self.entries@[i].0@);
    }

    /// An empty registry.
    pub fn new() -> (r: DeployedFunctions)
        ensures
            r.wf(),
            r.view() == Map::<Seq<char>, FunctionModel>::empty(),
    {
        let r = DeployedFunctions { entries: Vec::new() };
        assert(r.view() =~= Map::<Seq<char>, FunctionModel>::empty());
        r
    }

    /// Number of deployed functions.
    pub fn len(&self) -> (r: usize)
        requires
            self.wf(),
        ensures
            r == self.view().len(),
    {
        proof {
            self.lemma_len();
        }
        self.entries.len()
    }

    proof fn lemma_len(&self)
        requires
            self.wf(),
        ensures
            self.view().len() == self.entries@.len(),
        decreases self.entries@.len(),
    {
        let names = Seq::new(self.entries@.len(), |i: int| self.entries@[i].0@);
        assert(names.no_duplicates()) by {
            assert forall|i: int, j: int|
                0 <= i < names.len() && 0 <= j < names.len() && i != j implies names[i]
                != names[j] by {
                assert(self.entries@[i].0@ != self.entries@[j].0@);
            }
        }
        assert(self.view().dom() =~= names.to_set()) by {
            assert forall|k: Seq<char>| self.view().dom().contains(k) implies names.to_set().contains(k) by {
                let i = choose|i: int| self.has_at(k, i);
                assert(names[i] == k);
            }
            assert forall|k: Seq<char>| names.to_set().contains(k) implies self.view().dom().contains(k) by {
                let i = choose|i: int| 0 <= i < names.len() && names[i] == k;
                assert(self.has_at(k, i));
            }
        }
        names.unique_seq_to_set();
    }

    /// Index of the entry named `name`, if any.
    fn find(&self, name: &str) -> (r: Option<usize>)
        requires
            self.wf(),
        ensures
            r matches Some(i) ==> self.has_at(name@, i as int),
            r is None ==> !self.view().contains_key(name@),
    {
        let key = String::from_str(name);
        let mut i: usize = 0;
        while i < self.entries.len()
            invariant
                i <= self.entries@.len(),
                key@ == name@,
                forall|j: int| 0 <= j < i ==> self.entries@[j].0@ != name@,
            decreases self.entries@.len() - i,
        {
            if self.entries[i].0 == key {
                return Some(i);
            }
            i = i + 1;
        }
        None
    }

    /// Records `f` under `name`, replacing any entry of that name.
    pub fn upsert(&mut self, name: String, f: RunningFunction)
        requires
            old(self).wf(),
        ensures
            final(self).wf(),
            final(self).view() == old(self).view().insert(name@, f@),
    {
        let ghost old_self = *self;
        let ghost key = name@;
        let ghost fv = f@;
        match self.find(name.as_str()) {
            Some(i) => {
                self.entries.set(i, (name, f));
                proof {
                    assert forall|a: int, b: int|
                        0 <= a < self.entries@.len() && 0 <= b < self.entries@.len() && a
                            != b implies #[trigger] self.entries@[a].0@
                        != #[trigger] self.entries@[b].0@ by {
                        assert(old_self.entries@[a].0@ != old_self.entries@[b].0@);
                    }
                    self.lemma_view_at(i as int);
                    assert forall|k: Seq<char>|
                        #![trigger self.view().dom().contains(k)]
                        #![trigger old_self.view().dom().contains(k)]
                        k != key implies (self.view().contains_key(k)
                        == old_self.view().contains_key(k)) && (self.view().contains_key(k)
                        ==> self.view()[k] == old_self.view()[k]) by {
                        if old_self.view().contains_key(k) {
                            let j = choose|j: int| old_self.has_at(k, j);
                            old_self.lemma_view_at(j);
                            self.lemma_view_at(j);
                        }
                        if self.view().contains_key(k) {
                            let j = choose|j: int| self.has_at(k, j);
                            old_self.lemma_view_at(j);
                        }
                    }
                    assert(self.view().contains_key(key));
                    assert(self.view()[key] == fv);
                    assert(self.view().dom() =~= old_self.view().insert(key, fv).dom());
                    assert(self.view() =~= old_self.view().insert(key, fv));
                }
            },
            None => {
                self.entries.push((name, f));
                proof {
                    let n = old_self.entries@.len() as int;
                    assert forall|a: int, b: int|
                        0 <= a < self.entries@.len() && 0 <= b < self.entries@.len() && a
                            != b implies #[trigger] self.entries@[a].0@
                        != #[trigger] self.entries@[b].0@ by {
                        if a < n && b < n {
                            assert(old_self.entries@[a].0@ != old_self.entries@[b].0@);
                        } else if a < n {
                            assert(old_self.has_at(old_self.entries@[a].0@, a));
                        } else {
                            assert(old_self.has_at(old_self.entries@[b].0@, b));
                        }
                    }
                    self.lemma_view_at(n);
                    assert forall|k: Seq<char>|
                        #![trigger self.view().dom().contains(k)]
                        #![trigger old_self.view().dom().contains(k)]
                        k != key implies (self.view().contains_key(k)
                        == old_self.view().contains_key(k)) && (self.view().contains_key(k)
                        ==> self.view()[k] == old_self.view()[k]) by {
                        if old_self.view().contains_key(k) {
                            let j = choose|j: int| old_self.has_at(k, j);
                            old_self.lemma_view_at(j);
                            self.lemma_view_at(j);
                        }
                        if self.view().contains_key(k) {
                            let j = choose|j: int| self.has_at(k, j);
                            assert(j != n);
                            old_self.lemma_view_at(j);
                        }
                    }
                    assert(self.view().contains_key(key));
                    assert(self.view()[key] == fv);
                    assert(self.view().dom() =~= old_self.view().insert(key, fv).dom());
                    assert(self.view() =~= old_self.view().insert(key, fv));
                }
            },
        }
    }

    /// The entry of `name`, if the function is deployed.
    pub fn get(&self, name: &str) -> (r: Option<&RunningFunction>)
        requires
            self.wf(),
        ensures
            r is Some <==> self.view().contains_key(name@),
            r matches Some(f) ==> f@ == self.view()[name@],
    {
        match self.find(name) {
            Some(i) => {
                proof {
                    self.lemma_view_at(i as int);
                }
                Some(&self.entries[i].1)
            },
            None => None,
        }
    }

    /// The container identifiers of `name`.
    pub fn get_container_ids(&self, name: &str) -> (r: Result<Vec<String>, FunctionError>)
        requires
            self.wf(),
        ensures
            r is Err <==> !self.view().contains_key(name@),
            r matches Ok(ids) ==> ids@ == self.view()[name@].2,
            r matches Err(e) ==> e == FunctionError::FunctionNotDeployed,
    {
        match self.get(name) {
            Some(f) => Ok(crate::function::copy_ids(&f.container_ids)),
            None => Err(FunctionError::FunctionNotDeployed),
        }
    }

    /// Strikes `container_id` from the container list of `name`; the rest of
    /// the list keeps its order. The entry must exist.
    pub fn remove_container_id(&mut self, name: &str, container_id: &str)
        requires
            old(self).wf(),
            old(self).view().contains_key(name@),
        ensures
            final(self).wf(),
            final(self).view() == old(self).view().insert(
                name@,
                remove_id_model(old(self).view()[name@], container_id@),
            ),
    {
        let i = match self.find(name) {
            Some(i) => i,
            None => {
                return;
            },
        };
        proof {
            self.lemma_view_at(i as int);
        }
        let e = &self.entries[i];
        let nf = RunningFunction {
            config: e.1.config.duplicate(),
            container_config: e.1.container_config.duplicate(),
            container_ids: retain_other_ids(&e.1.container_ids, container_id),
        };
        let key = e.0.clone();
        self.upsert(key, nf);
    }

    /// A point-in-time copy of every entry, one per deployed function.
    pub fn snapshot(&self) -> (r: Vec<(String, RunningFunction)>)
        requires
            self.wf(),
        ensures
            r.len() == self.view().len(),
            forall|k: int|
                0 <= k < r.len() ==> self.view().contains_key(#[trigger] r@[k].0@)
                    && self.view()[r@[k].0@] == r@[k].1@,
            forall|name: Seq<char>|
                #[trigger] self.view().contains_key(name) ==> exists|k: int|
                    0 <= k < r.len() && r@[k].0@ == name,
    {
        proof {
            self.lemma_len();
        }
        let mut r: Vec<(String, RunningFunction)> = Vec::new();
        let mut i: usize = 0;
        while i < self.entries.len()
            invariant
                self.wf(),
                i <= self.entries@.len(),
                r.len() == i,
                forall|k: int|
                    0 <= k < i ==> #[trigger] r@[k].0@ == self.entries@[k].0@ && r@[k].1@
                        == self.entries@[k].1@,
            decreases self.entries@.len() - i,
        {
            let e = &self.entries[i];
            let ghost old_r = r@;
            let n = e.0.clone();
            let d = e.1.duplicate();
            assert(n@ == self.entries@[i as int].0@);
            assert(d@ == self.entries@[i as int].1@);
            r.push((n, d));
            proof {
                assert(r@[i as int].0@ == n@);
                assert forall|k: int| 0 <= k < i + 1 implies #[trigger] r@[k].0@
                    == self.entries@[k].0@ && r@[k].1@ == self.entries@[k].1@ by {
                    if k < i {
                        assert(r@[k] == old_r[k]);
                    }
                }
            }
            i = i + 1;
        }
        proof {
            assert forall|k: int| 0 <= k < r.len() implies self.view().contains_key(
                #[trigger] r@[k].0@,
            ) && self.view()[r@[k].0@] == r@[k].1@ by {
                self.lemma_view_at(k);
            }
            assert forall|name: Seq<char>| #[trigger]
                self.view().contains_key(name) implies exists|k: int|
                0 <= k < r.len() && r@[k].0@ == name by {
                let k = choose|k: int| self.has_at(name, k);
                assert(r@[k].0@ == name);
            }
        }
        r
    }

    /// Every (function name, container identifier) pair of the registry.
    pub fn container_pairs(&self) -> (r: Vec<(String, String)>)
        requires
            self.wf(),
        ensures
            forall|k: int|
                0 <= k < r.len() ==> has_container(self.view(), #[trigger] r@[k].0@, r@[k].1),
            forall|name: Seq<char>, id: String|
                #[trigger] has_container(self.view(), name, id) ==> exists|k: int|
                    0 <= k < r.len() && r@[k].0@ == name && r@[k].1 == id,
    {
        let mut r: Vec<(String, String)> = Vec::new();
        let mut i: usize = 0;
        while i < self.entries.len()
            invariant
                self.wf(),
                i <= self.entries@.len(),
                forall|k: int|
                    0 <= k < r.len() ==> has_container(
                        self.view(),
                        #[trigger] r@[k].0@,
                        r@[k].1,
                    ),
                forall|a: int, b: int|
                    0 <= a < i && 0 <= b < self.entries@[a].1.container_ids@.len()
                        ==> #[trigger] covered(r@, self.entries@[a].0@, self.entries@[a].1.container_ids@[b]),
            decreases self.entries@.len() - i,
        {
            let e = &self.entries[i];
            proof {
                self.lemma_view_at(i as int);
            }
            let mut j: usize = 0;
            while j < e.1.container_ids.len()
                invariant
                    self.wf(),
                    i < self.entries@.len(),
                    *e == self.entries@[i as int],
                    self.view().contains_key(e.0@),
                    self.view()[e.0@] == e.1@,
                    j <= e.1.container_ids@.len(),
                    forall|k: int|
                        0 <= k < r.len() ==> has_container(
                            self.view(),
                            #[trigger] r@[k].0@,
                            r@[k].1,
                        ),
                    forall|a: int, b: int|
                        0 <= a < i && 0 <= b < self.entries@[a].1.container_ids@.len()
                            ==> #[trigger] covered(r@, self.entries@[a].0@, self.entries@[a].1.container_ids@[b]),
                    forall|b: int|
                        0 <= b < j ==> #[trigger] covered(r@, e.0@, e.1.container_ids@[b]),
                decreases e.1.container_ids@.len() - j,
            {
                let ghost old_r = r@;
                let pair = (e.0.clone(), e.1.container_ids[j].clone());
                r.push(pair);
                proof {
                    assert(e.1@.2.contains(e.1.container_ids@[j as int]));
                    assert forall|n: Seq<char>, id: String| covered(old_r, n, id) implies #[trigger] covered(r@, n, id) by {
                        let k = choose|k: int| 0 <= k < old_r.len() && old_r[k].0@ == n && old_r[k].1 == id;
                        assert(r@[k] == old_r[k]);
                    }
                    assert(r@[old_r.len() as int] == pair);
                    assert(covered(r@, e.0@, e.1.container_ids@[j as int]));
                }
                j = j + 1;
            }
            proof {
                assert forall|a: int, b: int|
                    0 <= a < i + 1 && 0 <= b < self.entries@[a].1.container_ids@.len()
                        implies #[trigger] covered(r@, self.entries@[a].0@, self.entries@[a].1.container_ids@[b]) by {
                    if a == i {
                        assert(covered(r@, e.0@, e.1.container_ids@[b]));
                    }
                }
            }
            i = i + 1;
        }
        proof {
            assert forall|name: Seq<char>, id: String| #[trigger]
                has_container(self.view(), name, id) implies exists|k: int|
                0 <= k < r.len() && r@[k].0@ == name && r@[k].1 == id by {
                let a = choose|a: int| self.has_at(name, a);
                self.lemma_view_at(a);
                let b = choose|b: int|
                    0 <= b < self.view()[name].2.len() && self.view()[name].2[b] == id;
                assert(self.entries@[a].1.container_ids@[b] == id);
                assert(covered(r@, self.entries@[a].0@, self.entries@[a].1.container_ids@[b]));
            }
        }
        r
    }
}

/// Striking container `id` from a function's list leaves no identifier of
/// that text in it, and keeps every other identifier.
pub proof fn lemma_removed_id_absent(m: FunctionModel, id: Seq<char>)
    ensures
        forall|j: int|
            0 <= j < remove_id_model(m, id).2.len() ==> (#[trigger] remove_id_model(m, id).2[j])@
                != id,
        forall|x: String| #[trigger]
            m.2.contains(x) && x@ != id ==> remove_id_model(m, id).2.contains(x),
        remove_id_model(m, id).0 == m.0,
        remove_id_model(m, id).1 == m.1,
{
    let pred = differs_from(id);
    assert forall|j: int| 0 <= j < remove_id_model(m, id).2.len() implies (
    #[trigger] remove_id_model(m, id).2[j])@ != id by {
        m.2.lemma_filter_pred(pred, j);
    }
    assert forall|x: String| #[trigger] m.2.contains(x) && x@ != id implies remove_id_model(
        m,
        id,
    ).2.contains(x) by {
        m.2.lemma_filter_contains_rev(pred, x);
    }
}

/// Two registrations under one name leave a single entry for it, that of
/// the later one; the other entries are those from before.
pub proof fn lemma_later_upsert_wins(
    m: Map<Seq<char>, FunctionModel>,
    name: Seq<char>,
    first: FunctionModel,
    second: FunctionModel,
)
    ensures
        m.insert(name, first).insert(name, second) == m.insert(name, second),
        m.insert(name, first).insert(name, second).dom() == m.dom().insert(name),
        m.insert(name, first).insert(name, second)[name] == second,
{
    assert(m.insert(name, first).insert(name, second) =~= m.insert(name, second));
}

} // verus!
