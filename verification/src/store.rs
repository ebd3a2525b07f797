//! The project store: every project record under its identifier.

use vstd::prelude::*;
use vstd::set_lib::lemma_subset_equality;
use crate::error::{all_or_nothing, Error};
use crate::project::{ProjectState, ProjectStateView, Update, UpdateView};

verus! {

/// What the store holds, as mathematical values: the records under their
/// identifiers, in the order in which the store lists them.
pub struct ProjectsView {
    pub entries: Seq<(Seq<char>, ProjectStateView)>,
}

impl ProjectsView {
    /// The store without any project.
    pub open spec fn empty() -> Self {
        ProjectsView { entries: Seq::empty() }
    }

    /// How many projects there are.
    pub open spec fn len(self) -> nat {
        self.entries.len()
    }

    /// No identifier is listed twice.
    pub open spec fn wf(self) -> bool {
        forall|i: int, j: int|
            0 <= i < j < self.entries.len() ==> (#[trigger] self.entries[i]).0 != (
            #[trigger] self.entries[j]).0
    }

    /// Whether a project is stored under `id`.
    pub open spec fn contains(self, id: Seq<char>) -> bool {
        exists|i: int| 0 <= i < self.entries.len() && (#[trigger] self.entries[i]).0 == id
    }

    /// Where the project `id` is listed, if it is stored.
    pub open spec fn index_of(self, id: Seq<char>) -> int {
        choose|i: int| 0 <= i < self.entries.len() && (#[trigger] self.entries[i]).0 == id
    }

    /// The record stored under `id`, if any.
    pub open spec fn get(self, id: Seq<char>) -> Option<ProjectStateView> {
        if self.contains(id) {
            Some(self.entries[self.index_of(id)].1)
        } else {
            None
        }
    }

    /// The store with `record` under `id`: in the place of the record that
    /// was there, or listed last if there was none.
    pub open spec fn put(self, id: Seq<char>, record: ProjectStateView) -> Self {
        if self.contains(id) {
            ProjectsView { entries: self.entries.update(self.index_of(id), (id, record)) }
        } else {
            ProjectsView { entries: self.entries.push((id, record)) }
        }
    }

    /// The outcome of a guarded update of the project `id`: the store with
    /// the updated record in the place of the old one, or the reason why
    /// there is no such store.
    pub open spec fn update(self, id: Seq<char>, update: UpdateView) -> Result<Self, Error> {
        match self.get(id) {
            None => Err(Error::ProjectNotFound),
            Some(record) => match record.apply(update) {
                Ok(next) => Ok(self.put(id, next)),
                Err(e) => Err(e),
            },
        }
    }

    /// The identifiers, in listing order.
    pub open spec fn ids(self) -> Seq<Seq<char>> {
        Seq::new(self.entries.len(), |i: int| self.entries[i].0)
    }

    /// Whether both stores hold the same records under the same
    /// identifiers, in whatever order they list them.
    pub open spec fn same_projects(self, other: Self) -> bool {
        forall|id: Seq<char>| self.get(id) == other.get(id)
    }

    /// In a well-formed store an identifier is found where it is listed.
    pub proof fn lemma_listed(self, i: int)
        requires
            self.wf(),
            0 <= i < self.entries.len(),
        ensures
            self.contains(self.entries[i].0),
            self.index_of(self.entries[i].0) == i,
            self.get(self.entries[i].0) == Some(self.entries[i].1),
    {
        let k = self.index_of(self.entries[i].0);
        assert(self.entries[k].0 == self.entries[i].0);
    }

    /// The identifiers of a well-formed store are as many as its projects.
    proof fn lemma_ids(self)
        requires
            self.wf(),
        ensures
            self.ids().to_set().finite(),
            self.ids().to_set().len() == self.len(),
            forall|id: Seq<char>| self.ids().to_set().contains(id) <==> self.contains(id),
    {
        let ids = self.ids();
        assert forall|i: int, j: int|
            0 <= i < ids.len() && 0 <= j < ids.len() && i != j implies ids[i] != ids[j] by {
            assert(self.entries[i].0 != self.entries[j].0);
        }
        ids.unique_seq_to_set();
        vstd::seq_lib::seq_to_set_is_finite(ids);
        assert forall|id: Seq<char>| ids.to_set().contains(id) <==> self.contains(id) by {
            if ids.to_set().contains(id) {
                let i = choose|i: int| 0 <= i < ids.len() && ids[i] == id;
                assert(self.entries[i].0 == id);
            }
            if self.contains(id) {
                assert(ids[self.index_of(id)] == id);
            }
        }
    }

    /// Two stores that hold the same projects hold equally many.
    pub proof fn lemma_same_projects_len(self, other: Self)
        requires
            self.wf(),
            other.wf(),
            self.same_projects(other),
        ensures
            self.len() == other.len(),
    {
        self.lemma_ids();
        other.lemma_ids();
        assert forall|id: Seq<char>|
            self.ids().to_set().contains(id) <==> other.ids().to_set().contains(id) by {
            assert(self.get(id) == other.get(id));
        }
        assert(self.ids().to_set() =~= other.ids().to_set());
    }

    /// Of two stores of one size, if the second holds every record of the
    /// first, both hold the same projects.
    pub proof fn lemma_same_projects(self, other: Self)
        requires
            self.wf(),
            other.wf(),
            self.len() == other.len(),
            forall|i: int|
                0 <= i < self.entries.len() ==> other.get((#[trigger] self.entries[i]).0) == Some(
                    self.entries[i].1,
                ),
        ensures
            self.same_projects(other),
    {
        self.lemma_ids();
        other.lemma_ids();
        let mine = self.ids().to_set();
        let theirs = other.ids().to_set();
        assert forall|id: Seq<char>| mine.contains(id) implies theirs.contains(id) by {
            assert(other.get(self.entries[self.index_of(id)].0) is Some);
        }
        lemma_subset_equality(mine, theirs);
        assert forall|id: Seq<char>| self.get(id) == other.get(id) by {
            if self.contains(id) {
                self.lemma_listed(self.index_of(id));
            } else {
                assert(!theirs.contains(id));
            }
        }
    }

    /// Storing a record keeps the store well formed, makes that record the
    /// one found under its identifier, and touches no other project.
    pub proof fn lemma_put(self, id: Seq<char>, record: ProjectStateView)
        requires
            self.wf(),
        ensures
            self.put(id, record).wf(),
            self.put(id, record).get(id) == Some(record),
            forall|other: Seq<char>| other != id ==> self.put(id, record).get(other) == self.get(other),
            self.contains(id) ==> self.put(id, record).len() == self.len(),
            !self.contains(id) ==> self.put(id, record).len() == self.len() + 1,
    {
        let after = self.put(id, record);
        let k = if self.contains(id) {
            self.index_of(id)
        } else {
            self.entries.len() as int
        };
        assert(after.entries[k] == (id, record));
        assert forall|i: int, j: int| 0 <= i < j < after.entries.len() implies (
        #[trigger] after.entries[i]).0 != (#[trigger] after.entries[j]).0 by {
            if i != k && j != k {
                assert(self.entries[i].0 != self.entries[j].0);
            }
        }
        after.lemma_listed(k);
        assert forall|other: Seq<char>| other != id implies after.get(other) == self.get(
            other,
        ) by {
            if self.contains(other) {
                let m = self.index_of(other);
                assert(after.entries[m] == self.entries[m]);
                after.lemma_listed(m);
            } else if after.contains(other) {
                let m = after.index_of(other);
                assert(self.entries[m].0 == other);
            }
        }
    }
}

/// The project store. No identifier occurs in it twice, and a project that
/// was stored stays stored.
#[derive(Debug)]
pub struct ProjectStore {
    entries: Vec<(String, ProjectState)>,
}

impl View for ProjectStore {
    type V = ProjectsView;

    closed spec fn view(&self) -> ProjectsView {
        listing(self.entries@)
    }
}

/// What a list of identifiers and records holds.
pub open spec fn listing(entries: Seq<(String, ProjectState)>) -> ProjectsView {
    ProjectsView { entries: Seq::new(entries.len(), |i: int| (entries[i].0@, entries[i].1@)) }
}

impl ProjectStore {
    /// Every store is well formed: no identifier is listed twice.
    #[verifier::type_invariant]
    pub closed spec fn inv(&self) -> bool {
        self@.wf()
    }

    /// What holds of every store.
    pub proof fn lemma_wf(&self)
        requires
            self.inv(),
        ensures
            self@.wf(),
    {
    }

    /// The empty store.
    pub fn new() -> (store: ProjectStore)
        ensures
            store@ == ProjectsView::empty(),
    {
        let store = ProjectStore { entries: Vec::new() };
        assert(store@.entries =~= Seq::empty());
        store
    }

    /// The number of projects.
    pub fn len(&self) -> (n: usize)
        ensures
            n == self@.len(),
    {
        self.entries.len()
    }

    /// Where `id` is listed, if it is stored.
    fn position(&self, id: &String) -> (found: Option<usize>)
        ensures
            found is Some <==> self@.contains(id@),
            found matches Some(i) ==> i < self.entries.len() && self@.index_of(id@) == i,
    {
        proof {
            use_type_invariant(self);
        }
        let mut i: usize = 0;
        while i < self.entries.len()
            invariant
                i <= self.entries.len(),
                self@.wf(),
                forall|j: int| 0 <= j < i ==> (#[trigger] self@.entries[j]).0 != id@,
            decreases self.entries.len() - i,
        {
            if self.entries[i].0 == *id {
                proof {
                    self@.lemma_listed(i as int);
                }
                return Some(i);
            }
            i += 1;
        }
        None
    }

    /// Whether a project is stored under `id`.
    pub fn contains(&self, id: &String) -> (found: bool)
        ensures
            found == self@.contains(id@),
    {
        self.position(id).is_some()
    }

    /// The record stored under `id`, if any.
    pub fn get(&self, id: &String) -> (found: Option<&ProjectState>)
        ensures
            found is Some <==> self@.contains(id@),
            found matches Some(record) ==> self@.get(id@) == Some(record@),
    {
        match self.position(id) {
            Some(i) => Some(&self.entries[i].1),
            None => None,
        }
    }

    /// Stores `record` under `id` and returns the record that was stored
    /// there before, if any.
    pub fn insert(&mut self, id: String, record: ProjectState) -> (previous: Option<ProjectState>)
        ensures
            final(self)@ == old(self)@.put(id@, record@),
            previous is Some <==> old(self)@.contains(id@),
            previous matches Some(earlier) ==> old(self)@.get(id@) == Some(earlier@),
    {
        proof {
            use_type_invariant(&*self);
            self@.lemma_put(id@, record@);
        }
        let found = self.position(&id);
        let mut entries: Vec<(String, ProjectState)> = Vec::new();
        core::mem::swap(&mut entries, &mut self.entries);
        let previous = match found {
            Some(i) => {
                let earlier = entries.remove(i);
                entries.insert(i, (id, record));
                Some(earlier.1)
            },
            None => {
                entries.push((id, record));
                None
            },
        };
        assert(listing(entries@).entries =~= old(self)@.put(id@, record@).entries);
        self.entries = entries;
        previous
    }

    /// Stores `record` under `id` unless a project is stored there already,
    /// and says whether it did.
    pub fn insert_if_absent(&mut self, id: String, record: ProjectState) -> (inserted: bool)
        ensures
            inserted == !old(self)@.contains(id@),
            inserted ==> final(self)@ == old(self)@.put(id@, record@),
            !inserted ==> final(self)@ == old(self)@,
    {
        if self.contains(&id) {
            false
        } else {
            self.insert(id, record);
            true
        }
    }

    /// Applies a guarded update to the project `id`, in place. Fails with
    /// `ProjectNotFound` if there is no such project, and with the
    /// update's own error if the record refuses it; the store is then as it
    /// was.
    pub fn update_in_place(&mut self, id: &String, update: Update) -> (res: Result<(), Error>)
        ensures
            all_or_nothing(old(self)@, old(self)@.update(id@, update@), final(self)@, res),
    {
        proof {
            use_type_invariant(&*self);
        }
        let i = match self.position(id) {
            Some(i) => i,
            None => {
                return Err(Error::ProjectNotFound);
            },
        };
        let mut entries: Vec<(String, ProjectState)> = Vec::new();
        core::mem::swap(&mut entries, &mut self.entries);
        let (key, mut record) = entries.remove(i);
        let res = record.apply(update);
        proof {
            old(self)@.lemma_put(id@, record@);
        }
        entries.insert(i, (key, record));
        assert(listing(entries@).entries =~= if res is Ok {
            old(self)@.put(id@, record@).entries
        } else {
            old(self)@.entries
        });
        self.entries = entries;
        res
    }

    /// A snapshot of all projects, in listing order.
    pub fn iterate(&self) -> (all: Vec<(String, ProjectState)>)
        ensures
            listing(all@) == self@,
    {
        let mut all: Vec<(String, ProjectState)> = Vec::new();
        let mut i: usize = 0;
        while i < self.entries.len()
            invariant
                i <= self.entries.len(),
                all@.len() == i,
                forall|j: int| 0 <= j < i ==> listing(all@).entries[j] == self@.entries[j],
            decreases self.entries.len() - i,
        {
            let entry = &self.entries[i];
            all.push((entry.0.clone(), entry.1.clone()));
            i += 1;
        }
        assert(listing(all@).entries =~= self@.entries);
        all
    }

    /// A snapshot of all project identifiers, in listing order.
    pub fn ids(&self) -> (ids: Vec<String>)
        ensures
            ids.deep_view() == self@.ids(),
    {
        let mut ids: Vec<String> = Vec::new();
        let mut i: usize = 0;
        while i < self.entries.len()
            invariant
                i <= self.entries.len(),
                ids@.len() == i,
                forall|j: int| 0 <= j < i ==> ids@[j]@ == self@.ids()[j],
            decreases self.entries.len() - i,
        {
            ids.push(self.entries[i].0.clone());
            i += 1;
        }
        assert(ids.deep_view() =~= self@.ids());
        ids
    }

    /// Whether both stores hold the same records under the same
    /// identifiers, whatever the order in which they list them.
    pub fn same_projects(&self, other: &ProjectStore) -> (same: bool)
        ensures
            same == self@.same_projects(other@),
    {
        proof {
            use_type_invariant(self);
            use_type_invariant(other);
        }
        if self.entries.len() != other.entries.len() {
            proof {
                if self@.same_projects(other@) {
                    self@.lemma_same_projects_len(other@);
                }
            }
            return false;
        }
        let mut i: usize = 0;
        while i < self.entries.len()
            invariant
                i <= self.entries.len(),
                self@.wf(),
                other@.wf(),
                forall|j: int|
                    0 <= j < i ==> other@.get((#[trigger] self@.entries[j]).0) == Some(
                        self@.entries[j].1,
                    ),
            decreases self.entries.len() - i,
        {
            let entry = &self.entries[i];
            proof {
                self@.lemma_listed(i as int);
            }
            match other.get(&entry.0) {
                None => {
                    return false;
                },
                Some(theirs) => {
                    if !(entry.1 == *theirs) {
                        return false;
                    }
                },
            }
            i += 1;
        }
        proof {
            self@.lemma_same_projects(other@);
        }
        true
    }
}

impl Clone for ProjectStore {
    /// A copy that holds the same projects in the same order.
    fn clone(&self) -> (copy: Self)
        ensures
            copy@ == self@,
    {
        proof {
            use_type_invariant(self);
        }
        ProjectStore { entries: self.iterate() }
    }
}

} // verus!
