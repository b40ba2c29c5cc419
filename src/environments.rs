use vstd::prelude::*;
use crate::error::CwbError;
use crate::gate::GateDecision;
use crate::text::{str_eq, views_of};

verus! {

/// The settings of one managed environment.
#[derive(Debug)]
pub struct EnvironmentConfig {
    pub aws_region: String,
    pub aws_profile: Option<String>,
    pub aws_account_id: Option<String>,
    /// Variables of the environment, in order.
    pub variables: Vec<(String, String)>,
}

/// The settings of an environment as plain values.
pub type SettingsView = (Seq<char>, Option<Seq<char>>, Option<Seq<char>>, Seq<(Seq<char>, Seq<char>)>);

pub open spec fn opt_view(o: Option<String>) -> Option<Seq<char>> {
    match o {
        Some(s) => Some(s@),
        None => None,
    }
}

impl EnvironmentConfig {
    pub open spec fn view_of(&self) -> SettingsView {
        (
            self.aws_region@,
            opt_view(self.aws_profile),
            opt_view(self.aws_account_id),
            self.variables@.map_values(|kv: (String, String)| (kv.0@, kv.1@)),
        )
    }

    /// The settings of a new environment from the operator's answers: an
    /// empty profile stands for none.
    pub fn from_answers(region: &str, profile: &str) -> (r: EnvironmentConfig)
        ensures
            r.view_of() == (
                region@,
                if profile@.len() == 0 {
                    None::<Seq<char>>
                } else {
                    Some(profile@)
                },
                None::<Seq<char>>,
                Seq::<(Seq<char>, Seq<char>)>::empty(),
            ),
    {
        let r = EnvironmentConfig {
            aws_region: region.to_owned(),
            aws_profile: if profile.is_empty() {
                None
            } else {
                Some(profile.to_owned())
            },
            aws_account_id: None,
            variables: Vec::new(),
        };
        assert(r.variables@.map_values(|kv: (String, String)| (kv.0@, kv.1@)) =~= Seq::<
            (Seq<char>, Seq<char>),
        >::empty());
        r
    }

    /// A copy with the same settings.
    pub fn duplicate(&self) -> (r: EnvironmentConfig)
        ensures
            r.view_of() == self.view_of(),
    {
        let mut variables: Vec<(String, String)> = Vec::new();
        for i in 0..self.variables.len()
            invariant
                variables@.map_values(|kv: (String, String)| (kv.0@, kv.1@))
                    == self.variables@.subrange(0, i as int).map_values(
                    |kv: (String, String)| (kv.0@, kv.1@),
                ),
        {
            let (k, v) = &self.variables[i];
            variables.push((k.clone(), v.clone()));
            assert(self.variables@.subrange(0, i + 1).map_values(|kv: (String, String)| (kv.0@, kv.1@))
                =~= self.variables@.subrange(0, i as int).map_values(
                |kv: (String, String)| (kv.0@, kv.1@),
            ).push((self.variables@[i as int].0@, self.variables@[i as int].1@)));
        }
        assert(self.variables@.subrange(0, self.variables@.len() as int) =~= self.variables@);
        let aws_profile = match &self.aws_profile {
            Some(p) => Some(p.clone()),
            None => None,
        };
        let aws_account_id = match &self.aws_account_id {
            Some(a) => Some(a.clone()),
            None => None,
        };
        EnvironmentConfig { aws_region: self.aws_region.clone(), aws_profile, aws_account_id, variables }
    }
}

/// The names of a list of entries.
pub open spec fn entry_names(s: Seq<(String, EnvironmentConfig)>) -> Seq<Seq<char>> {
    s.map_values(|e: (String, EnvironmentConfig)| e.0@)
}

/// The settings stored under `name` in a list of entries, if any.
pub open spec fn settings_in(s: Seq<(String, EnvironmentConfig)>, name: Seq<char>) -> Option<SettingsView> {
    if entry_names(s).contains(name) {
        let i = choose|i: int| 0 <= i < entry_names(s).len() && entry_names(s)[i] == name;
        Some(s[i].1.view_of())
    } else {
        None
    }
}

proof fn lemma_settings_at(s: Seq<(String, EnvironmentConfig)>, name: Seq<char>, i: int)
    requires
        entry_names(s).no_duplicates(),
        0 <= i < s.len(),
        s[i].0@ == name,
    ensures
        settings_in(s, name) == Some(s[i].1.view_of()),
{
    assert(entry_names(s)[i] == name);
    let k = choose|k: int| 0 <= k < entry_names(s).len() && entry_names(s)[k] == name;
    assert(entry_names(s)[k] == entry_names(s)[i]);
}

proof fn lemma_settings_after_update(
    old: Seq<(String, EnvironmentConfig)>,
    new: Seq<(String, EnvironmentConfig)>,
    i: int,
    name: Seq<char>,
)
    requires
        entry_names(old).no_duplicates(),
        0 <= i < old.len(),
        new.len() == old.len(),
        old[i].0@ == name,
        new[i].0@ == name,
        forall|j: int| 0 <= j < old.len() && j != i ==> new[j] == old[j],
    ensures
        entry_names(new) == entry_names(old),
        settings_in(new, name) == Some(new[i].1.view_of()),
        forall|o: Seq<char>| o != name ==> #[trigger] settings_in(new, o) == settings_in(old, o),
{
    assert(entry_names(new) =~= entry_names(old));
    lemma_settings_at(new, name, i);
    assert forall|o: Seq<char>| o != name implies #[trigger] settings_in(new, o) == settings_in(old, o) by {
        if entry_names(old).contains(o) {
            let k = choose|k: int| 0 <= k < entry_names(old).len() && entry_names(old)[k] == o;
            assert(k != i);
            lemma_settings_at(old, o, k);
            lemma_settings_at(new, o, k);
        }
    }
}

proof fn lemma_settings_after_push(
    old: Seq<(String, EnvironmentConfig)>,
    new: Seq<(String, EnvironmentConfig)>,
    name: Seq<char>,
)
    requires
        entry_names(old).no_duplicates(),
        !entry_names(old).contains(name),
        new.len() == old.len() + 1,
        new[old.len() as int].0@ == name,
        forall|j: int| 0 <= j < old.len() ==> new[j] == old[j],
    ensures
        entry_names(new) == entry_names(old).push(name),
        entry_names(new).no_duplicates(),
        settings_in(new, name) == Some(new[old.len() as int].1.view_of()),
        forall|o: Seq<char>| o != name ==> #[trigger] settings_in(new, o) == settings_in(old, o),
{
    let names = entry_names(old).push(name);
    assert(entry_names(new) =~= names);
    assert forall|a: int, b: int| 0 <= a < names.len() && 0 <= b < names.len() && a != b implies names[a]
        != names[b] by {
        if a == old.len() {
            assert(names[b] == entry_names(old)[b]);
        } else if b == old.len() {
            assert(names[a] == entry_names(old)[a]);
        }
    }
    lemma_settings_at(new, name, old.len() as int);
    assert forall|o: Seq<char>| o != name implies #[trigger] settings_in(new, o) == settings_in(old, o) by {
        if entry_names(old).contains(o) {
            let k = choose|k: int| 0 <= k < entry_names(old).len() && entry_names(old)[k] == o;
            lemma_settings_at(old, o, k);
            lemma_settings_at(new, o, k);
        } else {
            if entry_names(new).contains(o) {
                let k = choose|k: int| 0 <= k < entry_names(new).len() && entry_names(new)[k] == o;
                assert(entry_names(old)[k] == o);
            }
        }
    }
}

proof fn lemma_settings_after_remove(
    old: Seq<(String, EnvironmentConfig)>,
    new: Seq<(String, EnvironmentConfig)>,
    i: int,
    name: Seq<char>,
)
    requires
        entry_names(old).no_duplicates(),
        0 <= i < old.len(),
        old[i].0@ == name,
        new == old.remove(i),
    ensures
        entry_names(new).no_duplicates(),
        !entry_names(new).contains(name),
        forall|o: Seq<char>| o != name ==> #[trigger] settings_in(new, o) == settings_in(old, o),
{
    let on = entry_names(old);
    let nn = entry_names(new);
    assert(nn =~= on.remove(i));
    assert forall|a: int, b: int| 0 <= a < nn.len() && 0 <= b < nn.len() && a != b implies nn[a] != nn[b] by {
        let a2 = if a < i { a } else { a + 1 };
        let b2 = if b < i { b } else { b + 1 };
        assert(nn[a] == on[a2]);
        assert(nn[b] == on[b2]);
    }
    if nn.contains(name) {
        let k = choose|k: int| 0 <= k < nn.len() && nn[k] == name;
        let k2 = if k < i { k } else { k + 1 };
        assert(on[k2] == name);
        assert(on[i] == name);
    }
    assert forall|o: Seq<char>| o != name implies #[trigger] settings_in(new, o) == settings_in(old, o) by {
        if on.contains(o) {
            let k = choose|k: int| 0 <= k < on.len() && on[k] == o;
            assert(k != i);
            let k2 = if k < i { k } else { k - 1 };
            assert(new[k2] == old[k]);
            lemma_settings_at(old, o, k);
            lemma_settings_at(new, o, k2);
        } else {
            if nn.contains(o) {
                let k = choose|k: int| 0 <= k < nn.len() && nn[k] == o;
                let k2 = if k < i { k } else { k + 1 };
                assert(on[k2] == o);
            }
        }
    }
}

/// The settings of the last entry named `name`, if any.
pub open spec fn last_settings(s: Seq<(String, EnvironmentConfig)>, name: Seq<char>) -> Option<SettingsView>
    decreases s.len(),
{
    if s.len() == 0 {
        None
    } else if s.last().0@ == name {
        Some(s.last().1.view_of())
    } else {
        last_settings(s.drop_last(), name)
    }
}

/// The managed environments: each under its own name, in order of
/// creation, and the one in use, if any.
#[derive(Debug)]
pub struct EnvironmentStore {
    current: Option<String>,
    entries: Vec<(String, EnvironmentConfig)>,
}

impl EnvironmentStore {
    pub closed spec fn spec_current(&self) -> Option<Seq<char>> {
        opt_view(self.current)
    }

    pub closed spec fn spec_entries(&self) -> Seq<(String, EnvironmentConfig)> {
        self.entries@
    }

    pub open spec fn spec_names(&self) -> Seq<Seq<char>> {
        entry_names(self.spec_entries())
    }

    /// The settings stored under `name`, if any.
    pub open spec fn spec_settings(&self, name: Seq<char>) -> Option<SettingsView> {
        settings_in(self.spec_entries(), name)
    }

    #[verifier::type_invariant]
    spec fn unique_names(&self) -> bool {
        entry_names(self.entries@).no_duplicates()
    }

    pub fn new() -> (r: EnvironmentStore)
        ensures
            r.spec_current() is None,
            r.spec_entries().len() == 0,
    {
        EnvironmentStore { current: None, entries: Vec::new() }
    }

    /// The environment in use.
    pub fn current(&self) -> (r: Option<&str>)
        ensures
            match r {
                Some(s) => self.spec_current() == Some(s@),
                None => self.spec_current() is None,
            },
    {
        match &self.current {
            Some(c) => Some(c.as_str()),
            None => None,
        }
    }

    /// Every environment with its settings, in order of creation.
    pub fn entries(&self) -> (r: &Vec<(String, EnvironmentConfig)>)
        ensures
            r@ == self.spec_entries(),
    {
        &self.entries
    }

    fn position(&self, name: &str) -> (r: Option<usize>)
        ensures
            r matches Some(i) ==> i < self.spec_entries().len() && self.spec_names()[i as int] == name@,
            r is None <==> !self.spec_names().contains(name@),
    {
        let mut i: usize = 0;
        while i < self.entries.len()
            invariant
                i <= self.entries@.len(),
                forall|j: int| 0 <= j < i ==> self.entries@[j].0@ != name@,
            decreases self.entries@.len() - i,
        {
            if str_eq(self.entries[i].0.as_str(), name) {
                assert(self.spec_names()[i as int] == name@);
                return Some(i);
            }
            i = i + 1;
        }
        proof {
            if self.spec_names().contains(name@) {
                let k = choose|k: int| 0 <= k < self.spec_names().len() && self.spec_names()[k] == name@;
                assert(self.entries@[k].0@ == name@);
            }
        }
        None
    }

    /// Whether an environment goes by `name`.
    pub fn contains(&self, name: &str) -> (r: bool)
        ensures
            r == self.spec_names().contains(name@),
    {
        self.position(name).is_some()
    }

    /// The names of the environments, in order of creation.
    pub fn names(&self) -> (r: Vec<String>)
        ensures
            views_of(r@) == self.spec_names(),
    {
        let mut r: Vec<String> = Vec::new();
        for i in 0..self.entries.len()
            invariant
                views_of(r@) == entry_names(self.entries@.subrange(0, i as int)),
        {
            r.push(self.entries[i].0.clone());
            assert(entry_names(self.entries@.subrange(0, i + 1)) =~= entry_names(
                self.entries@.subrange(0, i as int),
            ).push(self.entries@[i as int].0@));
        }
        assert(self.entries@.subrange(0, self.entries@.len() as int) =~= self.entries@);
        r
    }

    /// The settings of the environment `name`, or `UnknownEnvironment`
    /// listing the environments there are.
    pub fn get(&self, name: &str) -> (r: Result<&EnvironmentConfig, CwbError>)
        ensures
            match r {
                Ok(c) => self.spec_settings(name@) == Some(c.view_of()),
                Err(e) => self.spec_settings(name@) is None && (e matches CwbError::UnknownEnvironment {
                    requested,
                    valid,
                } && requested@ == name@ && views_of(valid@) == self.spec_names()),
            },
    {
        proof {
            use_type_invariant(self);
        }
        match self.position(name) {
            Some(i) => {
                proof {
                    let k = choose|k: int| 0 <= k < self.spec_names().len() && self.spec_names()[k] == name@;
                    assert(self.spec_names()[k] == self.spec_names()[i as int]);
                }
                Ok(&self.entries[i].1)
            },
            None => Err(CwbError::UnknownEnvironment { requested: name.to_owned(), valid: self.names() }),
        }
    }

    /// Stores `settings` under `name`: it replaces the settings of an
    /// environment of that name, or a new environment is added at the end.
    fn put(&mut self, name: String, settings: EnvironmentConfig)
        ensures
            final(self).spec_current() == old(self).spec_current(),
            final(self).spec_settings(name@) == Some(settings.view_of()),
            old(self).spec_names().contains(name@) ==> final(self).spec_names() == old(self).spec_names(),
            !old(self).spec_names().contains(name@) ==> final(self).spec_entries() == old(
                self,
            ).spec_entries().push((name, settings)),
            forall|other: Seq<char>|
                other != name@ ==> #[trigger] final(self).spec_settings(other) == old(self).spec_settings(
                    other,
                ),
    {
        proof {
            use_type_invariant(&*self);
        }
        let ghost old_entries = self.entries@;
        let ghost old_names = entry_names(old_entries);
        let ghost entry = (name, settings);
        let mut entries: Vec<(String, EnvironmentConfig)> = Vec::new();
        std::mem::swap(&mut self.entries, &mut entries);
        match self.position_in(&entries, name.as_str()) {
            Some(i) => {
                let _ = entries.remove(i);
                entries.insert(i, (name, settings));
                proof {
                    lemma_settings_after_update(old_entries, entries@, i as int, entry.0@);
                }
            },
            None => {
                entries.push((name, settings));
                proof {
                    lemma_settings_after_push(old_entries, entries@, entry.0@);
                }
            },
        }
        self.entries = entries;
    }

    /// Stores `settings` under `name`, replacing the settings of an
    /// environment of that name or adding a new one at the end. The first
    /// environment stored becomes the one in use; the result tells whether
    /// that happened.
    pub fn insert(&mut self, name: &str, settings: EnvironmentConfig) -> (r: bool)
        ensures
            r == (old(self).spec_current() is None),
            final(self).spec_current() == if r {
                Some(name@)
            } else {
                old(self).spec_current()
            },
            final(self).spec_settings(name@) == Some(settings.view_of()),
            old(self).spec_names().contains(name@) ==> final(self).spec_names() == old(self).spec_names(),
            !old(self).spec_names().contains(name@) ==> final(self).spec_names() == old(
                self,
            ).spec_names().push(name@),
            forall|other: Seq<char>|
                other != name@ ==> #[trigger] final(self).spec_settings(other) == old(self).spec_settings(
                    other,
                ),
    {
        let ghost before = *self;
        let owned = name.to_owned();
        self.put(owned, settings);
        let ghost mid = *self;
        proof {
            if !before.spec_names().contains(name@) {
                assert(self.spec_names() =~= before.spec_names().push(name@));
            }
        }
        proof {
            use_type_invariant(&*self);
        }
        let r = if self.current.is_none() {
            self.current = Some(name.to_owned());
            true
        } else {
            false
        };
        assert(self.spec_entries() == mid.spec_entries());
        assert forall|other: Seq<char>| other != name@ implies #[trigger] self.spec_settings(other)
            == before.spec_settings(other) by {
            assert(mid.spec_settings(other) == before.spec_settings(other));
        }
        r
    }

    /// A store read back from its saved form: the environment in use as
    /// saved, and the entries in order; an entry whose name came earlier
    /// replaces that earlier entry's settings.
    pub fn load(current: Option<String>, entries: Vec<(String, EnvironmentConfig)>) -> (r: EnvironmentStore)
        ensures
            r.spec_current() == opt_view(current),
            forall|name: Seq<char>| #[trigger] r.spec_settings(name) == last_settings(entries@, name),
            entry_names(entries@).no_duplicates() ==> r.spec_entries() == entries@,
    {
        let ghost all = entries@;
        let mut store = EnvironmentStore::new();
        let mut rest = entries;
        let n: usize = rest.len();
        let mut i: usize = 0;
        while i < n
            invariant
                i <= n,
                n == all.len(),
                rest@ == all.subrange(i as int, n as int),
                store.spec_current() is None,
                forall|name: Seq<char>|
                    #[trigger] store.spec_settings(name) == last_settings(all.subrange(0, i as int), name),
                entry_names(all).no_duplicates() ==> store.spec_entries() == all.subrange(0, i as int),
            decreases n - i,
        {
            let (name, settings) = rest.remove(0);
            proof {
                assert((name, settings) == all[i as int]);
                if entry_names(all).no_duplicates() {
                    let pre = all.subrange(0, i as int);
                    if entry_names(pre).contains(name@) {
                        let k = choose|k: int| 0 <= k < entry_names(pre).len() && entry_names(pre)[k] == name@;
                        assert(entry_names(all)[k] == entry_names(all)[i as int]);
                    }
                }
            }
            let ghost before = store;
            store.put(name, settings);
            proof {
                let pre = all.subrange(0, i as int);
                let post = all.subrange(0, i + 1);
                assert(post =~= pre.push(all[i as int]));
                assert(post.drop_last() =~= pre);
                assert forall|o: Seq<char>| #[trigger] store.spec_settings(o) == last_settings(post, o) by {
                    if o != all[i as int].0@ {
                        assert(store.spec_settings(o) == before.spec_settings(o));
                    }
                }
            }
            i = i + 1;
        }
        proof {
            assert(all.subrange(0, n as int) =~= all);
            use_type_invariant(&store);
        }
        let ghost filled = store;
        store.current = current;
        assert forall|o: Seq<char>| #[trigger] store.spec_settings(o) == last_settings(all, o) by {
            assert(store.spec_settings(o) == filled.spec_settings(o));
        }
        store
    }

    fn position_in(&self, entries: &Vec<(String, EnvironmentConfig)>, name: &str) -> (r: Option<usize>)
        ensures
            r matches Some(i) ==> i < entries@.len() && entry_names(entries@)[i as int] == name@,
            r is None <==> !entry_names(entries@).contains(name@),
    {
        let mut i: usize = 0;
        while i < entries.len()
            invariant
                i <= entries@.len(),
                forall|j: int| 0 <= j < i ==> entries@[j].0@ != name@,
            decreases entries@.len() - i,
        {
            if str_eq(entries[i].0.as_str(), name) {
                assert(entry_names(entries@)[i as int] == name@);
                return Some(i);
            }
            i = i + 1;
        }
        proof {
            if entry_names(entries@).contains(name@) {
                let k = choose|k: int| 0 <= k < entries@.len() && entry_names(entries@)[k] == name@;
                assert(entries@[k].0@ == name@);
            }
        }
        None
    }

    /// Makes `name` the environment in use and returns the one in use
    /// before; an environment that does not exist is `UnknownEnvironment`
    /// and changes nothing.
    pub fn switch(&mut self, name: &str) -> (r: Result<Option<String>, CwbError>)
        ensures
            old(self).spec_names().contains(name@) ==> (r matches Ok(previous) && opt_view(previous)
                == old(self).spec_current() && final(self).spec_current() == Some(name@)),
            !old(self).spec_names().contains(name@) ==> (r matches Err(
                CwbError::UnknownEnvironment { requested, valid },
            ) && requested@ == name@ && views_of(valid@) == old(self).spec_names()
                && final(self).spec_current() == old(self).spec_current()),
            final(self).spec_entries() == old(self).spec_entries(),
    {
        proof {
            use_type_invariant(&*self);
        }
        if !self.contains(name) {
            return Err(CwbError::UnknownEnvironment { requested: name.to_owned(), valid: self.names() });
        }
        let previous = match &self.current {
            Some(c) => Some(c.clone()),
            None => None,
        };
        self.current = Some(name.to_owned());
        Ok(previous)
    }

    /// Whether `name` may be deleted: it must exist and not be in use.
    pub fn check_deletable(&self, name: &str) -> (r: Result<(), CwbError>)
        ensures
            !self.spec_names().contains(name@) ==> (r matches Err(
                CwbError::UnknownEnvironment { requested, valid },
            ) && requested@ == name@ && views_of(valid@) == self.spec_names()),
            self.spec_names().contains(name@) && self.spec_current() == Some(name@) ==> (r matches Err(
                CwbError::CurrentEnvironmentDeletion { name: n },
            ) && n@ == name@),
            self.spec_names().contains(name@) && self.spec_current() != Some(name@) ==> r is Ok,
    {
        if !self.contains(name) {
            return Err(CwbError::UnknownEnvironment { requested: name.to_owned(), valid: self.names() });
        }
        if let Some(c) = &self.current {
            if str_eq(c.as_str(), name) {
                return Err(CwbError::CurrentEnvironmentDeletion { name: name.to_owned() });
            }
        }
        Ok(())
    }

    /// Deletes the environment `name` once the confirmation gate allowed
    /// it. It must exist and not be in use, as `check_deletable` says; a
    /// denial is `ConfirmationDenied`. On any error nothing changes.
    pub fn delete(&mut self, name: &str, decision: GateDecision) -> (r: Result<(), CwbError>)
        ensures
            r is Ok <==> (old(self).spec_names().contains(name@) && old(self).spec_current() != Some(
                name@,
            ) && decision == GateDecision::Allowed),
            old(self).spec_names().contains(name@) && old(self).spec_current() != Some(name@)
                && decision == GateDecision::Denied ==> (r matches Err(e) && e is ConfirmationDenied),
            r is Err ==> final(self).spec_entries() == old(self).spec_entries(),
            r is Ok ==> !final(self).spec_names().contains(name@) && forall|other: Seq<char>|
                other != name@ ==> #[trigger] final(self).spec_settings(other) == old(self).spec_settings(
                    other,
                ),
            final(self).spec_current() == old(self).spec_current(),
    {
        match self.check_deletable(name) {
            Err(e) => return Err(e),
            Ok(()) => {},
        }
        if decision == GateDecision::Denied {
            return Err(CwbError::ConfirmationDenied);
        }
        proof {
            use_type_invariant(&*self);
        }
        let ghost old_entries = self.entries@;
        let mut entries: Vec<(String, EnvironmentConfig)> = Vec::new();
        std::mem::swap(&mut self.entries, &mut entries);
        match self.position_in(&entries, name) {
            Some(i) => {
                let _ = entries.remove(i);
                proof {
                    lemma_settings_after_remove(old_entries, entries@, i as int, name@);
                }
            },
            None => {},
        }
        self.entries = entries;
        Ok(())
    }

    /// The environment to show: the named one, else the one in use; with
    /// neither, `NoCurrentEnvironment`.
    pub fn shown_name(&self, requested: Option<&str>) -> (r: Result<String, CwbError>)
        ensures
            requested matches Some(n) ==> (r matches Ok(s) && s@ == n@),
            requested is None && self.spec_current() is Some ==> (r matches Ok(s) && Some(s@)
                == self.spec_current()),
            requested is None && self.spec_current() is None ==> (r matches Err(e) && e is NoCurrentEnvironment),
    {
        match requested {
            Some(n) => Ok(n.to_owned()),
            None => match &self.current {
                Some(c) => Ok(c.clone()),
                None => Err(CwbError::NoCurrentEnvironment),
            },
        }
    }
}

} // verus!
