//! A store of named profiles of one kind.
//!
//! A store maps profile names to profile data and never looks inside the
//! data. Names are unique within a store, and every stored name is
//! non-empty. The abstract value of a store is a `Map` from names to the
//! views of the data; the order in which names are listed is a second
//! abstract value, [`ProfileStore::names`].

use vstd::prelude::*;

verus! {

/// Why an operation on a store was turned down.
#[derive(Clone, Copy, Debug, PartialEq, Eq, Structural)]
pub enum ProfileError {
    /// The operation named a profile that the store does not hold.
    NotFound,
    /// The new name of a rename is already taken.
    Conflict,
}

/// One entry of a store: a name and the data kept under it.
pub struct ProfileRecord<T> {
    pub name: String,
    pub data: T,
}

/// Profiles of one kind, by name.
pub struct ProfileStore<T> {
    records: Vec<ProfileRecord<T>>,
}

/// The names of a sequence of records, in order.
spec fn record_names<T>(records: Seq<ProfileRecord<T>>) -> Seq<Seq<char>> {
    records.map_values(|r: ProfileRecord<T>| r.name@)
}

/// The names of a list of strings, as character sequences.
pub open spec fn names_of(list: Seq<String>) -> Seq<Seq<char>> {
    list.map_values(|s: String| s@)
}

/// Records are well formed when no name is empty and no name occurs twice.
spec fn well_formed_records<T>(records: Seq<ProfileRecord<T>>) -> bool {
    &&& record_names(records).no_duplicates()
    &&& forall|i: int| 0 <= i < records.len() ==> (#[trigger] records[i]).name@.len() > 0
}

/// The mapping that a sequence of records stands for.
spec fn contents<T: View>(records: Seq<ProfileRecord<T>>) -> Map<Seq<char>, T::V> {
    Map::new(
        |n: Seq<char>| record_names(records).contains(n),
        |n: Seq<char>| records[record_names(records).index_of(n)].data@,
    )
}

/// The listing after `add_profile`: a new name goes to the end, a name
/// that is already listed keeps its place.
pub open spec fn listed_after_add(names: Seq<Seq<char>>, name: Seq<char>) -> Seq<Seq<char>> {
    if names.contains(name) {
        names
    } else {
        names.push(name)
    }
}

/// The listing after a successful `remove_profile`: the name leaves, the
/// others keep their order.
pub open spec fn listed_after_remove(names: Seq<Seq<char>>, name: Seq<char>) -> Seq<Seq<char>> {
    names.remove(names.index_of(name))
}

/// The listing after a successful `rename_profile`: the new name takes the
/// place of the old one.
pub open spec fn listed_after_rename(
    names: Seq<Seq<char>>,
    from: Seq<char>,
    to: Seq<char>,
) -> Seq<Seq<char>> {
    names.update(names.index_of(from), to)
}

/// What `add_profile` makes of a store: the name is bound to the data,
/// whatever it was bound to before.
pub open spec fn added<V>(m: Map<Seq<char>, V>, name: Seq<char>, data: V) -> Map<Seq<char>, V> {
    m.insert(name, data)
}

/// What `get_profile` answers.
pub open spec fn looked_up<V>(m: Map<Seq<char>, V>, name: Seq<char>) -> Result<V, ProfileError> {
    if m.contains_key(name) {
        Ok(m[name])
    } else {
        Err(ProfileError::NotFound)
    }
}

/// What `remove_profile` makes of a store, or why it refuses.
pub open spec fn removed<V>(m: Map<Seq<char>, V>, name: Seq<char>) -> Result<
    Map<Seq<char>, V>,
    ProfileError,
> {
    if m.contains_key(name) {
        Ok(m.remove(name))
    } else {
        Err(ProfileError::NotFound)
    }
}

/// What `rename_profile` makes of a store, or why it refuses. A missing old
/// name is reported before a taken new name.
pub open spec fn renamed<V>(m: Map<Seq<char>, V>, from: Seq<char>, to: Seq<char>) -> Result<
    Map<Seq<char>, V>,
    ProfileError,
> {
    if !m.contains_key(from) {
        Err(ProfileError::NotFound)
    } else if m.contains_key(to) {
        Err(ProfileError::Conflict)
    } else {
        Ok(m.remove(from).insert(to, m[from]))
    }
}

/// Each record is found in the mapping under its name, and the mapping
/// holds nothing else.
proof fn lemma_contents<T: View>(records: Seq<ProfileRecord<T>>)
    requires
        record_names(records).no_duplicates(),
    ensures
        forall|i: int|
            0 <= i < records.len() ==> {
                &&& contents(records).contains_key(#[trigger] records[i].name@)
                &&& contents(records)[records[i].name@] == records[i].data@
            },
        forall|n: Seq<char>|
            contents(records).contains_key(n) <==> record_names(records).contains(n),
{
    let names = record_names(records);
    assert forall|i: int| 0 <= i < records.len() implies {
        &&& contents(records).contains_key(#[trigger] records[i].name@)
        &&& contents(records)[records[i].name@] == records[i].data@
    } by {
        assert(names[i] == records[i].name@);
        assert(names.contains(records[i].name@));
        let j = names.index_of(records[i].name@);
        assert(0 <= j < names.len() && names[j] == names[i]);
    }
}

/// In a sequence without duplicates, a value is found at its own index.
proof fn lemma_index_of(names: Seq<Seq<char>>, i: int)
    requires
        names.no_duplicates(),
        0 <= i < names.len(),
    ensures
        names.index_of(names[i]) == i,
{
    let j = names.index_of(names[i]);
    assert(names.contains(names[i]));
    assert(0 <= j < names.len() && names[j] == names[i]);
}

/// Replacing the record at `i` by one of the same name rebinds that name.
proof fn lemma_replace<T: View>(before: Seq<ProfileRecord<T>>, i: int, record: ProfileRecord<T>)
    requires
        record_names(before).no_duplicates(),
        0 <= i < before.len(),
        record.name@ == before[i].name@,
    ensures
        record_names(before.update(i, record)) == record_names(before),
        contents(before.update(i, record)) == contents(before).insert(record.name@, record.data@),
{
    let after = before.update(i, record);
    assert(after.len() == before.len());
    assert(record_names(after) =~= record_names(before));
    lemma_contents(before);
    lemma_contents(after);
    assert forall|n: Seq<char>| #[trigger] contents(after).contains_key(n) implies contents(
        after,
    )[n] == contents(before).insert(record.name@, record.data@)[n] by {
        let k = record_names(before).index_of(n);
        assert(0 <= k < before.len() && record_names(before)[k] == n);
        assert(before[k].name@ == n);
        assert(after[k].name@ == n);
        assert(record_names(before)[i] == record.name@);
        if n != record.name@ {
            assert(after[k] == before[k]);
        } else {
            assert(k == i);
        }
    }
    assert(after[i].name@ == record.name@);
    assert(contents(after) =~= contents(before).insert(record.name@, record.data@));
}

/// Appending a record under a name that is not yet taken binds that name.
proof fn lemma_append<T: View>(before: Seq<ProfileRecord<T>>, record: ProfileRecord<T>)
    requires
        record_names(before).no_duplicates(),
        !record_names(before).contains(record.name@),
    ensures
        record_names(before.push(record)) == record_names(before).push(record.name@),
        record_names(before.push(record)).no_duplicates(),
        contents(before.push(record)) == contents(before).insert(record.name@, record.data@),
{
    let after = before.push(record);
    let last = before.len() as int;
    assert(record_names(after) =~= record_names(before).push(record.name@));
    assert forall|a: int, b: int|
        0 <= a < after.len() && 0 <= b < after.len() && a != b implies record_names(after)[a]
        != record_names(after)[b] by {
        if a < last && b < last {
            assert(record_names(before)[a] != record_names(before)[b]);
        } else if a < last {
            assert(record_names(before)[a] == record_names(after)[a]);
        } else {
            assert(record_names(before)[b] == record_names(after)[b]);
        }
    }
    lemma_contents(before);
    lemma_contents(after);
    assert(after[last].name@ == record.name@);
    assert forall|n: Seq<char>| #[trigger] contents(after).contains_key(n) implies contents(
        before,
    ).insert(record.name@, record.data@).contains_key(n) && contents(after)[n] == contents(
        before,
    ).insert(record.name@, record.data@)[n] by {
        let k = record_names(after).index_of(n);
        assert(0 <= k < after.len() && record_names(after)[k] == n);
        assert(after[k].name@ == n);
        if k < last {
            assert(before[k] == after[k]);
            assert(before[k].name@ == n);
        }
    }
    assert forall|n: Seq<char>| #[trigger] contents(before).contains_key(n) implies contents(
        after,
    ).contains_key(n) by {
        let k = record_names(before).index_of(n);
        assert(0 <= k < before.len() && record_names(before)[k] == n);
        assert(after[k] == before[k]);
        assert(after[k].name@ == n);
    }
    assert(contents(after) =~= contents(before).insert(record.name@, record.data@));
}

/// Taking the record at `i` out unbinds its name and no other.
proof fn lemma_take_out<T: View>(before: Seq<ProfileRecord<T>>, i: int)
    requires
        record_names(before).no_duplicates(),
        0 <= i < before.len(),
    ensures
        record_names(before.remove(i)) == record_names(before).remove(i),
        record_names(before.remove(i)).no_duplicates(),
        contents(before.remove(i)) == contents(before).remove(before[i].name@),
{
    let after = before.remove(i);
    let gone = before[i].name@;
    assert(record_names(after) =~= record_names(before).remove(i));
    assert forall|a: int, b: int|
        0 <= a < after.len() && 0 <= b < after.len() && a != b implies record_names(after)[a]
        != record_names(after)[b] by {
        let a0 = if a < i { a } else { a + 1 };
        let b0 = if b < i { b } else { b + 1 };
        assert(record_names(after)[a] == record_names(before)[a0]);
        assert(record_names(after)[b] == record_names(before)[b0]);
    }
    lemma_contents(before);
    lemma_contents(after);
    assert(record_names(before)[i] == gone);
    assert forall|n: Seq<char>| #[trigger] contents(after).contains_key(n) implies contents(
        before,
    ).remove(gone).contains_key(n) && contents(after)[n] == contents(before).remove(gone)[n] by {
        let k = record_names(after).index_of(n);
        assert(0 <= k < after.len() && record_names(after)[k] == n);
        let k0 = if k < i { k } else { k + 1 };
        assert(after[k] == before[k0]);
        assert(after[k].name@ == n);
        assert(before[k0].name@ == n);
        assert(record_names(before)[k0] == n);
    }
    assert forall|n: Seq<char>| #[trigger]
        contents(before).remove(gone).contains_key(n) implies contents(after).contains_key(n) by {
        let k = record_names(before).index_of(n);
        assert(0 <= k < before.len() && record_names(before)[k] == n);
        assert(k != i);
        let k1 = if k < i { k } else { k - 1 };
        assert(after[k1] == before[k]);
        assert(before[k].name@ == n);
        assert(after[k1].name@ == n);
    }
    assert(contents(after) =~= contents(before).remove(gone));
}

/// Giving the record at `i` a name that is not yet taken moves its data
/// from the old name to the new one.
proof fn lemma_relabel<T: View>(before: Seq<ProfileRecord<T>>, i: int, record: ProfileRecord<T>)
    requires
        record_names(before).no_duplicates(),
        0 <= i < before.len(),
        !record_names(before).contains(record.name@),
        record.data@ == before[i].data@,
    ensures
        record_names(before.update(i, record)) == record_names(before).update(i, record.name@),
        record_names(before.update(i, record)).no_duplicates(),
        contents(before.update(i, record)) == contents(before).remove(before[i].name@).insert(
            record.name@,
            before[i].data@,
        ),
{
    let after = before.update(i, record);
    let gone = before[i].name@;
    let target = contents(before).remove(gone).insert(record.name@, before[i].data@);
    assert(after.len() == before.len());
    assert(record_names(after) =~= record_names(before).update(i, record.name@));
    assert forall|a: int, b: int|
        0 <= a < after.len() && 0 <= b < after.len() && a != b implies record_names(after)[a]
        != record_names(after)[b] by {
        if a != i && b != i {
            assert(record_names(after)[a] == record_names(before)[a]);
            assert(record_names(after)[b] == record_names(before)[b]);
        } else if a == i {
            assert(record_names(after)[b] == record_names(before)[b]);
            assert(record_names(before).contains(record_names(before)[b]));
        } else {
            assert(record_names(after)[a] == record_names(before)[a]);
            assert(record_names(before).contains(record_names(before)[a]));
        }
    }
    lemma_contents(before);
    lemma_contents(after);
    assert(record_names(before)[i] == gone);
    assert(after[i].name@ == record.name@);
    assert forall|n: Seq<char>| #[trigger] contents(after).contains_key(n) implies target.contains_key(
        n,
    ) && contents(after)[n] == target[n] by {
        let k = record_names(after).index_of(n);
        assert(0 <= k < after.len() && record_names(after)[k] == n);
        assert(after[k].name@ == n);
        if k != i {
            assert(after[k] == before[k]);
            assert(before[k].name@ == n);
            assert(record_names(before)[k] == n);
        }
    }
    assert forall|n: Seq<char>| #[trigger] target.contains_key(n) implies contents(
        after,
    ).contains_key(n) by {
        if n != record.name@ {
            let k = record_names(before).index_of(n);
            assert(0 <= k < before.len() && record_names(before)[k] == n);
            assert(k != i);
            assert(after[k] == before[k]);
            assert(before[k].name@ == n);
            assert(after[k].name@ == n);
        }
    }
    assert(contents(after) =~= target);
}

impl<T> ProfileStore<T> {
    #[verifier::type_invariant]
    spec fn well_formed(self) -> bool {
        well_formed_records(self.records@)
    }

    /// The names of the stored profiles, in the order in which they are
    /// listed.
    pub closed spec fn names(&self) -> Seq<Seq<char>> {
        record_names(self.records@)
    }
}

impl<T: View> View for ProfileStore<T> {
    type V = Map<Seq<char>, T::V>;

    closed spec fn view(&self) -> Map<Seq<char>, T::V> {
        contents(self.records@)
    }
}

impl<T: View> ProfileStore<T> {
    /// An empty store.
    pub fn new() -> (store: Self)
        ensures
            store@ == Map::<Seq<char>, T::V>::empty(),
            store.names() == Seq::<Seq<char>>::empty(),
    {
        let store = ProfileStore { records: Vec::new() };
        proof {
            assert(store@ =~= Map::<Seq<char>, T::V>::empty());
            assert(store.names() =~= Seq::<Seq<char>>::empty());
        }
        store
    }

    /// Where the profile of the given name is kept, if it is kept.
    fn position(&self, name: &String) -> (found: Option<usize>)
        ensures
            match found {
                Some(i) => i < self.records@.len() && self.records@[i as int].name@ == name@,
                None => !self.names().contains(name@),
            },
    {
        let mut i: usize = 0;
        while i < self.records.len()
            invariant
                i <= self.records@.len(),
                forall|k: int| 0 <= k < i ==> self.records@[k].name@ != name@,
            decreases self.records@.len() - i,
        {
            if self.records[i].name == *name {
                return Some(i);
            }
            i += 1;
        }
        proof {
            let names = self.names();
            if names.contains(name@) {
                let k = choose|k: int| 0 <= k < names.len() && names[k] == name@;
                assert(self.records@[k].name@ == name@);
            }
        }
        None
    }

    /// Whether a profile of that name is stored. No profile is stored
    /// under the empty name.
    pub fn contains(&self, name: &str) -> (present: bool)
        ensures
            present == self@.contains_key(name@),
            present ==> name@.len() > 0,
    {
        proof {
            use_type_invariant(self);
            lemma_contents(self.records@);
        }
        let key = name.to_owned();
        let found = self.position(&key);
        proof {
            if let Some(i) = found {
                assert(self.records@[i as int].name@.len() > 0);
            }
        }
        found.is_some()
    }

    /// Stores `data` under `name`, replacing what was stored there.
    pub fn add_profile(&mut self, name: &str, data: T)
        requires
            name@.len() > 0,
        ensures
            final(self)@ == added(old(self)@, name@, data@),
            final(self).names() == listed_after_add(old(self).names(), name@),
    {
        proof {
            use_type_invariant(&*self);
            lemma_contents(self.records@);
        }
        let key = name.to_owned();
        let found = self.position(&key);
        let mut records: Vec<ProfileRecord<T>> = Vec::new();
        std::mem::swap(&mut records, &mut self.records);
        let ghost before = records@;
        let record = ProfileRecord { name: key, data };
        match found {
            Some(i) => {
                proof {
                    lemma_replace(before, i as int, record);
                }
                records.set(i, record);
            },
            None => {
                proof {
                    lemma_append(before, record);
                }
                records.push(record);
            },
        }
        self.records = records;
    }

    /// The data stored under `name`.
    pub fn get_profile(&self, name: &str) -> (found: Result<&T, ProfileError>)
        ensures
            match found {
                Ok(data) => looked_up(self@, name@) == Ok::<T::V, ProfileError>(data@),
                Err(e) => looked_up(self@, name@) == Err::<T::V, ProfileError>(e),
            },
    {
        proof {
            use_type_invariant(self);
            lemma_contents(self.records@);
        }
        let key = name.to_owned();
        match self.position(&key) {
            Some(i) => Ok(&self.records[i].data),
            None => Err(ProfileError::NotFound),
        }
    }

    /// The names of all stored profiles. The order is that of
    /// [`ProfileStore::names`]: it changes only when the store does.
    pub fn list_profiles(&self) -> (list: Vec<String>)
        ensures
            names_of(list@) == self.names(),
            self.names().no_duplicates(),
            forall|n: Seq<char>| self.names().contains(n) <==> self@.contains_key(n),
            forall|n: Seq<char>| self@.contains_key(n) ==> n.len() > 0,
    {
        proof {
            use_type_invariant(self);
            lemma_contents(self.records@);
            assert forall|n: Seq<char>| self@.contains_key(n) implies n.len() > 0 by {
                let k = self.names().index_of(n);
                assert(0 <= k < self.records@.len() && self.names()[k] == n);
                assert(self.records@[k].name@ == n);
            }
        }
        let mut list: Vec<String> = Vec::new();
        let mut i: usize = 0;
        while i < self.records.len()
            invariant
                i <= self.records@.len(),
                list@.len() == i,
                forall|k: int| 0 <= k < i ==> list@[k]@ == self.records@[k].name@,
            decreases self.records@.len() - i,
        {
            list.push(self.records[i].name.clone());
            i += 1;
        }
        proof {
            assert(names_of(list@) =~= self.names());
        }
        list
    }

    /// Removes the profile stored under `name`.
    pub fn remove_profile(&mut self, name: &str) -> (done: Result<(), ProfileError>)
        ensures
            match done {
                Ok(_) => {
                    &&& removed(old(self)@, name@) == Ok::<Map<Seq<char>, T::V>, ProfileError>(
                        final(self)@,
                    )
                    &&& final(self).names() == listed_after_remove(old(self).names(), name@)
                },
                Err(e) => {
                    &&& removed(old(self)@, name@) == Err::<Map<Seq<char>, T::V>, ProfileError>(e)
                    &&& final(self)@ == old(self)@
                    &&& final(self).names() == old(self).names()
                },
            },
    {
        proof {
            use_type_invariant(&*self);
            lemma_contents(self.records@);
        }
        let key = name.to_owned();
        match self.position(&key) {
            Some(i) => {
                let mut records: Vec<ProfileRecord<T>> = Vec::new();
                std::mem::swap(&mut records, &mut self.records);
                let ghost before = records@;
                records.remove(i);
                proof {
                    lemma_index_of(record_names(before), i as int);
                    lemma_take_out(before, i as int);
                }
                self.records = records;
                Ok(())
            },
            None => Err(ProfileError::NotFound),
        }
    }

    /// Gives the profile stored under `from` the name `to`, and returns the
    /// names that the store then lists. Nothing changes when it refuses.
    pub fn rename_profile(&mut self, from: &str, to: &str) -> (done: Result<
        Vec<String>,
        ProfileError,
    >)
        requires
            to@.len() > 0,
        ensures
            match done {
                Ok(list) => {
                    &&& renamed(old(self)@, from@, to@) == Ok::<Map<Seq<char>, T::V>, ProfileError>(
                        final(self)@,
                    )
                    &&& final(self).names() == listed_after_rename(
                        old(self).names(),
                        from@,
                        to@,
                    )
                    &&& names_of(list@) == final(self).names()
                },
                Err(e) => {
                    &&& renamed(old(self)@, from@, to@) == Err::<Map<Seq<char>, T::V>, ProfileError>(
                        e,
                    )
                    &&& final(self)@ == old(self)@
                    &&& final(self).names() == old(self).names()
                },
            },
    {
        proof {
            use_type_invariant(&*self);
            lemma_contents(self.records@);
        }
        let old_key = from.to_owned();
        let new_key = to.to_owned();
        let found = self.position(&old_key);
        let taken = self.position(&new_key);
        match found {
            None => Err(ProfileError::NotFound),
            Some(i) => {
                if taken.is_some() {
                    return Err(ProfileError::Conflict);
                }
                let mut records: Vec<ProfileRecord<T>> = Vec::new();
                std::mem::swap(&mut records, &mut self.records);
                let ghost before = records@;
                let record = records.remove(i);
                let renamed_record = ProfileRecord { name: new_key, data: record.data };
                proof {
                    lemma_index_of(record_names(before), i as int);
                    lemma_relabel(before, i as int, renamed_record);
                    assert(before.remove(i as int).insert(i as int, renamed_record)
                        =~= before.update(i as int, renamed_record));
                }
                records.insert(i, renamed_record);
                self.records = records;
                Ok(self.list_profiles())
            },
        }
    }
}

/// A profile that was added is found again, with the data it was added with.
pub proof fn lemma_add_then_get<V>(m: Map<Seq<char>, V>, name: Seq<char>, data: V)
    ensures
        looked_up(added(m, name, data), name) == Ok::<V, ProfileError>(data),
{
}

/// Adding the same profile twice is the same as adding it once, and of two
/// additions under one name only the second is kept.
pub proof fn lemma_add_overwrites<V>(m: Map<Seq<char>, V>, name: Seq<char>, first: V, second: V)
    ensures
        added(added(m, name, first), name, first) == added(m, name, first),
        added(added(m, name, first), name, second) == added(m, name, second),
{
    assert(added(added(m, name, first), name, first) =~= added(m, name, first));
    assert(added(added(m, name, first), name, second) =~= added(m, name, second));
}

/// A profile that was removed is no longer found, and a profile that is not
/// stored cannot be removed.
pub proof fn lemma_remove_then_get<V>(m: Map<Seq<char>, V>, name: Seq<char>)
    ensures
        m.contains_key(name) ==> removed(m, name) is Ok && looked_up(
            removed(m, name)->Ok_0,
            name,
        ) == Err::<V, ProfileError>(ProfileError::NotFound) && removed(
            removed(m, name)->Ok_0,
            name,
        ) == Err::<Map<Seq<char>, V>, ProfileError>(ProfileError::NotFound),
        !m.contains_key(name) ==> removed(m, name) == Err::<Map<Seq<char>, V>, ProfileError>(
            ProfileError::NotFound,
        ),
{
}

/// After a rename the old name is gone: renaming it again or removing it is
/// refused as not found, and the data is found under the new name.
pub proof fn lemma_rename_moves<V>(m: Map<Seq<char>, V>, from: Seq<char>, to: Seq<char>)
    requires
        renamed(m, from, to) is Ok,
    ensures
        renamed(renamed(m, from, to)->Ok_0, from, to) == Err::<Map<Seq<char>, V>, ProfileError>(
            ProfileError::NotFound,
        ),
        removed(renamed(m, from, to)->Ok_0, from) == Err::<Map<Seq<char>, V>, ProfileError>(
            ProfileError::NotFound,
        ),
        looked_up(renamed(m, from, to)->Ok_0, to) == Ok::<V, ProfileError>(m[from]),
{
}

/// A rename onto a name that is taken is refused as a conflict, whatever
/// the two profiles hold.
pub proof fn lemma_rename_conflict<V>(m: Map<Seq<char>, V>, from: Seq<char>, to: Seq<char>)
    requires
        m.contains_key(from),
        m.contains_key(to),
    ensures
        renamed(m, from, to) == Err::<Map<Seq<char>, V>, ProfileError>(ProfileError::Conflict),
{
}

/// Renaming a profile and then renaming it back leaves the store as it was.
pub proof fn lemma_rename_round_trip<V>(m: Map<Seq<char>, V>, from: Seq<char>, to: Seq<char>)
    requires
        renamed(m, from, to) is Ok,
    ensures
        renamed(renamed(m, from, to)->Ok_0, to, from) == Ok::<Map<Seq<char>, V>, ProfileError>(m),
{
    let there = renamed(m, from, to)->Ok_0;
    assert(there.remove(to).insert(from, there[to]) =~= m);
}

} // verus!
