//! Keyed collections of the applet's state, and their storage identifiers.

use vstd::prelude::*;

verus! {

/// Storage identifier of the conversation transcripts.
pub const ID_SESSIONS: u8 = 10;

/// Storage identifier of the cron jobs.
pub const ID_CRON_JOBS: u8 = 11;

/// Storage identifier of the per-caller memory.
pub const ID_USER_MEMORY: u8 = 12;

/// Storage identifier of the task history.
pub const ID_TASK_HISTORY: u8 = 13;

/// Storage identifier of the agent registry.
pub const ID_AGENT_REGISTRY: u8 = 14;

/// The keyed collections of the applet's state.
#[derive(Debug, Clone, Copy, PartialEq, Eq, Structural)]
pub enum Collection {
    Sessions,
    CronJobs,
    UserMemory,
    TaskHistory,
    AgentRegistry,
}

impl Collection {
    /// The storage identifier of the collection.
    pub open spec fn id(self) -> u8 {
        match self {
            Collection::Sessions => ID_SESSIONS,
            Collection::CronJobs => ID_CRON_JOBS,
            Collection::UserMemory => ID_USER_MEMORY,
            Collection::TaskHistory => ID_TASK_HISTORY,
            Collection::AgentRegistry => ID_AGENT_REGISTRY,
        }
    }
}

/// The storage identifier of a collection.
pub fn storage_id(collection: Collection) -> (id: u8)
    ensures
        id == collection.id(),
{
    match collection {
        Collection::Sessions => ID_SESSIONS,
        Collection::CronJobs => ID_CRON_JOBS,
        Collection::UserMemory => ID_USER_MEMORY,
        Collection::TaskHistory => ID_TASK_HISTORY,
        Collection::AgentRegistry => ID_AGENT_REGISTRY,
    }
}

/// The identifiers under which the collections of a state are stored.
#[verifier::ext_equal]
pub struct StorageIds {
    pub sessions: u8,
    pub cron_jobs: u8,
    pub user_memory: u8,
    pub task_history: u8,
    pub agent_registry: u8,
}

impl StorageIds {
    /// Each collection has its own identifier.
    pub open spec fn allocated() -> StorageIds {
        StorageIds {
            sessions: Collection::Sessions.id(),
            cron_jobs: Collection::CronJobs.id(),
            user_memory: Collection::UserMemory.id(),
            task_history: Collection::TaskHistory.id(),
            agent_registry: Collection::AgentRegistry.id(),
        }
    }
}

/// No two collections share an identifier, and none takes one of 1 to 9, which the agent
/// framework keeps for itself.
pub proof fn storage_ids_are_apart(a: Collection, b: Collection)
    ensures
        a.id() > 9,
        a != b ==> a.id() != b.id(),
{
}

pub struct Entry<V> {
    key: String,
    value: V,
}

/// A map from text keys to values, with the storage identifier that it was made with.
pub struct KeyedStore<V> {
    id: u8,
    entries: Vec<Entry<V>>,
}

spec fn holds_at<V>(entries: Seq<Entry<V>>, key: Seq<char>, i: int) -> bool {
    0 <= i < entries.len() && entries[i].key@ == key
}

spec fn holds<V>(entries: Seq<Entry<V>>, key: Seq<char>) -> bool {
    exists|i: int| holds_at(entries, key, i)
}

spec fn keys_distinct<V>(entries: Seq<Entry<V>>) -> bool {
    forall|i: int, j: int|
        0 <= i < j < entries.len() ==> #[trigger] entries[i].key@ != #[trigger] entries[j].key@
}

spec fn as_map<V: DeepView>(entries: Seq<Entry<V>>) -> Map<Seq<char>, V::V> {
    Map::new(
        |key: Seq<char>| holds(entries, key),
        |key: Seq<char>| entries[choose|i: int| holds_at(entries, key, i)].value.deep_view(),
    )
}

proof fn as_map_at<V: DeepView>(entries: Seq<Entry<V>>, i: int)
    requires
        keys_distinct(entries),
        0 <= i < entries.len(),
    ensures
        as_map(entries).contains_key(entries[i].key@),
        as_map(entries)[entries[i].key@] == entries[i].value.deep_view(),
{
    let key = entries[i].key@;
    assert(holds_at(entries, key, i));
    let j = choose|j: int| holds_at(entries, key, j);
    assert(holds_at(entries, key, j));
    assert(i == j);
}

impl<V: DeepView> View for KeyedStore<V> {
    type V = Map<Seq<char>, V::V>;

    closed spec fn view(&self) -> Map<Seq<char>, V::V> {
        as_map(self.entries@)
    }
}

impl<V> KeyedStore<V> {
    /// No key has two entries.
    #[verifier::type_invariant]
    spec fn inv(self) -> bool {
        keys_distinct(self.entries@)
    }

    /// The storage identifier.
    pub closed spec fn id(self) -> u8 {
        self.id
    }

    /// The storage identifier.
    pub fn storage_id(&self) -> (r: u8)
        ensures
            r == self.id(),
    {
        self.id
    }
}

impl<V: DeepView> KeyedStore<V> {
    /// An empty collection with the identifier of `collection`.
    pub fn new(collection: Collection) -> (store: Self)
        ensures
            store@ == Map::<Seq<char>, V::V>::empty(),
            store.id() == collection.id(),
    {
        let store = KeyedStore { id: storage_id(collection), entries: Vec::new() };
        assert(store@ =~= Map::<Seq<char>, V::V>::empty());
        store
    }

    fn position(&self, key: &String) -> (found: Option<usize>)
        ensures
            match found {
                Some(i) => holds_at(self.entries@, key@, i as int),
                None => !holds(self.entries@, key@),
            },
    {
        let mut i: usize = 0;
        while i < self.entries.len()
            invariant
                i <= self.entries.len(),
                forall|j: int| 0 <= j < i ==> self.entries[j].key@ != key@,
            decreases self.entries.len() - i,
        {
            if self.entries[i].key == *key {
                return Some(i);
            }
            i += 1;
        }
        None
    }

    /// The value under `key`, if there is one.
    pub fn get(&self, key: &String) -> (found: Option<&V>)
        ensures
            match found {
                Some(value) => self@.contains_key(key@) && value.deep_view() == self@[key@],
                None => !self@.contains_key(key@),
            },
    {
        proof {
            use_type_invariant(self);
        }
        match self.position(key) {
            Some(i) => {
                proof {
                    as_map_at(self.entries@, i as int);
                }
                Some(&self.entries[i].value)
            },
            None => None,
        }
    }

    /// Puts `value` under `key`, in place of what was there.
    pub fn insert(&mut self, key: String, value: V)
        ensures
            final(self)@ == old(self)@.insert(key@, value.deep_view()),
            final(self).id() == old(self).id(),
    {
        proof {
            use_type_invariant(&*self);
        }
        let ghost before = self.entries@;
        let ghost (k, v) = (key@, value.deep_view());
        let found = self.position(&key);
        let mut entries: Vec<Entry<V>> = Vec::new();
        std::mem::swap(&mut entries, &mut self.entries);
        match found {
            Some(i) => {
                entries.set(i, Entry { key, value });
            },
            None => {
                entries.push(Entry { key, value });
            },
        }
        proof {
            let after = entries@;
            let place = if found is Some { found->0 as int } else { before.len() as int };
            assert forall|i: int, j: int| 0 <= i < j < after.len() implies
                #[trigger] after[i].key@ != #[trigger] after[j].key@ by {
                if found is None {
                    assert(!holds_at(before, k, i));
                }
            }
            assert forall|x: Seq<char>| holds(after, x) <==> holds(before, x) || x == k by {
                assert(holds_at(after, k, place));
                if holds(before, x) {
                    let i = choose|i: int| holds_at(before, x, i);
                    assert(holds_at(after, x, i));
                }
                if holds(after, x) && x != k {
                    let i = choose|i: int| holds_at(after, x, i);
                    assert(holds_at(before, x, i));
                }
            }
            as_map_at(after, place);
            assert forall|x: Seq<char>| holds(before, x) && x != k implies
                as_map(after)[x] == as_map(before)[x] by {
                let i = choose|i: int| holds_at(before, x, i);
                as_map_at(before, i);
                as_map_at(after, i);
            }
            assert(as_map(after) =~= as_map(before).insert(k, v));
        }
        self.entries = entries;
    }

    /// Drops the value under `key`, if there is one.
    pub fn remove(&mut self, key: &String)
        ensures
            final(self)@ == old(self)@.remove(key@),
            final(self).id() == old(self).id(),
    {
        proof {
            use_type_invariant(&*self);
        }
        let ghost before = self.entries@;
        match self.position(key) {
            Some(i) => {
                let mut entries: Vec<Entry<V>> = Vec::new();
                std::mem::swap(&mut entries, &mut self.entries);
                entries.remove(i);
                proof {
                    let after = entries@;
                    assert forall|x: Seq<char>| #[trigger] holds(after, x) implies holds(before, x)
                        && x != key@ by {
                        let j = choose|j: int| holds_at(after, x, j);
                        assert(holds_at(before, x, if j < i { j } else { j + 1 }));
                    }
                    assert forall|x: Seq<char>| #[trigger] holds(before, x) && x != key@ implies holds(
                        after,
                        x,
                    ) && as_map(after)[x] == as_map(before)[x] by {
                        let j = choose|j: int| holds_at(before, x, j);
                        let place = if j < i { j } else { j - 1 };
                        assert(holds_at(after, x, place));
                        as_map_at(before, j);
                        as_map_at(after, place);
                    }
                    assert(as_map(after) =~= as_map(before).remove(key@));
                }
                self.entries = entries;
            },
            None => {
                assert(as_map(before) =~= as_map(before).remove(key@));
            },
        }
    }
}

/// The identifiers by collection.
pub proof fn storage_ids_by_collection()
    ensures
        Collection::Sessions.id() == 10,
        Collection::CronJobs.id() == 11,
        Collection::UserMemory.id() == 12,
        Collection::TaskHistory.id() == 13,
        Collection::AgentRegistry.id() == 14,
        StorageIds::allocated() == (StorageIds {
            sessions: 10,
            cron_jobs: 11,
            user_memory: 12,
            task_history: 13,
            agent_registry: 14,
        }),
{
}

} // verus!
