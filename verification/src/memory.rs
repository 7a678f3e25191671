//! Per-caller memory.

use crate::changes::Change;
use crate::state::{OpenClawState, StateModel};
use crate::text;
use vstd::prelude::*;

verus! {

/// The key under which what `caller` remembers as `key` is stored.
pub open spec fn memory_key(caller: Seq<char>, key: Seq<char>) -> Seq<char> {
    caller + ":"@ + key
}

impl StateModel {
    /// What `caller` remembers as `key`, if anything.
    pub open spec fn memory(self, caller: Seq<char>, key: Seq<char>) -> Option<Seq<char>> {
        if self.user_memory.contains_key(memory_key(caller, key)) {
            Some(self.user_memory[memory_key(caller, key)])
        } else {
            None
        }
    }

    /// The state in which `caller` remembers `value` as `key`.
    pub open spec fn with_memory(
        self,
        caller: Seq<char>,
        key: Seq<char>,
        value: Seq<char>,
    ) -> StateModel {
        StateModel { user_memory: self.user_memory.insert(memory_key(caller, key), value), ..self }
    }

    /// The state in which `caller` remembers nothing as `key`.
    pub open spec fn without_memory(self, caller: Seq<char>, key: Seq<char>) -> StateModel {
        StateModel { user_memory: self.user_memory.remove(memory_key(caller, key)), ..self }
    }
}

/// Writes the key under which what `caller` remembers as `key` is stored.
pub fn storage_key(caller: &String, key: &String) -> (r: String)
    ensures
        r@ == memory_key(caller@, key@),
        r@ == caller@ + ":"@ + key@,
{
    text::concat3(caller.as_str(), ":", key.as_str())
}

impl OpenClawState {
    /// Remembers `value` as `key` for `caller`.
    pub fn remember(&mut self, key: String, value: String, caller: &String) -> (r: Result<(), String>)
        ensures
            r is Ok,
            final(self)@ == old(self)@.with_memory(caller@, key@, value@),
            final(self)@ == (StateModel {
                user_memory: old(self)@.user_memory.insert(caller@ + ":"@ + key@, value@),
                ..old(self)@
            }),
            final(self)@ == old(self)@.changed(
                Change::Remember { caller: caller@, key: key@, value: value@ },
            ),
            old(self)@.consistent() ==> final(self)@.consistent(),
    {
        let compound = storage_key(caller, &key);
        self.user_memory.insert(compound, value);
        Ok(())
    }

    /// What `caller` remembers as `key`.
    pub fn recall(&self, key: String, caller: &String) -> (r: Result<Option<String>, String>)
        ensures
            r is Ok,
            r->Ok_0.deep_view() == self@.memory(caller@, key@),
            match r->Ok_0 {
                Some(value) => self.user_memory@.contains_key(caller@ + ":"@ + key@) && value@
                    == self.user_memory@[caller@ + ":"@ + key@],
                None => !self.user_memory@.contains_key(caller@ + ":"@ + key@),
            },
    {
        let compound = storage_key(caller, &key);
        match self.user_memory.get(&compound) {
            Some(value) => Ok(Some(value.clone())),
            None => Ok(None),
        }
    }

    /// Forgets what `caller` remembers as `key`, and tells whether there was anything.
    pub fn forget(&mut self, key: String, caller: &String) -> (r: Result<bool, String>)
        ensures
            r is Ok,
            r->Ok_0 == old(self)@.memory(caller@, key@) is Some,
            final(self)@ == old(self)@.without_memory(caller@, key@),
            r->Ok_0 == old(self)@.user_memory.contains_key(caller@ + ":"@ + key@),
            final(self)@ == (StateModel {
                user_memory: old(self)@.user_memory.remove(caller@ + ":"@ + key@),
                ..old(self)@
            }),
            final(self)@ == old(self)@.changed(
                Change::Forget { caller: caller@, key: key@ },
            ),
            old(self)@.consistent() ==> final(self)@.consistent(),
    {
        let compound = storage_key(caller, &key);
        let existed = self.user_memory.get(&compound).is_some();
        if existed {
            self.user_memory.remove(&compound);
        }
        assert(self@ =~= old(self)@.without_memory(caller@, key@));
        Ok(existed)
    }

    /// What `caller` remembers as `key`, as the tool "recall_memory".
    pub fn recall_memory(&self, key: String, caller: &String) -> (r: Result<Option<String>, String>)
        ensures
            r is Ok,
            r->Ok_0.deep_view() == self@.memory(caller@, key@),
            match r->Ok_0 {
                Some(value) => self.user_memory@.contains_key(caller@ + ":"@ + key@) && value@
                    == self.user_memory@[caller@ + ":"@ + key@],
                None => !self.user_memory@.contains_key(caller@ + ":"@ + key@),
            },
    {
        self.recall(key, caller)
    }
}

} // verus!
