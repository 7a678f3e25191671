//! The registry of named agents.

use crate::changes::Change;
use crate::json;
use crate::names;
use crate::state::{OpenClawState, StateModel};
use crate::text;
use crate::types::{AgentInfo, AgentModel};
use vstd::prelude::*;

verus! {

impl StateModel {
    /// The registered agents, in the order of registration.
    pub open spec fn agents(self) -> Seq<AgentModel> {
        self.agent_names.filter_map(|name: Seq<char>| self.agent(name))
    }

    /// The agent registered under `name`, if there is one.
    pub open spec fn agent(self, name: Seq<char>) -> Option<AgentModel> {
        if self.agent_registry.contains_key(name) {
            Some(AgentModel { name, contract_address: self.agent_registry[name] })
        } else {
            None
        }
    }

    /// The state in which an agent is registered, last in the list.
    pub open spec fn with_agent(self, name: Seq<char>, contract_address: Seq<char>) -> StateModel {
        StateModel {
            agent_registry: self.agent_registry.insert(name, contract_address),
            agent_names: self.agent_names.push(name),
            ..self
        }
    }

    /// The state in which no agent has the name.
    pub open spec fn without_agent(self, name: Seq<char>) -> StateModel {
        StateModel {
            agent_registry: self.agent_registry.remove(name),
            agent_names: names::without(self.agent_names, name),
            ..self
        }
    }
}

impl OpenClawState {
    /// Registers an agent; a name that is taken is refused.
    pub fn register_agent(&mut self, name: String, contract_address: String) -> (r: Result<
        (),
        String,
    >)
        ensures
            match r {
                Ok(_) => !old(self)@.agent_registry.contains_key(name@) && final(self)@ == old(
                    self,
                )@.with_agent(name@, contract_address@),
                Err(e) => old(self)@.agent_registry.contains_key(name@) && final(self)@ == old(
                    self,
                )@ && e@ == "Agent '"@ + name@ + "' is already registered"@,
            },
            r is Ok ==> final(self)@ == (StateModel {
                agent_registry: old(self)@.agent_registry.insert(name@, contract_address@),
                agent_names: old(self)@.agent_names.push(name@),
                ..old(self)@
            }),
            final(self)@ == old(self)@.changed(
                Change::RegisterAgent { name: name@, contract_address: contract_address@ },
            ),
            old(self)@.consistent() ==> final(self)@.consistent(),
    {
        if self.agent_registry.get(&name).is_some() {
            return Err(text::concat3("Agent '", name.as_str(), "' is already registered"));
        }
        let ghost before = self.agent_names.deep_view();
        self.agent_registry.insert(name.clone(), contract_address);
        self.agent_names.push(name);
        assert(self.agent_names.deep_view() =~= before.push(name@));
        assert(self@ =~= old(self)@.with_agent(name@, contract_address@));
        proof {
            names::push_new_name(before, name@);
        }
        Ok(())
    }

    /// Removes an agent; a name that is not registered is refused.
    pub fn unregister_agent(&mut self, name: String) -> (r: Result<(), String>)
        ensures
            match r {
                Ok(_) => old(self)@.agent_registry.contains_key(name@) && final(self)@ == old(
                    self,
                )@.without_agent(name@),
                Err(e) => !old(self)@.agent_registry.contains_key(name@) && final(self)@ == old(
                    self,
                )@ && e@ == "Agent '"@ + name@ + "' is not registered"@,
            },
            r is Ok ==> final(self)@ == (StateModel {
                agent_registry: old(self)@.agent_registry.remove(name@),
                agent_names: old(self)@.agent_names.filter(|n: Seq<char>| n != name@),
                ..old(self)@
            }),
            final(self)@ == old(self)@.changed(
                Change::UnregisterAgent { name: name@ },
            ),
            old(self)@.consistent() ==> final(self)@.consistent(),
    {
        if self.agent_registry.get(&name).is_none() {
            return Err(text::concat3("Agent '", name.as_str(), "' is not registered"));
        }
        self.agent_registry.remove(&name);
        self.agent_names = names::strike(&self.agent_names, &name);
        assert(self@ =~= old(self)@.without_agent(name@));
        proof {
            names::without_members(old(self)@.agent_names, name@);
        }
        Ok(())
    }

    /// The registered agents, in the order of registration.
    pub fn registered_agents(&self) -> (r: Vec<AgentInfo>)
        ensures
            r.deep_view() == self@.agents(),
            r.deep_view() == self@.agent_names.filter_map(
                |name: Seq<char>|
                    if self@.agent_registry.contains_key(name) {
                        Some(AgentModel { name, contract_address: self@.agent_registry[name] })
                    } else {
                        None
                    },
            ),
    {
        let ghost all = self@.agent_names;
        let ghost pick = |name: Seq<char>| self@.agent(name);
        let mut r: Vec<AgentInfo> = Vec::new();
        let mut i: usize = 0;
        assert(r.deep_view() =~= all.take(0).filter_map(pick));
        while i < self.agent_names.len()
            invariant
                i <= self.agent_names.len(),
                all == self.agent_names.deep_view(),
                pick == (|name: Seq<char>| self@.agent(name)),
                r.deep_view() == all.take(i as int).filter_map(pick),
            decreases self.agent_names.len() - i,
        {
            let ghost before = r.deep_view();
            let name = &self.agent_names[i];
            proof {
                all.lemma_filter_map_take_succ(pick, i as int);
            }
            if let Some(address) = self.agent_registry.get(name) {
                r.push(AgentInfo { name: name.clone(), contract_address: address.clone() });
                assert(r.deep_view() =~= before + seq![pick(name@)->0]);
            }
            assert(r.deep_view() =~= all.take(i + 1).filter_map(pick));
            i += 1;
        }
        assert(all.take(i as int) =~= all);
        assert(pick =~= (|name: Seq<char>|
            if self@.agent_registry.contains_key(name) {
                Some(AgentModel { name, contract_address: self@.agent_registry[name] })
            } else {
                None
            }));
        r
    }

    /// The registered agents, in the order of registration, as a JSON array.
    pub fn list_agents(&self) -> (r: Result<String, String>)
        ensures
            r is Ok,
            r->Ok_0@ == json::json_agents(self@.agents()),
    {
        json::write_agents(&self.registered_agents())
    }
}

} // verus!
