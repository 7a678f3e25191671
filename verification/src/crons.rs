//! Scheduled tasks.

use crate::changes::Change;
use crate::names;
use crate::state::{OpenClawState, StateModel};
use crate::text;
use crate::types::{AgentCall, AgentTask, AgentTaskModel, CronJob, CronModel, Timestamp};
use vstd::prelude::*;

verus! {

impl StateModel {
    /// The cron jobs, in the order of creation.
    pub open spec fn crons(self) -> Seq<CronModel> {
        self.cron_ids.filter_map(|id: Seq<char>| self.cron(id))
    }

    /// The cron job with an id, if there is one.
    pub open spec fn cron(self, id: Seq<char>) -> Option<CronModel> {
        if self.cron_jobs.contains_key(id) {
            Some(self.cron_jobs[id])
        } else {
            None
        }
    }

    /// The state in which a new cron job exists, last in the list.
    pub open spec fn with_cron(self, job: CronModel) -> StateModel {
        StateModel {
            cron_jobs: self.cron_jobs.insert(job.id, job),
            cron_ids: self.cron_ids.push(job.id),
            ..self
        }
    }

    /// The state in which a cron job is known to have run at `timestamp`.
    pub open spec fn with_cron_run(self, id: Seq<char>, timestamp: Timestamp) -> StateModel {
        StateModel {
            cron_jobs: self.cron_jobs.insert(
                id,
                CronModel { last_run_timestamp: Some(timestamp), ..self.cron_jobs[id] },
            ),
            ..self
        }
    }

    /// The state in which no cron job has the id.
    pub open spec fn without_cron(self, id: Seq<char>) -> StateModel {
        StateModel {
            cron_jobs: self.cron_jobs.remove(id),
            cron_ids: names::without(self.cron_ids, id),
            ..self
        }
    }
}

/// What is said about a cron job that does not exist.
pub open spec fn cron_not_found(id: Seq<char>) -> Seq<char> {
    "Cron job '"@ + id + "' not found"@
}

impl OpenClawState {
    /// Creates a cron job at `timestamp`; an id that is taken is refused.
    pub fn create_cron(
        &mut self,
        cron_id: String,
        description: String,
        mcp_contract_address: String,
        every_ms: u64,
        timestamp: Timestamp,
    ) -> (r: Result<(), String>)
        ensures
            match r {
                Ok(_) => !old(self)@.cron_jobs.contains_key(cron_id@) && final(self)@ == old(
                    self,
                )@.with_cron(
                    CronModel {
                        id: cron_id@,
                        description: description@,
                        mcp_contract_address: mcp_contract_address@,
                        every_ms,
                        last_run_timestamp: None,
                        created_at: timestamp,
                    },
                ),
                Err(e) => old(self)@.cron_jobs.contains_key(cron_id@) && final(self)@ == old(
                    self,
                )@ && e@ == "Cron job '"@ + cron_id@ + "' already exists"@,
            },
            r is Ok ==> final(self)@ == (StateModel {
                cron_jobs: old(self)@.cron_jobs.insert(
                    cron_id@,
                    CronModel {
                        id: cron_id@,
                        description: description@,
                        mcp_contract_address: mcp_contract_address@,
                        every_ms,
                        last_run_timestamp: None,
                        created_at: timestamp,
                    },
                ),
                cron_ids: old(self)@.cron_ids.push(cron_id@),
                ..old(self)@
            }),
            final(self)@ == old(self)@.changed(
                Change::CreateCron {
                    job: CronModel {
                        id: cron_id@,
                        description: description@,
                        mcp_contract_address: mcp_contract_address@,
                        every_ms,
                        last_run_timestamp: None,
                        created_at: timestamp,
                    },
                },
            ),
            old(self)@.consistent() ==> final(self)@.consistent(),
    {
        if self.cron_jobs.get(&cron_id).is_some() {
            return Err(text::concat3("Cron job '", cron_id.as_str(), "' already exists"));
        }
        let job = CronJob {
            id: cron_id.clone(),
            description,
            mcp_contract_address,
            every_ms,
            last_run_timestamp: None,
            created_at: timestamp,
        };
        let ghost model = job.deep_view();
        let ghost before = self.cron_ids.deep_view();
        self.cron_jobs.insert(cron_id.clone(), job);
        self.cron_ids.push(cron_id);
        assert(self.cron_ids.deep_view() =~= before.push(cron_id@));
        assert(self@ =~= old(self)@.with_cron(model));
        proof {
            names::push_new_name(before, cron_id@);
        }
        Ok(())
    }

    /// Prepares the agent call that carries out a cron job.
    pub fn run_cron(
        &self,
        cron_id: String,
        model: Option<String>,
        model_key: Option<String>,
        caller: String,
        task_id: String,
    ) -> (r: Result<AgentCall, String>)
        ensures
            match r {
                Ok(call) => {
                    &&& self@.cron_jobs.contains_key(cron_id@)
                    &&& call.engagement.deep_view() == self@.engagement(
                        caller@,
                        model.deep_view(),
                        model_key.deep_view(),
                    )
                    &&& call.task.deep_view() == (AgentTaskModel {
                        task_id: task_id@,
                        description: self@.cron_jobs[cron_id@].description,
                        mcp_contract_address: self@.cron_jobs[cron_id@].mcp_contract_address,
                    })
                },
                Err(e) => !self@.cron_jobs.contains_key(cron_id@) && e@ == cron_not_found(cron_id@),
            },
            match r {
                Ok(call) => {
                    &&& call.engagement.caller == caller
                    &&& match model {
                        Some(name) => call.engagement.model == name,
                        None => call.engagement.model@ == self.config.default_model@,
                    }
                    &&& call.engagement.model_key == model_key
                    &&& call.task.task_id == task_id
                    &&& call.task.description@ == self.cron_jobs@[cron_id@].description
                    &&& call.task.mcp_contract_address@
                        == self.cron_jobs@[cron_id@].mcp_contract_address
                },
                Err(e) => e@ == "Cron job '"@ + cron_id@ + "' not found"@,
            },
    {
        match self.cron_jobs.get(&cron_id) {
            Some(job) => Ok(
                AgentCall {
                    engagement: self.engage(caller, model, model_key),
                    task: AgentTask {
                        task_id,
                        description: job.description.clone(),
                        mcp_contract_address: job.mcp_contract_address.clone(),
                    },
                },
            ),
            None => Err(text::concat3("Cron job '", cron_id.as_str(), "' not found")),
        }
    }

    /// The answer to a request to run a cron job, from how the agent call went.
    pub fn run_cron_reply(outcome: Result<String, String>) -> (r: Result<String, String>)
        ensures
            match outcome {
                Ok(reply) => r == Ok::<String, String>(reply),
                Err(e) => r matches Err(message) && message@ == "Cron execution failed: "@ + e@,
            },
    {
        match outcome {
            Ok(reply) => Ok(reply),
            Err(e) => Err(text::concat2("Cron execution failed: ", e.as_str())),
        }
    }

    /// Records that a cron job ran at `timestamp`.
    pub fn touch_cron(&mut self, cron_id: String, timestamp: Timestamp) -> (r: Result<(), String>)
        ensures
            match r {
                Ok(_) => old(self)@.cron_jobs.contains_key(cron_id@) && final(self)@ == old(
                    self,
                )@.with_cron_run(cron_id@, timestamp),
                Err(e) => !old(self)@.cron_jobs.contains_key(cron_id@) && final(self)@ == old(
                    self,
                )@ && e@ == cron_not_found(cron_id@),
            },
            r is Ok ==> final(self)@ == (StateModel {
                cron_jobs: old(self)@.cron_jobs.insert(
                    cron_id@,
                    CronModel {
                        last_run_timestamp: Some(timestamp),
                        ..old(self)@.cron_jobs[cron_id@]
                    },
                ),
                ..old(self)@
            }),
            r matches Err(e) ==> e@ == "Cron job '"@ + cron_id@ + "' not found"@,
            final(self)@ == old(self)@.changed(
                Change::TouchCron { id: cron_id@, timestamp },
            ),
            old(self)@.consistent() ==> final(self)@.consistent(),
    {
        let mut job = match self.cron_jobs.get(&cron_id) {
            Some(job) => job.clone(),
            None => {
                return Err(text::concat3("Cron job '", cron_id.as_str(), "' not found"));
            },
        };
        job.last_run_timestamp = Some(timestamp);
        self.cron_jobs.insert(cron_id, job);
        assert(self@ =~= old(self)@.with_cron_run(cron_id@, timestamp));
        Ok(())
    }

    /// Deletes a cron job.
    pub fn delete_cron(&mut self, cron_id: String) -> (r: Result<(), String>)
        ensures
            match r {
                Ok(_) => old(self)@.cron_jobs.contains_key(cron_id@) && final(self)@ == old(
                    self,
                )@.without_cron(cron_id@),
                Err(e) => !old(self)@.cron_jobs.contains_key(cron_id@) && final(self)@ == old(
                    self,
                )@ && e@ == cron_not_found(cron_id@),
            },
            r is Ok ==> final(self)@ == (StateModel {
                cron_jobs: old(self)@.cron_jobs.remove(cron_id@),
                cron_ids: old(self)@.cron_ids.filter(|id: Seq<char>| id != cron_id@),
                ..old(self)@
            }),
            r matches Err(e) ==> e@ == "Cron job '"@ + cron_id@ + "' not found"@,
            final(self)@ == old(self)@.changed(
                Change::DeleteCron { id: cron_id@ },
            ),
            old(self)@.consistent() ==> final(self)@.consistent(),
    {
        if self.cron_jobs.get(&cron_id).is_none() {
            return Err(text::concat3("Cron job '", cron_id.as_str(), "' not found"));
        }
        self.cron_jobs.remove(&cron_id);
        self.cron_ids = names::strike(&self.cron_ids, &cron_id);
        assert(self@ =~= old(self)@.without_cron(cron_id@));
        proof {
            names::without_members(old(self)@.cron_ids, cron_id@);
        }
        Ok(())
    }

    /// The cron jobs, in the order of creation.
    pub fn list_crons(&self) -> (r: Result<Vec<CronJob>, String>)
        ensures
            r is Ok,
            r->Ok_0.deep_view() == self@.crons(),
            r->Ok_0.deep_view() == self@.cron_ids.filter_map(
                |id: Seq<char>|
                    if self@.cron_jobs.contains_key(id) {
                        Some(self@.cron_jobs[id])
                    } else {
                        None
                    },
            ),
    {
        let ghost all = self@.cron_ids;
        let ghost pick = |id: Seq<char>| self@.cron(id);
        let mut r: Vec<CronJob> = Vec::new();
        let mut i: usize = 0;
        assert(r.deep_view() =~= all.take(0).filter_map(pick));
        while i < self.cron_ids.len()
            invariant
                i <= self.cron_ids.len(),
                all == self.cron_ids.deep_view(),
                pick == (|id: Seq<char>| self@.cron(id)),
                r.deep_view() == all.take(i as int).filter_map(pick),
            decreases self.cron_ids.len() - i,
        {
            let ghost before = r.deep_view();
            let id = &self.cron_ids[i];
            proof {
                all.lemma_filter_map_take_succ(pick, i as int);
            }
            if let Some(job) = self.cron_jobs.get(id) {
                r.push(job.clone());
                assert(r.deep_view() =~= before + seq![pick(id@)->0]);
            }
            assert(r.deep_view() =~= all.take(i + 1).filter_map(pick));
            i += 1;
        }
        assert(all.take(i as int) =~= all);
        assert(pick =~= (|id: Seq<char>|
            if self@.cron_jobs.contains_key(id) {
                Some(self@.cron_jobs[id])
            } else {
                None
            }));
        Ok(r)
    }
}

} // verus!
