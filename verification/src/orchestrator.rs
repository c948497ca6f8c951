//! The orchestrator: a named registry of agent clients with a default
//! selection, per-agent usage counters, subscriber fan-out, and the
//! translate → execute → summarize pipeline with bounded retry.
//!
//! The pipeline's outside work — backend calls, engine calls, the retry
//! delay — is performed by the surrounding program. The orchestrator decides
//! everything: [`AgentOrchestrator::start_query`] resolves the agent,
//! [`AgentOrchestrator::next_op`] says what outside work a task needs next,
//! and [`AgentOrchestrator::on_event`] advances the task by one outcome,
//! exactly as the pure transition [`advance`] says. A run drives the task
//! until `next_op` answers [`PipelineOp::Deliver`], sleeping
//! `retry_delay_ms` between attempts.

use vstd::prelude::*;
use vstd::string::*;
use crate::agent_client::{
    AgentClient, AgentError, TranslateQuery, InsightQuery, cache_lookup, translate_prompt,
    looks_like_sql, no_data_message, insights_prompt, summary_of, measures,
};
use crate::error::ErrorKind;
use crate::models::Record;
use crate::text::{trimmed, trim_str, str_eq, dec_digits, u64_to_string};
use crate::clock::now_millis;

verus! {

/// One registered agent: its name, its backend client, and how many
/// requests it has completed.
#[derive(Debug)]
pub struct AgentRegistration {
    pub name: String,
    pub client: AgentClient,
    /// Incremented exactly once per completed pipeline run.
    pub requests_processed: u64,
}

/// A snapshot of one agent, as reported to callers.
#[derive(Clone, Debug)]
pub struct AgentStatus {
    pub agent_type: String,
    pub status: String,
    /// Clock reading at the time of the snapshot, in decimal.
    pub last_update: String,
    pub model: String,
    pub requests_processed: u64,
}

/// Why a pipeline request failed.
#[derive(Clone, Debug, PartialEq, Eq)]
pub enum PipelineError {
    /// The requested agent name is not registered; carries the name.
    AgentNotFound(String),
    /// The backend failed; carries the last attempt's error.
    Agent(AgentError),
    /// The external query engine failed; carries its message.
    Execution(String),
}

impl PipelineError {
    /// The machine-distinguishable category of this failure.
    pub fn kind(&self) -> (r: ErrorKind)
        ensures
            r == (match self {
                PipelineError::AgentNotFound(_) => ErrorKind::AgentNotFound,
                PipelineError::Agent(_) => ErrorKind::Agent,
                PipelineError::Execution(_) => ErrorKind::Execution,
            }),
    {
        match self {
            PipelineError::AgentNotFound(_) => ErrorKind::AgentNotFound,
            PipelineError::Agent(_) => ErrorKind::Agent,
            PipelineError::Execution(_) => ErrorKind::Execution,
        }
    }
}

/// Where one request stands in the pipeline.
#[derive(Debug)]
pub enum PipelineStage {
    /// Waiting for the input to be translated to SQL.
    Translate,
    /// Waiting for the engine to run the statement; holds the backend's raw
    /// reply, trimmed when handed to the engine.
    Execute { sql: String },
    /// Waiting for the summary of the rows.
    Summarize { records: Vec<Record> },
    /// Finished; rows and insight text are ready for delivery.
    Done { records: Vec<Record>, insights: String },
    /// Finished without a result; only the last attempt's error is kept.
    Failed { error: PipelineError },
}

/// One in-flight request.
#[derive(Debug)]
pub struct QueryTask {
    pub agent_name: String,
    pub input: String,
    /// Attempts already spent; the pipeline gives up after `retry_attempts`.
    pub attempt: u32,
    pub stage: PipelineStage,
}

/// The outside work a task needs next.
#[derive(Debug)]
pub enum PipelineOp {
    /// Send this prompt to the backend; answer with `BackendReply`.
    AskBackend(String),
    /// Run this statement on the engine; answer with `EngineRows`.
    RunSql(String),
    /// No outside work is needed: feed this text back as a successful
    /// `BackendReply`. Used for cached translations and empty datasets.
    Feed(String),
    /// The task is finished; deliver its outcome.
    Deliver,
}

/// The outcome of one piece of outside work.
#[derive(Debug)]
pub enum PipelineEvent {
    /// What the backend answered, or why it could not.
    BackendReply(Result<String, AgentError>),
    /// What the engine returned, or its error message.
    EngineRows(Result<Vec<Record>, String>),
}

/// The task after a failed attempt: a fresh attempt from the translate
/// stage while attempts remain, else failure with this error.
pub open spec fn retry_or_fail(task: QueryTask, error: PipelineError, retry_attempts: u32) -> QueryTask {
    if task.attempt + 1 < retry_attempts {
        QueryTask { attempt: (task.attempt + 1) as u32, stage: PipelineStage::Translate, ..task }
    } else {
        QueryTask { stage: PipelineStage::Failed { error }, ..task }
    }
}

/// The pipeline transition: how a task advances on one event. Events that do
/// not belong to the current stage leave the task unchanged.
pub open spec fn advance(task: QueryTask, ev: PipelineEvent, retry_attempts: u32) -> QueryTask {
    match task.stage {
        PipelineStage::Translate => match ev {
            PipelineEvent::BackendReply(Ok(reply)) => if looks_like_sql(trimmed(reply@)) {
                QueryTask { stage: PipelineStage::Execute { sql: reply }, ..task }
            } else {
                retry_or_fail(
                    task,
                    PipelineError::Agent(AgentError::InvalidResponse),
                    retry_attempts,
                )
            },
            PipelineEvent::BackendReply(Err(e)) => retry_or_fail(
                task,
                PipelineError::Agent(e),
                retry_attempts,
            ),
            _ => task,
        },
        PipelineStage::Execute { sql } => match ev {
            PipelineEvent::EngineRows(Ok(rows)) => QueryTask {
                stage: PipelineStage::Summarize { records: rows },
                ..task
            },
            PipelineEvent::EngineRows(Err(msg)) => retry_or_fail(
                task,
                PipelineError::Execution(msg),
                retry_attempts,
            ),
            _ => task,
        },
        PipelineStage::Summarize { records } => match ev {
            PipelineEvent::BackendReply(Ok(text)) => QueryTask {
                stage: PipelineStage::Done { records, insights: text },
                ..task
            },
            PipelineEvent::BackendReply(Err(e)) => retry_or_fail(
                task,
                PipelineError::Agent(e),
                retry_attempts,
            ),
            _ => task,
        },
        PipelineStage::Done { .. } => task,
        PipelineStage::Failed { .. } => task,
    }
}

/// Whether this event completes the task: only a successful summary does,
/// and it is what increments the agent's usage counter.
pub open spec fn is_completion(task: QueryTask, ev: PipelineEvent) -> bool {
    task.stage is Summarize && (ev matches PipelineEvent::BackendReply(Ok(_)))
}

/// Whether this event is an accepted translation, which fills the cache.
pub open spec fn is_translate_accept(task: QueryTask, ev: PipelineEvent) -> bool {
    task.stage is Translate && (ev matches PipelineEvent::BackendReply(Ok(reply))
        && looks_like_sql(trimmed(reply@)))
}

/// The index of the registration with this name, scanning from the front.
pub open spec fn find_agent(s: Seq<AgentRegistration>, name: Seq<char>) -> Option<int>
    decreases s.len(),
{
    if s.len() == 0 {
        None
    } else if s[0].name@ == name {
        Some(0int)
    } else {
        match find_agent(s.drop_first(), name) {
            Some(i) => Some(i + 1),
            None => None,
        }
    }
}

/// What `find_agent` finds: the first registration with the name, if any.
pub proof fn lemma_find_agent(s: Seq<AgentRegistration>, name: Seq<char>)
    ensures
        match find_agent(s, name) {
            Some(i) => 0 <= i < s.len() && s[i].name@ == name && forall|j: int|
                0 <= j < i ==> (#[trigger] s[j].name@) != name,
            None => forall|j: int| 0 <= j < s.len() ==> (#[trigger] s[j].name@) != name,
        },
    decreases s.len(),
{
    if s.len() > 0 {
        lemma_find_agent(s.drop_first(), name);
        assert(forall|j: int| 1 <= j < s.len() ==> #[trigger] s[j] == s.drop_first()[j - 1]);
    }
}

/// No two registrations share a name.
pub open spec fn names_unique(s: Seq<AgentRegistration>) -> bool {
    forall|i: int, j: int|
        0 <= i < j < s.len() ==> (#[trigger] s[i].name@) != (#[trigger] s[j].name@)
}

/// The registry after registering one client: a fresh entry, or a
/// replacement of the entry already holding the name, with its counter
/// reset.
pub open spec fn upsert_registration(
    s: Seq<AgentRegistration>,
    name: String,
    client: AgentClient,
) -> Seq<AgentRegistration> {
    match find_agent(s, name@) {
        Some(i) => s.update(i, AgentRegistration { name, client, requests_processed: 0 }),
        None => s + seq![AgentRegistration { name, client, requests_processed: 0 }],
    }
}

/// The registry built from the given pairs, in order; a repeated name keeps
/// the client given last.
pub open spec fn registry_of(pairs: Seq<(String, AgentClient)>) -> Seq<AgentRegistration>
    decreases pairs.len(),
{
    if pairs.len() == 0 {
        Seq::empty()
    } else {
        upsert_registration(
            registry_of(pairs.drop_last()),
            pairs.last().0,
            pairs.last().1,
        )
    }
}

/// Whether the subscriber id is registered under this key.
pub open spec fn subscribed(subs: Seq<(String, u64)>, key: Seq<char>, id: u64) -> bool {
    exists|i: int| 0 <= i < subs.len() && (#[trigger] subs[i]).0@ == key && subs[i].1 == id
}

/// Subscriber lists carry ids handed out before `next`, each at most once.
pub open spec fn subscribers_wf(subs: Seq<(String, u64)>, next: u64) -> bool {
    &&& forall|i: int| 0 <= i < subs.len() ==> (#[trigger] subs[i]).1 < next
    &&& forall|i: int, j: int|
        0 <= i < j < subs.len() ==> (#[trigger] subs[i]).1 != (#[trigger] subs[j]).1
}

/// A request to be notified of insights for one exact query text.
pub struct SubscribeToInsights(pub String);

/// A request to be notified of status updates for one agent name.
pub struct SubscribeToStatus(pub String);

/// The orchestrator's whole state.
pub struct AgentOrchestrator {
    /// Registered agents; names are unique and order is registration order.
    pub agents: Vec<AgentRegistration>,
    /// The agent used when a request names none.
    pub default_agent: String,
    /// Attempts per request; each failed attempt before the last is retried.
    pub retry_attempts: u32,
    /// Sleep between attempts, applied by the surrounding program.
    pub retry_delay_ms: u64,
    /// Insight subscribers, keyed by exact query text.
    pub insight_subscribers: Vec<(String, u64)>,
    /// Status subscribers, keyed by agent name.
    pub status_subscribers: Vec<(String, u64)>,
    /// The id the next subscriber will receive.
    pub next_subscriber_id: u64,
}

/// The ids registered under this key, each once.
fn recipients_of(subs: &Vec<(String, u64)>, key: &str, Ghost(next): Ghost<u64>) -> (r: Vec<u64>)
    requires
        subscribers_wf(subs@, next),
    ensures
        forall|id: u64| r@.contains(id) <==> subscribed(subs@, key@, id),
        r@.no_duplicates(),
{
    let mut out: Vec<u64> = Vec::new();
    let mut i: usize = 0;
    while i < subs.len()
        invariant
            i <= subs@.len(),
            subscribers_wf(subs@, next),
            forall|id: u64| out@.contains(id) <==> subscribed(subs@.take(i as int), key@, id),
            out@.no_duplicates(),
        decreases subs@.len() - i,
    {
        let ghost prev = out@;
        if str_eq(subs[i].0.as_str(), key) {
            let id = subs[i].1;
            proof {
                if out@.contains(id) {
                    let j = choose|j: int|
                        0 <= j < i && (#[trigger] subs@.take(i as int)[j]).0@ == key@
                            && subs@.take(i as int)[j].1 == id;
                    assert(subs@[j].1 == subs@[i as int].1);
                    assert(false);
                }
            }
            out.push(id);
            proof {
                assert forall|id2: u64|
                    out@.contains(id2) <==> subscribed(
                        subs@.take(i as int + 1),
                        key@,
                        id2,
                    ) by {
                    if out@.contains(id2) {
                        if prev.contains(id2) {
                            let j = choose|j: int|
                                0 <= j < i && (#[trigger] subs@.take(i as int)[j]).0@ == key@
                                    && subs@.take(i as int)[j].1 == id2;
                            assert((subs@.take(i as int + 1)[j]).0@ == key@);
                            assert(subscribed(subs@.take(i as int + 1), key@, id2));
                        } else {
                            assert(id2 == id);
                            assert((subs@.take(i as int + 1)[i as int]).0@ == key@);
                            assert(subscribed(subs@.take(i as int + 1), key@, id2));
                        }
                    }
                    if subscribed(subs@.take(i as int + 1), key@, id2) {
                        let j = choose|j: int|
                            0 <= j < i + 1 && (#[trigger] subs@.take(i as int + 1)[j]).0@ == key@
                                && subs@.take(i as int + 1)[j].1 == id2;
                        if j < i {
                            assert((subs@.take(i as int)[j]).0@ == key@);
                            assert(subscribed(subs@.take(i as int), key@, id2));
                            assert(prev.contains(id2));
                            let m = choose|m: int| 0 <= m < prev.len() && prev[m] == id2;
                            assert(out@[m] == id2);
                        } else {
                            assert(id2 == id);
                            assert(out@[prev.len() as int] == id);
                        }
                        assert(out@.contains(id2));
                    }
                }
            }
        } else {
            proof {
                assert forall|id2: u64|
                    out@.contains(id2) <==> subscribed(
                        subs@.take(i as int + 1),
                        key@,
                        id2,
                    ) by {
                    if out@.contains(id2) {
                        let j = choose|j: int|
                            0 <= j < i && (#[trigger] subs@.take(i as int)[j]).0@ == key@
                                && subs@.take(i as int)[j].1 == id2;
                        assert((subs@.take(i as int + 1)[j]).0@ == key@);
                        assert(subscribed(subs@.take(i as int + 1), key@, id2));
                    }
                    if subscribed(subs@.take(i as int + 1), key@, id2) {
                        let j = choose|j: int|
                            0 <= j < i + 1 && (#[trigger] subs@.take(i as int + 1)[j]).0@ == key@
                                && subs@.take(i as int + 1)[j].1 == id2;
                        assert(j != i);
                        assert((subs@.take(i as int)[j]).0@ == key@);
                        assert(subscribed(subs@.take(i as int), key@, id2));
                    }
                }
            }
        }
        i = i + 1;
    }
    proof {
        assert(subs@.take(subs@.len() as int) =~= subs@);
    }
    out
}

/// The index of the registration with this name.
fn find_agent_x(agents: &Vec<AgentRegistration>, name: &str) -> (r: Option<usize>)
    ensures
        match r {
            Some(i) => find_agent(agents@, name@) == Some(i as int),
            None => find_agent(agents@, name@) is None,
        },
{
    proof {
        lemma_find_agent(agents@, name@);
    }
    let mut i: usize = 0;
    while i < agents.len()
        invariant
            i <= agents@.len(),
            forall|j: int| 0 <= j < i ==> (#[trigger] agents@[j].name@) != name@,
        decreases agents@.len() - i,
    {
        if str_eq(agents[i].name.as_str(), name) {
            proof {
                lemma_find_agent(agents@, name@);
            }
            return Some(i);
        }
        i = i + 1;
    }
    proof {
        lemma_find_agent(agents@, name@);
    }
    None
}

impl AgentOrchestrator {
    /// Registered names are unique, and subscriber ids are sound.
    pub open spec fn wf(self) -> bool {
        &&& names_unique(self.agents@)
        &&& subscribers_wf(self.insight_subscribers@, self.next_subscriber_id)
        &&& subscribers_wf(self.status_subscribers@, self.next_subscriber_id)
    }

    /// An orchestrator over the given clients. A repeated name keeps the
    /// client given last; every counter starts at zero; no subscribers yet.
    pub fn new(
        clients: Vec<(String, AgentClient)>,
        default_agent: String,
        retry_attempts: u32,
        retry_delay_ms: u64,
    ) -> (r: AgentOrchestrator)
        ensures
            r.wf(),
            r.agents@ == registry_of(clients@),
            r.default_agent == default_agent,
            r.retry_attempts == retry_attempts,
            r.retry_delay_ms == retry_delay_ms,
            r.insight_subscribers@.len() == 0,
            r.status_subscribers@.len() == 0,
            r.next_subscriber_id == 0,
    {
        let ghost orig = clients@;
        let mut clients = clients;
        let mut agents: Vec<AgentRegistration> = Vec::new();
        let ghost mut k: int = 0;
        proof {
            assert(orig.take(0) =~= Seq::<(String, AgentClient)>::empty());
        }
        while clients.len() > 0
            invariant
                0 <= k <= orig.len(),
                clients@ == orig.skip(k),
                agents@ == registry_of(orig.take(k)),
                names_unique(agents@),
            decreases clients@.len(),
        {
            let (name, client) = clients.remove(0);
            proof {
                assert(orig.skip(k)[0] == orig[k]);
                assert(orig.skip(k).remove(0) =~= orig.skip(k + 1));
                assert(orig.take(k + 1).drop_last() =~= orig.take(k));
                assert(orig.take(k + 1).last() == orig[k]);
            }
            match find_agent_x(&agents, name.as_str()) {
                Some(i) => {
                    proof {
                        lemma_find_agent(agents@, name@);
                    }
                    agents.set(i, AgentRegistration { name, client, requests_processed: 0 });
                },
                None => {
                    proof {
                        lemma_find_agent(agents@, name@);
                    }
                    agents.push(AgentRegistration { name, client, requests_processed: 0 });
                },
            }
            proof {
                k = k + 1;
            }
        }
        proof {
            assert(orig.take(orig.len() as int) =~= orig);
        }
        AgentOrchestrator {
            agents,
            default_agent,
            retry_attempts,
            retry_delay_ms,
            insight_subscribers: Vec::new(),
            status_subscribers: Vec::new(),
            next_subscriber_id: 0,
        }
    }

    /// The name a request resolves to: the named agent, or the default.
    pub open spec fn resolved_name(self, agent_type: Option<String>) -> Seq<char> {
        match agent_type {
            Some(n) => n@,
            None => self.default_agent@,
        }
    }

    /// Stage one of a request: resolve the agent name, or the configured
    /// default when none is named. An unregistered name fails immediately
    /// with `AgentNotFound` — no backend call is made, and nothing changes —
    /// and a registered one yields a fresh task at the translate stage.
    pub fn start_query(&self, input: &str, agent_type: Option<String>) -> (r: Result<
        QueryTask,
        PipelineError,
    >)
        ensures
            match r {
                Ok(task) => {
                    &&& find_agent(self.agents@, self.resolved_name(agent_type)) is Some
                    &&& task.agent_name@ == self.resolved_name(agent_type)
                    &&& task.input@ == input@
                    &&& task.attempt == 0
                    &&& task.stage is Translate
                },
                Err(e) => {
                    &&& find_agent(self.agents@, self.resolved_name(agent_type)) is None
                    &&& e matches PipelineError::AgentNotFound(n) && n@ == self.resolved_name(
                        agent_type,
                    )
                },
            },
    {
        let name: String = match agent_type {
            Some(n) => n,
            None => self.default_agent.clone(),
        };
        match find_agent_x(&self.agents, name.as_str()) {
            Some(_) => Ok(
                QueryTask {
                    agent_name: name,
                    input: String::from_str(input),
                    attempt: 0,
                    stage: PipelineStage::Translate,
                },
            ),
            None => Err(PipelineError::AgentNotFound(name)),
        }
    }

    /// The outside work a task needs next: the translate prompt (or the
    /// cached translation, fed back without a backend call), the statement
    /// to run, the summary prompt (or the fixed no-data reply for an empty
    /// dataset), or delivery of the finished outcome.
    pub fn next_op(&self, task: &QueryTask) -> (r: PipelineOp)
        requires
            find_agent(self.agents@, task.agent_name@) is Some,
        ensures
            ({
                let idx = match find_agent(self.agents@, task.agent_name@) {
                    Some(i) => i,
                    None => 0,
                };
                let client = self.agents@[idx].client;
                match task.stage {
                    PipelineStage::Translate => match cache_lookup(client.cache@, task.input@) {
                        Some(sql) => r matches PipelineOp::Feed(s) && s@ == sql,
                        None => r matches PipelineOp::AskBackend(p) && p@ == translate_prompt(
                            task.input@,
                        ),
                    },
                    PipelineStage::Execute { sql } => r matches PipelineOp::RunSql(q) && q@
                        == trimmed(sql@),
                    PipelineStage::Summarize { records } => if records@.len() == 0 {
                        r matches PipelineOp::Feed(s) && s@ == no_data_message()
                    } else {
                        r matches PipelineOp::AskBackend(p) && p@ == insights_prompt(
                            summary_of(measures(records@)),
                        )
                    },
                    PipelineStage::Done { .. } => r is Deliver,
                    PipelineStage::Failed { .. } => r is Deliver,
                }
            }),
    {
        proof {
            lemma_find_agent(self.agents@, task.agent_name@);
        }
        let idx = match find_agent_x(&self.agents, task.agent_name.as_str()) {
            Some(i) => i,
            None => {
                return PipelineOp::Deliver;
            },
        };
        match &task.stage {
            PipelineStage::Translate => {
                match self.agents[idx].client.begin_translate_to_sql(task.input.as_str()) {
                    TranslateQuery::Cached(sql) => PipelineOp::Feed(sql),
                    TranslateQuery::Ask(prompt) => PipelineOp::AskBackend(prompt),
                }
            },
            PipelineStage::Execute { sql } => PipelineOp::RunSql(trim_str(sql.as_str())),
            PipelineStage::Summarize { records } => {
                match self.agents[idx].client.begin_generate_insights(records) {
                    InsightQuery::NoData(msg) => PipelineOp::Feed(msg),
                    InsightQuery::Ask(prompt) => PipelineOp::AskBackend(prompt),
                }
            },
            PipelineStage::Done { .. } => PipelineOp::Deliver,
            PipelineStage::Failed { .. } => PipelineOp::Deliver,
        }
    }

    /// Advances a task by one outcome, exactly as [`advance`] says. A
    /// successful translation of an input not yet cached also fills the
    /// selected agent's cache — a cached translation fed back through here
    /// leaves the cache as it is — and a
    /// completion — a successful summary — increments the selected agent's
    /// usage counter, exactly once per completed run. Nothing else changes.
    pub fn on_event(&mut self, task: QueryTask, ev: PipelineEvent) -> (r: QueryTask)
        requires
            old(self).wf(),
            find_agent(old(self).agents@, task.agent_name@) is Some,
            ({
                let idx = match find_agent(old(self).agents@, task.agent_name@) {
                    Some(i) => i,
                    None => 0,
                };
                old(self).agents@[idx].requests_processed < u64::MAX
            }),
        ensures
            final (self).wf(),
            r == advance(task, ev, old(self).retry_attempts),
            final (self).default_agent == old(self).default_agent,
            final (self).retry_attempts == old(self).retry_attempts,
            final (self).retry_delay_ms == old(self).retry_delay_ms,
            final (self).insight_subscribers == old(self).insight_subscribers,
            final (self).status_subscribers == old(self).status_subscribers,
            final (self).next_subscriber_id == old(self).next_subscriber_id,
            final (self).agents@.len() == old(self).agents@.len(),
            ({
                let idx = match find_agent(old(self).agents@, task.agent_name@) {
                    Some(i) => i,
                    None => 0,
                };
                let pre = old(self).agents@[idx];
                let post = final (self).agents@[idx];
                &&& forall|j: int|
                    0 <= j < old(self).agents@.len() && j != idx ==> final (self).agents@[j]
                        == old(self).agents@[j]
                &&& post.name == pre.name
                &&& post.requests_processed == pre.requests_processed + (if is_completion(
                    task,
                    ev,
                ) {
                    1int
                } else {
                    0int
                })
                &&& post.client.ollama_url == pre.client.ollama_url
                &&& post.client.model == pre.client.model
                &&& post.client.options == pre.client.options
                &&& if is_translate_accept(task, ev) && cache_lookup(
                    pre.client.cache@,
                    task.input@,
                ) is None {
                    &&& post.client.cache@.len() == pre.client.cache@.len() + 1
                    &&& post.client.cache@.take(pre.client.cache@.len() as int)
                        == pre.client.cache@
                    &&& post.client.cache@.last().0@ == task.input@
                    &&& (ev matches PipelineEvent::BackendReply(Ok(reply))
                        && post.client.cache@.last().1@ == trimmed(reply@))
                } else {
                    post.client.cache == pre.client.cache
                }
            }),
    {
        proof {
            lemma_find_agent(self.agents@, task.agent_name@);
        }
        let idx = match find_agent_x(&self.agents, task.agent_name.as_str()) {
            Some(i) => i,
            None => {
                return task;
            },
        };
        let QueryTask { agent_name, input, attempt, stage } = task;
        match stage {
            PipelineStage::Translate => match ev {
                PipelineEvent::BackendReply(Ok(reply)) => {
                    let accepted = self.agents[idx].client.finish_translate_to_sql(
                        input.as_str(),
                        reply.as_str(),
                    );
                    let rebuilt = QueryTask {
                        agent_name,
                        input,
                        attempt,
                        stage: PipelineStage::Translate,
                    };
                    match accepted {
                        Ok(_) => QueryTask {
                            agent_name: rebuilt.agent_name,
                            input: rebuilt.input,
                            attempt: rebuilt.attempt,
                            stage: PipelineStage::Execute { sql: reply },
                        },
                        Err(_) => self.retry_or_fail_x(
                            rebuilt,
                            PipelineError::Agent(AgentError::InvalidResponse),
                        ),
                    }
                },
                PipelineEvent::BackendReply(Err(e)) => self.retry_or_fail_x(
                    QueryTask { agent_name, input, attempt, stage: PipelineStage::Translate },
                    PipelineError::Agent(e),
                ),
                PipelineEvent::EngineRows(rows) => QueryTask {
                    agent_name,
                    input,
                    attempt,
                    stage: PipelineStage::Translate,
                },
            },
            PipelineStage::Execute { sql } => match ev {
                PipelineEvent::EngineRows(Ok(rows)) => QueryTask {
                    agent_name,
                    input,
                    attempt,
                    stage: PipelineStage::Summarize { records: rows },
                },
                PipelineEvent::EngineRows(Err(msg)) => self.retry_or_fail_x(
                    QueryTask { agent_name, input, attempt, stage: PipelineStage::Execute { sql } },
                    PipelineError::Execution(msg),
                ),
                PipelineEvent::BackendReply(reply) => QueryTask {
                    agent_name,
                    input,
                    attempt,
                    stage: PipelineStage::Execute { sql },
                },
            },
            PipelineStage::Summarize { records } => match ev {
                PipelineEvent::BackendReply(Ok(text)) => {
                    let count = self.agents[idx].requests_processed;
                    self.agents[idx].requests_processed = count + 1;
                    QueryTask {
                        agent_name,
                        input,
                        attempt,
                        stage: PipelineStage::Done { records, insights: text },
                    }
                },
                PipelineEvent::BackendReply(Err(e)) => self.retry_or_fail_x(
                    QueryTask {
                        agent_name,
                        input,
                        attempt,
                        stage: PipelineStage::Summarize { records },
                    },
                    PipelineError::Agent(e),
                ),
                PipelineEvent::EngineRows(rows) => QueryTask {
                    agent_name,
                    input,
                    attempt,
                    stage: PipelineStage::Summarize { records },
                },
            },
            PipelineStage::Done { records, insights } => QueryTask {
                agent_name,
                input,
                attempt,
                stage: PipelineStage::Done { records, insights },
            },
            PipelineStage::Failed { error } => QueryTask {
                agent_name,
                input,
                attempt,
                stage: PipelineStage::Failed { error },
            },
        }
    }

    /// Registers a subscriber for insights on one exact query text and
    /// hands out its fresh id. Exact-match keying: completions for any other
    /// query text are not delivered to it.
    pub fn subscribe_insights(&mut self, query: String) -> (r: u64)
        requires
            old(self).wf(),
            old(self).next_subscriber_id < u64::MAX,
        ensures
            final (self).wf(),
            r == old(self).next_subscriber_id,
            final (self).insight_subscribers@ == old(self).insight_subscribers@ + seq![
                (query, r),
            ],
            final (self).next_subscriber_id == old(self).next_subscriber_id + 1,
            final (self).status_subscribers == old(self).status_subscribers,
            final (self).agents == old(self).agents,
            final (self).default_agent == old(self).default_agent,
            final (self).retry_attempts == old(self).retry_attempts,
            final (self).retry_delay_ms == old(self).retry_delay_ms,
    {
        let id = self.next_subscriber_id;
        self.insight_subscribers.push((query, id));
        self.next_subscriber_id = id + 1;
        id
    }

    /// Registers a subscriber for status updates on one agent name and
    /// hands out its fresh id.
    pub fn subscribe_agent_status(&mut self, agent_name: String) -> (r: u64)
        requires
            old(self).wf(),
            old(self).next_subscriber_id < u64::MAX,
        ensures
            final (self).wf(),
            r == old(self).next_subscriber_id,
            final (self).status_subscribers@ == old(self).status_subscribers@ + seq![
                (agent_name, r),
            ],
            final (self).next_subscriber_id == old(self).next_subscriber_id + 1,
            final (self).insight_subscribers == old(self).insight_subscribers,
            final (self).agents == old(self).agents,
            final (self).default_agent == old(self).default_agent,
            final (self).retry_attempts == old(self).retry_attempts,
            final (self).retry_delay_ms == old(self).retry_delay_ms,
    {
        let id = self.next_subscriber_id;
        self.status_subscribers.push((agent_name, id));
        self.next_subscriber_id = id + 1;
        id
    }

    /// The subscribers an insight for this query text goes to: each
    /// subscriber registered for exactly this text, once; subscribers of any
    /// other text get nothing. An empty answer means the publish is a silent
    /// no-op, never an error.
    pub fn insight_recipients(&self, query: &str) -> (r: Vec<u64>)
        requires
            self.wf(),
        ensures
            forall|id: u64| r@.contains(id) <==> subscribed(self.insight_subscribers@, query@, id),
            r@.no_duplicates(),
    {
        recipients_of(&self.insight_subscribers, query, Ghost(self.next_subscriber_id))
    }

    /// The subscribers a status update for this agent name goes to; the
    /// same exact-match, exactly-once delivery as for insights.
    pub fn status_recipients(&self, agent_name: &str) -> (r: Vec<u64>)
        requires
            self.wf(),
        ensures
            forall|id: u64|
                r@.contains(id) <==> subscribed(self.status_subscribers@, agent_name@, id),
            r@.no_duplicates(),
    {
        recipients_of(&self.status_subscribers, agent_name, Ghost(self.next_subscriber_id))
    }

    /// The names of all registered agents, in registration order.
    pub fn get_available_agents(&self) -> (r: Vec<String>)
        ensures
            r@.len() == self.agents@.len(),
            forall|i: int| 0 <= i < r@.len() ==> (#[trigger] r@[i])@ == self.agents@[i].name@,
    {
        let mut names: Vec<String> = Vec::new();
        let mut i: usize = 0;
        while i < self.agents.len()
            invariant
                i <= self.agents@.len(),
                names@.len() == i,
                forall|j: int| 0 <= j < i ==> (#[trigger] names@[j])@ == self.agents@[j].name@,
            decreases self.agents@.len() - i,
        {
            names.push(self.agents[i].name.clone());
            i = i + 1;
        }
        names
    }

    /// A snapshot of one agent: `None` exactly for an unregistered name,
    /// else the name, the fixed status `active`, a clock reading, the
    /// client's model, and the usage counter. Health is not reported here;
    /// it is only visible through a connectivity probe.
    pub fn get_agent_status(&self, agent_type: &str) -> (r: Option<AgentStatus>)
        ensures
            r is Some <==> find_agent(self.agents@, agent_type@) is Some,
            match r {
                Some(st) => {
                    &&& find_agent(self.agents@, agent_type@) matches Some(idx)
                        && st.requests_processed == self.agents@[idx].requests_processed
                        && st.model@ == self.agents@[idx].client.model@
                    &&& st.agent_type@ == agent_type@
                    &&& st.status@ == "active"@
                    &&& exists|now: u64| st.last_update@ == dec_digits(now as nat)
                },
                None => true,
            },
    {
        proof {
            lemma_find_agent(self.agents@, agent_type@);
        }
        match find_agent_x(&self.agents, agent_type) {
            Some(idx) => {
                let now = now_millis();
                let stamp = u64_to_string(now);
                Some(
                    AgentStatus {
                        agent_type: String::from_str(agent_type),
                        status: String::from_str("active"),
                        last_update: stamp,
                        model: self.agents[idx].client.model.clone(),
                        requests_processed: self.agents[idx].requests_processed,
                    },
                )
            },
            None => None,
        }
    }

    /// The health report assembled from one probe outcome per agent: a
    /// reachable, healthy backend reports `true`; an unhealthy or
    /// unreachable one reports `false`. One agent's failure does not affect
    /// the others' entries.
    pub fn connection_report(&self, outcomes: Vec<(String, Result<bool, AgentError>)>) -> (r: Vec<
        (String, bool),
    >)
        ensures
            r@.len() == outcomes@.len(),
            forall|i: int|
                0 <= i < r@.len() ==> (#[trigger] r@[i]).0@ == outcomes@[i].0@ && r@[i].1 == (
                match outcomes@[i].1 {
                    Ok(healthy) => healthy,
                    Err(_) => false,
                }),
    {
        let mut out: Vec<(String, bool)> = Vec::new();
        let mut rest = outcomes;
        let ghost orig = rest@;
        let ghost mut k: int = 0;
        while rest.len() > 0
            invariant
                0 <= k <= orig.len(),
                rest@ == orig.skip(k),
                out@.len() == k,
                forall|i: int|
                    0 <= i < k ==> (#[trigger] out@[i]).0@ == orig[i].0@ && out@[i].1 == (
                    match orig[i].1 {
                        Ok(healthy) => healthy,
                        Err(_) => false,
                    }),
            decreases rest@.len(),
        {
            let (name, verdict) = rest.remove(0);
            proof {
                assert(orig.skip(k)[0] == orig[k]);
                assert(orig.skip(k).remove(0) =~= orig.skip(k + 1));
            }
            let healthy = match verdict {
                Ok(h) => h,
                Err(_) => false,
            };
            out.push((name, healthy));
            proof {
                k = k + 1;
            }
        }
        out
    }

    /// The task after a failed attempt, exactly as [`retry_or_fail`] says.
    fn retry_or_fail_x(&self, task: QueryTask, error: PipelineError) -> (r: QueryTask)
        ensures
            r == retry_or_fail(task, error, self.retry_attempts),
    {
        if (task.attempt as u64) + 1 < (self.retry_attempts as u64) {
            QueryTask {
                agent_name: task.agent_name,
                input: task.input,
                attempt: task.attempt + 1,
                stage: PipelineStage::Translate,
            }
        } else {
            QueryTask {
                agent_name: task.agent_name,
                input: task.input,
                attempt: task.attempt,
                stage: PipelineStage::Failed { error },
            }
        }
    }
}

/// The task after one event per entry, in order.
pub open spec fn run_events(task: QueryTask, evs: Seq<PipelineEvent>, retry_attempts: u32) -> QueryTask
    decreases evs.len(),
{
    if evs.len() == 0 {
        task
    } else {
        run_events(advance(task, evs[0], retry_attempts), evs.drop_first(), retry_attempts)
    }
}

/// How many events of the run complete the task — that is, by how much the
/// selected agent's usage counter grows over the run.
pub open spec fn completions_in(task: QueryTask, evs: Seq<PipelineEvent>, retry_attempts: u32) -> nat
    decreases evs.len(),
{
    if evs.len() == 0 {
        0
    } else {
        (if is_completion(task, evs[0]) {
            1nat
        } else {
            0nat
        }) + completions_in(advance(task, evs[0], retry_attempts), evs.drop_first(), retry_attempts)
    }
}

/// The events of one fully successful attempt: a translation reply, the
/// engine's rows, and the summary text.
pub open spec fn success_script(sql: String, rows: Vec<Record>, text: String) -> Seq<PipelineEvent> {
    seq![
        PipelineEvent::BackendReply(Ok(sql)),
        PipelineEvent::EngineRows(Ok(rows)),
        PipelineEvent::BackendReply(Ok(text)),
    ]
}

proof fn lemma_failed_attempts(
    task: QueryTask,
    failures: Seq<PipelineEvent>,
    tail: Seq<PipelineEvent>,
    retry_attempts: u32,
)
    requires
        task.stage is Translate,
        task.attempt + failures.len() + 1 <= retry_attempts,
        forall|i: int|
            0 <= i < failures.len() ==> (#[trigger] failures[i]) matches PipelineEvent::BackendReply(
                Err(_),
            ),
    ensures
        run_events(task, failures + tail, retry_attempts) == run_events(
            QueryTask {
                agent_name: task.agent_name,
                input: task.input,
                attempt: (task.attempt + failures.len()) as u32,
                stage: PipelineStage::Translate,
            },
            tail,
            retry_attempts,
        ),
        completions_in(task, failures + tail, retry_attempts) == completions_in(
            QueryTask {
                agent_name: task.agent_name,
                input: task.input,
                attempt: (task.attempt + failures.len()) as u32,
                stage: PipelineStage::Translate,
            },
            tail,
            retry_attempts,
        ),
    decreases failures.len(),
{
    if failures.len() == 0 {
        assert(failures + tail =~= tail);
        assert(QueryTask {
            agent_name: task.agent_name,
            input: task.input,
            attempt: (task.attempt + 0) as u32,
            stage: PipelineStage::Translate,
        } == task);
    } else {
        let ev = failures[0];
        let stepped = advance(task, ev, retry_attempts);
        assert(stepped == QueryTask {
            agent_name: task.agent_name,
            input: task.input,
            attempt: (task.attempt + 1) as u32,
            stage: PipelineStage::Translate,
        });
        assert((failures + tail).drop_first() =~= failures.drop_first() + tail);
        assert(forall|i: int|
            0 <= i < failures.drop_first().len() ==> (
            #[trigger] failures.drop_first()[i]) matches PipelineEvent::BackendReply(Err(_)));
        lemma_failed_attempts(stepped, failures.drop_first(), tail, retry_attempts);
    }
}

/// Bounded retry reaches the result: when the backend fails the first `n-1`
/// translation attempts and succeeds on the `n`-th, with `n` at most
/// `retry_attempts`, the run completes with the engine's rows and the
/// summary text, and it counts exactly one completion — so the selected
/// agent's usage counter, which [`AgentOrchestrator::on_event`] moves by
/// one exactly on completions, grows by exactly one over the whole run.
pub proof fn lemma_retry_until_success(
    task: QueryTask,
    failures: Seq<PipelineEvent>,
    sql: String,
    rows: Vec<Record>,
    text: String,
    retry_attempts: u32,
)
    requires
        task.stage is Translate,
        task.attempt == 0,
        failures.len() + 1 <= retry_attempts,
        forall|i: int|
            0 <= i < failures.len() ==> (#[trigger] failures[i]) matches PipelineEvent::BackendReply(
                Err(_),
            ),
        looks_like_sql(trimmed(sql@)),
    ensures
        ({
            let evs = failures + success_script(sql, rows, text);
            &&& run_events(task, evs, retry_attempts).stage matches PipelineStage::Done {
                records,
                insights,
            } && records == rows && insights == text
            &&& completions_in(task, evs, retry_attempts) == 1
        }),
{
    let script = success_script(sql, rows, text);
    lemma_failed_attempts(task, failures, script, retry_attempts);
    let t0 = QueryTask {
        agent_name: task.agent_name,
        input: task.input,
        attempt: failures.len() as u32,
        stage: PipelineStage::Translate,
    };
    let e1 = script.drop_first();
    let e2 = e1.drop_first();
    let e3 = e2.drop_first();
    assert(e1.len() == 2 && e2.len() == 1 && e3.len() == 0);
    assert(e1[0] == script[1] && e2[0] == script[2]);
    let t1 = advance(t0, script[0], retry_attempts);
    assert(t1.stage matches PipelineStage::Execute { sql: s } && s == sql);
    let t2 = advance(t1, e1[0], retry_attempts);
    assert(t2.stage matches PipelineStage::Summarize { records } && records == rows);
    let t3 = advance(t2, e2[0], retry_attempts);
    assert(t3.stage matches PipelineStage::Done { records, insights } && records == rows
        && insights == text);
    assert(run_events(t0, script, retry_attempts) == run_events(t1, e1, retry_attempts));
    assert(run_events(t1, e1, retry_attempts) == run_events(t2, e2, retry_attempts));
    assert(run_events(t2, e2, retry_attempts) == run_events(t3, e3, retry_attempts));
    assert(run_events(t3, e3, retry_attempts) == t3);
    assert(!is_completion(t0, script[0]));
    assert(!is_completion(t1, e1[0]));
    assert(is_completion(t2, e2[0]));
    assert(completions_in(t0, script, retry_attempts) == 1 + completions_in(
        t1,
        e1,
        retry_attempts,
    ) - 1);
    assert(completions_in(t1, e1, retry_attempts) == completions_in(t2, e2, retry_attempts));
    assert(completions_in(t2, e2, retry_attempts) == 1 + completions_in(t3, e3, retry_attempts));
    assert(completions_in(t3, e3, retry_attempts) == 0);
}

} // verus!
