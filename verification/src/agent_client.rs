//! One remote text-generation backend connection: prompt construction, reply
//! validation, and an exact-match result cache.
//!
//! The backend is reached over the network, so the calls themselves are made
//! by the surrounding program. The client decides everything around them:
//! `begin_translate_to_sql` either serves a cached translation or produces
//! the prompt to send, and `finish_translate_to_sql` validates the reply and
//! fills the cache. `begin_generate_insights` answers an empty dataset
//! directly and otherwise produces the summary prompt to send; the backend's
//! free-text reply is the result. The client never retries: the orchestrator
//! applies backoff uniformly.

use vstd::prelude::*;
use vstd::string::*;
use crate::models::Record;
use crate::text::{
    trimmed, trim_str, lower_seq, contains_seq, chars_to_lower, str_to_chars, chars_contain,
    dec_digits, dec_int, u64_to_string, i64_to_string, i128_to_string,
};

verus! {

/// Why a backend interaction failed.
#[derive(Clone, Debug, PartialEq, Eq)]
pub enum AgentError {
    /// The backend could not be reached at all; carries the transport error.
    Unreachable(String),
    /// The backend answered with a non-success status; carries status and
    /// body.
    Status(u16, String),
    /// The backend answered, but the reply does not look like SQL.
    InvalidResponse,
}

/// Generation options passed through to the backend. The sampling
/// temperature is carried in thousandths, so the values stay integers.
#[derive(Clone, Copy, Debug, PartialEq, Eq, Structural)]
pub struct OllamaOptions {
    pub temperature_milli: Option<u32>,
    pub num_predict: Option<u32>,
}

impl Default for OllamaOptions {
    /// No option set: the backend's own defaults apply.
    fn default() -> (r: Self)
        ensures
            r == (OllamaOptions { temperature_milli: None, num_predict: None }),
    {
        OllamaOptions { temperature_milli: None, num_predict: None }
    }
}

/// The cached translation for an input, scanning from the front.
pub open spec fn cache_lookup(c: Seq<(String, String)>, input: Seq<char>) -> Option<Seq<char>>
    decreases c.len(),
{
    if c.len() == 0 {
        None
    } else if c[0].0@ == input {
        Some(c[0].1@)
    } else {
        cache_lookup(c.drop_first(), input)
    }
}

/// The instruction prompt sent for one translation request.
pub open spec fn translate_prompt(input: Seq<char>) -> Seq<char> {
    "You are a SQL expert. Convert the following natural language query to SQL. Only return the SQL query, nothing else. Available table: sample(id, name, value) Query: "@
        + input
}

/// Whether a backend reply passes the sanity check: it contains the token
/// `SELECT`, compared ignoring ASCII case.
pub open spec fn looks_like_sql(s: Seq<char>) -> bool {
    contains_seq(lower_seq(s), "select"@)
}

/// The fixed reply for an empty dataset.
pub open spec fn no_data_message() -> Seq<char> {
    "No data available for analysis."@
}

/// The sum of the measures.
pub open spec fn sum_of(vals: Seq<i64>) -> int
    decreases vals.len(),
{
    if vals.len() == 0 {
        0
    } else {
        sum_of(vals.drop_last()) + vals.last()
    }
}

/// The least measure; 0 for an empty sequence.
pub open spec fn min_of(vals: Seq<i64>) -> int
    decreases vals.len(),
{
    if vals.len() == 0 {
        0
    } else if vals.len() == 1 {
        vals[0] as int
    } else {
        let m = min_of(vals.drop_last());
        if vals.last() < m {
            vals.last() as int
        } else {
            m
        }
    }
}

/// The greatest measure; 0 for an empty sequence.
pub open spec fn max_of(vals: Seq<i64>) -> int
    decreases vals.len(),
{
    if vals.len() == 0 {
        0
    } else if vals.len() == 1 {
        vals[0] as int
    } else {
        let m = max_of(vals.drop_last());
        if vals.last() > m {
            vals.last() as int
        } else {
            m
        }
    }
}

/// The mean measure, rounded towards zero; 0 for an empty sequence.
pub open spec fn avg_of(vals: Seq<i64>) -> int {
    if vals.len() == 0 {
        0
    } else {
        let s = sum_of(vals);
        if s >= 0 {
            s / (vals.len() as int)
        } else {
            -((-s) / (vals.len() as int))
        }
    }
}

/// The numeric summary embedded in the insights prompt.
pub open spec fn summary_of(vals: Seq<i64>) -> Seq<char> {
    "Dataset contains "@ + dec_digits(vals.len()) + " records. Values range from "@ + dec_int(
        min_of(vals),
    ) + " to "@ + dec_int(max_of(vals)) + " with average "@ + dec_int(avg_of(vals))
        + ". Total sum: "@ + dec_int(sum_of(vals))
}

/// The instruction prompt sent for one insights request.
pub open spec fn insights_prompt(summary: Seq<char>) -> Seq<char> {
    "You are a data analyst. Analyze the following data and provide insights. Be concise but insightful. Focus on patterns, trends, and actionable insights. Data: "@
        + summary
}

/// What a translation request needs next: nothing, or one backend call.
#[derive(Debug)]
pub enum TranslateQuery {
    /// The translation was served from the cache.
    Cached(String),
    /// The backend must be asked with this prompt.
    Ask(String),
}

/// What an insights request needs next: nothing, or one backend call.
#[derive(Debug)]
pub enum InsightQuery {
    /// The dataset was empty; this fixed reply stands in for the backend's.
    NoData(String),
    /// The backend must be asked with this prompt.
    Ask(String),
}

/// The measures of the records, in order.
pub open spec fn measures(data: Seq<Record>) -> Seq<i64> {
    data.map_values(|r: Record| r.value)
}

/// One backend connection with its local result cache.
#[derive(Debug)]
pub struct AgentClient {
    /// Base URL of the backend.
    pub ollama_url: String,
    /// Model identifier named in each request.
    pub model: String,
    /// Generation options named in each request.
    pub options: OllamaOptions,
    /// Input text to translated SQL, exact match, never invalidated.
    pub cache: Vec<(String, String)>,
}

impl AgentClient {
    /// A fresh client for the given backend and model, with default options
    /// and an empty cache.
    pub fn new(ollama_url: String, model: String) -> (r: Self)
        ensures
            r.ollama_url == ollama_url,
            r.model == model,
            r.options == (OllamaOptions { temperature_milli: None, num_predict: None }),
            r.cache@.len() == 0,
    {
        AgentClient {
            ollama_url,
            model,
            options: OllamaOptions { temperature_milli: None, num_predict: None },
            cache: Vec::new(),
        }
    }

    /// A fresh client with the given generation options.
    pub fn with_options(ollama_url: String, model: String, options: OllamaOptions) -> (r: Self)
        ensures
            r.ollama_url == ollama_url,
            r.model == model,
            r.options == options,
            r.cache@.len() == 0,
    {
        AgentClient { ollama_url, model, options, cache: Vec::new() }
    }

    /// The cached translation for an input, if any.
    fn cached_translation(&self, input: &str) -> (r: Option<String>)
        ensures
            match r {
                Some(sql) => cache_lookup(self.cache@, input@) == Some(sql@),
                None => cache_lookup(self.cache@, input@) is None,
            },
    {
        proof {
            assert(self.cache@.skip(0) =~= self.cache@);
        }
        let mut i: usize = 0;
        while i < self.cache.len()
            invariant
                i <= self.cache@.len(),
                cache_lookup(self.cache@, input@) == cache_lookup(
                    self.cache@.skip(i as int),
                    input@,
                ),
            decreases self.cache@.len() - i,
        {
            proof {
                assert(self.cache@.skip(i as int)[0] == self.cache@[i as int]);
                assert(self.cache@.skip(i as int).drop_first() =~= self.cache@.skip(i + 1));
            }
            if crate::text::str_eq(self.cache[i].0.as_str(), input) {
                return Some(self.cache[i].1.clone());
            }
            i = i + 1;
        }
        None
    }

    /// The first step of a translation request: the cached result when this
    /// input has been translated before, else the prompt to send to the
    /// backend. No backend call is needed for a cached input.
    pub fn begin_translate_to_sql(&self, input: &str) -> (r: TranslateQuery)
        ensures
            match r {
                TranslateQuery::Cached(sql) => cache_lookup(self.cache@, input@) == Some(sql@),
                TranslateQuery::Ask(prompt) => cache_lookup(self.cache@, input@) is None
                    && prompt@ == translate_prompt(input@),
            },
            (r is Cached) <==> cache_lookup(self.cache@, input@) is Some,
    {
        match self.cached_translation(input) {
            Some(sql) => TranslateQuery::Cached(sql),
            None => TranslateQuery::Ask(
                String::from_str(
                    "You are a SQL expert. Convert the following natural language query to SQL. Only return the SQL query, nothing else. Available table: sample(id, name, value) Query: ",
                ).concat(input),
            ),
        }
    }

    /// The second step of a translation request: the backend's reply is
    /// trimmed and checked for the token `SELECT`. A passing reply is the
    /// translation; it is cached for this input before it is returned,
    /// unless the input is already cached — entries are inserted only on a
    /// miss and never invalidated. A failing reply leaves the cache
    /// unchanged and is rejected as `InvalidResponse`.
    pub fn finish_translate_to_sql(&mut self, input: &str, response: &str) -> (r: Result<
        String,
        AgentError,
    >)
        ensures
            r is Ok <==> looks_like_sql(trimmed(response@)),
            final (self).ollama_url == old(self).ollama_url,
            final (self).model == old(self).model,
            final (self).options == old(self).options,
            match r {
                Ok(sql) => {
                    &&& sql@ == trimmed(response@)
                    &&& match cache_lookup(old(self).cache@, input@) {
                        None => {
                            &&& final (self).cache@.len() == old(self).cache@.len() + 1
                            &&& final (self).cache@.take(old(self).cache@.len() as int) == old(
                                self,
                            ).cache@
                            &&& final (self).cache@.last().0@ == input@
                            &&& final (self).cache@.last().1@ == trimmed(response@)
                        },
                        Some(_) => final (self).cache == old(self).cache,
                    }
                },
                Err(e) => e == AgentError::InvalidResponse && final (self).cache == old(
                    self,
                ).cache,
            },
    {
        let sql = trim_str(response);
        let low = chars_to_lower(&str_to_chars(sql.as_str()));
        proof {
            reveal_strlit("select");
        }
        let pat = str_to_chars("select");
        if !chars_contain(&low, &pat) {
            return Err(AgentError::InvalidResponse);
        }
        if self.cached_translation(input).is_none() {
            let entry = (String::from_str(input), sql.clone());
            self.cache.push(entry);
            proof {
                assert(self.cache@.take(old(self).cache@.len() as int) =~= old(self).cache@);
            }
        }
        Ok(sql)
    }

    /// The numeric summary of a dataset: count, range, mean and sum of the
    /// measures, or a fixed phrase for an empty dataset.
    pub fn summarize_data(&self, data: &Vec<Record>) -> (r: String)
        ensures
            data@.len() == 0 ==> r@ == "No data available"@,
            data@.len() > 0 ==> r@ == summary_of(measures(data@)),
    {
        if data.len() == 0 {
            return String::from_str("No data available");
        }
        let ghost vals = measures(data@);
        let mut sum: i128 = data[0].value as i128;
        let mut low: i64 = data[0].value;
        let mut high: i64 = data[0].value;
        let mut i: usize = 1;
        proof {
            assert(vals.take(1).len() == 1);
            assert(vals.take(1).drop_last() =~= vals.take(0));
            assert(vals.take(0).len() == 0);
            assert(sum_of(vals.take(0)) == 0);
            assert(vals.take(1)[0] == vals[0]);
            assert(vals.take(1).last() == vals[0]);
            assert(vals[0] == data@[0].value);
            assert(sum_of(vals.take(1)) == data@[0].value);
            assert(min_of(vals.take(1)) == data@[0].value);
            assert(max_of(vals.take(1)) == data@[0].value);
        }
        while i < data.len()
            invariant
                1 <= i <= data@.len(),
                vals == measures(data@),
                sum == sum_of(vals.take(i as int)),
                low == min_of(vals.take(i as int)),
                high == max_of(vals.take(i as int)),
                i64::MIN * (i as int) <= sum <= i64::MAX * (i as int),
                data@.len() <= usize::MAX,
            decreases data@.len() - i,
        {
            let v = data[i].value;
            proof {
                assert(vals.take(i + 1).drop_last() =~= vals.take(i as int));
                assert(vals.take(i + 1).last() == vals[i as int]);
                assert(i64::MIN * (i as int + 1) == i64::MIN * (i as int) + i64::MIN);
                assert(i64::MAX * (i as int + 1) == i64::MAX * (i as int) + i64::MAX);
            }
            sum = sum + v as i128;
            if v < low {
                low = v;
            }
            if v > high {
                high = v;
            }
            i = i + 1;
        }
        proof {
            assert(vals.take(data@.len() as int) =~= vals);
        }
        let count = data.len();
        let avg: i128 = if sum >= 0 {
            ((sum as u128) / (count as u128)) as i128
        } else {
            -((((-sum) as u128) / (count as u128)) as i128)
        };
        assert(avg == avg_of(vals));
        String::from_str("Dataset contains ").concat(u64_to_string(count as u64).as_str()).concat(
            " records. Values range from ",
        ).concat(i64_to_string(low).as_str()).concat(" to ").concat(
            i64_to_string(high).as_str(),
        ).concat(" with average ").concat(i128_to_string(avg).as_str()).concat(
            ". Total sum: ",
        ).concat(i128_to_string(sum).as_str())
    }

    /// The first step of an insights request: an empty dataset is answered
    /// directly with the fixed no-data reply and needs no backend call; any
    /// other dataset yields the prompt around its numeric summary. The
    /// backend's free-text reply to that prompt is the final result.
    pub fn begin_generate_insights(&self, data: &Vec<Record>) -> (r: InsightQuery)
        ensures
            (r is NoData) <==> data@.len() == 0,
            match r {
                InsightQuery::NoData(msg) => msg@ == no_data_message(),
                InsightQuery::Ask(prompt) => prompt@ == insights_prompt(
                    summary_of(measures(data@)),
                ),
            },
    {
        if data.len() == 0 {
            return InsightQuery::NoData(String::from_str("No data available for analysis."));
        }
        let summary = self.summarize_data(data);
        InsightQuery::Ask(
            String::from_str(
                "You are a data analyst. Analyze the following data and provide insights. Be concise but insightful. Focus on patterns, trends, and actionable insights. Data: ",
            ).concat(summary.as_str()),
        )
    }

    /// The verdict of a connectivity probe: a reachable backend is healthy
    /// exactly for a 2xx status, and a transport failure is an error, so
    /// callers can tell an unhealthy backend from an unreachable one.
    pub fn connection_verdict(&self, probe: Result<u16, String>) -> (r: Result<bool, AgentError>)
        ensures
            match probe {
                Ok(status) => r == Ok::<bool, AgentError>(200 <= status < 300),
                Err(msg) => r matches Err(AgentError::Unreachable(m)) && m@ == msg@,
            },
    {
        match probe {
            Ok(status) => Ok(200 <= status && status < 300),
            Err(msg) => Err(AgentError::Unreachable(msg)),
        }
    }
}

/// A translation once cached is served from the cache: when the cache gains
/// the entry for an input that it did not hold before — exactly what a
/// successful `finish_translate_to_sql` does — a later lookup for that input
/// finds that translation, so `begin_translate_to_sql` answers it without a
/// backend call.
pub proof fn lemma_translation_cached(
    pre: Seq<(String, String)>,
    post: Seq<(String, String)>,
    input: Seq<char>,
    sql: Seq<char>,
)
    requires
        cache_lookup(pre, input) is None,
        post.len() == pre.len() + 1,
        post.take(pre.len() as int) == pre,
        post.last().0@ == input,
        post.last().1@ == sql,
    ensures
        cache_lookup(post, input) == Some(sql),
    decreases pre.len(),
{
    if pre.len() == 0 {
        assert(post[0] == post.last());
    } else {
        assert(pre[0] == post[0]);
        assert(post.drop_first().take(pre.drop_first().len() as int) =~= pre.drop_first());
        assert(post.drop_first().last() == post.last());
        lemma_translation_cached(pre.drop_first(), post.drop_first(), input, sql);
    }
}

} // verus!
