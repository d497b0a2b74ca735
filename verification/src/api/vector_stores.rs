//! Vector stores API client

use vstd::prelude::*;
use crate::api::base::HttpClient;
use crate::api::common::ApiClientConstructors;
use crate::error::{OpenAIError, Result};
use crate::text::{decimal, pairs_view, u64_to_string};

verus! {

broadcast use vstd::string::group_string_axioms;

/// How long a wait loop polls by default, in seconds
pub const DEFAULT_MAX_WAIT_SECONDS: u64 = 300;

/// How long a wait loop sleeps between polls by default, in seconds
pub const DEFAULT_POLL_INTERVAL_SECONDS: u64 = 5;

/// What a wait loop does after a poll
#[derive(Debug, Clone, Copy, PartialEq, Eq, Structural)]
pub enum PollStep {
    /// Processing has finished: return what the poll brought
    Done,
    /// The time allowed is used up: fail with a timeout
    TimedOut,
    /// Sleep for the poll interval and poll again
    Wait,
}

/// The values of one vector store that the usage statistics read
#[derive(Debug, Clone, Copy)]
pub struct VectorStoreUsage {
    /// Bytes used by the store
    pub usage_bytes: u64,
    /// Whether processing of the store has completed
    pub ready: bool,
    /// Whether the store is still being processed
    pub processing: bool,
    /// Number of files in the store
    pub total_files: u32,
    /// Number of files processed successfully
    pub completed_files: u32,
    /// Number of files that failed
    pub failed_files: u32,
}

/// The sum of `f` over `s`
pub open spec fn sum_of(s: Seq<VectorStoreUsage>, f: spec_fn(VectorStoreUsage) -> nat) -> nat
    decreases s.len(),
{
    if s.len() == 0 {
        0
    } else {
        sum_of(s.drop_last(), f) + f(s.last())
    }
}

/// Bytes used by a store
pub open spec fn usage_of(u: VectorStoreUsage) -> nat {
    u.usage_bytes as nat
}

/// One for a ready store, else zero
pub open spec fn ready_of(u: VectorStoreUsage) -> nat {
    if u.ready { 1 } else { 0 }
}

/// One for a store in processing, else zero
pub open spec fn processing_of(u: VectorStoreUsage) -> nat {
    if u.processing { 1 } else { 0 }
}

/// Files of a store
pub open spec fn total_files_of(u: VectorStoreUsage) -> nat {
    u.total_files as nat
}

/// Completed files of a store
pub open spec fn completed_files_of(u: VectorStoreUsage) -> nat {
    u.completed_files as nat
}

/// Failed files of a store
pub open spec fn failed_files_of(u: VectorStoreUsage) -> nat {
    u.failed_files as nat
}

/// The usage statistics of a list of stores, by name, in this order: total_stores,
/// total_usage_bytes, ready_stores, processing_stores, average_usage_bytes (only for
/// a list that is not empty), total_files, completed_files, failed_files
pub open spec fn usage_statistics_of(s: Seq<VectorStoreUsage>) -> Seq<(Seq<char>, Seq<char>)> {
    let total = sum_of(s, |u: VectorStoreUsage| usage_of(u));
    let head = seq![
        ("total_stores"@, decimal(s.len())),
        ("total_usage_bytes"@, decimal(total)),
        ("ready_stores"@, decimal(sum_of(s, |u: VectorStoreUsage| ready_of(u)))),
        ("processing_stores"@, decimal(sum_of(s, |u: VectorStoreUsage| processing_of(u)))),
    ];
    let with_average = if s.len() > 0 {
        head.push(("average_usage_bytes"@, decimal(total / s.len())))
    } else {
        head
    };
    with_average + seq![
        ("total_files"@, decimal(sum_of(s, |u: VectorStoreUsage| total_files_of(u)))),
        ("completed_files"@, decimal(sum_of(s, |u: VectorStoreUsage| completed_files_of(u)))),
        ("failed_files"@, decimal(sum_of(s, |u: VectorStoreUsage| failed_files_of(u)))),
    ]
}

proof fn lemma_sum_step(s: Seq<VectorStoreUsage>, i: int, f: spec_fn(VectorStoreUsage) -> nat)
    requires
        0 <= i < s.len(),
    ensures
        sum_of(s.take(i + 1), f) == sum_of(s.take(i), f) + f(s[i]),
{
    assert(s.take(i + 1).drop_last() =~= s.take(i));
}

proof fn lemma_sum_monotone(s: Seq<VectorStoreUsage>, i: int, f: spec_fn(VectorStoreUsage) -> nat)
    requires
        0 <= i <= s.len(),
    ensures
        sum_of(s.take(i), f) <= sum_of(s, f),
    decreases s.len() - i,
{
    if i < s.len() {
        lemma_sum_step(s, i, f);
        lemma_sum_monotone(s, i + 1, f);
    } else {
        assert(s.take(i) =~= s);
    }
}

proof fn lemma_count_bounded(s: Seq<VectorStoreUsage>, f: spec_fn(VectorStoreUsage) -> nat)
    requires
        forall|u: VectorStoreUsage| #[trigger] f(u) <= 1,
    ensures
        sum_of(s, f) <= s.len(),
    decreases s.len(),
{
    if s.len() > 0 {
        lemma_count_bounded(s.drop_last(), f);
    }
}

/// `OpenAI` Vector Stores API client for vector store management operations
#[derive(Debug, Clone)]
pub struct VectorStoresApi {
    http_client: HttpClient,
}

impl ApiClientConstructors for VectorStoresApi {
    closed spec fn settings(&self) -> HttpClient {
        self.http_client
    }

    fn from_http_client(http_client: HttpClient) -> (r: Self) {
        VectorStoresApi { http_client }
    }
}

impl VectorStoresApi {
    /// Get the API key
    pub fn api_key(&self) -> (r: &str)
        ensures
            r@ == self.settings().key(),
    {
        self.http_client.api_key()
    }

    /// Get the base URL
    pub fn base_url(&self) -> (r: &str)
        ensures
            r@ == self.settings().origin(),
    {
        self.http_client.base_url()
    }

    /// The time to wait and the interval between polls, in seconds, with their defaults
    pub fn wait_settings(max_wait_seconds: Option<u64>, poll_interval_seconds: Option<u64>) -> (r: (
        u64,
        u64,
    ))
        ensures
            r.0 == match max_wait_seconds {
                Some(m) => m,
                None => DEFAULT_MAX_WAIT_SECONDS,
            },
            r.1 == match poll_interval_seconds {
                Some(p) => p,
                None => DEFAULT_POLL_INTERVAL_SECONDS,
            },
    {
        let max_wait = match max_wait_seconds {
            Some(m) => m,
            None => DEFAULT_MAX_WAIT_SECONDS,
        };
        let poll_interval = match poll_interval_seconds {
            Some(p) => p,
            None => DEFAULT_POLL_INTERVAL_SECONDS,
        };
        (max_wait, poll_interval)
    }

    /// What a wait loop does after a poll: stop once processing has finished, fail once
    /// `max_wait` seconds have passed, and otherwise wait and poll again
    pub fn poll_step(finished: bool, elapsed_seconds: u64, max_wait: u64) -> (r: PollStep)
        ensures
            r == if finished {
                PollStep::Done
            } else if elapsed_seconds >= max_wait {
                PollStep::TimedOut
            } else {
                PollStep::Wait
            },
    {
        if finished {
            PollStep::Done
        } else if elapsed_seconds >= max_wait {
            PollStep::TimedOut
        } else {
            PollStep::Wait
        }
    }

    /// The error of a vector store that did not become ready in time
    pub fn store_not_ready_error(vector_store_id: &str, max_wait: u64) -> (r: OpenAIError)
        ensures
            r is Timeout && r->Timeout_0@ == "Vector store "@ + vector_store_id@
                + " did not become ready within "@ + decimal(max_wait as nat) + " seconds"@,
    {
        let mut m = String::from_str("Vector store ");
        m.append(vector_store_id);
        m.append(" did not become ready within ");
        let n = u64_to_string(max_wait);
        m.append(n.as_str());
        m.append(" seconds");
        OpenAIError::Timeout(m)
    }

    /// The error of a file batch that did not complete in time
    pub fn batch_not_complete_error(batch_id: &str, max_wait: u64) -> (r: OpenAIError)
        ensures
            r is Timeout && r->Timeout_0@ == "File batch "@ + batch_id@
                + " did not complete within "@ + decimal(max_wait as nat) + " seconds"@,
    {
        let mut m = String::from_str("File batch ");
        m.append(batch_id);
        m.append(" did not complete within ");
        let n = u64_to_string(max_wait);
        m.append(n.as_str());
        m.append(" seconds");
        OpenAIError::Timeout(m)
    }

    /// Whether a vector store exists, from the result of retrieving it: a store that
    /// was retrieved exists, a 404 answer means it does not, and any other error is
    /// passed on
    pub fn exists_from_result<T>(result: Result<T>) -> (r: Result<bool>)
        ensures
            match result {
                Ok(_) => r == Ok::<bool, OpenAIError>(true),
                Err(OpenAIError::ApiError { status, message }) => if status == 404 {
                    r == Ok::<bool, OpenAIError>(false)
                } else {
                    r == Err::<bool, OpenAIError>(OpenAIError::ApiError { status, message })
                },
                Err(e) => r == Err::<bool, OpenAIError>(e),
            },
    {
        match result {
            Ok(_) => Ok(true),
            Err(OpenAIError::ApiError { status: 404, .. }) => Ok(false),
            Err(e) => Err(e),
        }
    }

    /// Usage statistics of a list of vector stores, as (name, value) pairs
    pub fn usage_statistics(stores: &[VectorStoreUsage]) -> (r: Vec<(String, String)>)
        requires
            sum_of(stores@, |u: VectorStoreUsage| usage_of(u)) <= u64::MAX,
            sum_of(stores@, |u: VectorStoreUsage| total_files_of(u)) <= u32::MAX,
            sum_of(stores@, |u: VectorStoreUsage| completed_files_of(u)) <= u32::MAX,
            sum_of(stores@, |u: VectorStoreUsage| failed_files_of(u)) <= u32::MAX,
        ensures
            pairs_view(r@) == usage_statistics_of(stores@),
    {
        let ghost s = stores@;
        let ghost fu = |u: VectorStoreUsage| usage_of(u);
        let ghost fr = |u: VectorStoreUsage| ready_of(u);
        let ghost fp = |u: VectorStoreUsage| processing_of(u);
        let ghost ft = |u: VectorStoreUsage| total_files_of(u);
        let ghost fc = |u: VectorStoreUsage| completed_files_of(u);
        let ghost ff = |u: VectorStoreUsage| failed_files_of(u);
        let mut usage: u64 = 0;
        let mut ready: u64 = 0;
        let mut processing: u64 = 0;
        let mut total_files: u32 = 0;
        let mut completed_files: u32 = 0;
        let mut failed_files: u32 = 0;
        let mut i: usize = 0;
        proof {
            lemma_count_bounded(s, fr);
            lemma_count_bounded(s, fp);
        }
        while i < stores.len()
            invariant
                i <= s.len(),
                s == stores@,
                fu == (|u: VectorStoreUsage| usage_of(u)),
                fr == (|u: VectorStoreUsage| ready_of(u)),
                fp == (|u: VectorStoreUsage| processing_of(u)),
                ft == (|u: VectorStoreUsage| total_files_of(u)),
                fc == (|u: VectorStoreUsage| completed_files_of(u)),
                ff == (|u: VectorStoreUsage| failed_files_of(u)),
                sum_of(s, fu) <= u64::MAX,
                sum_of(s, ft) <= u32::MAX,
                sum_of(s, fc) <= u32::MAX,
                sum_of(s, ff) <= u32::MAX,
                usage == sum_of(s.take(i as int), fu),
                ready == sum_of(s.take(i as int), fr),
                processing == sum_of(s.take(i as int), fp),
                total_files == sum_of(s.take(i as int), ft),
                completed_files == sum_of(s.take(i as int), fc),
                failed_files == sum_of(s.take(i as int), ff),
                ready <= i,
                processing <= i,
            decreases stores.len() - i,
        {
            let u = stores[i];
            proof {
                lemma_sum_step(s, i as int, fu);
                lemma_sum_step(s, i as int, fr);
                lemma_sum_step(s, i as int, fp);
                lemma_sum_step(s, i as int, ft);
                lemma_sum_step(s, i as int, fc);
                lemma_sum_step(s, i as int, ff);
                lemma_sum_monotone(s, i + 1, fu);
                lemma_sum_monotone(s, i + 1, ft);
                lemma_sum_monotone(s, i + 1, fc);
                lemma_sum_monotone(s, i + 1, ff);
            }
            usage = usage + u.usage_bytes;
            if u.ready {
                ready = ready + 1;
            }
            if u.processing {
                processing = processing + 1;
            }
            total_files = total_files + u.total_files;
            completed_files = completed_files + u.completed_files;
            failed_files = failed_files + u.failed_files;
            i += 1;
        }
        proof {
            assert(s.take(i as int) =~= s);
        }
        let mut stats: Vec<(String, String)> = Vec::new();
        stats.push((String::from_str("total_stores"), u64_to_string(stores.len() as u64)));
        stats.push((String::from_str("total_usage_bytes"), u64_to_string(usage)));
        stats.push((String::from_str("ready_stores"), u64_to_string(ready)));
        stats.push((String::from_str("processing_stores"), u64_to_string(processing)));
        if stores.len() > 0 {
            let average = usage / (stores.len() as u64);
            stats.push((String::from_str("average_usage_bytes"), u64_to_string(average)));
        }
        stats.push((String::from_str("total_files"), u64_to_string(total_files as u64)));
        stats.push((String::from_str("completed_files"), u64_to_string(completed_files as u64)));
        stats.push((String::from_str("failed_files"), u64_to_string(failed_files as u64)));
        proof {
            assert(pairs_view(stats@) =~= usage_statistics_of(s));
        }
        stats
    }
}

} // verus!
