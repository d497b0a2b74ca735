//! # Vector Stores Models
//!
//! Requests that attach files to vector stores, the chunking strategies they may
//! ask for, and the parameters of vector store and vector store file listings.

use vstd::prelude::*;
use crate::text::{decimal, lemma_push_opt_contains, opt_chars, pairs_view, push_opt, u64_to_string};

verus! {

/// How a file is split into chunks before it is embedded
#[derive(Debug, Clone, PartialEq, Eq, Structural)]
pub enum ChunkingStrategy {
    /// The API chooses the chunk size and overlap
    Auto,
    /// Fixed chunk size and overlap, in tokens
    Static {
        /// Largest chunk, in tokens
        max_chunk_size_tokens: u32,
        /// Tokens shared by consecutive chunks
        chunk_overlap_tokens: u32,
    },
}

impl ChunkingStrategy {
    /// Let the API choose how to chunk
    pub fn auto() -> (r: Self)
        ensures
            r is Auto,
    {
        ChunkingStrategy::Auto
    }

    /// Chunks of at most `max_chunk_size_tokens` tokens, overlapping by
    /// `chunk_overlap_tokens` tokens
    pub fn static_chunking(max_chunk_size_tokens: u32, chunk_overlap_tokens: u32) -> (r: Self)
        ensures
            r == (ChunkingStrategy::Static { max_chunk_size_tokens, chunk_overlap_tokens }),
    {
        ChunkingStrategy::Static { max_chunk_size_tokens, chunk_overlap_tokens }
    }
}

/// The processing status of a file in a vector store
#[derive(Debug, Clone, Copy, PartialEq, Eq, Structural)]
pub enum VectorStoreFileStatus {
    /// Still being processed
    InProgress,
    /// Ready for use
    Completed,
    /// Processing was cancelled
    Cancelled,
    /// Processing failed
    Failed,
}

/// The name of a file status on the wire
pub open spec fn file_status_str(s: VectorStoreFileStatus) -> Seq<char> {
    match s {
        VectorStoreFileStatus::InProgress => "in_progress"@,
        VectorStoreFileStatus::Completed => "completed"@,
        VectorStoreFileStatus::Cancelled => "cancelled"@,
        VectorStoreFileStatus::Failed => "failed"@,
    }
}

impl VectorStoreFileStatus {
    /// The status's name on the wire
    pub fn as_str(&self) -> (r: &'static str)
        ensures
            r@ == file_status_str(*self),
    {
        match self {
            VectorStoreFileStatus::InProgress => "in_progress",
            VectorStoreFileStatus::Completed => "completed",
            VectorStoreFileStatus::Cancelled => "cancelled",
            VectorStoreFileStatus::Failed => "failed",
        }
    }
}

/// A request to attach a file to a vector store
#[derive(Debug, Clone)]
pub struct VectorStoreFileRequest {
    /// The file to attach
    pub file_id: String,
    /// How to chunk the file (the API's default where absent)
    pub chunking_strategy: Option<ChunkingStrategy>,
}

impl VectorStoreFileRequest {
    /// A request for `file_id`, with the default chunking
    pub fn new(file_id: &str) -> (r: Self)
        ensures
            r.file_id@ == file_id@,
            r.chunking_strategy is None,
    {
        VectorStoreFileRequest { file_id: file_id.to_string(), chunking_strategy: None }
    }

    /// Set the chunking strategy
    pub fn with_chunking_strategy(self, strategy: ChunkingStrategy) -> (r: Self)
        ensures
            r.file_id == self.file_id,
            r.chunking_strategy == Some(strategy),
    {
        VectorStoreFileRequest { chunking_strategy: Some(strategy), ..self }
    }
}

/// Parameters of a vector store listing
#[derive(Debug, Clone)]
pub struct ListVectorStoresParams {
    /// Most vector stores to return
    pub limit: Option<u32>,
    /// Sort order by creation time ("asc" or "desc")
    pub order: Option<String>,
    /// Cursor: list after this ID
    pub after: Option<String>,
    /// Cursor: list before this ID
    pub before: Option<String>,
}

/// The query of a vector store listing: limit, order, after and before, each only
/// when set, in that order
pub open spec fn stores_query(p: ListVectorStoresParams) -> Seq<(Seq<char>, Seq<char>)> {
    let q1 = push_opt(
        Seq::empty(),
        "limit"@,
        match p.limit {
            Some(l) => Some(decimal(l as nat)),
            None => None,
        },
    );
    let q2 = push_opt(q1, "order"@, opt_chars(p.order));
    let q3 = push_opt(q2, "after"@, opt_chars(p.after));
    push_opt(q3, "before"@, opt_chars(p.before))
}

impl ListVectorStoresParams {
    /// Parameters with nothing set
    pub fn new() -> (r: Self)
        ensures
            r.limit is None,
            r.order is None,
            r.after is None,
            r.before is None,
    {
        ListVectorStoresParams { limit: None, order: None, after: None, before: None }
    }

    /// Set the most vector stores to return
    pub fn with_limit(self, limit: u32) -> (r: Self)
        ensures
            r == (ListVectorStoresParams { limit: Some(limit), ..self }),
    {
        ListVectorStoresParams { limit: Some(limit), ..self }
    }

    /// Set the sort order
    pub fn with_order(self, order: &str) -> (r: Self)
        ensures
            r == (ListVectorStoresParams { order: r.order, ..self }),
            opt_chars(r.order) == Some(order@),
    {
        ListVectorStoresParams { order: Some(order.to_string()), ..self }
    }

    /// Set the cursor after which to list
    pub fn with_after(self, after: &str) -> (r: Self)
        ensures
            r == (ListVectorStoresParams { after: r.after, ..self }),
            opt_chars(r.after) == Some(after@),
    {
        ListVectorStoresParams { after: Some(after.to_string()), ..self }
    }

    /// Set the cursor before which to list
    pub fn with_before(self, before: &str) -> (r: Self)
        ensures
            r == (ListVectorStoresParams { before: r.before, ..self }),
            opt_chars(r.before) == Some(before@),
    {
        ListVectorStoresParams { before: Some(before.to_string()), ..self }
    }

    /// The query parameters of the listing
    pub fn to_query_params(&self) -> (r: Vec<(String, String)>)
        ensures
            pairs_view(r@) == stores_query(*self),
    {
        let mut params: Vec<(String, String)> = Vec::new();
        if let Some(limit) = self.limit {
            params.push((String::from_str("limit"), u64_to_string(limit as u64)));
        }
        if let Some(order) = &self.order {
            params.push((String::from_str("order"), order.clone()));
        }
        if let Some(after) = &self.after {
            params.push((String::from_str("after"), after.clone()));
        }
        if let Some(before) = &self.before {
            params.push((String::from_str("before"), before.clone()));
        }
        proof {
            assert(pairs_view(params@) =~= stores_query(*self));
        }
        params
    }
}

/// Parameters of a listing of the files in a vector store
#[derive(Debug, Clone)]
pub struct ListVectorStoreFilesParams {
    /// Most files to return
    pub limit: Option<u32>,
    /// Sort order by creation time ("asc" or "desc")
    pub order: Option<String>,
    /// Cursor: list after this ID
    pub after: Option<String>,
    /// Cursor: list before this ID
    pub before: Option<String>,
    /// Only files with this status
    pub filter: Option<VectorStoreFileStatus>,
}

/// The query of a vector store file listing: limit, order, after, before and
/// filter, each only when set, in that order
pub open spec fn store_files_query(p: ListVectorStoreFilesParams) -> Seq<(Seq<char>, Seq<char>)> {
    let q = stores_query(ListVectorStoresParams { limit: p.limit, order: p.order, after: p.after, before: p.before });
    push_opt(
        q,
        "filter"@,
        match p.filter {
            Some(f) => Some(file_status_str(f)),
            None => None,
        },
    )
}

impl ListVectorStoreFilesParams {
    /// Parameters with nothing set
    pub fn new() -> (r: Self)
        ensures
            r.limit is None,
            r.order is None,
            r.after is None,
            r.before is None,
            r.filter is None,
    {
        ListVectorStoreFilesParams { limit: None, order: None, after: None, before: None, filter: None }
    }

    /// Set the most files to return
    pub fn with_limit(self, limit: u32) -> (r: Self)
        ensures
            r == (ListVectorStoreFilesParams { limit: Some(limit), ..self }),
    {
        ListVectorStoreFilesParams { limit: Some(limit), ..self }
    }

    /// Set the sort order
    pub fn with_order(self, order: &str) -> (r: Self)
        ensures
            r == (ListVectorStoreFilesParams { order: r.order, ..self }),
            opt_chars(r.order) == Some(order@),
    {
        ListVectorStoreFilesParams { order: Some(order.to_string()), ..self }
    }

    /// Set the cursor after which to list
    pub fn with_after(self, after: &str) -> (r: Self)
        ensures
            r == (ListVectorStoreFilesParams { after: r.after, ..self }),
            opt_chars(r.after) == Some(after@),
    {
        ListVectorStoreFilesParams { after: Some(after.to_string()), ..self }
    }

    /// Set the cursor before which to list
    pub fn with_before(self, before: &str) -> (r: Self)
        ensures
            r == (ListVectorStoreFilesParams { before: r.before, ..self }),
            opt_chars(r.before) == Some(before@),
    {
        ListVectorStoreFilesParams { before: Some(before.to_string()), ..self }
    }

    /// List only files with this status
    pub fn with_filter(self, filter: VectorStoreFileStatus) -> (r: Self)
        ensures
            r == (ListVectorStoreFilesParams { filter: Some(filter), ..self }),
    {
        ListVectorStoreFilesParams { filter: Some(filter), ..self }
    }

    /// The query parameters of the listing
    pub fn to_query_params(&self) -> (r: Vec<(String, String)>)
        ensures
            pairs_view(r@) == store_files_query(*self),
    {
        let mut params: Vec<(String, String)> = Vec::new();
        if let Some(limit) = self.limit {
            params.push((String::from_str("limit"), u64_to_string(limit as u64)));
        }
        if let Some(order) = &self.order {
            params.push((String::from_str("order"), order.clone()));
        }
        if let Some(after) = &self.after {
            params.push((String::from_str("after"), after.clone()));
        }
        if let Some(before) = &self.before {
            params.push((String::from_str("before"), before.clone()));
        }
        if let Some(filter) = self.filter {
            params.push((String::from_str("filter"), String::from_str(filter.as_str())));
        }
        proof {
            assert(pairs_view(params@) =~= store_files_query(*self));
        }
        params
    }
}

/// Each query pair of a vector store listing carries the field its key names: the
/// pair ("after", v) is sent exactly when the `after` cursor is v, and likewise for
/// the limit, order and before fields
pub proof fn lemma_stores_query_fields(p: ListVectorStoresParams, v: Seq<char>)
    ensures
        stores_query(p).contains(("limit"@, v)) <==> (p.limit matches Some(l) && decimal(l as nat) == v),
        stores_query(p).contains(("order"@, v)) <==> opt_chars(p.order) == Some(v),
        stores_query(p).contains(("after"@, v)) <==> opt_chars(p.after) == Some(v),
        stores_query(p).contains(("before"@, v)) <==> opt_chars(p.before) == Some(v),
{
    reveal_strlit("after");
    reveal_strlit("before");
    reveal_strlit("limit");
    reveal_strlit("order");
    assert("limit"@.len() == 5 && "limit"@[0] == 'l');
    assert("order"@.len() == 5 && "order"@[0] == 'o');
    assert("after"@.len() == 5 && "after"@[0] == 'a');
    assert("before"@.len() == 6 && "before"@[0] == 'b');
    let o_limit = match p.limit { Some(l) => Some(decimal(l as nat)), None => None };
    let q0 = Seq::<(Seq<char>, Seq<char>)>::empty();
    let q1 = push_opt(q0, "limit"@, o_limit);
    let q2 = push_opt(q1, "order"@, opt_chars(p.order));
    let q3 = push_opt(q2, "after"@, opt_chars(p.after));
    let q4 = push_opt(q3, "before"@, opt_chars(p.before));
    lemma_push_opt_contains(q0, "limit"@, o_limit, ("limit"@, v));
    lemma_push_opt_contains(q1, "order"@, opt_chars(p.order), ("limit"@, v));
    lemma_push_opt_contains(q2, "after"@, opt_chars(p.after), ("limit"@, v));
    lemma_push_opt_contains(q3, "before"@, opt_chars(p.before), ("limit"@, v));
    lemma_push_opt_contains(q0, "limit"@, o_limit, ("order"@, v));
    lemma_push_opt_contains(q1, "order"@, opt_chars(p.order), ("order"@, v));
    lemma_push_opt_contains(q2, "after"@, opt_chars(p.after), ("order"@, v));
    lemma_push_opt_contains(q3, "before"@, opt_chars(p.before), ("order"@, v));
    lemma_push_opt_contains(q0, "limit"@, o_limit, ("after"@, v));
    lemma_push_opt_contains(q1, "order"@, opt_chars(p.order), ("after"@, v));
    lemma_push_opt_contains(q2, "after"@, opt_chars(p.after), ("after"@, v));
    lemma_push_opt_contains(q3, "before"@, opt_chars(p.before), ("after"@, v));
    lemma_push_opt_contains(q0, "limit"@, o_limit, ("before"@, v));
    lemma_push_opt_contains(q1, "order"@, opt_chars(p.order), ("before"@, v));
    lemma_push_opt_contains(q2, "after"@, opt_chars(p.after), ("before"@, v));
    lemma_push_opt_contains(q3, "before"@, opt_chars(p.before), ("before"@, v));
    assert(stores_query(p) == q4);
    assert(!q0.contains(("limit"@, v)));
    assert(!q0.contains(("order"@, v)));
    assert(!q0.contains(("after"@, v)));
    assert(!q0.contains(("before"@, v)));
}

/// Each query pair of a vector store file listing carries the field its key names:
/// the pair ("filter", v) is sent exactly when the status filter is named v, and
/// likewise for the limit, order, after and before fields
pub proof fn lemma_store_files_query_fields(p: ListVectorStoreFilesParams, v: Seq<char>)
    ensures
        store_files_query(p).contains(("limit"@, v)) <==> (p.limit matches Some(l) && decimal(l as nat) == v),
        store_files_query(p).contains(("order"@, v)) <==> opt_chars(p.order) == Some(v),
        store_files_query(p).contains(("after"@, v)) <==> opt_chars(p.after) == Some(v),
        store_files_query(p).contains(("before"@, v)) <==> opt_chars(p.before) == Some(v),
        store_files_query(p).contains(("filter"@, v)) <==> (p.filter matches Some(f) && file_status_str(f) == v),
{
    reveal_strlit("after");
    reveal_strlit("before");
    reveal_strlit("filter");
    reveal_strlit("limit");
    reveal_strlit("order");
    assert("limit"@.len() == 5 && "limit"@[0] == 'l');
    assert("order"@.len() == 5 && "order"@[0] == 'o');
    assert("after"@.len() == 5 && "after"@[0] == 'a');
    assert("before"@.len() == 6 && "before"@[0] == 'b');
    assert("filter"@.len() == 6 && "filter"@[0] == 'f');
    let o_limit = match p.limit { Some(l) => Some(decimal(l as nat)), None => None };
    let o_filter = match p.filter { Some(f) => Some(file_status_str(f)), None => None };
    let q0 = Seq::<(Seq<char>, Seq<char>)>::empty();
    let q1 = push_opt(q0, "limit"@, o_limit);
    let q2 = push_opt(q1, "order"@, opt_chars(p.order));
    let q3 = push_opt(q2, "after"@, opt_chars(p.after));
    let q4 = push_opt(q3, "before"@, opt_chars(p.before));
    let q5 = push_opt(q4, "filter"@, o_filter);
    lemma_push_opt_contains(q0, "limit"@, o_limit, ("limit"@, v));
    lemma_push_opt_contains(q1, "order"@, opt_chars(p.order), ("limit"@, v));
    lemma_push_opt_contains(q2, "after"@, opt_chars(p.after), ("limit"@, v));
    lemma_push_opt_contains(q3, "before"@, opt_chars(p.before), ("limit"@, v));
    lemma_push_opt_contains(q4, "filter"@, o_filter, ("limit"@, v));
    lemma_push_opt_contains(q0, "limit"@, o_limit, ("order"@, v));
    lemma_push_opt_contains(q1, "order"@, opt_chars(p.order), ("order"@, v));
    lemma_push_opt_contains(q2, "after"@, opt_chars(p.after), ("order"@, v));
    lemma_push_opt_contains(q3, "before"@, opt_chars(p.before), ("order"@, v));
    lemma_push_opt_contains(q4, "filter"@, o_filter, ("order"@, v));
    lemma_push_opt_contains(q0, "limit"@, o_limit, ("after"@, v));
    lemma_push_opt_contains(q1, "order"@, opt_chars(p.order), ("after"@, v));
    lemma_push_opt_contains(q2, "after"@, opt_chars(p.after), ("after"@, v));
    lemma_push_opt_contains(q3, "before"@, opt_chars(p.before), ("after"@, v));
    lemma_push_opt_contains(q4, "filter"@, o_filter, ("after"@, v));
    lemma_push_opt_contains(q0, "limit"@, o_limit, ("before"@, v));
    lemma_push_opt_contains(q1, "order"@, opt_chars(p.order), ("before"@, v));
    lemma_push_opt_contains(q2, "after"@, opt_chars(p.after), ("before"@, v));
    lemma_push_opt_contains(q3, "before"@, opt_chars(p.before), ("before"@, v));
    lemma_push_opt_contains(q4, "filter"@, o_filter, ("before"@, v));
    lemma_push_opt_contains(q0, "limit"@, o_limit, ("filter"@, v));
    lemma_push_opt_contains(q1, "order"@, opt_chars(p.order), ("filter"@, v));
    lemma_push_opt_contains(q2, "after"@, opt_chars(p.after), ("filter"@, v));
    lemma_push_opt_contains(q3, "before"@, opt_chars(p.before), ("filter"@, v));
    lemma_push_opt_contains(q4, "filter"@, o_filter, ("filter"@, v));
    assert(store_files_query(p) == q5);
    assert(!q0.contains(("limit"@, v)));
    assert(!q0.contains(("order"@, v)));
    assert(!q0.contains(("after"@, v)));
    assert(!q0.contains(("before"@, v)));
    assert(!q0.contains(("filter"@, v)));
}

} // verus!
