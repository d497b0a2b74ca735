//! Vector stores API endpoints

use vstd::prelude::*;

verus! {

/// Base vector stores endpoint
pub const BASE: &'static str = "/v1/vector_stores";

/// Get specific vector store by ID
pub fn by_id(id: &str) -> (r: String)
    ensures
        r@ == BASE@ + "/"@ + id@,
{
    let mut r = String::from_str(BASE);
    r.append("/");
    r.append(id);
    r
}

/// Vector store files endpoint
pub fn files(vector_store_id: &str) -> (r: String)
    ensures
        r@ == BASE@ + "/"@ + vector_store_id@ + "/files"@,
{
    let mut r = String::from_str(BASE);
    r.append("/");
    r.append(vector_store_id);
    r.append("/files");
    r
}

/// Specific vector store file by ID
pub fn file_by_id(vector_store_id: &str, file_id: &str) -> (r: String)
    ensures
        r@ == BASE@ + "/"@ + vector_store_id@ + "/files/"@ + file_id@,
{
    let mut r = String::from_str(BASE);
    r.append("/");
    r.append(vector_store_id);
    r.append("/files/");
    r.append(file_id);
    r
}

/// Vector store file batches endpoint
pub fn file_batches(vector_store_id: &str) -> (r: String)
    ensures
        r@ == BASE@ + "/"@ + vector_store_id@ + "/file_batches"@,
{
    let mut r = String::from_str(BASE);
    r.append("/");
    r.append(vector_store_id);
    r.append("/file_batches");
    r
}

/// Specific vector store file batch by ID
pub fn file_batch_by_id(vector_store_id: &str, batch_id: &str) -> (r: String)
    ensures
        r@ == BASE@ + "/"@ + vector_store_id@ + "/file_batches/"@ + batch_id@,
{
    let mut r = String::from_str(BASE);
    r.append("/");
    r.append(vector_store_id);
    r.append("/file_batches/");
    r.append(batch_id);
    r
}

/// Cancel vector store file batch
pub fn cancel_file_batch(vector_store_id: &str, batch_id: &str) -> (r: String)
    ensures
        r@ == BASE@ + "/"@ + vector_store_id@ + "/file_batches/"@ + batch_id@ + "/cancel"@,
{
    let mut r = String::from_str(BASE);
    r.append("/");
    r.append(vector_store_id);
    r.append("/file_batches/");
    r.append(batch_id);
    r.append("/cancel");
    r
}

/// Vector store file batch files endpoint
pub fn file_batch_files(vector_store_id: &str, batch_id: &str) -> (r: String)
    ensures
        r@ == BASE@ + "/"@ + vector_store_id@ + "/file_batches/"@ + batch_id@ + "/files"@,
{
    let mut r = String::from_str(BASE);
    r.append("/");
    r.append(vector_store_id);
    r.append("/file_batches/");
    r.append(batch_id);
    r.append("/files");
    r
}

} // verus!
